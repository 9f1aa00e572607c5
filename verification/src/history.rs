//! The archival projection: what a terminal job contributes to the
//! append-only history store.
//!
//! Writing the record and deleting the active row are repository I/O
//! outside the library; what is decided here is the record's content,
//! and that exactly the terminal statuses produce one.

use vstd::prelude::*;
use crate::job::{Job, JobResult, JobStatus, priority_name, status_name};
use crate::scheduler::{duration_ms, completed_job, failed_job, cancelled_job};
use crate::ids::ulid_text;
use crate::text::{clone_opt_string, clone_string_vec};
use crate::queue::QueueStats;

verus! {

/// Job history record for archival.
#[derive(Clone, PartialEq, Eq, Debug)]
pub struct JobHistoryCreate {
    pub job_id: String,
    pub queue_id: String,
    pub job_type: String,
    pub priority: String,
    pub final_status: String,
    pub attempts: u32,
    pub duration_ms: Option<u64>,
    pub error: Option<String>,
    pub result_summary: Option<String>,
    pub tags: Vec<String>,
    /// When the job was created (ms since the Unix epoch).
    pub created_at: u64,
}

/// The attempts figure recorded for a completed job: at least one.
pub open spec fn archived_attempts(n: u32) -> u32 {
    if n == 0 {
        1u32
    } else {
        n
    }
}

/// Build the history record for a job, if it is terminal.
///
/// Exactly the terminal statuses — Completed, Failed, Cancelled — are
/// archived. The record carries the job's identity in canonical text,
/// its duration for a completion, its error for a failure, and the
/// cancel reason for a cancellation.
pub fn history_record(job: &Job) -> (r: Option<JobHistoryCreate>)
    ensures
        match r {
            None => !(job.status is Completed || job.status is Failed || job.status is Cancelled),
            Some(h) => {
                &&& job.status is Completed || job.status is Failed || job.status is Cancelled
                &&& h.job_id@ == ulid_text(job.id.0)
                &&& h.queue_id@ == ulid_text(job.queue_id.0)
                &&& h.job_type == job.job_type
                &&& h.priority@ == priority_name(job.priority)
                &&& h.final_status@ == status_name(job.status)
                &&& h.attempts == (if job.status is Completed {
                    archived_attempts(job.attempts)
                } else {
                    job.attempts
                })
                &&& h.duration_ms == (match job.status {
                    JobStatus::Completed { started_at, completed_at, .. } => Some(
                        duration_ms(started_at, completed_at),
                    ),
                    _ => None::<u64>,
                })
                &&& h.error == (match job.status {
                    JobStatus::Failed { error, .. } => Some(error),
                    JobStatus::Cancelled { reason, .. } => reason,
                    _ => None::<String>,
                })
                &&& h.result_summary == (match job.status {
                    JobStatus::Completed { result, .. } => Some(result.summary),
                    _ => None::<String>,
                })
                &&& h.tags@ == job.tags@
                &&& h.created_at == job.created_at
            },
        },
{
    let (duration, error, summary): (Option<u64>, Option<String>, Option<String>) =
        match &job.status {
        JobStatus::Completed { started_at, completed_at, result } => {
            let d = if *completed_at >= *started_at {
                *completed_at - *started_at
            } else {
                0
            };
            (Some(d), None, Some(result.summary.clone()))
        },
        JobStatus::Failed { error, .. } => (None, Some(error.clone()), None),
        JobStatus::Cancelled { reason, .. } => (None, clone_opt_string(reason), None),
        _ => {
            return None;
        },
    };
    let attempts = match &job.status {
        JobStatus::Completed { .. } => if job.attempts == 0 {
            1
        } else {
            job.attempts
        },
        _ => job.attempts,
    };
    Some(
        JobHistoryCreate {
            job_id: job.id.text(),
            queue_id: job.queue_id.text(),
            job_type: job.job_type.clone(),
            priority: job.priority.as_str().to_owned(),
            final_status: job.status.as_str().to_owned(),
            attempts,
            duration_ms: duration,
            error,
            result_summary: summary,
            tags: clone_string_vec(&job.tags),
            created_at: job.created_at,
        },
    )
}

impl QueueStats {
    /// The statistics record derived from authoritative status counts,
    /// with no derived figures.
    pub fn from_counts(pending: u64, running: u64, completed: u64, failed: u64) -> (r: QueueStats)
        ensures
            r == (QueueStats {
                pending: pending,
                running: running,
                completed: completed,
                failed: failed,
                avg_duration_ms: None::<u64>,
                throughput_per_min: None::<u64>,
            }),
    {
        QueueStats {
            pending,
            running,
            completed,
            failed,
            avg_duration_ms: None,
            throughput_per_min: None,
        }
    }
}

/// Every transition that emits a completion, a terminal failure or a
/// cancellation leaves the job terminal — and `history_record` produces
/// a record for exactly the terminal jobs, so each such job has a
/// history record to show for it once the caller archives what the
/// transition returned.
pub proof fn lemma_terminal_transitions_are_archivable(
    j: Job,
    result: JobResult,
    error: String,
    reason: Option<String>,
    now: u64,
)
    ensures
        completed_job(j, result, now).status is Completed,
        failed_job(j, error, now).status is Failed,
        cancelled_job(j, reason, now).status is Cancelled,
{
}

} // verus!
