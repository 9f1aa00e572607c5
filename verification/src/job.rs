//! Job domain types for work items in the queue.

use vstd::prelude::*;
use crate::ids::{JobId, QueueId};
use crate::clock::current_time_millis;
use crate::text::{str_eq, clone_string_vec, clone_opt_string};

verus! {

/// Priority level for job execution order.
#[derive(Clone, Copy, PartialEq, Eq, Structural, PartialOrd, Ord, Hash, Debug)]
pub enum Priority {
    Low,
    Normal,
    High,
    Critical,
}

/// The rank of a priority: higher ranks dispatch first.
pub open spec fn priority_rank(p: Priority) -> int {
    match p {
        Priority::Low => 0,
        Priority::Normal => 1,
        Priority::High => 2,
        Priority::Critical => 3,
    }
}

/// The display name of a priority.
pub open spec fn priority_name(p: Priority) -> Seq<char> {
    match p {
        Priority::Low => "low"@,
        Priority::Normal => "normal"@,
        Priority::High => "high"@,
        Priority::Critical => "critical"@,
    }
}

impl Priority {
    /// The rank of this priority: higher ranks dispatch first.
    pub fn rank(&self) -> (r: u8)
        ensures
            r as int == priority_rank(*self),
    {
        match self {
            Priority::Low => 0,
            Priority::Normal => 1,
            Priority::High => 2,
            Priority::Critical => 3,
        }
    }

    /// The display name of this priority.
    pub fn as_str(&self) -> (r: &'static str)
        ensures
            r@ == priority_name(*self),
    {
        match self {
            Priority::Low => "low",
            Priority::Normal => "normal",
            Priority::High => "high",
            Priority::Critical => "critical",
        }
    }

    /// The priority a request names; anything unrecognised reads as Normal.
    pub fn from_name(name: &str) -> (r: Priority)
        ensures
            r == (if name@ == "low"@ {
                Priority::Low
            } else if name@ == "high"@ {
                Priority::High
            } else if name@ == "critical"@ {
                Priority::Critical
            } else {
                Priority::Normal
            }),
    {
        if str_eq(name, "low") {
            Priority::Low
        } else if str_eq(name, "high") {
            Priority::High
        } else if str_eq(name, "critical") {
            Priority::Critical
        } else {
            Priority::Normal
        }
    }
}

/// Result of a completed job: a human-readable summary and optional
/// structured output carried as JSON text.
#[derive(Clone, PartialEq, Eq, Debug)]
pub struct JobResult {
    pub summary: String,
    pub output: Option<String>,
}

impl JobResult {
    /// A value-preserving copy.
    pub fn duplicate(&self) -> (r: JobResult)
        ensures
            r == *self,
    {
        JobResult { summary: self.summary.clone(), output: clone_opt_string(&self.output) }
    }

    pub fn new(summary: String) -> (r: JobResult)
        ensures
            r == (JobResult { summary: summary, output: None::<String> }),
    {
        JobResult { summary, output: None }
    }

    pub fn with_output(summary: String, output: String) -> (r: JobResult)
        ensures
            r == (JobResult { summary: summary, output: Some(output) }),
    {
        JobResult { summary, output: Some(output) }
    }
}

/// Current status of a job in its lifecycle.
///
/// Timestamps are milliseconds since the Unix epoch. Paused is a
/// queue-level pseudo-state: no job held by a queue ever carries it.
#[derive(Clone, PartialEq, Eq, Debug)]
pub enum JobStatus {
    /// Job is waiting to be processed.
    Pending,
    /// Job is currently being executed by a worker.
    Running { started_at: u64, worker_id: String },
    /// Job completed successfully.
    Completed { started_at: u64, completed_at: u64, result: JobResult },
    /// Job failed with an error.
    Failed { started_at: u64, failed_at: u64, error: String, attempts: u32 },
    /// Job was cancelled before completion.
    Cancelled { cancelled_at: u64, reason: Option<String> },
    /// Job is paused and won't be picked up.
    Paused,
}

/// The display name of a status.
pub open spec fn status_name(s: JobStatus) -> Seq<char> {
    match s {
        JobStatus::Pending => "pending"@,
        JobStatus::Running { .. } => "running"@,
        JobStatus::Completed { .. } => "completed"@,
        JobStatus::Failed { .. } => "failed"@,
        JobStatus::Cancelled { .. } => "cancelled"@,
        JobStatus::Paused => "paused"@,
    }
}

impl JobStatus {
    /// A value-preserving copy.
    pub fn duplicate(&self) -> (r: JobStatus)
        ensures
            r == *self,
    {
        match self {
            JobStatus::Pending => JobStatus::Pending,
            JobStatus::Running { started_at, worker_id } => JobStatus::Running {
                started_at: *started_at,
                worker_id: worker_id.clone(),
            },
            JobStatus::Completed { started_at, completed_at, result } => JobStatus::Completed {
                started_at: *started_at,
                completed_at: *completed_at,
                result: result.duplicate(),
            },
            JobStatus::Failed { started_at, failed_at, error, attempts } => JobStatus::Failed {
                started_at: *started_at,
                failed_at: *failed_at,
                error: error.clone(),
                attempts: *attempts,
            },
            JobStatus::Cancelled { cancelled_at, reason } => JobStatus::Cancelled {
                cancelled_at: *cancelled_at,
                reason: clone_opt_string(reason),
            },
            JobStatus::Paused => JobStatus::Paused,
        }
    }

    /// Check if the job is in a terminal state.
    pub fn is_terminal(&self) -> (r: bool)
        ensures
            r == (self is Completed || self is Failed || self is Cancelled),
    {
        match self {
            JobStatus::Completed { .. } => true,
            JobStatus::Failed { .. } => true,
            JobStatus::Cancelled { .. } => true,
            _ => false,
        }
    }

    /// Check if the job can be retried.
    pub fn can_retry(&self) -> (r: bool)
        ensures
            r == (self is Failed || self is Cancelled),
    {
        match self {
            JobStatus::Failed { .. } => true,
            JobStatus::Cancelled { .. } => true,
            _ => false,
        }
    }

    /// Get a simple status string for display.
    pub fn as_str(&self) -> (r: &'static str)
        ensures
            r@ == status_name(*self),
    {
        match self {
            JobStatus::Pending => "pending",
            JobStatus::Running { .. } => "running",
            JobStatus::Completed { .. } => "completed",
            JobStatus::Failed { .. } => "failed",
            JobStatus::Cancelled { .. } => "cancelled",
            JobStatus::Paused => "paused",
        }
    }
}

/// A job represents a unit of work to be executed by the queue system.
///
/// The payload is carried as JSON text: the scheduler never reads it.
#[derive(Clone, PartialEq, Eq, Debug)]
pub struct Job {
    /// Unique identifier for this job.
    pub id: JobId,
    /// The queue this job belongs to.
    pub queue_id: QueueId,
    /// Type of job (used for routing to handlers).
    pub job_type: String,
    /// Job payload as JSON text.
    pub payload: String,
    /// Execution priority.
    pub priority: Priority,
    /// Current status.
    pub status: JobStatus,
    /// Number of dispatch attempts so far.
    pub attempts: u32,
    /// Maximum number of retry attempts.
    pub max_retries: u32,
    /// Timeout in seconds for job execution.
    pub timeout_secs: u64,
    /// When the job was created (ms since the Unix epoch).
    pub created_at: u64,
    /// When the job was last updated (ms since the Unix epoch).
    pub updated_at: u64,
    /// Optional tags for filtering and grouping.
    pub tags: Vec<String>,
}

/// Whether two job records agree on every field.
///
/// The tag vectors are compared as the sequences they hold; everything
/// else is compared directly. A snapshot of a job agrees with its
/// record it was copied from in this sense.
pub open spec fn same_job(a: Job, b: Job) -> bool {
    &&& a.id == b.id
    &&& a.queue_id == b.queue_id
    &&& a.job_type == b.job_type
    &&& a.payload == b.payload
    &&& a.priority == b.priority
    &&& a.status == b.status
    &&& a.attempts == b.attempts
    &&& a.max_retries == b.max_retries
    &&& a.timeout_secs == b.timeout_secs
    &&& a.created_at == b.created_at
    &&& a.updated_at == b.updated_at
    &&& a.tags@ == b.tags@
}

impl Job {
    /// A copy that agrees with this job on every field.
    pub fn duplicate(&self) -> (r: Job)
        ensures
            same_job(r, *self),
    {
        Job {
            id: self.id,
            queue_id: self.queue_id,
            job_type: self.job_type.clone(),
            payload: self.payload.clone(),
            priority: self.priority,
            status: self.status.duplicate(),
            attempts: self.attempts,
            max_retries: self.max_retries,
            timeout_secs: self.timeout_secs,
            created_at: self.created_at,
            updated_at: self.updated_at,
            tags: clone_string_vec(&self.tags),
        }
    }

    /// Create a new pending job with a fresh ID, stamped from the clock.
    pub fn new(queue_id: QueueId, job_type: String, payload: String) -> (r: Job)
        ensures
            r.queue_id == queue_id,
            r.job_type == job_type,
            r.payload == payload,
            r.priority == Priority::Normal,
            r.status == JobStatus::Pending,
            r.attempts == 0,
            r.max_retries == 3,
            r.timeout_secs == 300,
            r.created_at == r.updated_at,
            r.tags@ == Seq::<String>::empty(),
    {
        let now = current_time_millis();
        Job {
            id: JobId::new(),
            queue_id,
            job_type,
            payload,
            priority: Priority::Normal,
            status: JobStatus::Pending,
            attempts: 0,
            max_retries: 3,
            timeout_secs: 300,
            created_at: now,
            updated_at: now,
            tags: Vec::new(),
        }
    }

    /// Set the priority for this job.
    pub fn with_priority(self, priority: Priority) -> (r: Job)
        ensures
            r == (Job { priority: priority, ..self }),
    {
        Job { priority, ..self }
    }

    /// Set the max retries for this job.
    pub fn with_max_retries(self, max_retries: u32) -> (r: Job)
        ensures
            r == (Job { max_retries: max_retries, ..self }),
    {
        Job { max_retries, ..self }
    }

    /// Set the timeout for this job.
    pub fn with_timeout(self, timeout_secs: u64) -> (r: Job)
        ensures
            r == (Job { timeout_secs: timeout_secs, ..self }),
    {
        Job { timeout_secs, ..self }
    }

    /// Add tags to this job.
    pub fn with_tags(self, tags: Vec<String>) -> (r: Job)
        ensures
            r == (Job { tags: tags, ..self }),
    {
        Job { tags, ..self }
    }
}

} // verus!
