//! The worker's side of the protocol: what it holds while a job runs,
//! and what it reports back to its queue for each way a run can end.
//!
//! Running the handler itself — an asynchronous call under a wall-clock
//! timeout — happens outside the library; its outcome comes back here as
//! a plain value and the report to the queue actor is decided from it.

use vstd::prelude::*;
use crate::ids::{JobId, QueueId};
use crate::job::{Job, JobResult};
use crate::events::JobEvent;

verus! {

/// How a handler invocation ended, as seen by the worker.
pub enum HandlerOutcome {
    /// The handler returned a result.
    Success(JobResult),
    /// The handler returned an error message.
    Failure(String),
    /// The wall-clock timeout elapsed before the handler finished.
    TimedOut,
    /// No handler is registered for the job's type.
    NoHandler,
}

/// What the worker reports to its queue actor for a finished run.
#[derive(Clone, PartialEq, Eq, Debug)]
pub enum WorkerReport {
    /// The job succeeded with this result.
    Completed { job_id: JobId, result: JobResult },
    /// The job failed with this error.
    Failed { job_id: JobId, error: String },
}

/// The report due for each way a run can end: success reports
/// completion; a handler error, a timeout and a missing handler all
/// report failure — a timeout under the fixed error text "timeout", a
/// missing handler naming the job type.
pub fn outcome_report(job_id: JobId, job_type: &str, outcome: HandlerOutcome) -> (r: WorkerReport)
    ensures
        match outcome {
            HandlerOutcome::Success(result) => r == (WorkerReport::Completed {
                job_id: job_id,
                result: result,
            }),
            HandlerOutcome::Failure(error) => r == (WorkerReport::Failed {
                job_id: job_id,
                error: error,
            }),
            HandlerOutcome::TimedOut => (r matches WorkerReport::Failed { job_id: id, error }
                && id == job_id && error@ == "timeout"@),
            HandlerOutcome::NoHandler => (r matches WorkerReport::Failed { job_id: id, error }
                && id == job_id && error@ == "No handler for job type: "@ + job_type@),
        },
{
    match outcome {
        HandlerOutcome::Success(result) => WorkerReport::Completed { job_id, result },
        HandlerOutcome::Failure(error) => WorkerReport::Failed { job_id, error },
        HandlerOutcome::TimedOut => WorkerReport::Failed {
            job_id,
            error: "timeout".to_owned(),
        },
        HandlerOutcome::NoHandler => WorkerReport::Failed {
            job_id,
            error: "No handler for job type: ".to_owned().concat(job_type),
        },
    }
}

/// State for the worker actor.
pub struct WorkerActorState {
    /// Unique worker ID.
    pub worker_id: String,
    /// Queue ID this worker is attached to.
    pub queue_id: QueueId,
    /// Current job being processed.
    pub current_job: Option<Job>,
    /// Whether the worker should continue running.
    pub running: bool,
}

impl WorkerActorState {
    /// Create a new worker actor state.
    pub fn new(worker_id: String, queue_id: QueueId) -> (r: WorkerActorState)
        ensures
            r.worker_id == worker_id,
            r.queue_id == queue_id,
            r.current_job is None,
            r.running == true,
    {
        WorkerActorState { worker_id, queue_id, current_job: None, running: true }
    }

    /// Check if the worker is idle.
    pub fn is_idle(&self) -> (r: bool)
        ensures
            r == (self.current_job is None),
    {
        match &self.current_job {
            None => true,
            Some(_) => false,
        }
    }

    /// Take a job on: the worker holds it for the span of one handler
    /// invocation.
    pub fn begin_job(&mut self, job: Job)
        ensures
            final(self).current_job == Some(job),
            final(self).worker_id == old(self).worker_id,
            final(self).queue_id == old(self).queue_id,
            final(self).running == old(self).running,
    {
        self.current_job = Some(job);
    }

    /// Put the current job down once its outcome is reported.
    pub fn finish_job(&mut self)
        ensures
            final(self).current_job is None,
            final(self).worker_id == old(self).worker_id,
            final(self).queue_id == old(self).queue_id,
            final(self).running == old(self).running,
    {
        self.current_job = None;
    }

    /// Stop the current job, if any: it is reported failed with the
    /// given reason behind a fixed prefix, and the worker is idle again.
    pub fn stop_job(&mut self, reason: &str) -> (r: Option<WorkerReport>)
        ensures
            final(self).current_job is None,
            final(self).worker_id == old(self).worker_id,
            final(self).queue_id == old(self).queue_id,
            final(self).running == old(self).running,
            match old(self).current_job {
                Some(job) => (r matches Some(rep) && (rep matches WorkerReport::Failed {
                    job_id,
                    error,
                } && job_id == job.id && error@ == "Stopped: "@ + reason@)),
                None => r is None,
            },
    {
        match self.current_job.take() {
            Some(job) => Some(
                WorkerReport::Failed {
                    job_id: job.id,
                    error: "Stopped: ".to_owned().concat(reason),
                },
            ),
            None => None,
        }
    }

    /// Mark the worker as shutting down.
    pub fn shut_down(&mut self)
        ensures
            final(self).running == false,
            final(self).current_job == old(self).current_job,
            final(self).worker_id == old(self).worker_id,
            final(self).queue_id == old(self).queue_id,
    {
        self.running = false;
    }

    /// The heartbeat event this worker emits: its identity, the queue of
    /// its current job if it holds one (its own queue otherwise), and
    /// the current job's ID.
    pub fn heartbeat_event(&self, now: u64) -> (r: JobEvent)
        ensures
            r == (JobEvent::WorkerHeartbeat {
                worker_id: self.worker_id,
                queue_id: (match self.current_job {
                    Some(j) => j.queue_id,
                    None => self.queue_id,
                }),
                current_job: (match self.current_job {
                    Some(j) => Some(j.id),
                    None => None::<JobId>,
                }),
                timestamp: now,
            }),
    {
        let (queue_id, current) = match &self.current_job {
            Some(j) => (j.queue_id, Some(j.id)),
            None => (self.queue_id, None),
        };
        JobEvent::WorkerHeartbeat {
            worker_id: self.worker_id.clone(),
            queue_id,
            current_job: current,
            timestamp: now,
        }
    }
}

} // verus!
