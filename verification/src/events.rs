//! Event types for real-time updates.
//!
//! Every scheduler transition reports the events it emits as plain values;
//! broadcasting them to subscribers happens outside the library.

use vstd::prelude::*;
use crate::ids::{JobId, QueueId};
use crate::job::{Job, JobStatus};
use crate::queue::{Queue, QueueState, QueueStats};

verus! {

/// Events emitted by the job queue system for real-time updates.
/// Timestamps are milliseconds since the Unix epoch.
#[derive(Clone, PartialEq, Eq, Debug)]
pub enum JobEvent {
    /// A new queue was created.
    QueueCreated { queue: Queue, timestamp: u64 },
    /// A queue's state changed (running, paused, etc.).
    QueueStateChanged {
        queue_id: QueueId,
        old_state: QueueState,
        new_state: QueueState,
        timestamp: u64,
    },
    /// A queue's statistics were updated.
    QueueStatsUpdated { queue_id: QueueId, stats: QueueStats, timestamp: u64 },
    /// A queue was deleted.
    QueueDeleted { queue_id: QueueId, timestamp: u64 },
    /// A new job was enqueued.
    JobEnqueued { job: Job, timestamp: u64 },
    /// A job started executing.
    JobStarted { job_id: JobId, queue_id: QueueId, worker_id: String, timestamp: u64 },
    /// A job completed successfully.
    JobCompleted { job_id: JobId, queue_id: QueueId, duration_ms: u64, timestamp: u64 },
    /// A job failed.
    JobFailed {
        job_id: JobId,
        queue_id: QueueId,
        error: String,
        attempts: u32,
        will_retry: bool,
        timestamp: u64,
    },
    /// A job's status changed.
    JobStatusChanged {
        job_id: JobId,
        queue_id: QueueId,
        old_status: JobStatus,
        new_status: JobStatus,
        timestamp: u64,
    },
    /// A job was cancelled.
    JobCancelled { job_id: JobId, queue_id: QueueId, reason: Option<String>, timestamp: u64 },
    /// A job is being retried.
    JobRetrying { job_id: JobId, queue_id: QueueId, attempt: u32, timestamp: u64 },
    /// A worker connected to a queue.
    WorkerConnected { worker_id: String, queue_id: QueueId, timestamp: u64 },
    /// A worker disconnected from a queue.
    WorkerDisconnected { worker_id: String, queue_id: QueueId, timestamp: u64 },
    /// A worker sent a heartbeat.
    WorkerHeartbeat {
        worker_id: String,
        queue_id: QueueId,
        current_job: Option<JobId>,
        timestamp: u64,
    },
}

/// The timestamp carried by an event.
pub open spec fn event_timestamp(e: JobEvent) -> u64 {
    match e {
        JobEvent::QueueCreated { timestamp, .. } => timestamp,
        JobEvent::QueueStateChanged { timestamp, .. } => timestamp,
        JobEvent::QueueStatsUpdated { timestamp, .. } => timestamp,
        JobEvent::QueueDeleted { timestamp, .. } => timestamp,
        JobEvent::JobEnqueued { timestamp, .. } => timestamp,
        JobEvent::JobStarted { timestamp, .. } => timestamp,
        JobEvent::JobCompleted { timestamp, .. } => timestamp,
        JobEvent::JobFailed { timestamp, .. } => timestamp,
        JobEvent::JobStatusChanged { timestamp, .. } => timestamp,
        JobEvent::JobCancelled { timestamp, .. } => timestamp,
        JobEvent::JobRetrying { timestamp, .. } => timestamp,
        JobEvent::WorkerConnected { timestamp, .. } => timestamp,
        JobEvent::WorkerDisconnected { timestamp, .. } => timestamp,
        JobEvent::WorkerHeartbeat { timestamp, .. } => timestamp,
    }
}

/// The queue an event concerns, if any.
pub open spec fn event_queue_id(e: JobEvent) -> Option<QueueId> {
    match e {
        JobEvent::QueueCreated { queue, .. } => Some(queue.id),
        JobEvent::QueueStateChanged { queue_id, .. } => Some(queue_id),
        JobEvent::QueueStatsUpdated { queue_id, .. } => Some(queue_id),
        JobEvent::QueueDeleted { queue_id, .. } => Some(queue_id),
        JobEvent::JobEnqueued { job, .. } => Some(job.queue_id),
        JobEvent::JobStarted { queue_id, .. } => Some(queue_id),
        JobEvent::JobCompleted { queue_id, .. } => Some(queue_id),
        JobEvent::JobFailed { queue_id, .. } => Some(queue_id),
        JobEvent::JobStatusChanged { queue_id, .. } => Some(queue_id),
        JobEvent::JobCancelled { queue_id, .. } => Some(queue_id),
        JobEvent::JobRetrying { queue_id, .. } => Some(queue_id),
        JobEvent::WorkerConnected { queue_id, .. } => Some(queue_id),
        JobEvent::WorkerDisconnected { queue_id, .. } => Some(queue_id),
        JobEvent::WorkerHeartbeat { queue_id, .. } => Some(queue_id),
    }
}

/// The job an event concerns, if any.
pub open spec fn event_job_id(e: JobEvent) -> Option<JobId> {
    match e {
        JobEvent::JobEnqueued { job, .. } => Some(job.id),
        JobEvent::JobStarted { job_id, .. } => Some(job_id),
        JobEvent::JobCompleted { job_id, .. } => Some(job_id),
        JobEvent::JobFailed { job_id, .. } => Some(job_id),
        JobEvent::JobStatusChanged { job_id, .. } => Some(job_id),
        JobEvent::JobCancelled { job_id, .. } => Some(job_id),
        JobEvent::JobRetrying { job_id, .. } => Some(job_id),
        JobEvent::WorkerHeartbeat { current_job, .. } => current_job,
        _ => None,
    }
}

impl JobEvent {
    /// Get the timestamp of the event.
    pub fn timestamp(&self) -> (r: u64)
        ensures
            r == event_timestamp(*self),
    {
        match self {
            JobEvent::QueueCreated { timestamp, .. } => *timestamp,
            JobEvent::QueueStateChanged { timestamp, .. } => *timestamp,
            JobEvent::QueueStatsUpdated { timestamp, .. } => *timestamp,
            JobEvent::QueueDeleted { timestamp, .. } => *timestamp,
            JobEvent::JobEnqueued { timestamp, .. } => *timestamp,
            JobEvent::JobStarted { timestamp, .. } => *timestamp,
            JobEvent::JobCompleted { timestamp, .. } => *timestamp,
            JobEvent::JobFailed { timestamp, .. } => *timestamp,
            JobEvent::JobStatusChanged { timestamp, .. } => *timestamp,
            JobEvent::JobCancelled { timestamp, .. } => *timestamp,
            JobEvent::JobRetrying { timestamp, .. } => *timestamp,
            JobEvent::WorkerConnected { timestamp, .. } => *timestamp,
            JobEvent::WorkerDisconnected { timestamp, .. } => *timestamp,
            JobEvent::WorkerHeartbeat { timestamp, .. } => *timestamp,
        }
    }

    /// Get the queue ID associated with this event, if any.
    pub fn queue_id(&self) -> (r: Option<QueueId>)
        ensures
            r == event_queue_id(*self),
    {
        match self {
            JobEvent::QueueCreated { queue, .. } => Some(queue.id),
            JobEvent::QueueStateChanged { queue_id, .. } => Some(*queue_id),
            JobEvent::QueueStatsUpdated { queue_id, .. } => Some(*queue_id),
            JobEvent::QueueDeleted { queue_id, .. } => Some(*queue_id),
            JobEvent::JobEnqueued { job, .. } => Some(job.queue_id),
            JobEvent::JobStarted { queue_id, .. } => Some(*queue_id),
            JobEvent::JobCompleted { queue_id, .. } => Some(*queue_id),
            JobEvent::JobFailed { queue_id, .. } => Some(*queue_id),
            JobEvent::JobStatusChanged { queue_id, .. } => Some(*queue_id),
            JobEvent::JobCancelled { queue_id, .. } => Some(*queue_id),
            JobEvent::JobRetrying { queue_id, .. } => Some(*queue_id),
            JobEvent::WorkerConnected { queue_id, .. } => Some(*queue_id),
            JobEvent::WorkerDisconnected { queue_id, .. } => Some(*queue_id),
            JobEvent::WorkerHeartbeat { queue_id, .. } => Some(*queue_id),
        }
    }

    /// Get the job ID associated with this event, if any.
    pub fn job_id(&self) -> (r: Option<JobId>)
        ensures
            r == event_job_id(*self),
    {
        match self {
            JobEvent::JobEnqueued { job, .. } => Some(job.id),
            JobEvent::JobStarted { job_id, .. } => Some(*job_id),
            JobEvent::JobCompleted { job_id, .. } => Some(*job_id),
            JobEvent::JobFailed { job_id, .. } => Some(*job_id),
            JobEvent::JobStatusChanged { job_id, .. } => Some(*job_id),
            JobEvent::JobCancelled { job_id, .. } => Some(*job_id),
            JobEvent::JobRetrying { job_id, .. } => Some(*job_id),
            JobEvent::WorkerHeartbeat { current_job, .. } => *current_job,
            _ => None,
        }
    }
}

} // verus!
