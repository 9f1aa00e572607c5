//! Queue domain types for job containers.

use vstd::prelude::*;
use crate::ids::QueueId;
use crate::clock::current_time_millis;
use crate::text::clone_opt_string;

verus! {

/// Current operational state of a queue.
#[derive(Clone, Copy, PartialEq, Eq, Structural, Hash, Debug)]
pub enum QueueState {
    /// Queue is active and processing jobs.
    Running,
    /// Queue is paused, no new jobs will be processed.
    Paused,
    /// Queue is draining, finishing current jobs but not accepting new ones.
    Draining,
    /// Queue is stopped and not processing.
    Stopped,
}

/// The display name of a queue state.
pub open spec fn queue_state_name(s: QueueState) -> Seq<char> {
    match s {
        QueueState::Running => "running"@,
        QueueState::Paused => "paused"@,
        QueueState::Draining => "draining"@,
        QueueState::Stopped => "stopped"@,
    }
}

impl QueueState {
    /// Get a simple state string for display.
    pub fn as_str(&self) -> (r: &'static str)
        ensures
            r@ == queue_state_name(*self),
    {
        match self {
            QueueState::Running => "running",
            QueueState::Paused => "paused",
            QueueState::Draining => "draining",
            QueueState::Stopped => "stopped",
        }
    }
}

impl Default for QueueState {
    fn default() -> (r: Self)
        ensures
            r == QueueState::Running,
    {
        QueueState::Running
    }
}

/// Configuration for queue behavior.
#[derive(Clone, Copy, PartialEq, Eq, Debug)]
pub struct QueueConfig {
    /// Number of concurrent workers for this queue (at least 1).
    pub concurrency: u32,
    /// Default timeout for jobs in this queue (seconds).
    pub default_timeout_secs: u64,
    /// Default max retries for jobs in this queue.
    pub default_max_retries: u32,
    /// Maximum number of jobs that can be queued.
    pub max_queue_size: Option<usize>,
    /// Rate limit: max jobs per second.
    pub rate_limit: Option<u64>,
}

impl QueueConfig {
    /// A configuration is well formed when it allows at least one worker.
    pub open spec fn wf(&self) -> bool {
        self.concurrency >= 1
    }
}

impl Default for QueueConfig {
    fn default() -> (r: Self)
        ensures
            r == (QueueConfig {
                concurrency: 4u32,
                default_timeout_secs: 300u64,
                default_max_retries: 3u32,
                max_queue_size: None::<usize>,
                rate_limit: None::<u64>,
            }),
    {
        QueueConfig {
            concurrency: 4,
            default_timeout_secs: 300,
            default_max_retries: 3,
            max_queue_size: None,
            rate_limit: None,
        }
    }
}

/// Statistics for a queue's current state.
#[derive(Clone, Copy, PartialEq, Eq, Debug)]
pub struct QueueStats {
    /// Number of pending jobs.
    pub pending: u64,
    /// Number of running jobs.
    pub running: u64,
    /// Number of completed jobs (since last reset).
    pub completed: u64,
    /// Number of failed jobs (since last reset).
    pub failed: u64,
    /// Average job duration in milliseconds.
    pub avg_duration_ms: Option<u64>,
    /// Jobs processed per minute.
    pub throughput_per_min: Option<u64>,
}

impl Default for QueueStats {
    fn default() -> (r: Self)
        ensures
            r == (QueueStats {
                pending: 0u64,
                running: 0u64,
                completed: 0u64,
                failed: 0u64,
                avg_duration_ms: None::<u64>,
                throughput_per_min: None::<u64>,
            }),
    {
        QueueStats {
            pending: 0,
            running: 0,
            completed: 0,
            failed: 0,
            avg_duration_ms: None,
            throughput_per_min: None,
        }
    }
}

impl QueueStats {
    /// Total jobs in queue (pending + running).
    pub fn active(&self) -> (r: u64)
        requires
            self.pending + self.running <= u64::MAX,
        ensures
            r == self.pending + self.running,
    {
        self.pending + self.running
    }

    /// Total processed jobs.
    pub fn processed(&self) -> (r: u64)
        requires
            self.completed + self.failed <= u64::MAX,
        ensures
            r == self.completed + self.failed,
    {
        self.completed + self.failed
    }

    /// Success rate as a whole-number percentage of processed jobs,
    /// or None when nothing has been processed yet.
    pub fn success_rate(&self) -> (r: Option<u64>)
        ensures
            r == (if self.completed + self.failed == 0 {
                None::<u64>
            } else {
                Some(((self.completed as int * 100) / (self.completed as int
                    + self.failed as int)) as u64)
            }),
    {
        if self.completed == 0 && self.failed == 0 {
            None
        } else {
            let total: u128 = self.completed as u128 + self.failed as u128;
            let pct: u128 = (self.completed as u128 * 100) / total;
            proof {
                assert((self.completed as int * 100) / (self.completed as int
                    + self.failed as int) <= 100) by (nonlinear_arith)
                    requires
                        self.completed >= 0,
                        self.failed >= 0,
                        self.completed as int + self.failed as int > 0,
                ;
            }
            Some(pct as u64)
        }
    }
}

/// A queue manages a set of jobs and their execution.
#[derive(Clone, PartialEq, Eq, Debug)]
pub struct Queue {
    /// Unique identifier for this queue.
    pub id: QueueId,
    /// Human-readable name for the queue.
    pub name: String,
    /// Optional description of what this queue is for.
    pub description: Option<String>,
    /// Current operational state.
    pub state: QueueState,
    /// Queue configuration.
    pub config: QueueConfig,
    /// Current statistics.
    pub stats: QueueStats,
    /// When the queue was created (ms since the Unix epoch).
    pub created_at: u64,
    /// When the queue was last updated (ms since the Unix epoch).
    pub updated_at: u64,
}

impl Queue {
    /// A value-preserving copy.
    pub fn duplicate(&self) -> (r: Queue)
        ensures
            r == *self,
    {
        Queue {
            id: self.id,
            name: self.name.clone(),
            description: clone_opt_string(&self.description),
            state: self.state,
            config: self.config,
            stats: self.stats,
            created_at: self.created_at,
            updated_at: self.updated_at,
        }
    }

    /// Create a new queue with the given name, stamped from the clock.
    pub fn new(name: String) -> (r: Queue)
        ensures
            r.name == name,
            r.description is None,
            r.state == QueueState::Running,
            r.config == (QueueConfig {
                concurrency: 4u32,
                default_timeout_secs: 300u64,
                default_max_retries: 3u32,
                max_queue_size: None::<usize>,
                rate_limit: None::<u64>,
            }),
            r.stats == (QueueStats {
                pending: 0u64,
                running: 0u64,
                completed: 0u64,
                failed: 0u64,
                avg_duration_ms: None::<u64>,
                throughput_per_min: None::<u64>,
            }),
            r.created_at == r.updated_at,
    {
        let now = current_time_millis();
        Queue {
            id: QueueId::new(),
            name,
            description: None,
            state: QueueState::Running,
            config: Default::default(),
            stats: Default::default(),
            created_at: now,
            updated_at: now,
        }
    }

    /// Set the description for this queue.
    pub fn with_description(self, description: String) -> (r: Queue)
        ensures
            r == (Queue { description: Some(description), ..self }),
    {
        Queue { description: Some(description), ..self }
    }

    /// Set the configuration for this queue.
    pub fn with_config(self, config: QueueConfig) -> (r: Queue)
        ensures
            r == (Queue { config: config, ..self }),
    {
        Queue { config, ..self }
    }

    /// Check if the queue is accepting new jobs.
    pub fn is_accepting_jobs(&self) -> (r: bool)
        ensures
            r == (self.state is Running),
    {
        match self.state {
            QueueState::Running => true,
            _ => false,
        }
    }

    /// Check if the queue is processing jobs.
    pub fn is_processing(&self) -> (r: bool)
        ensures
            r == (self.state is Running || self.state is Draining),
    {
        match self.state {
            QueueState::Running => true,
            QueueState::Draining => true,
            _ => false,
        }
    }
}

} // verus!
