//! A persistent, in-process job queue with actor-style concurrency.
//!
//! The library holds the verified core of the system: the job and queue
//! data model, the per-queue scheduler (priority-ordered dispatch,
//! concurrency limits, retry with bounded attempts, cancellation,
//! pause/resume), the supervisor's queue registry, the worker's outcome
//! reporting, and the projections written to durable storage. Message
//! transport, the repository backend and all other I/O live outside the
//! library and talk to it through plain values.

pub mod ids;
pub mod clock;
pub mod text;
pub mod job;
pub mod queue;
pub mod events;
pub mod errors;
pub mod scheduler;
pub mod laws;
pub mod supervisor;
pub mod worker;
pub mod persistence;
pub mod db;
pub mod history;
pub mod storage;
