//! Scenario tests for the per-queue scheduler.

use jobqueue::errors::ActorError;
use jobqueue::events::JobEvent;
use jobqueue::history::history_record;
use jobqueue::ids::{JobId, QueueId};
use jobqueue::job::{Job, JobResult, JobStatus, Priority};
use jobqueue::queue::{Queue, QueueConfig, QueueState, QueueStats};
use jobqueue::scheduler::QueueActorState;

fn mk_queue(concurrency: u32, max_queue_size: Option<usize>) -> Queue {
    Queue {
        id: QueueId(7),
        name: "q".to_string(),
        description: None,
        state: QueueState::Running,
        config: QueueConfig {
            concurrency,
            default_timeout_secs: 300,
            default_max_retries: 3,
            max_queue_size,
            rate_limit: None,
        },
        stats: QueueStats {
            pending: 0,
            running: 0,
            completed: 0,
            failed: 0,
            avg_duration_ms: None,
            throughput_per_min: None,
        },
        created_at: 0,
        updated_at: 0,
    }
}

fn mk_job(id: u128, queue: &Queue, priority: Priority, created_at: u64, max_retries: u32) -> Job {
    Job {
        id: JobId(id),
        queue_id: queue.id,
        job_type: "echo".to_string(),
        payload: "{}".to_string(),
        priority,
        status: JobStatus::Pending,
        attempts: 0,
        max_retries,
        timeout_secs: 300,
        created_at,
        updated_at: created_at,
        tags: Vec::new(),
    }
}

fn enqueue(state: &mut QueueActorState, job: Job, now: u64) {
    state.enqueue_check(&job).expect("enqueue refused");
    state.enqueue_commit(job, now);
}

#[test]
fn priority_ordering() {
    let queue = mk_queue(1, None);
    let mut state = QueueActorState::new(queue.clone());
    enqueue(&mut state, mk_job(1, &queue, Priority::Normal, 10, 3), 10);
    enqueue(&mut state, mk_job(2, &queue, Priority::Critical, 11, 3), 11);
    enqueue(&mut state, mk_job(3, &queue, Priority::High, 12, 3), 12);

    let mut started = Vec::new();
    for t in [20u64, 30, 40] {
        let (job, _) = state.dispatch_begin("worker-1".to_string(), t).expect("job due");
        started.push(job.id);
        state
            .job_completed(job.id, JobResult::new("done".to_string()), t + 1)
            .expect("completion recorded");
    }
    assert_eq!(started, vec![JobId(2), JobId(3), JobId(1)]);
    assert!(state.dispatch_begin("worker-1".to_string(), 50).is_none());
}

#[test]
fn priority_tie_broken_by_age_then_id() {
    let queue = mk_queue(1, None);
    let mut state = QueueActorState::new(queue.clone());
    enqueue(&mut state, mk_job(5, &queue, Priority::Normal, 20, 3), 20);
    enqueue(&mut state, mk_job(9, &queue, Priority::Normal, 10, 3), 20);
    enqueue(&mut state, mk_job(4, &queue, Priority::Normal, 10, 3), 20);

    let mut started = Vec::new();
    for t in [30u64, 40, 50] {
        let (job, _) = state.dispatch_begin("w".to_string(), t).expect("job due");
        started.push(job.id);
        state
            .job_completed(job.id, JobResult::new("ok".to_string()), t + 1)
            .expect("completion recorded");
    }
    assert_eq!(started, vec![JobId(4), JobId(9), JobId(5)]);
}

#[test]
fn retry_on_failure() {
    let queue = mk_queue(1, None);
    let mut state = QueueActorState::new(queue.clone());
    enqueue(&mut state, mk_job(1, &queue, Priority::Normal, 0, 2), 0);

    // Attempts 1 and 2 fail and are retried; attempt 3 exhausts the budget.
    for attempt in 1u32..=2 {
        let (job, _) = state.dispatch_begin("w".to_string(), 10 * attempt as u64).unwrap();
        assert_eq!(job.attempts, attempt);
        let outcome = state
            .job_failed(job.id, "nope".to_string(), 10 * attempt as u64 + 1)
            .expect("failure recorded");
        assert!(outcome.will_retry);
        match outcome.failed_event {
            JobEvent::JobFailed { attempts, will_retry, ref error, .. } => {
                assert_eq!(attempts, attempt);
                assert!(will_retry);
                assert_eq!(error, "nope");
            }
            ref other => panic!("unexpected event: {:?}", other),
        }
        match outcome.retry_event.expect("retry event due") {
            JobEvent::JobRetrying { attempt: a, .. } => assert_eq!(a, attempt + 1),
            other => panic!("unexpected event: {:?}", other),
        }
    }
    let (job, _) = state.dispatch_begin("w".to_string(), 30).unwrap();
    assert_eq!(job.attempts, 3);
    let outcome = state.job_failed(job.id, "nope".to_string(), 31).unwrap();
    assert!(!outcome.will_retry);
    assert!(outcome.retry_event.is_none());
    match outcome.failed_event {
        JobEvent::JobFailed { attempts, will_retry, .. } => {
            assert_eq!(attempts, 3);
            assert!(!will_retry);
        }
        other => panic!("unexpected event: {:?}", other),
    }
    match &outcome.job.status {
        JobStatus::Failed { error, attempts, .. } => {
            assert_eq!(error, "nope");
            assert_eq!(*attempts, 3);
        }
        other => panic!("job should be failed, is {:?}", other),
    }
    let record = history_record(&outcome.job).expect("terminal job is archivable");
    assert_eq!(record.final_status, "failed");
    assert_eq!(record.attempts, 3);
    assert_eq!(record.error.as_deref(), Some("nope"));
}

#[test]
fn timeout_exhausts_single_attempt() {
    let queue = mk_queue(1, None);
    let mut state = QueueActorState::new(queue.clone());
    enqueue(&mut state, mk_job(1, &queue, Priority::Normal, 0, 0), 0);
    let (job, started_ev) = state.dispatch_begin("w".to_string(), 100).unwrap();
    match started_ev {
        JobEvent::JobStarted { job_id, .. } => assert_eq!(job_id, job.id),
        other => panic!("unexpected event: {:?}", other),
    }
    let outcome = state.job_failed(job.id, "timeout".to_string(), 1100).unwrap();
    assert!(!outcome.will_retry);
    match &outcome.job.status {
        JobStatus::Failed { error, .. } => assert_eq!(error, "timeout"),
        other => panic!("job should be failed, is {:?}", other),
    }
}

#[test]
fn pause_gates_dispatch() {
    let queue = mk_queue(2, None);
    let mut state = QueueActorState::new(queue.clone());
    for n in 1..=5u128 {
        enqueue(&mut state, mk_job(n, &queue, Priority::Normal, n as u64, 3), n as u64);
    }
    let ev = state.pause(50).expect("pause applies");
    match ev {
        JobEvent::QueueStateChanged { old_state, new_state, .. } => {
            assert_eq!(old_state, QueueState::Running);
            assert_eq!(new_state, QueueState::Paused);
        }
        other => panic!("unexpected event: {:?}", other),
    }
    assert!(state.dispatch_begin("w1".to_string(), 51).is_none());
    assert!(state.dispatch_begin("w2".to_string(), 52).is_none());

    state.resume(60).expect("resume applies");
    assert!(state.dispatch_begin("w1".to_string(), 61).is_some());
    assert!(state.dispatch_begin("w2".to_string(), 62).is_some());
    // Two running fills the concurrency; the other three must wait.
    assert!(state.dispatch_begin("w1".to_string(), 63).is_none());
}

#[test]
fn cancel_running_drops_late_report() {
    let queue = mk_queue(1, None);
    let mut state = QueueActorState::new(queue.clone());
    enqueue(&mut state, mk_job(1, &queue, Priority::Normal, 0, 3), 0);
    let (job, _) = state.dispatch_begin("w".to_string(), 10).unwrap();

    let (cancelled, ev) = state
        .cancel_job(job.id, Some("operator".to_string()), 1000)
        .expect("cancel succeeds");
    match ev {
        JobEvent::JobCancelled { job_id, reason, .. } => {
            assert_eq!(job_id, job.id);
            assert_eq!(reason.as_deref(), Some("operator"));
        }
        other => panic!("unexpected event: {:?}", other),
    }
    assert!(matches!(cancelled.status, JobStatus::Cancelled { .. }));
    assert_eq!(state.get_stats().running, 0);

    // The handler finishes at five seconds; its report finds nothing.
    assert!(state
        .job_completed(job.id, JobResult::new("late".to_string()), 5000)
        .is_none());
    assert!(state.job_failed(job.id, "late".to_string(), 5000).is_none());
    match &state.get_job(job.id).unwrap().status {
        JobStatus::Cancelled { .. } => {}
        other => panic!("job should stay cancelled, is {:?}", other),
    }
}

#[test]
fn concurrency_cap_holds() {
    let queue = mk_queue(3, None);
    let mut state = QueueActorState::new(queue.clone());
    for n in 1..=10u128 {
        enqueue(&mut state, mk_job(n, &queue, Priority::Normal, n as u64, 3), n as u64);
    }
    let mut completed = 0u32;
    let mut t = 100u64;
    while completed < 10 {
        let mut batch = Vec::new();
        while let Some((job, _)) = state.dispatch_begin("w".to_string(), t) {
            batch.push(job);
            assert!(state.get_stats().running <= 3);
            t += 1;
        }
        assert!(batch.len() <= 3);
        assert!(!batch.is_empty());
        for job in batch {
            state
                .job_completed(job.id, JobResult::new("done".to_string()), t)
                .expect("completion recorded");
            completed += 1;
            t += 1;
        }
    }
    assert_eq!(state.get_stats().completed, 10);
    assert_eq!(state.get_stats().pending, 0);
    assert_eq!(state.get_stats().running, 0);
}

#[test]
fn completion_duration_and_events() {
    let queue = mk_queue(1, None);
    let mut state = QueueActorState::new(queue.clone());
    enqueue(&mut state, mk_job(1, &queue, Priority::Normal, 0, 3), 0);
    let (job, _) = state.dispatch_begin("w".to_string(), 1000).unwrap();
    let (done, ev) = state
        .job_completed(job.id, JobResult::new("fine".to_string()), 1750)
        .unwrap();
    match ev {
        JobEvent::JobCompleted { duration_ms, timestamp, .. } => {
            assert_eq!(duration_ms, 750);
            assert_eq!(timestamp, 1750);
        }
        other => panic!("unexpected event: {:?}", other),
    }
    match &done.status {
        JobStatus::Completed { started_at, completed_at, result } => {
            assert_eq!(*started_at, 1000);
            assert_eq!(*completed_at, 1750);
            assert_eq!(result.summary, "fine");
        }
        other => panic!("job should be completed, is {:?}", other),
    }
    let record = history_record(&done).expect("terminal job is archivable");
    assert_eq!(record.final_status, "completed");
    assert_eq!(record.duration_ms, Some(750));
    assert_eq!(record.result_summary.as_deref(), Some("fine"));
}

#[test]
fn repeated_completion_is_noop() {
    let queue = mk_queue(1, None);
    let mut state = QueueActorState::new(queue.clone());
    enqueue(&mut state, mk_job(1, &queue, Priority::Normal, 0, 3), 0);
    let (job, _) = state.dispatch_begin("w".to_string(), 10).unwrap();
    assert!(state
        .job_completed(job.id, JobResult::new("first".to_string()), 20)
        .is_some());
    assert!(state
        .job_completed(job.id, JobResult::new("second".to_string()), 30)
        .is_none());
    match &state.get_job(job.id).unwrap().status {
        JobStatus::Completed { completed_at, result, .. } => {
            assert_eq!(*completed_at, 20);
            assert_eq!(result.summary, "first");
        }
        other => panic!("first completion should stand, job is {:?}", other),
    }
    assert_eq!(state.get_stats().completed, 1);
}

#[test]
fn retry_preserves_identity() {
    let queue = mk_queue(1, None);
    let mut state = QueueActorState::new(queue.clone());
    let mut job = mk_job(1, &queue, Priority::High, 0, 0);
    job.payload = "{\"n\":42}".to_string();
    job.job_type = "crunch".to_string();
    enqueue(&mut state, job, 0);
    let (running, _) = state.dispatch_begin("w".to_string(), 10).unwrap();
    let outcome = state.job_failed(running.id, "boom".to_string(), 20).unwrap();
    assert!(!outcome.will_retry);

    let prepared = state.retry_prepare(running.id, 30).expect("failed job is retryable");
    assert_eq!(prepared.id, JobId(1));
    assert_eq!(prepared.payload, "{\"n\":42}");
    assert_eq!(prepared.job_type, "crunch");
    assert_eq!(prepared.attempts, 1);
    assert_eq!(prepared.status, JobStatus::Pending);
    assert!(state.retry_commit(running.id, 30));
    let stored = state.get_job(running.id).unwrap();
    assert_eq!(stored.status, JobStatus::Pending);
    assert_eq!(stored.attempts, 1);
    assert_eq!(state.get_stats().pending, 1);
}

#[test]
fn retry_refused_for_live_jobs() {
    let queue = mk_queue(1, None);
    let mut state = QueueActorState::new(queue.clone());
    enqueue(&mut state, mk_job(1, &queue, Priority::Normal, 0, 3), 0);
    match state.retry_prepare(JobId(1), 10) {
        Err(ActorError::Actor(m)) => assert_eq!(m, "job cannot be retried"),
        other => panic!("pending job must not be retryable: {:?}", other),
    }
    match state.retry_prepare(JobId(99), 10) {
        Err(ActorError::JobNotFound(_)) => {}
        other => panic!("unknown job must be not found: {:?}", other),
    }
    assert!(!state.retry_commit(JobId(1), 10));
}

#[test]
fn manual_retry_grants_extra_attempt() {
    // A job that exhausted its budget can still be retried by hand; its
    // attempt counter is preserved, so the next run goes one past the
    // usual bound of max_retries + 1.
    let queue = mk_queue(1, None);
    let mut state = QueueActorState::new(queue.clone());
    enqueue(&mut state, mk_job(1, &queue, Priority::Normal, 0, 0), 0);
    let (job, _) = state.dispatch_begin("w".to_string(), 10).unwrap();
    assert_eq!(job.attempts, 1);
    let outcome = state.job_failed(job.id, "boom".to_string(), 20).unwrap();
    assert!(!outcome.will_retry);

    state.retry_prepare(job.id, 30).expect("failed job is retryable");
    assert!(state.retry_commit(job.id, 30));
    let (again, _) = state.dispatch_begin("w".to_string(), 40).unwrap();
    assert_eq!(again.attempts, 2);
    let outcome = state.job_failed(again.id, "boom".to_string(), 50).unwrap();
    assert!(!outcome.will_retry);
}

#[test]
fn pause_resume_idempotent() {
    let queue = mk_queue(1, None);
    let mut state = QueueActorState::new(queue.clone());
    state.pause(10).expect("pause applies");
    assert_eq!(state.get_info().state, QueueState::Paused);
    state.pause(20).expect("pausing a paused queue is allowed");
    assert_eq!(state.get_info().state, QueueState::Paused);
    state.resume(30).expect("resume applies");
    assert_eq!(state.get_info().state, QueueState::Running);
    state.resume(40).expect("resuming a running queue is allowed");
    assert_eq!(state.get_info().state, QueueState::Running);
}

#[test]
fn enqueue_refusals() {
    let queue = mk_queue(1, Some(1));
    let mut state = QueueActorState::new(queue.clone());
    enqueue(&mut state, mk_job(1, &queue, Priority::Normal, 0, 3), 0);

    // Full: one pending job is the cap.
    match state.enqueue_check(&mk_job(2, &queue, Priority::Normal, 1, 3)) {
        Err(ActorError::QueueFull) => {}
        other => panic!("expected QueueFull, got {:?}", other),
    }

    // Duplicate ID.
    let no_cap = mk_queue(1, None);
    let mut open_state = QueueActorState::new(no_cap.clone());
    enqueue(&mut open_state, mk_job(1, &no_cap, Priority::Normal, 0, 3), 0);
    match open_state.enqueue_check(&mk_job(1, &no_cap, Priority::Normal, 1, 3)) {
        Err(ActorError::Actor(m)) => assert_eq!(m, "job id already enqueued"),
        other => panic!("expected duplicate refusal, got {:?}", other),
    }

    // Paused: not accepting.
    open_state.pause(5);
    match open_state.enqueue_check(&mk_job(2, &no_cap, Priority::Normal, 1, 3)) {
        Err(ActorError::QueuePaused) => {}
        other => panic!("expected QueuePaused, got {:?}", other),
    }
}

#[test]
fn dispatch_rollback_restores_pending() {
    let queue = mk_queue(1, None);
    let mut state = QueueActorState::new(queue.clone());
    enqueue(&mut state, mk_job(1, &queue, Priority::Normal, 0, 3), 0);
    let (job, _) = state.dispatch_begin("w".to_string(), 10).unwrap();
    assert_eq!(job.attempts, 1);
    assert!(state.dispatch_rollback(job.id, 11));
    let stored = state.get_job(job.id).unwrap();
    assert_eq!(stored.status, JobStatus::Pending);
    assert_eq!(stored.attempts, 0);
    assert_eq!(state.get_stats().pending, 1);
    assert_eq!(state.get_stats().running, 0);
    // Nothing running any more: a second rollback finds nothing.
    assert!(!state.dispatch_rollback(job.id, 12));
}

#[test]
fn tick_evicts_old_terminal_jobs() {
    let queue = mk_queue(2, None);
    let mut state = QueueActorState::new(queue.clone());
    enqueue(&mut state, mk_job(1, &queue, Priority::Normal, 0, 3), 0);
    enqueue(&mut state, mk_job(2, &queue, Priority::Normal, 1, 3), 1);
    let (job, _) = state.dispatch_begin("w".to_string(), 10).unwrap();
    state
        .job_completed(job.id, JobResult::new("done".to_string()), 20)
        .unwrap();

    // Too recent to evict.
    state.tick(30, 100);
    assert!(state.get_job(job.id).is_some());
    // Old enough now.
    state.tick(200, 100);
    assert!(state.get_job(job.id).is_none());
    // The pending job survives housekeeping.
    assert!(state.get_job(JobId(2)).is_some());
    assert_eq!(state.get_stats().pending, 1);
}

#[test]
fn list_jobs_filters_by_status() {
    let queue = mk_queue(2, None);
    let mut state = QueueActorState::new(queue.clone());
    for n in 1..=4u128 {
        enqueue(&mut state, mk_job(n, &queue, Priority::Normal, n as u64, 3), n as u64);
    }
    let (job, _) = state.dispatch_begin("w".to_string(), 10).unwrap();

    let pending = state.list_jobs(Some("pending".to_string()), 100);
    assert_eq!(pending.len(), 3);
    assert!(pending.iter().all(|j| j.status == JobStatus::Pending));
    let running = state.list_jobs(Some("running".to_string()), 100);
    assert_eq!(running.len(), 1);
    assert_eq!(running[0].id, job.id);
    let all = state.list_jobs(None, 100);
    assert_eq!(all.len(), 4);
    let capped = state.list_jobs(None, 2);
    assert_eq!(capped.len(), 2);
}

#[test]
fn rate_limit_throttles_dispatch() {
    let mut queue = mk_queue(10, None);
    queue.config.rate_limit = Some(2);
    let mut state = QueueActorState::new(queue.clone());
    for n in 1..=5u128 {
        enqueue(&mut state, mk_job(n, &queue, Priority::Normal, n as u64, 3), n as u64);
    }
    // Two successes fill the one-second window.
    assert!(state.dispatch_begin("w".to_string(), 2000).is_some());
    assert!(state.dispatch_begin("w".to_string(), 2100).is_some());
    assert!(state.dispatch_begin("w".to_string(), 2200).is_none());
    // The next window opens a fresh budget.
    assert!(state.dispatch_begin("w".to_string(), 3100).is_some());
    assert!(state.dispatch_begin("w".to_string(), 3200).is_some());
    assert!(state.dispatch_begin("w".to_string(), 3300).is_none());

    // A zero limit never dispatches.
    let mut stopped_queue = mk_queue(10, None);
    stopped_queue.config.rate_limit = Some(0);
    let mut stopped = QueueActorState::new(stopped_queue.clone());
    enqueue(&mut stopped, mk_job(1, &stopped_queue, Priority::Normal, 0, 3), 0);
    assert!(stopped.dispatch_begin("w".to_string(), 5000).is_none());
}

#[test]
fn cancel_refusals() {
    let queue = mk_queue(1, None);
    let mut state = QueueActorState::new(queue.clone());
    enqueue(&mut state, mk_job(1, &queue, Priority::Normal, 0, 3), 0);
    match state.cancel_job(JobId(9), None, 10) {
        Err(ActorError::JobNotFound(_)) => {}
        other => panic!("expected JobNotFound, got {:?}", other),
    }
    let (cancelled, _) = state.cancel_job(JobId(1), None, 10).expect("pending job cancellable");
    assert!(matches!(cancelled.status, JobStatus::Cancelled { .. }));
    match state.cancel_job(JobId(1), None, 20) {
        Err(ActorError::Actor(m)) => assert_eq!(m, "job already terminal"),
        other => panic!("expected terminal refusal, got {:?}", other),
    }
}
