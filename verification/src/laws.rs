//! The laws the scheduler obeys, stated and proved over the transition
//! functions that the scheduler's contracts are written with.
//!
//! Each proof function here is a public statement of the library: its
//! doc comment says the law in words, its body is the proof.

use vstd::prelude::*;
use crate::job::{Job, JobResult, JobStatus};
use crate::queue::{Queue, QueueState};
use crate::scheduler::{
    started_job, rolled_back_job, completed_job, failed_job, repushed_job, cancelled_job,
    retry_due, duration_ms, running_started_at, is_best_pending, ids_distinct, has_id, idx_of_id,
    retained_pred, lemma_filter_element_of, QueueActorState,
};
use crate::job::priority_rank;

verus! {

/// The attempt budget a job must stay within: no more attempts than one
/// initial run plus max_retries, and a pending job must still have an
/// attempt left to spend.
pub open spec fn attempt_bound_ok(j: Job) -> bool {
    &&& j.attempts <= j.max_retries + 1
    &&& (j.status is Pending ==> j.attempts <= j.max_retries)
}

/// Every job in the sequence is within its attempt budget.
pub open spec fn attempts_bounded(s: Seq<Job>) -> bool {
    forall|i: int| 0 <= i < s.len() ==> attempt_bound_ok(#[trigger] s[i])
}

/// A queue that holds no jobs yet has every job within its attempt
/// budget, vacuously: the basis for the preservation arguments below.
pub proof fn lemma_fresh_queue_attempt_bound()
    ensures
        attempts_bounded(Seq::<Job>::empty()),
{
}

/// Enqueueing a fresh job (zero attempts so far) keeps every job within
/// its attempt budget.
pub proof fn lemma_enqueue_keeps_attempt_bound(s: Seq<Job>, job: Job)
    requires
        attempts_bounded(s),
        job.attempts == 0,
    ensures
        attempts_bounded(s.push(job)),
{
    assert forall|i: int| 0 <= i < s.push(job).len() implies attempt_bound_ok(
        #[trigger] s.push(job)[i],
    ) by {
        if i < s.len() {
            assert(s.push(job)[i] == s[i]);
        }
    }
}

/// Dispatching a pending job keeps every job within its attempt budget:
/// the pending job had an attempt left, and it spends it.
pub proof fn lemma_dispatch_keeps_attempt_bound(s: Seq<Job>, i: int, worker: String, now: u64)
    requires
        attempts_bounded(s),
        0 <= i < s.len(),
        s[i].status is Pending,
    ensures
        attempts_bounded(s.update(i, started_job(s[i], worker, now))),
{
}

/// Rolling a dispatch back keeps every job within its attempt budget:
/// the attempt is handed back before the job becomes pending again.
pub proof fn lemma_rollback_keeps_attempt_bound(s: Seq<Job>, i: int, now: u64)
    requires
        attempts_bounded(s),
        0 <= i < s.len(),
        s[i].status is Running,
        s[i].attempts >= 1,
    ensures
        attempts_bounded(s.update(i, rolled_back_job(s[i], now))),
{
}

/// Completion keeps every job within its attempt budget.
pub proof fn lemma_completion_keeps_attempt_bound(s: Seq<Job>, i: int, result: JobResult, now: u64)
    requires
        attempts_bounded(s),
        0 <= i < s.len(),
    ensures
        attempts_bounded(s.update(i, completed_job(s[i], result, now))),
{
}

/// A failure report keeps every job within its attempt budget, whether
/// the job goes back to the pending set or fails terminally: it goes
/// back only while its attempts have not passed max_retries.
pub proof fn lemma_failure_keeps_attempt_bound(s: Seq<Job>, i: int, error: String, now: u64)
    requires
        attempts_bounded(s),
        0 <= i < s.len(),
    ensures
        retry_due(s[i]) ==> attempts_bounded(s.update(i, repushed_job(s[i], now))),
        !retry_due(s[i]) ==> attempts_bounded(s.update(i, failed_job(s[i], error, now))),
{
}

/// Cancellation keeps every job within its attempt budget.
pub proof fn lemma_cancel_keeps_attempt_bound(s: Seq<Job>, i: int, reason: Option<String>, now: u64)
    requires
        attempts_bounded(s),
        0 <= i < s.len(),
    ensures
        attempts_bounded(s.update(i, cancelled_job(s[i], reason, now))),
{
}

/// A manual retry keeps every job within its attempt budget, provided
/// the job still has an attempt left to spend. A job that already spent
/// its whole budget, retried by hand with its attempt counter preserved,
/// is the one state this bound does not survive.
pub proof fn lemma_retry_keeps_attempt_bound(s: Seq<Job>, i: int, now: u64)
    requires
        attempts_bounded(s),
        0 <= i < s.len(),
        s[i].attempts <= s[i].max_retries,
    ensures
        attempts_bounded(s.update(i, repushed_job(s[i], now))),
{
}

/// Housekeeping eviction keeps every job within its attempt budget.
pub proof fn lemma_tick_keeps_attempt_bound(s: Seq<Job>, now: u64, retention_ms: u64)
    requires
        attempts_bounded(s),
    ensures
        attempts_bounded(s.filter(retained_pred(now, retention_ms))),
{
    let fl = s.filter(retained_pred(now, retention_ms));
    assert forall|k: int| 0 <= k < fl.len() implies attempt_bound_ok(#[trigger] fl[k]) by {
        lemma_filter_element_of(s, retained_pred(now, retention_ms), k);
    }
}

/// At any observation of a well-formed queue, the number of running jobs
/// is at most the configured concurrency, and the running counter of the
/// statistics record says exactly that number.
pub proof fn lemma_running_within_concurrency(q: QueueActorState)
    requires
        q.wf(),
    ensures
        q.running_count() <= q.queue.config.concurrency,
        q.queue.stats.running == q.running_count(),
        q.queue.stats.running <= q.queue.config.concurrency,
{
}

/// Priority ordering of dispatch: while a higher-priority job is
/// pending, a lower-priority pending job is never the dispatch choice.
/// With dispatch picking only the best pending index, the
/// higher-priority job starts first.
pub proof fn lemma_higher_priority_dispatches_first(s: Seq<Job>, a: int, b: int)
    requires
        0 <= a < s.len(),
        0 <= b < s.len(),
        s[a].status is Pending,
        s[b].status is Pending,
        priority_rank(s[a].priority) > priority_rank(s[b].priority),
    ensures
        !is_best_pending(s, b),
{
}

/// The dispatch choice carries the highest priority among the pending
/// jobs: nothing pending outranks it.
pub proof fn lemma_dispatched_has_highest_priority(s: Seq<Job>, i: int)
    requires
        is_best_pending(s, i),
    ensures
        forall|k: int|
            0 <= k < s.len() && (#[trigger] s[k]).status is Pending ==> priority_rank(
                s[i].priority,
            ) >= priority_rank(s[k].priority),
{
}

/// Every job a well-formed queue holds is in exactly one of the pending
/// set, the running set, or a terminal state: the sets are the statuses,
/// and the queue-level Paused pseudo-state never appears on a job.
pub proof fn lemma_job_in_exactly_one_set(q: QueueActorState, i: int)
    requires
        q.wf(),
        0 <= i < q.jobs@.len(),
    ensures
        ({
            let st = q.jobs@[i].status;
            let terminal = st is Completed || st is Failed || st is Cancelled;
            &&& (st is Pending || st is Running || terminal)
            &&& !(st is Pending && st is Running)
            &&& !(st is Pending && terminal)
            &&& !(st is Running && terminal)
        }),
{
}

/// For a job dispatched at `t1` and completed at `t2`, the duration the
/// JobCompleted event reports is exactly the completion time minus the
/// dispatch time, and those are the timestamps its terminal record
/// carries.
pub proof fn lemma_start_to_completion_duration(
    s: Seq<Job>,
    i: int,
    worker: String,
    t1: u64,
    result: JobResult,
    t2: u64,
)
    requires
        0 <= i < s.len(),
        t1 <= t2,
    ensures
        ({
            let s1 = s.update(i, started_job(s[i], worker, t1));
            let done = completed_job(s1[i], result, t2);
            &&& duration_ms(running_started_at(s1[i].status), t2) == t2 - t1
            &&& done.status == (JobStatus::Completed {
                started_at: t1,
                completed_at: t2,
                result: result,
            })
        }),
{
}

/// A retried job keeps its identity: ID, payload, job type, and the
/// attempt counter are all preserved (not reset), and its status is
/// Pending again.
pub proof fn lemma_retry_preserves_identity(j: Job, now: u64)
    ensures
        repushed_job(j, now).id == j.id,
        repushed_job(j, now).payload == j.payload,
        repushed_job(j, now).job_type == j.job_type,
        repushed_job(j, now).attempts == j.attempts,
        repushed_job(j, now).status is Pending,
{
}

/// Once a completion is recorded for a job, the job is no longer in the
/// running set, so a repeated completion report for the same ID finds
/// nothing to do: only the first report is honored.
pub proof fn lemma_repeated_completion_is_noop(s: Seq<Job>, i: int, result: JobResult, now: u64)
    requires
        ids_distinct(s),
        0 <= i < s.len(),
    ensures
        ({
            let s1 = s.update(i, completed_job(s[i], result, now));
            !(has_id(s1, s[i].id) && s1[idx_of_id(s1, s[i].id)].status is Running)
        }),
{
    let s1 = s.update(i, completed_job(s[i], result, now));
    if has_id(s1, s[i].id) {
        let k = idx_of_id(s1, s[i].id);
        assert(0 <= k < s1.len() && s1[k].id == s[i].id);
        if k != i {
            assert(s1[k] == s[k]);
        }
    }
}

/// Recording a job-level transition replaces only the statistics of the
/// queue record: its state is untouched. Together with the dispatch
/// contract — a paused queue dispatches nothing — this is the pause
/// window: from a Pause until a Resume, no job starts, whatever else
/// the queue records in between.
pub proof fn lemma_job_transitions_preserve_queue_state(q: Queue, st: crate::queue::QueueStats)
    ensures
        (Queue { stats: st, ..q }).state == q.state,
{
}

/// Pausing an already-paused queue changes nothing beyond what pausing
/// it once at the same moment would: the pause transition is idempotent.
pub proof fn lemma_pause_idempotent(q: Queue, t1: u64, t2: u64)
    ensures
        (Queue {
            state: QueueState::Paused,
            updated_at: t2,
            ..(Queue { state: QueueState::Paused, updated_at: t1, ..q })
        }) == (Queue { state: QueueState::Paused, updated_at: t2, ..q }),
{
}

/// Resuming an already-running queue changes nothing beyond what
/// resuming it once at the same moment would: the resume transition is
/// idempotent.
pub proof fn lemma_resume_idempotent(q: Queue, t1: u64, t2: u64)
    ensures
        (Queue {
            state: QueueState::Running,
            updated_at: t2,
            ..(Queue { state: QueueState::Running, updated_at: t1, ..q })
        }) == (Queue { state: QueueState::Running, updated_at: t2, ..q }),
{
}

} // verus!
