//! The per-queue scheduler: the single writer for one queue's jobs.
//!
//! The actor that owns a queue keeps its whole in-memory state here and
//! drives every transition through the methods of [`QueueActorState`].
//! Each method takes the current time and returns the events to emit, so
//! the mailbox loop around it only forwards messages, persists records
//! and broadcasts events.
//!
//! Repository writes interleave with two transitions, and those are split
//! so the write can sit between the decision and the commit: enqueue
//! checks, then persists, then commits; dispatch begins, then persists,
//! and rolls back if the write failed. Everything else transitions first
//! and reports what must be persisted afterwards.

use vstd::prelude::*;
use crate::ids::JobId;
use crate::job::{Job, JobResult, JobStatus, priority_rank, same_job};
use crate::queue::{Queue, QueueState, QueueStats};
use crate::events::JobEvent;
use crate::errors::ActorError;
use crate::text::{clone_opt_string, str_eq};

verus! {

/// The number of jobs in `s` that satisfy `f`.
pub open spec fn count_matching(s: Seq<Job>, f: spec_fn(Job) -> bool) -> nat
    decreases s.len(),
{
    if s.len() == 0 {
        0nat
    } else {
        count_matching(s.drop_last(), f) + if f(s.last()) {
            1nat
        } else {
            0nat
        }
    }
}

/// Whether a job is waiting to be dispatched.
pub open spec fn pending_pred() -> spec_fn(Job) -> bool {
    |j: Job| j.status is Pending
}

/// Whether a job is assigned to a worker.
pub open spec fn running_pred() -> spec_fn(Job) -> bool {
    |j: Job| j.status is Running
}

/// No count exceeds the sequence's length.
pub proof fn lemma_count_le_len(s: Seq<Job>, f: spec_fn(Job) -> bool)
    ensures
        count_matching(s, f) <= s.len(),
    decreases s.len(),
{
    if s.len() > 0 {
        lemma_count_le_len(s.drop_last(), f);
    }
}

/// Appending one job raises the count exactly when the job matches.
pub proof fn lemma_count_push(s: Seq<Job>, f: spec_fn(Job) -> bool, j: Job)
    ensures
        count_matching(s.push(j), f) == count_matching(s, f) + if f(j) {
            1nat
        } else {
            0nat
        },
{
    assert(s.push(j).drop_last() =~= s);
    assert(s.push(j).last() == j);
}

/// Replacing one job adjusts the count by what leaves and what arrives.
pub proof fn lemma_count_update(s: Seq<Job>, f: spec_fn(Job) -> bool, i: int, j: Job)
    requires
        0 <= i < s.len(),
    ensures
        count_matching(s.update(i, j), f) == count_matching(s, f) - (if f(s[i]) {
            1int
        } else {
            0int
        }) + (if f(j) {
            1int
        } else {
            0int
        }),
    decreases s.len(),
{
    let t = s.update(i, j);
    if i == s.len() - 1 {
        assert(t.drop_last() =~= s.drop_last());
        assert(t.last() == j);
    } else {
        assert(t.drop_last() =~= s.drop_last().update(i, j));
        assert(t.last() == s.last());
        lemma_count_update(s.drop_last(), f, i, j);
    }
}

/// The dispatch order: `a` is served strictly before `b`.
/// Higher priority first; ties broken by older creation time, then by
/// smaller ID. A total order on jobs with distinct IDs.
pub open spec fn dispatch_before(a: Job, b: Job) -> bool {
    ||| priority_rank(a.priority) > priority_rank(b.priority)
    ||| (priority_rank(a.priority) == priority_rank(b.priority) && a.created_at < b.created_at)
    ||| (priority_rank(a.priority) == priority_rank(b.priority) && a.created_at == b.created_at
        && a.id.0 < b.id.0)
}

/// The dispatch order is total on jobs with distinct IDs, and strict.
pub proof fn lemma_dispatch_order_total(a: Job, b: Job)
    ensures
        a.id != b.id ==> (dispatch_before(a, b) || dispatch_before(b, a)),
        !(dispatch_before(a, b) && dispatch_before(b, a)),
{
}

/// The dispatch order is transitive.
pub proof fn lemma_dispatch_order_transitive(a: Job, b: Job, c: Job)
    requires
        dispatch_before(a, b),
        dispatch_before(b, c),
    ensures
        dispatch_before(a, c),
{
}

/// A matching element makes the count positive.
pub proof fn lemma_count_pos(s: Seq<Job>, f: spec_fn(Job) -> bool, i: int)
    requires
        0 <= i < s.len(),
        f(s[i]),
    ensures
        count_matching(s, f) >= 1,
    decreases s.len(),
{
    if i < s.len() - 1 {
        lemma_count_pos(s.drop_last(), f, i);
    }
}

/// A non-matching element keeps the count below the length.
pub proof fn lemma_count_lt_len(s: Seq<Job>, f: spec_fn(Job) -> bool, i: int)
    requires
        0 <= i < s.len(),
        !f(s[i]),
    ensures
        count_matching(s, f) < s.len(),
    decreases s.len(),
{
    if i < s.len() - 1 {
        lemma_count_lt_len(s.drop_last(), f, i);
    } else {
        lemma_count_le_len(s.drop_last(), f);
    }
}

/// A count is zero exactly when no element matches.
pub proof fn lemma_count_zero(s: Seq<Job>, f: spec_fn(Job) -> bool)
    ensures
        (count_matching(s, f) == 0) <==> (forall|i: int| 0 <= i < s.len() ==> !f(#[trigger] s[i])),
    decreases s.len(),
{
    if s.len() > 0 {
        lemma_count_zero(s.drop_last(), f);
        if count_matching(s, f) == 0 {
            assert forall|i: int| 0 <= i < s.len() implies !f(s[i]) by {
                if i < s.len() - 1 {
                    assert(s.drop_last()[i] == s[i]);
                }
            }
        }
    }
}

/// Whether `s` holds a job with the given ID.
pub open spec fn has_id(s: Seq<Job>, id: JobId) -> bool {
    exists|i: int| 0 <= i < s.len() && s[i].id == id
}

/// The index of the job with the given ID (meaningful when IDs are
/// distinct and the ID is present).
pub open spec fn idx_of_id(s: Seq<Job>, id: JobId) -> int {
    choose|i: int| 0 <= i < s.len() && s[i].id == id
}

/// Whether all jobs in `s` carry distinct IDs.
pub open spec fn ids_distinct(s: Seq<Job>) -> bool {
    forall|i: int, k: int| 0 <= i < k < s.len() ==> s[i].id != s[k].id
}

/// Index `i` holds a pending job that every other pending job yields to.
pub open spec fn is_best_pending(s: Seq<Job>, i: int) -> bool {
    &&& 0 <= i < s.len()
    &&& s[i].status is Pending
    &&& forall|k: int|
        0 <= k < s.len() && k != i && (#[trigger] s[k]).status is Pending ==> dispatch_before(
            s[i],
            s[k],
        )
}

/// With distinct IDs the best pending index is unique.
pub proof fn lemma_best_pending_unique(s: Seq<Job>, i: int, k: int)
    requires
        ids_distinct(s),
        is_best_pending(s, i),
        is_best_pending(s, k),
    ensures
        i == k,
{
    if i != k {
        assert(dispatch_before(s[i], s[k]));
        assert(dispatch_before(s[k], s[i]));
        lemma_dispatch_order_total(s[i], s[k]);
    }
}

/// The statistics record with its live counters replaced.
pub open spec fn stats_with_counts(st: QueueStats, p: u64, r: u64) -> QueueStats {
    QueueStats { pending: p, running: r, ..st }
}

/// The best pending index of `s` (meaningful when one exists).
pub open spec fn best_pending_index(s: Seq<Job>) -> int {
    choose|i: int| is_best_pending(s, i)
}

/// Incrementing an attempt counter, saturating at the type's limit.
pub open spec fn sat_inc32(x: u32) -> u32 {
    if x == u32::MAX {
        x
    } else {
        (x + 1) as u32
    }
}

/// Incrementing a statistics counter, saturating at the type's limit.
pub open spec fn sat_inc64(x: u64) -> u64 {
    if x == u64::MAX {
        x
    } else {
        (x + 1) as u64
    }
}

/// The record of a pending job once a worker takes it: one more attempt,
/// status Running with the dispatch time and the worker's identity.
pub open spec fn started_job(j: Job, worker: String, now: u64) -> Job {
    Job {
        attempts: sat_inc32(j.attempts),
        status: JobStatus::Running { started_at: now, worker_id: worker },
        updated_at: now,
        ..j
    }
}

/// A dispatched job put back after a failed repository write: status
/// Pending again, the attempt taken back.
pub open spec fn rolled_back_job(j: Job, now: u64) -> Job
    recommends
        j.attempts >= 1,
{
    Job {
        attempts: (j.attempts - 1) as u32,
        status: JobStatus::Pending,
        updated_at: now,
        ..j
    }
}

/// The dispatch timestamp carried by a Running status (zero otherwise).
pub open spec fn running_started_at(s: JobStatus) -> u64 {
    match s {
        JobStatus::Running { started_at, .. } => started_at,
        _ => 0,
    }
}

/// Elapsed milliseconds from dispatch to now; zero if the clock stepped
/// backwards in between.
pub open spec fn duration_ms(started: u64, now: u64) -> u64 {
    if now >= started {
        (now - started) as u64
    } else {
        0
    }
}

/// The record of a running job whose handler succeeded.
pub open spec fn completed_job(j: Job, result: JobResult, now: u64) -> Job {
    Job {
        status: JobStatus::Completed {
            started_at: running_started_at(j.status),
            completed_at: now,
            result,
        },
        updated_at: now,
        ..j
    }
}

/// The record of a running job whose attempts are exhausted.
pub open spec fn failed_job(j: Job, error: String, now: u64) -> Job {
    Job {
        status: JobStatus::Failed {
            started_at: running_started_at(j.status),
            failed_at: now,
            error,
            attempts: j.attempts,
        },
        updated_at: now,
        ..j
    }
}

/// The record of a failed run put back into the pending set for another
/// attempt. The attempt counter is preserved, not reset.
pub open spec fn repushed_job(j: Job, now: u64) -> Job {
    Job { status: JobStatus::Pending, updated_at: now, ..j }
}

/// Whether a failed run is retried: while the attempts completed so far
/// have not passed the retry budget of one initial run plus max_retries.
pub open spec fn retry_due(j: Job) -> bool {
    j.attempts <= j.max_retries
}

/// Filtering away only elements that `f` does not match leaves the count
/// of `f`-matching elements unchanged.
pub proof fn lemma_count_filter_keeps(s: Seq<Job>, f: spec_fn(Job) -> bool, g: spec_fn(Job) -> bool)
    requires
        forall|j: Job| #[trigger] f(j) ==> g(j),
    ensures
        count_matching(s.filter(g), f) == count_matching(s, f),
    decreases s.len(),
{
    reveal(Seq::filter);
    if s.len() > 0 {
        lemma_count_filter_keeps(s.drop_last(), f, g);
        if g(s.last()) {
            lemma_count_push(s.drop_last().filter(g), f, s.last());
        }
    }
}

/// One step of `filter`: the filtered prefix grows by the new element
/// exactly when the predicate holds of it.
pub proof fn lemma_filter_step(t: Seq<Job>, g: spec_fn(Job) -> bool)
    requires
        t.len() > 0,
    ensures
        t.filter(g) == if g(t.last()) {
            t.drop_last().filter(g).push(t.last())
        } else {
            t.drop_last().filter(g)
        },
{
    reveal(Seq::filter);
}

/// Every element of a filtered sequence stands somewhere in the unfiltered one.
pub proof fn lemma_filter_element_of(s: Seq<Job>, g: spec_fn(Job) -> bool, k: int)
    requires
        0 <= k < s.filter(g).len(),
    ensures
        exists|i: int| 0 <= i < s.len() && s[i] == s.filter(g)[k],
    decreases s.len(),
{
    reveal(Seq::filter);
    if s.len() > 0 {
        let dl = s.drop_last();
        if g(s.last()) && k == s.filter(g).len() - 1 {
            assert(s[s.len() - 1] == s.filter(g)[k]);
        } else {
            lemma_filter_element_of(dl, g, k);
            let i = choose|i: int| 0 <= i < dl.len() && dl[i] == dl.filter(g)[k];
            assert(s[i] == dl.filter(g)[k]);
        }
    }
}

/// Filtering keeps IDs distinct.
pub proof fn lemma_filter_distinct_ids(s: Seq<Job>, g: spec_fn(Job) -> bool)
    requires
        ids_distinct(s),
    ensures
        ids_distinct(s.filter(g)),
    decreases s.len(),
{
    reveal(Seq::filter);
    if s.len() > 0 {
        let dl = s.drop_last();
        assert(ids_distinct(dl)) by {
            assert forall|i: int, k: int| 0 <= i < k < dl.len() implies dl[i].id != dl[k].id by {
                assert(s[i] == dl[i] && s[k] == dl[k]);
            }
        }
        lemma_filter_distinct_ids(dl, g);
        if g(s.last()) {
            let fl = dl.filter(g);
            assert forall|i: int, k: int|
                0 <= i < k < s.filter(g).len() implies s.filter(g)[i].id != s.filter(g)[k].id by {
                if k == s.filter(g).len() - 1 {
                    lemma_filter_element_of(dl, g, i);
                    let w = choose|w: int| 0 <= w < dl.len() && dl[w] == fl[i];
                    assert(s[w] == dl[w]);
                    assert(s[w].id != s[s.len() - 1].id);
                    assert(s.filter(g)[k] == s.last());
                }
            }
        }
    }
}

/// Whether a job's record matches an optional status-name filter.
pub open spec fn status_filter_matches(j: Job, filter: Option<String>) -> bool {
    match filter {
        Some(name) => crate::job::status_name(j.status) == name@,
        None => true,
    }
}

/// The jobs kept by an optional status-name filter.
pub open spec fn status_pred(filter: Option<String>) -> spec_fn(Job) -> bool {
    |j: Job| status_filter_matches(j, filter)
}

/// Whether a terminal job's record is old enough to leave the in-memory
/// map during housekeeping.
pub open spec fn evict_due(j: Job, now: u64, retention_ms: u64) -> bool {
    &&& (j.status is Completed || j.status is Failed || j.status is Cancelled)
    &&& j.updated_at + retention_ms < now
}

/// The jobs kept by housekeeping at `now`.
pub open spec fn retained_pred(now: u64, retention_ms: u64) -> spec_fn(Job) -> bool {
    |j: Job| !evict_due(j, now, retention_ms)
}

/// The record of a live job taken out of circulation by a cancel request.
pub open spec fn cancelled_job(j: Job, reason: Option<String>, now: u64) -> Job {
    Job {
        status: JobStatus::Cancelled { cancelled_at: now, reason },
        updated_at: now,
        ..j
    }
}

/// What a failure report decided: the job's new record, whether another
/// attempt is due, and the events to emit in order.
pub struct FailOutcome {
    /// The job as recorded after the failure: pending again when it will
    /// be retried, terminally failed otherwise.
    pub job: Job,
    /// Whether the job went back to the pending set.
    pub will_retry: bool,
    /// The JobFailed event, always due.
    pub failed_event: JobEvent,
    /// The JobRetrying event, due after the failed event when the job
    /// went back to the pending set.
    pub retry_event: Option<JobEvent>,
}

/// Whether `a` is dispatched strictly before `b`.
fn dispatch_precedes(a: &Job, b: &Job) -> (r: bool)
    ensures
        r == dispatch_before(*a, *b),
{
    let ra = a.priority.rank();
    let rb = b.priority.rank();
    if ra != rb {
        ra > rb
    } else if a.created_at != b.created_at {
        a.created_at < b.created_at
    } else {
        a.id.0 < b.id.0
    }
}

/// State for the queue actor: the queue's metadata and every job it
/// currently knows of, live or recently terminal.
pub struct QueueActorState {
    /// Queue metadata, the authoritative in-memory copy.
    pub queue: Queue,
    /// Every job held by this queue: the pending set and the running set
    /// are the jobs herein with the matching status, and terminal jobs
    /// stay until housekeeping evicts them.
    pub jobs: Vec<Job>,
    /// When the current one-second dispatch window opened
    /// (ms since the Unix epoch), for rate limiting.
    pub window_start: u64,
    /// How many dispatches succeeded in the current window.
    pub dispatched_in_window: u64,
}

impl QueueActorState {
    /// The number of pending jobs.
    pub open spec fn pending_count(&self) -> nat {
        count_matching(self.jobs@, pending_pred())
    }

    /// The number of running jobs.
    pub open spec fn running_count(&self) -> nat {
        count_matching(self.jobs@, running_pred())
    }

    /// Whether the configured rate limit forbids another dispatch at
    /// `now`: within a one-second window no more jobs are handed out
    /// than the limit says. An elapsed window opens a fresh budget.
    pub open spec fn rate_limited(&self, now: u64) -> bool {
        match self.queue.config.rate_limit {
            Some(limit) => {
                if now >= self.window_start + 1000 {
                    limit == 0
                } else {
                    self.dispatched_in_window >= limit
                }
            },
            None => false,
        }
    }

    /// Whether the pending set is at capacity for another enqueue.
    pub open spec fn enqueue_full(&self) -> bool {
        ||| (match self.queue.config.max_queue_size {
            Some(m) => self.pending_count() >= m,
            None => false,
        })
        ||| self.jobs@.len() == usize::MAX
    }

    /// Well-formedness: what every transition preserves.
    ///
    /// The live counters of the stats record always agree with the jobs
    /// held, jobs belong to this queue and carry distinct IDs, no held
    /// job is in the queue-level Paused pseudo-state, and the running
    /// set never exceeds the configured concurrency.
    pub open spec fn wf(&self) -> bool {
        &&& self.queue.config.wf()
        &&& ids_distinct(self.jobs@)
        &&& forall|i: int|
            0 <= i < self.jobs@.len() ==> (#[trigger] self.jobs@[i]).queue_id == self.queue.id
        &&& forall|i: int|
            0 <= i < self.jobs@.len() ==> !((#[trigger] self.jobs@[i]).status is Paused)
        &&& forall|i: int|
            0 <= i < self.jobs@.len() ==> (#[trigger] self.jobs@[i]).timeout_secs >= 1
        &&& self.running_count() <= self.queue.config.concurrency
        &&& self.queue.stats.pending == self.pending_count()
        &&& self.queue.stats.running == self.running_count()
    }

    /// Create a fresh scheduler state for a queue that holds no jobs yet.
    /// The live counters start at zero whatever the stored record said:
    /// they are recomputed from the authoritative in-memory sets.
    pub fn new(queue: Queue) -> (r: QueueActorState)
        requires
            queue.config.wf(),
        ensures
            r.wf(),
            r.jobs@ == Seq::<Job>::empty(),
            r.queue == (Queue { stats: stats_with_counts(queue.stats, 0u64, 0u64), ..queue }),
            r.window_start == 0 && r.dispatched_in_window == 0,
    {
        let stats = QueueStats {
            pending: 0,
            running: 0,
            completed: queue.stats.completed,
            failed: queue.stats.failed,
            avg_duration_ms: queue.stats.avg_duration_ms,
            throughput_per_min: queue.stats.throughput_per_min,
        };
        let q = Queue {
            stats,
            id: queue.id,
            name: queue.name,
            description: queue.description,
            state: queue.state,
            config: queue.config,
            created_at: queue.created_at,
            updated_at: queue.updated_at,
        };
        QueueActorState { queue: q, jobs: Vec::new(), window_start: 0, dispatched_in_window: 0 }
    }

    /// Find the position of a job by ID.
    fn find_index(&self, id: JobId) -> (r: Option<usize>)
        requires
            ids_distinct(self.jobs@),
        ensures
            match r {
                Some(i) => i < self.jobs@.len() && self.jobs@[i as int].id == id && idx_of_id(
                    self.jobs@,
                    id,
                ) == i as int,
                None => !has_id(self.jobs@, id),
            },
    {
        let n = self.jobs.len();
        let mut i: usize = 0;
        while i < n
            invariant
                n == self.jobs@.len(),
                i <= n,
                ids_distinct(self.jobs@),
                forall|k: int| 0 <= k < i ==> self.jobs@[k].id != id,
            decreases n - i,
        {
            if self.jobs[i].id == id {
                proof {
                    let w = idx_of_id(self.jobs@, id);
                    assert(0 <= w < self.jobs@.len() && self.jobs@[w].id == id);
                }
                return Some(i);
            }
            i += 1;
        }
        None
    }

    /// Decide whether a job may be enqueued right now.
    ///
    /// Accepts exactly when the queue state is Running, the pending set
    /// is below capacity, and the ID is not already held.
    pub fn enqueue_check(&self, job: &Job) -> (r: Result<(), ActorError>)
        requires
            self.wf(),
        ensures
            match r {
                Ok(()) => self.queue.state is Running && !self.enqueue_full() && !has_id(
                    self.jobs@,
                    job.id,
                ),
                Err(e) => {
                    ||| (!(self.queue.state is Running) && e == ActorError::QueuePaused)
                    ||| (self.queue.state is Running && self.enqueue_full() && e
                        == ActorError::QueueFull)
                    ||| (self.queue.state is Running && !self.enqueue_full() && has_id(
                        self.jobs@,
                        job.id,
                    ) && (e matches ActorError::Actor(m) && m@ == "job id already enqueued"@))
                },
            },
    {
        if !self.queue.is_accepting_jobs() {
            return Err(ActorError::QueuePaused);
        }
        let at_capacity = match self.queue.config.max_queue_size {
            Some(m) => self.queue.stats.pending >= m as u64,
            None => false,
        };
        if at_capacity || self.jobs.len() == usize::MAX {
            return Err(ActorError::QueueFull);
        }
        match self.find_index(job.id) {
            Some(_) => Err(ActorError::Actor("job id already enqueued".to_owned())),
            None => Ok(()),
        }
    }

    /// Admit a job whose record has been persisted: it joins the pending
    /// set and a JobEnqueued event is due.
    pub fn enqueue_commit(&mut self, job: Job, now: u64) -> (ev: JobEvent)
        requires
            old(self).wf(),
            old(self).queue.state is Running,
            !old(self).enqueue_full(),
            !has_id(old(self).jobs@, job.id),
            job.status is Pending,
            job.attempts == 0,
            job.queue_id == old(self).queue.id,
            job.timeout_secs >= 1,
        ensures
            final(self).wf(),
            final(self).window_start == old(self).window_start,
            final(self).dispatched_in_window == old(self).dispatched_in_window,
            final(self).jobs@ == old(self).jobs@.push(job),
            final(self).queue == (Queue {
                stats: stats_with_counts(
                    old(self).queue.stats,
                    (old(self).pending_count() + 1) as u64,
                    old(self).running_count() as u64,
                ),
                ..old(self).queue
            }),
            ev matches JobEvent::JobEnqueued { job: j, timestamp } && same_job(j, job)
                && timestamp == now,
    {
        let n = self.jobs.len();
        proof {
            lemma_count_push(self.jobs@, pending_pred(), job);
            lemma_count_push(self.jobs@, running_pred(), job);
            lemma_count_le_len(self.jobs@, pending_pred());
            assert(n < usize::MAX);
            assert(self.pending_count() <= n);
        }
        let enqueued = job.duplicate();
        self.jobs.push(job);
        let pending_now: u64 = self.queue.stats.pending + 1;
        self.set_live_counters(pending_now, self.queue.stats.running);
        JobEvent::JobEnqueued { job: enqueued, timestamp: now }
    }

    /// Overwrite the live counters of the stats record.
    fn set_live_counters(&mut self, pending: u64, running: u64)
        ensures
            final(self).queue == (Queue {
                stats: stats_with_counts(old(self).queue.stats, pending, running),
                ..old(self).queue
            }),
            final(self).jobs == old(self).jobs,
            final(self).window_start == old(self).window_start,
            final(self).dispatched_in_window == old(self).dispatched_in_window,
    {
        self.queue.stats = QueueStats {
            pending,
            running,
            completed: self.queue.stats.completed,
            failed: self.queue.stats.failed,
            avg_duration_ms: self.queue.stats.avg_duration_ms,
            throughput_per_min: self.queue.stats.throughput_per_min,
        };
    }

    /// Read-only snapshot of the queue metadata.
    pub fn get_info(&self) -> (r: Queue)
        ensures
            r == self.queue,
    {
        self.queue.duplicate()
    }

    /// Read-only snapshot of the queue statistics.
    pub fn get_stats(&self) -> (r: QueueStats)
        ensures
            r == self.queue.stats,
    {
        self.queue.stats
    }

    /// Find the position of the pending job that dispatches first, if any.
    fn find_best_pending(&self) -> (r: Option<usize>)
        requires
            ids_distinct(self.jobs@),
        ensures
            match r {
                Some(i) => is_best_pending(self.jobs@, i as int) && best_pending_index(self.jobs@)
                    == i as int,
                None => self.pending_count() == 0,
            },
    {
        let n = self.jobs.len();
        let mut best: Option<usize> = None;
        let mut i: usize = 0;
        while i < n
            invariant
                n == self.jobs@.len(),
                i <= n,
                ids_distinct(self.jobs@),
                match best {
                    None => forall|k: int|
                        0 <= k < i ==> !((#[trigger] self.jobs@[k]).status is Pending),
                    Some(b) => b < i && self.jobs@[b as int].status is Pending && forall|k: int|
                        0 <= k < i && k != b && (#[trigger] self.jobs@[k]).status is Pending
                            ==> dispatch_before(self.jobs@[b as int], self.jobs@[k]),
                },
            decreases n - i,
        {
            let candidate_pending = match self.jobs[i].status {
                JobStatus::Pending => true,
                _ => false,
            };
            if candidate_pending {
                match best {
                    None => {
                        best = Some(i);
                    },
                    Some(b) => {
                        if dispatch_precedes(&self.jobs[i], &self.jobs[b]) {
                            proof {
                                assert forall|k: int|
                                    0 <= k < i + 1 && k != i as int && (#[trigger] self.jobs@[k]).status
                                        is Pending implies dispatch_before(
                                    self.jobs@[i as int],
                                    self.jobs@[k],
                                ) by {
                                    if k != b as int {
                                        lemma_dispatch_order_transitive(
                                            self.jobs@[i as int],
                                            self.jobs@[b as int],
                                            self.jobs@[k],
                                        );
                                    }
                                }
                            }
                            best = Some(i);
                        } else {
                            proof {
                                lemma_dispatch_order_total(
                                    self.jobs@[b as int],
                                    self.jobs@[i as int],
                                );
                            }
                        }
                    },
                }
            }
            i += 1;
        }
        proof {
            match best {
                Some(b) => {
                    assert(is_best_pending(self.jobs@, b as int));
                    assert(exists|k: int| is_best_pending(self.jobs@, k));
                    lemma_best_pending_unique(self.jobs@, best_pending_index(self.jobs@), b as int);
                },
                None => {
                    lemma_count_zero(self.jobs@, pending_pred());
                },
            }
        }
        best
    }

    /// Take the next job for a worker: the dispatch decision, applied to
    /// the in-memory state.
    ///
    /// Yields None when the queue is not dispatching, the running set is
    /// at the concurrency limit, or nothing is pending. Otherwise the
    /// pending job that every other pending job yields to — highest
    /// priority, then oldest, then smallest ID — becomes Running with one
    /// more attempt, and a JobStarted event is due once the new status is
    /// persisted. If the repository write fails, the caller hands the job
    /// back through `dispatch_rollback` and reports nothing to the worker.
    pub fn dispatch_begin(&mut self, worker_id: String, now: u64) -> (r: Option<(Job, JobEvent)>)
        requires
            old(self).wf(),
        ensures
            final(self).wf(),
            old(self).queue.state is Paused ==> r is None,
            match r {
                None => *final(self) == *old(self) && (!(old(self).queue.state is Running || old(
                    self,
                ).queue.state is Draining) || old(self).running_count() >= old(
                    self,
                ).queue.config.concurrency || old(self).rate_limited(now) || old(
                    self,
                ).pending_count() == 0),
                Some((j, ev)) => {
                    let i = best_pending_index(old(self).jobs@);
                    let started = started_job(old(self).jobs@[i], worker_id, now);
                    &&& old(self).queue.state is Running || old(self).queue.state is Draining
                    &&& old(self).running_count() < old(self).queue.config.concurrency
                    &&& !old(self).rate_limited(now)
                    &&& (match old(self).queue.config.rate_limit {
                        Some(_) => (if now >= old(self).window_start + 1000 {
                            &&& final(self).window_start == now
                            &&& final(self).dispatched_in_window == 1
                        } else {
                            &&& final(self).window_start == old(self).window_start
                            &&& final(self).dispatched_in_window == old(self).dispatched_in_window
                                + 1
                        }),
                        None => {
                            &&& final(self).window_start == old(self).window_start
                            &&& final(self).dispatched_in_window == old(self).dispatched_in_window
                        },
                    })
                    &&& is_best_pending(old(self).jobs@, i)
                    &&& same_job(j, started)
                    &&& j.attempts >= 1
                    &&& final(self).jobs@ == old(self).jobs@.update(i, started)
                    &&& final(self).queue == (Queue {
                        stats: stats_with_counts(
                            old(self).queue.stats,
                            (old(self).pending_count() - 1) as u64,
                            (old(self).running_count() + 1) as u64,
                        ),
                        ..old(self).queue
                    })
                    &&& ev == (JobEvent::JobStarted {
                        job_id: old(self).jobs@[i].id,
                        queue_id: old(self).queue.id,
                        worker_id: worker_id,
                        timestamp: now,
                    })
                },
            },
    {
        if !self.queue.is_processing() {
            return None;
        }
        if self.queue.stats.running >= self.queue.config.concurrency as u64 {
            return None;
        }
        let rate_blocked = match self.queue.config.rate_limit {
            Some(limit) => {
                if now >= self.window_start && now - self.window_start >= 1000 {
                    limit == 0
                } else {
                    self.dispatched_in_window >= limit
                }
            },
            None => false,
        };
        if rate_blocked {
            return None;
        }
        let i = match self.find_best_pending() {
            Some(i) => i,
            None => {
                return None;
            },
        };
        let ghost s0 = self.jobs@;
        let taken = self.jobs.remove(i);
        let started = Job {
            attempts: taken.attempts.saturating_add(1),
            status: JobStatus::Running { started_at: now, worker_id: worker_id.clone() },
            updated_at: now,
            id: taken.id,
            queue_id: taken.queue_id,
            job_type: taken.job_type,
            payload: taken.payload,
            priority: taken.priority,
            max_retries: taken.max_retries,
            timeout_secs: taken.timeout_secs,
            created_at: taken.created_at,
            tags: taken.tags,
        };
        let snapshot = started.duplicate();
        self.jobs.insert(i, started);
        proof {
            assert(self.jobs@ =~= s0.update(i as int, started_job(s0[i as int], worker_id, now)));
            lemma_count_update(
                s0,
                pending_pred(),
                i as int,
                started_job(s0[i as int], worker_id, now),
            );
            lemma_count_update(
                s0,
                running_pred(),
                i as int,
                started_job(s0[i as int], worker_id, now),
            );
            lemma_count_pos(s0, pending_pred(), i as int);
        }
        let pending_now: u64 = self.queue.stats.pending - 1;
        let running_now: u64 = self.queue.stats.running + 1;
        self.set_live_counters(pending_now, running_now);
        match self.queue.config.rate_limit {
            Some(_) => {
                if now >= self.window_start && now - self.window_start >= 1000 {
                    self.window_start = now;
                    self.dispatched_in_window = 1;
                } else {
                    self.dispatched_in_window = self.dispatched_in_window + 1;
                }
            },
            None => {},
        }
        let ev = JobEvent::JobStarted {
            job_id: snapshot.id,
            queue_id: self.queue.id,
            worker_id,
            timestamp: now,
        };
        Some((snapshot, ev))
    }

    /// Put a dispatched job back after its repository write failed: the
    /// job is Pending again with the attempt taken back, and no event is
    /// due. Answers whether a running job with that ID was found.
    pub fn dispatch_rollback(&mut self, job_id: JobId, now: u64) -> (r: bool)
        requires
            old(self).wf(),
        ensures
            final(self).wf(),
            final(self).window_start == old(self).window_start,
            final(self).dispatched_in_window == old(self).dispatched_in_window,
            ({
                let i = idx_of_id(old(self).jobs@, job_id);
                if has_id(old(self).jobs@, job_id) && old(self).jobs@[i].status is Running && old(
                    self,
                ).jobs@[i].attempts >= 1 {
                    &&& r == true
                    &&& final(self).jobs@ == old(self).jobs@.update(
                        i,
                        rolled_back_job(old(self).jobs@[i], now),
                    )
                    &&& final(self).queue == (Queue {
                        stats: stats_with_counts(
                            old(self).queue.stats,
                            (old(self).pending_count() + 1) as u64,
                            (old(self).running_count() - 1) as u64,
                        ),
                        ..old(self).queue
                    })
                } else {
                    r == false && *final(self) == *old(self)
                }
            }),
    {
        let i = match self.find_index(job_id) {
            Some(i) => i,
            None => {
                return false;
            },
        };
        let is_rollback_target = match &self.jobs[i].status {
            JobStatus::Running { .. } => self.jobs[i].attempts >= 1,
            _ => false,
        };
        if !is_rollback_target {
            return false;
        }
        let ghost s0 = self.jobs@;
        let n = self.jobs.len();
        let taken = self.jobs.remove(i);
        let restored = Job {
            attempts: taken.attempts - 1,
            status: JobStatus::Pending,
            updated_at: now,
            id: taken.id,
            queue_id: taken.queue_id,
            job_type: taken.job_type,
            payload: taken.payload,
            priority: taken.priority,
            max_retries: taken.max_retries,
            timeout_secs: taken.timeout_secs,
            created_at: taken.created_at,
            tags: taken.tags,
        };
        self.jobs.insert(i, restored);
        proof {
            assert(self.jobs@ =~= s0.update(i as int, rolled_back_job(s0[i as int], now)));
            lemma_count_update(s0, pending_pred(), i as int, rolled_back_job(s0[i as int], now));
            lemma_count_update(s0, running_pred(), i as int, rolled_back_job(s0[i as int], now));
            lemma_count_pos(s0, running_pred(), i as int);
            lemma_count_lt_len(s0, pending_pred(), i as int);
            assert(self.pending_count() <= n);
        }
        let pending_now: u64 = self.queue.stats.pending + 1;
        let running_now: u64 = self.queue.stats.running - 1;
        self.set_live_counters(pending_now, running_now);
        true
    }

    /// Record that a worker finished a job successfully.
    ///
    /// Honoured only while the job is in the running set: a report for an
    /// unknown job, or a repeated report for the same job, changes
    /// nothing and yields None. Otherwise the job becomes Completed, and
    /// the returned terminal record is due to be persisted and archived,
    /// with a JobCompleted event whose duration spans dispatch to now.
    pub fn job_completed(&mut self, job_id: JobId, result: JobResult, now: u64) -> (r: Option<
        (Job, JobEvent),
    >)
        requires
            old(self).wf(),
        ensures
            final(self).wf(),
            final(self).window_start == old(self).window_start,
            final(self).dispatched_in_window == old(self).dispatched_in_window,
            ({
                let i = idx_of_id(old(self).jobs@, job_id);
                match r {
                    None => *final(self) == *old(self) && !(has_id(old(self).jobs@, job_id) && old(
                        self,
                    ).jobs@[i].status is Running),
                    Some((j, ev)) => {
                        let done = completed_job(old(self).jobs@[i], result, now);
                        &&& has_id(old(self).jobs@, job_id)
                        &&& old(self).jobs@[i].status is Running
                        &&& same_job(j, done)
                        &&& final(self).jobs@ == old(self).jobs@.update(i, done)
                        &&& final(self).queue == (Queue {
                            stats: (QueueStats {
                                running: (old(self).running_count() - 1) as u64,
                                completed: sat_inc64(old(self).queue.stats.completed),
                                ..old(self).queue.stats
                            }),
                            ..old(self).queue
                        })
                        &&& ev == (JobEvent::JobCompleted {
                            job_id: job_id,
                            queue_id: old(self).queue.id,
                            duration_ms: duration_ms(
                                running_started_at(old(self).jobs@[i].status),
                                now,
                            ),
                            timestamp: now,
                        })
                    },
                }
            }),
    {
        let i = match self.find_index(job_id) {
            Some(i) => i,
            None => {
                return None;
            },
        };
        let running_now = match &self.jobs[i].status {
            JobStatus::Running { .. } => true,
            _ => false,
        };
        if !running_now {
            return None;
        }
        let ghost s0 = self.jobs@;
        let taken = self.jobs.remove(i);
        let started_at = match &taken.status {
            JobStatus::Running { started_at, .. } => *started_at,
            _ => 0,
        };
        let done = Job {
            status: JobStatus::Completed { started_at, completed_at: now, result },
            updated_at: now,
            id: taken.id,
            queue_id: taken.queue_id,
            job_type: taken.job_type,
            payload: taken.payload,
            priority: taken.priority,
            attempts: taken.attempts,
            max_retries: taken.max_retries,
            timeout_secs: taken.timeout_secs,
            created_at: taken.created_at,
            tags: taken.tags,
        };
        let snapshot = done.duplicate();
        self.jobs.insert(i, done);
        proof {
            let ghost done_spec = self.jobs@[i as int];
            assert(self.jobs@ =~= s0.update(i as int, done_spec));
            lemma_count_update(s0, pending_pred(), i as int, done_spec);
            lemma_count_update(s0, running_pred(), i as int, done_spec);
            lemma_count_pos(s0, running_pred(), i as int);
        }
        let stats = QueueStats {
            running: self.queue.stats.running - 1,
            completed: self.queue.stats.completed.saturating_add(1),
            pending: self.queue.stats.pending,
            failed: self.queue.stats.failed,
            avg_duration_ms: self.queue.stats.avg_duration_ms,
            throughput_per_min: self.queue.stats.throughput_per_min,
        };
        self.queue.stats = stats;
        let duration = if now >= started_at {
            now - started_at
        } else {
            0
        };
        let ev = JobEvent::JobCompleted {
            job_id,
            queue_id: self.queue.id,
            duration_ms: duration,
            timestamp: now,
        };
        Some((snapshot, ev))
    }

    /// Record that a worker's run of a job failed.
    ///
    /// Honoured only while the job is in the running set; otherwise
    /// nothing changes and the report is dropped. A JobFailed event is
    /// always due. While the attempts completed so far have not passed
    /// max_retries the job goes straight back to the pending set with its
    /// attempt counter preserved and a JobRetrying event follows;
    /// otherwise the job is terminally Failed and the returned record is
    /// due to be persisted and archived.
    pub fn job_failed(&mut self, job_id: JobId, error: String, now: u64) -> (r: Option<FailOutcome>)
        requires
            old(self).wf(),
        ensures
            final(self).wf(),
            final(self).window_start == old(self).window_start,
            final(self).dispatched_in_window == old(self).dispatched_in_window,
            ({
                let i = idx_of_id(old(self).jobs@, job_id);
                match r {
                    None => *final(self) == *old(self) && !(has_id(old(self).jobs@, job_id) && old(
                        self,
                    ).jobs@[i].status is Running),
                    Some(o) => {
                        let prior = old(self).jobs@[i];
                        &&& has_id(old(self).jobs@, job_id)
                        &&& prior.status is Running
                        &&& o.will_retry == retry_due(prior)
                        &&& o.failed_event == (JobEvent::JobFailed {
                            job_id: job_id,
                            queue_id: old(self).queue.id,
                            error: error,
                            attempts: prior.attempts,
                            will_retry: o.will_retry,
                            timestamp: now,
                        })
                        &&& (if o.will_retry {
                            &&& same_job(o.job, repushed_job(prior, now))
                            &&& final(self).jobs@ == old(self).jobs@.update(
                                i,
                                repushed_job(prior, now),
                            )
                            &&& final(self).queue == (Queue {
                                stats: stats_with_counts(
                                    old(self).queue.stats,
                                    (old(self).pending_count() + 1) as u64,
                                    (old(self).running_count() - 1) as u64,
                                ),
                                ..old(self).queue
                            })
                            &&& o.retry_event == Some(
                                JobEvent::JobRetrying {
                                    job_id: job_id,
                                    queue_id: old(self).queue.id,
                                    attempt: sat_inc32(prior.attempts),
                                    timestamp: now,
                                },
                            )
                        } else {
                            &&& same_job(o.job, failed_job(prior, error, now))
                            &&& final(self).jobs@ == old(self).jobs@.update(
                                i,
                                failed_job(prior, error, now),
                            )
                            &&& final(self).queue == (Queue {
                                stats: (QueueStats {
                                    running: (old(self).running_count() - 1) as u64,
                                    failed: sat_inc64(old(self).queue.stats.failed),
                                    ..old(self).queue.stats
                                }),
                                ..old(self).queue
                            })
                            &&& o.retry_event is None
                        })
                    },
                }
            }),
    {
        let i = match self.find_index(job_id) {
            Some(i) => i,
            None => {
                return None;
            },
        };
        let running_now = match &self.jobs[i].status {
            JobStatus::Running { .. } => true,
            _ => false,
        };
        if !running_now {
            return None;
        }
        let ghost s0 = self.jobs@;
        let n = self.jobs.len();
        let taken = self.jobs.remove(i);
        let attempts = taken.attempts;
        let retry = attempts <= taken.max_retries;
        let failed_event = JobEvent::JobFailed {
            job_id,
            queue_id: self.queue.id,
            error: error.clone(),
            attempts,
            will_retry: retry,
            timestamp: now,
        };
        if retry {
            let repushed = Job {
                status: JobStatus::Pending,
                updated_at: now,
                id: taken.id,
                queue_id: taken.queue_id,
                job_type: taken.job_type,
                payload: taken.payload,
                priority: taken.priority,
                attempts: taken.attempts,
                max_retries: taken.max_retries,
                timeout_secs: taken.timeout_secs,
                created_at: taken.created_at,
                tags: taken.tags,
            };
            let snapshot = repushed.duplicate();
            self.jobs.insert(i, repushed);
            proof {
                assert(self.jobs@ =~= s0.update(i as int, repushed_job(s0[i as int], now)));
                lemma_count_update(s0, pending_pred(), i as int, repushed_job(s0[i as int], now));
                lemma_count_update(s0, running_pred(), i as int, repushed_job(s0[i as int], now));
                lemma_count_pos(s0, running_pred(), i as int);
                lemma_count_lt_len(s0, pending_pred(), i as int);
                assert(self.pending_count() <= n);
            }
            let pending_now: u64 = self.queue.stats.pending + 1;
            let running_after: u64 = self.queue.stats.running - 1;
            self.set_live_counters(pending_now, running_after);
            let retry_event = JobEvent::JobRetrying {
                job_id,
                queue_id: self.queue.id,
                attempt: attempts.saturating_add(1),
                timestamp: now,
            };
            Some(
                FailOutcome {
                    job: snapshot,
                    will_retry: true,
                    failed_event,
                    retry_event: Some(retry_event),
                },
            )
        } else {
            let started_at = match &taken.status {
                JobStatus::Running { started_at, .. } => *started_at,
                _ => 0,
            };
            let failed = Job {
                status: JobStatus::Failed {
                    started_at,
                    failed_at: now,
                    error,
                    attempts: taken.attempts,
                },
                updated_at: now,
                id: taken.id,
                queue_id: taken.queue_id,
                job_type: taken.job_type,
                payload: taken.payload,
                priority: taken.priority,
                attempts: taken.attempts,
                max_retries: taken.max_retries,
                timeout_secs: taken.timeout_secs,
                created_at: taken.created_at,
                tags: taken.tags,
            };
            let snapshot = failed.duplicate();
            self.jobs.insert(i, failed);
            proof {
                let ghost failed_spec = self.jobs@[i as int];
                assert(self.jobs@ =~= s0.update(i as int, failed_spec));
                lemma_count_update(s0, pending_pred(), i as int, failed_spec);
                lemma_count_update(s0, running_pred(), i as int, failed_spec);
                lemma_count_pos(s0, running_pred(), i as int);
            }
            let stats = QueueStats {
                running: self.queue.stats.running - 1,
                failed: self.queue.stats.failed.saturating_add(1),
                pending: self.queue.stats.pending,
                completed: self.queue.stats.completed,
                avg_duration_ms: self.queue.stats.avg_duration_ms,
                throughput_per_min: self.queue.stats.throughput_per_min,
            };
            self.queue.stats = stats;
            Some(
                FailOutcome {
                    job: snapshot,
                    will_retry: false,
                    failed_event,
                    retry_event: None,
                },
            )
        }
    }

    /// Cancel a job that is still live.
    ///
    /// A pending or running job becomes Cancelled, leaves its set, and a
    /// JobCancelled event is due; the new record is returned for
    /// persistence and archival. A running job's handler is not
    /// interrupted: its eventual report finds the job no longer running
    /// and is dropped. An unknown ID is NotFound; a job already terminal
    /// cannot be cancelled again.
    pub fn cancel_job(&mut self, job_id: JobId, reason: Option<String>, now: u64) -> (r: Result<
        (Job, JobEvent),
        ActorError,
    >)
        requires
            old(self).wf(),
        ensures
            final(self).wf(),
            final(self).window_start == old(self).window_start,
            final(self).dispatched_in_window == old(self).dispatched_in_window,
            ({
                let i = idx_of_id(old(self).jobs@, job_id);
                match r {
                    Ok((j, ev)) => {
                        let prior = old(self).jobs@[i];
                        let gone = cancelled_job(prior, reason, now);
                        &&& has_id(old(self).jobs@, job_id)
                        &&& (prior.status is Pending || prior.status is Running)
                        &&& same_job(j, gone)
                        &&& final(self).jobs@ == old(self).jobs@.update(i, gone)
                        &&& final(self).queue == (Queue {
                            stats: stats_with_counts(
                                old(self).queue.stats,
                                (old(self).pending_count() - (if prior.status is Pending {
                                    1int
                                } else {
                                    0int
                                })) as u64,
                                (old(self).running_count() - (if prior.status is Running {
                                    1int
                                } else {
                                    0int
                                })) as u64,
                            ),
                            ..old(self).queue
                        })
                        &&& ev == (JobEvent::JobCancelled {
                            job_id: job_id,
                            queue_id: old(self).queue.id,
                            reason: reason,
                            timestamp: now,
                        })
                    },
                    Err(e) => {
                        &&& *final(self) == *old(self)
                        &&& {
                            ||| (!has_id(old(self).jobs@, job_id) && (e matches
                            ActorError::JobNotFound(t) && t@ == crate::ids::ulid_text(job_id.0)))
                            ||| (has_id(old(self).jobs@, job_id) && !(old(self).jobs@[i].status
                                is Pending || old(self).jobs@[i].status is Running) && (e matches
                            ActorError::Actor(m) && m@ == "job already terminal"@))
                        }
                    },
                }
            }),
    {
        let i = match self.find_index(job_id) {
            Some(i) => i,
            None => {
                return Err(ActorError::JobNotFound(job_id.text()));
            },
        };
        let was_pending = match &self.jobs[i].status {
            JobStatus::Pending => true,
            _ => false,
        };
        let was_running = match &self.jobs[i].status {
            JobStatus::Running { .. } => true,
            _ => false,
        };
        if !was_pending && !was_running {
            return Err(ActorError::Actor("job already terminal".to_owned()));
        }
        let ghost s0 = self.jobs@;
        let taken = self.jobs.remove(i);
        let gone = Job {
            status: JobStatus::Cancelled { cancelled_at: now, reason: clone_opt_string(&reason) },
            updated_at: now,
            id: taken.id,
            queue_id: taken.queue_id,
            job_type: taken.job_type,
            payload: taken.payload,
            priority: taken.priority,
            attempts: taken.attempts,
            max_retries: taken.max_retries,
            timeout_secs: taken.timeout_secs,
            created_at: taken.created_at,
            tags: taken.tags,
        };
        let snapshot = gone.duplicate();
        self.jobs.insert(i, gone);
        proof {
            assert(self.jobs@ =~= s0.update(i as int, cancelled_job(s0[i as int], reason, now)));
            lemma_count_update(s0, pending_pred(), i as int, cancelled_job(s0[i as int], reason, now));
            lemma_count_update(s0, running_pred(), i as int, cancelled_job(s0[i as int], reason, now));
            if was_pending {
                lemma_count_pos(s0, pending_pred(), i as int);
            } else {
                lemma_count_pos(s0, running_pred(), i as int);
            }
        }
        let pending_now: u64 = if was_pending {
            self.queue.stats.pending - 1
        } else {
            self.queue.stats.pending
        };
        let running_now: u64 = if was_running {
            self.queue.stats.running - 1
        } else {
            self.queue.stats.running
        };
        self.set_live_counters(pending_now, running_now);
        let ev = JobEvent::JobCancelled { job_id, queue_id: self.queue.id, reason, timestamp: now };
        Ok((snapshot, ev))
    }

    /// Work out the record a retried job would get, without changing
    /// anything: the caller persists it, then commits through
    /// `retry_commit`.
    ///
    /// Only a Failed or Cancelled job can be retried; it goes back to
    /// Pending with its attempt counter preserved, not reset.
    pub fn retry_prepare(&self, job_id: JobId, now: u64) -> (r: Result<Job, ActorError>)
        requires
            self.wf(),
        ensures
            ({
                let i = idx_of_id(self.jobs@, job_id);
                match r {
                    Ok(j) => {
                        &&& has_id(self.jobs@, job_id)
                        &&& (self.jobs@[i].status is Failed || self.jobs@[i].status is Cancelled)
                        &&& same_job(j, repushed_job(self.jobs@[i], now))
                    },
                    Err(e) => {
                        ||| (!has_id(self.jobs@, job_id) && (e matches ActorError::JobNotFound(t)
                            && t@ == crate::ids::ulid_text(job_id.0)))
                        ||| (has_id(self.jobs@, job_id) && !(self.jobs@[i].status is Failed
                            || self.jobs@[i].status is Cancelled) && (e matches ActorError::Actor(m)
                            && m@ == "job cannot be retried"@))
                    },
                }
            }),
    {
        let i = match self.find_index(job_id) {
            Some(i) => i,
            None => {
                return Err(ActorError::JobNotFound(job_id.text()));
            },
        };
        if !self.jobs[i].status.can_retry() {
            return Err(ActorError::Actor("job cannot be retried".to_owned()));
        }
        let j = self.jobs[i].duplicate();
        Ok(
            Job {
                status: JobStatus::Pending,
                updated_at: now,
                id: j.id,
                queue_id: j.queue_id,
                job_type: j.job_type,
                payload: j.payload,
                priority: j.priority,
                attempts: j.attempts,
                max_retries: j.max_retries,
                timeout_secs: j.timeout_secs,
                created_at: j.created_at,
                tags: j.tags,
            },
        )
    }

    /// Put a Failed or Cancelled job back into the pending set, once its
    /// new record has been persisted. Answers whether a retryable job
    /// with that ID was found.
    pub fn retry_commit(&mut self, job_id: JobId, now: u64) -> (r: bool)
        requires
            old(self).wf(),
        ensures
            final(self).wf(),
            final(self).window_start == old(self).window_start,
            final(self).dispatched_in_window == old(self).dispatched_in_window,
            ({
                let i = idx_of_id(old(self).jobs@, job_id);
                if has_id(old(self).jobs@, job_id) && (old(self).jobs@[i].status is Failed || old(
                    self,
                ).jobs@[i].status is Cancelled) {
                    &&& r == true
                    &&& final(self).jobs@ == old(self).jobs@.update(
                        i,
                        repushed_job(old(self).jobs@[i], now),
                    )
                    &&& final(self).queue == (Queue {
                        stats: stats_with_counts(
                            old(self).queue.stats,
                            (old(self).pending_count() + 1) as u64,
                            old(self).running_count() as u64,
                        ),
                        ..old(self).queue
                    })
                } else {
                    r == false && *final(self) == *old(self)
                }
            }),
    {
        let i = match self.find_index(job_id) {
            Some(i) => i,
            None => {
                return false;
            },
        };
        if !self.jobs[i].status.can_retry() {
            return false;
        }
        let ghost s0 = self.jobs@;
        let n = self.jobs.len();
        let taken = self.jobs.remove(i);
        let repushed = Job {
            status: JobStatus::Pending,
            updated_at: now,
            id: taken.id,
            queue_id: taken.queue_id,
            job_type: taken.job_type,
            payload: taken.payload,
            priority: taken.priority,
            attempts: taken.attempts,
            max_retries: taken.max_retries,
            timeout_secs: taken.timeout_secs,
            created_at: taken.created_at,
            tags: taken.tags,
        };
        self.jobs.insert(i, repushed);
        proof {
            assert(self.jobs@ =~= s0.update(i as int, repushed_job(s0[i as int], now)));
            lemma_count_update(s0, pending_pred(), i as int, repushed_job(s0[i as int], now));
            lemma_count_update(s0, running_pred(), i as int, repushed_job(s0[i as int], now));
            lemma_count_lt_len(s0, pending_pred(), i as int);
            assert(self.pending_count() <= n);
        }
        let pending_now: u64 = self.queue.stats.pending + 1;
        self.set_live_counters(pending_now, self.queue.stats.running);
        true
    }

    /// Pause the queue: no further dispatch until it is resumed.
    ///
    /// Allowed from Running, and idempotently from Paused; a draining or
    /// stopped queue stays as it is. When the transition applies, a
    /// QueueStateChanged event is due and the new state is to be
    /// persisted.
    pub fn pause(&mut self, now: u64) -> (r: Option<JobEvent>)
        requires
            old(self).wf(),
        ensures
            final(self).wf(),
            final(self).window_start == old(self).window_start,
            final(self).dispatched_in_window == old(self).dispatched_in_window,
            final(self).jobs == old(self).jobs,
            ({
                let prior = old(self).queue.state;
                if prior is Running || prior is Paused {
                    &&& final(self).queue == (Queue {
                        state: QueueState::Paused,
                        updated_at: now,
                        ..old(self).queue
                    })
                    &&& r == Some(
                        JobEvent::QueueStateChanged {
                            queue_id: old(self).queue.id,
                            old_state: prior,
                            new_state: QueueState::Paused,
                            timestamp: now,
                        },
                    )
                } else {
                    *final(self) == *old(self) && r is None
                }
            }),
    {
        let prior = self.queue.state;
        match prior {
            QueueState::Running | QueueState::Paused => {
                self.queue.state = QueueState::Paused;
                self.queue.updated_at = now;
                Some(
                    JobEvent::QueueStateChanged {
                        queue_id: self.queue.id,
                        old_state: prior,
                        new_state: QueueState::Paused,
                        timestamp: now,
                    },
                )
            },
            _ => None,
        }
    }

    /// Resume the queue: dispatch may proceed again.
    ///
    /// Allowed from Paused, and idempotently from Running; a draining or
    /// stopped queue stays as it is. When the transition applies, a
    /// QueueStateChanged event is due and the new state is to be
    /// persisted.
    pub fn resume(&mut self, now: u64) -> (r: Option<JobEvent>)
        requires
            old(self).wf(),
        ensures
            final(self).wf(),
            final(self).window_start == old(self).window_start,
            final(self).dispatched_in_window == old(self).dispatched_in_window,
            final(self).jobs == old(self).jobs,
            ({
                let prior = old(self).queue.state;
                if prior is Running || prior is Paused {
                    &&& final(self).queue == (Queue {
                        state: QueueState::Running,
                        updated_at: now,
                        ..old(self).queue
                    })
                    &&& r == Some(
                        JobEvent::QueueStateChanged {
                            queue_id: old(self).queue.id,
                            old_state: prior,
                            new_state: QueueState::Running,
                            timestamp: now,
                        },
                    )
                } else {
                    *final(self) == *old(self) && r is None
                }
            }),
    {
        let prior = self.queue.state;
        match prior {
            QueueState::Running | QueueState::Paused => {
                self.queue.state = QueueState::Running;
                self.queue.updated_at = now;
                Some(
                    JobEvent::QueueStateChanged {
                        queue_id: self.queue.id,
                        old_state: prior,
                        new_state: QueueState::Running,
                        timestamp: now,
                    },
                )
            },
            _ => None,
        }
    }

    /// Snapshot the jobs whose status matches the filter, at most `limit`
    /// of them, in the order they are held.
    pub fn list_jobs(&self, status_filter: Option<String>, limit: usize) -> (r: Vec<Job>)
        requires
            self.wf(),
        ensures
            ({
                let fl = self.jobs@.filter(status_pred(status_filter));
                &&& r@.len() == (if limit <= fl.len() {
                    limit as int
                } else {
                    fl.len() as int
                })
                &&& forall|k: int| 0 <= k < r@.len() ==> same_job(#[trigger] r@[k], fl[k])
            }),
    {
        let ghost pred = status_pred(status_filter);
        let n = self.jobs.len();
        let mut r: Vec<Job> = Vec::new();
        let mut i: usize = 0;
        while i < n
            invariant
                n == self.jobs@.len(),
                i <= n,
                pred == status_pred(status_filter),
                r@.len() == (if limit <= self.jobs@.subrange(0, i as int).filter(pred).len() {
                    limit as int
                } else {
                    self.jobs@.subrange(0, i as int).filter(pred).len() as int
                }),
                forall|k: int|
                    0 <= k < r@.len() ==> same_job(
                        #[trigger] r@[k],
                        self.jobs@.subrange(0, i as int).filter(pred)[k],
                    ),
            decreases n - i,
        {
            let ghost prefix = self.jobs@.subrange(0, i as int);
            let ghost prefix1 = self.jobs@.subrange(0, i as int + 1);
            let keep = match &status_filter {
                Some(name) => str_eq(self.jobs[i].status.as_str(), name.as_str()),
                None => true,
            };
            proof {
                assert(prefix1.drop_last() =~= prefix);
                assert(prefix1.last() == self.jobs@[i as int]);
                lemma_filter_step(prefix1, pred);
                assert(keep == pred(self.jobs@[i as int]));
            }
            if keep && r.len() < limit {
                r.push(self.jobs[i].duplicate());
            }
            i += 1;
        }
        proof {
            assert(self.jobs@.subrange(0, n as int) =~= self.jobs@);
        }
        r
    }

    /// Housekeeping: evict terminal jobs whose records have outlived the
    /// retention window, and report the current statistics.
    ///
    /// The live counters are untouched: eviction only removes terminal
    /// jobs, so the pending and running sets are exactly what they were.
    pub fn tick(&mut self, now: u64, retention_ms: u64) -> (r: JobEvent)
        requires
            old(self).wf(),
        ensures
            final(self).wf(),
            final(self).window_start == old(self).window_start,
            final(self).dispatched_in_window == old(self).dispatched_in_window,
            final(self).jobs@ == old(self).jobs@.filter(retained_pred(now, retention_ms)),
            final(self).queue == old(self).queue,
            r == (JobEvent::QueueStatsUpdated {
                queue_id: old(self).queue.id,
                stats: old(self).queue.stats,
                timestamp: now,
            }),
    {
        let ghost s0 = self.jobs@;
        let ghost keep = retained_pred(now, retention_ms);
        let mut i: usize = 0;
        while i < self.jobs.len()
            invariant
                i <= self.jobs@.len(),
                self.jobs@.len() <= s0.len(),
                i + s0.len() - self.jobs@.len() <= s0.len(),
                keep == retained_pred(now, retention_ms),
                self.queue == old(self).queue,
                self.window_start == old(self).window_start,
                self.dispatched_in_window == old(self).dispatched_in_window,
                ({
                    let p = i + s0.len() - self.jobs@.len();
                    &&& self.jobs@ =~= s0.subrange(0, p as int).filter(keep) + s0.subrange(
                        p as int,
                        s0.len() as int,
                    )
                    &&& i as int == s0.subrange(0, p as int).filter(keep).len()
                }),
            decreases self.jobs@.len() - i,
        {
            let ghost p = i + s0.len() - self.jobs@.len();
            let ghost prefix = s0.subrange(0, p as int);
            let ghost prefix1 = s0.subrange(0, p as int + 1);
            proof {
                assert(prefix1.drop_last() =~= prefix);
                assert(prefix1.last() == s0[p as int]);
                lemma_filter_step(prefix1, keep);
                prefix.lemma_filter_len(keep);
                assert(self.jobs@[i as int] == s0[p as int]);
            }
            let terminal = self.jobs[i].status.is_terminal();
            let updated_at = self.jobs[i].updated_at;
            let evict = terminal && retention_ms < now && updated_at < now - retention_ms;
            proof {
                assert(evict == evict_due(s0[p as int], now, retention_ms));
            }
            if evict {
                self.jobs.remove(i);
                proof {
                    assert(self.jobs@ =~= prefix1.filter(keep) + s0.subrange(
                        p as int + 1,
                        s0.len() as int,
                    ));
                }
            } else {
                i += 1;
                proof {
                    assert(self.jobs@ =~= prefix1.filter(keep) + s0.subrange(
                        p as int + 1,
                        s0.len() as int,
                    ));
                }
            }
        }
        proof {
            let p = i + s0.len() - self.jobs@.len();
            assert(p == s0.len());
            assert(s0.subrange(0, s0.len() as int) =~= s0);
            assert(s0.subrange(s0.len() as int, s0.len() as int) =~= Seq::<Job>::empty());
            assert(self.jobs@ =~= s0.filter(keep));
            lemma_count_filter_keeps(s0, pending_pred(), keep);
            lemma_count_filter_keeps(s0, running_pred(), keep);
            lemma_filter_distinct_ids(s0, keep);
            assert forall|k: int|
                0 <= k < self.jobs@.len() implies (#[trigger] self.jobs@[k]).queue_id
                == self.queue.id && !(self.jobs@[k].status is Paused) && self.jobs@[k].timeout_secs
                >= 1 by {
                lemma_filter_element_of(s0, keep, k);
            }
        }
        JobEvent::QueueStatsUpdated {
            queue_id: self.queue.id,
            stats: self.queue.stats,
            timestamp: now,
        }
    }

    /// The QueueStatsUpdated event describing the current statistics.
    pub fn stats_event(&self, now: u64) -> (r: JobEvent)
        ensures
            r == (JobEvent::QueueStatsUpdated {
                queue_id: self.queue.id,
                stats: self.queue.stats,
                timestamp: now,
            }),
    {
        JobEvent::QueueStatsUpdated {
            queue_id: self.queue.id,
            stats: self.queue.stats,
            timestamp: now,
        }
    }

    /// Look a job up by ID.
    pub fn get_job(&self, job_id: JobId) -> (r: Option<Job>)
        requires
            self.wf(),
        ensures
            match r {
                Some(j) => has_id(self.jobs@, job_id) && same_job(
                    j,
                    self.jobs@[idx_of_id(self.jobs@, job_id)],
                ),
                None => !has_id(self.jobs@, job_id),
            },
    {
        match self.find_index(job_id) {
            Some(i) => Some(self.jobs[i].duplicate()),
            None => None,
        }
    }
}

} // verus!
