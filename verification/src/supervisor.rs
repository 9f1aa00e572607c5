//! The supervisor's registry: which queues exist, under which names, and
//! the counter that mints worker identities.
//!
//! The supervisor actor routes messages to queue actors and spawns
//! workers; those handles and the spawning live outside the library. What
//! is kept and decided here is the authoritative record of queues, with
//! unique IDs and unique names.

use vstd::prelude::*;
use crate::ids::QueueId;
use crate::queue::Queue;
use crate::errors::ActorError;
use crate::text::str_eq;

verus! {

/// Whether `s` holds a queue with the given ID.
pub open spec fn has_queue_id(s: Seq<Queue>, id: QueueId) -> bool {
    exists|i: int| 0 <= i < s.len() && s[i].id == id
}

/// Whether `s` holds a queue with the given name.
pub open spec fn has_queue_named(s: Seq<Queue>, name: Seq<char>) -> bool {
    exists|i: int| 0 <= i < s.len() && s[i].name@ == name
}

/// The index of the queue with the given ID (meaningful when IDs are
/// distinct and the ID is present).
pub open spec fn queue_idx_of(s: Seq<Queue>, id: QueueId) -> int {
    choose|i: int| 0 <= i < s.len() && s[i].id == id
}

/// State for the supervisor: the registered queues and the worker
/// counter.
pub struct SupervisorState {
    /// The queues registered, each with a unique ID and a unique name.
    pub queues: Vec<Queue>,
    /// How many worker identities have been handed out.
    pub worker_counter: u64,
}

impl SupervisorState {
    /// Well-formedness: queue IDs and names are unique.
    pub open spec fn wf(&self) -> bool {
        &&& forall|i: int, k: int|
            0 <= i < k < self.queues@.len() ==> self.queues@[i].id != self.queues@[k].id
        &&& forall|i: int, k: int|
            0 <= i < k < self.queues@.len() ==> self.queues@[i].name@ != self.queues@[k].name@
    }

    /// A fresh supervisor with no queues registered.
    pub fn new() -> (r: SupervisorState)
        ensures
            r.wf(),
            r.queues@ == Seq::<Queue>::empty(),
            r.worker_counter == 0,
    {
        SupervisorState { queues: Vec::new(), worker_counter: 0 }
    }

    /// Whether a queue of this name is registered.
    pub fn has_name(&self, name: &str) -> (r: bool)
        ensures
            r == has_queue_named(self.queues@, name@),
    {
        let n = self.queues.len();
        let mut i: usize = 0;
        while i < n
            invariant
                n == self.queues@.len(),
                i <= n,
                forall|k: int| 0 <= k < i ==> (#[trigger] self.queues@[k]).name@ != name@,
            decreases n - i,
        {
            if str_eq(self.queues[i].name.as_str(), name) {
                return true;
            }
            i += 1;
        }
        false
    }

    /// Find the position of a queue by ID.
    fn find_queue(&self, id: QueueId) -> (r: Option<usize>)
        requires
            self.wf(),
        ensures
            match r {
                Some(i) => i < self.queues@.len() && self.queues@[i as int].id == id
                    && queue_idx_of(self.queues@, id) == i as int,
                None => !has_queue_id(self.queues@, id),
            },
    {
        let n = self.queues.len();
        let mut i: usize = 0;
        while i < n
            invariant
                n == self.queues@.len(),
                i <= n,
                self.wf(),
                forall|k: int| 0 <= k < i ==> (#[trigger] self.queues@[k]).id != id,
            decreases n - i,
        {
            if self.queues[i].id == id {
                proof {
                    let w = queue_idx_of(self.queues@, id);
                    assert(0 <= w < self.queues@.len() && self.queues@[w].id == id);
                }
                return Some(i);
            }
            i += 1;
        }
        None
    }

    /// Decide whether a queue may be registered: its name and ID must
    /// both be free.
    pub fn register_check(&self, queue: &Queue) -> (r: Result<(), ActorError>)
        ensures
            match r {
                Ok(()) => !has_queue_named(self.queues@, queue.name@) && !has_queue_id(
                    self.queues@,
                    queue.id,
                ),
                Err(e) => (has_queue_named(self.queues@, queue.name@) || has_queue_id(
                    self.queues@,
                    queue.id,
                )) && (e matches ActorError::Actor(m) && m@ == "queue already registered"@),
            },
    {
        if self.has_name(queue.name.as_str()) {
            return Err(ActorError::Actor("queue already registered".to_owned()));
        }
        let n = self.queues.len();
        let mut i: usize = 0;
        while i < n
            invariant
                n == self.queues@.len(),
                i <= n,
                forall|k: int| 0 <= k < i ==> (#[trigger] self.queues@[k]).id != queue.id,
            decreases n - i,
        {
            if self.queues[i].id == queue.id {
                return Err(ActorError::Actor("queue already registered".to_owned()));
            }
            i += 1;
        }
        Ok(())
    }

    /// Register a queue whose name and ID are free.
    pub fn register(&mut self, queue: Queue)
        requires
            old(self).wf(),
            !has_queue_named(old(self).queues@, queue.name@),
            !has_queue_id(old(self).queues@, queue.id),
        ensures
            final(self).wf(),
            final(self).queues@ == old(self).queues@.push(queue),
            final(self).worker_counter == old(self).worker_counter,
    {
        self.queues.push(queue);
    }

    /// The registered record of a queue, by ID.
    pub fn get_queue(&self, id: QueueId) -> (r: Option<Queue>)
        requires
            self.wf(),
        ensures
            match r {
                Some(q) => has_queue_id(self.queues@, id) && q == self.queues@[queue_idx_of(
                    self.queues@,
                    id,
                )],
                None => !has_queue_id(self.queues@, id),
            },
    {
        match self.find_queue(id) {
            Some(i) => Some(self.queues[i].duplicate()),
            None => None,
        }
    }

    /// The registered record of a queue, by name.
    pub fn get_queue_by_name(&self, name: &str) -> (r: Option<Queue>)
        ensures
            match r {
                Some(q) => has_queue_named(self.queues@, name@) && q.name@ == name@
                    && self.queues@.contains(q),
                None => !has_queue_named(self.queues@, name@),
            },
    {
        let n = self.queues.len();
        let mut i: usize = 0;
        while i < n
            invariant
                n == self.queues@.len(),
                i <= n,
                forall|k: int| 0 <= k < i ==> (#[trigger] self.queues@[k]).name@ != name@,
            decreases n - i,
        {
            if str_eq(self.queues[i].name.as_str(), name) {
                let q = self.queues[i].duplicate();
                proof {
                    assert(self.queues@[i as int] == q);
                    assert(self.queues@.contains(q));
                }
                return Some(q);
            }
            i += 1;
        }
        None
    }

    /// Snapshots of all registered queues, in registration order.
    pub fn list_queues(&self) -> (r: Vec<Queue>)
        ensures
            r@ == self.queues@,
    {
        let n = self.queues.len();
        let mut r: Vec<Queue> = Vec::new();
        let mut i: usize = 0;
        while i < n
            invariant
                n == self.queues@.len(),
                i <= n,
                r@ == self.queues@.subrange(0, i as int),
            decreases n - i,
        {
            r.push(self.queues[i].duplicate());
            proof {
                assert(r@ =~= self.queues@.subrange(0, i as int + 1));
            }
            i += 1;
        }
        proof {
            assert(self.queues@.subrange(0, n as int) =~= self.queues@);
        }
        r
    }

    /// Remove a queue from the registry, returning its record.
    pub fn remove_queue(&mut self, id: QueueId) -> (r: Option<Queue>)
        requires
            old(self).wf(),
        ensures
            final(self).wf(),
            final(self).worker_counter == old(self).worker_counter,
            ({
                let i = queue_idx_of(old(self).queues@, id);
                match r {
                    Some(q) => has_queue_id(old(self).queues@, id) && q == old(self).queues@[i]
                        && final(self).queues@ == old(self).queues@.remove(i),
                    None => !has_queue_id(old(self).queues@, id) && *final(self) == *old(self),
                }
            }),
    {
        let i = match self.find_queue(id) {
            Some(i) => i,
            None => {
                return None;
            },
        };
        let q = self.queues.remove(i);
        proof {
            assert forall|a: int, b: int|
                0 <= a < b < self.queues@.len() implies self.queues@[a].id != self.queues@[b].id
                && self.queues@[a].name@ != self.queues@[b].name@ by {
                let s0 = old(self).queues@;
                let a0 = if a < i as int {
                    a
                } else {
                    a + 1
                };
                let b0 = if b < i as int {
                    b
                } else {
                    b + 1
                };
                assert(self.queues@[a] == s0[a0]);
                assert(self.queues@[b] == s0[b0]);
            }
        }
        Some(q)
    }

    /// Mint the next worker identity: the count of identities handed out
    /// so far, starting at one.
    pub fn next_worker_id(&mut self) -> (r: u64)
        requires
            old(self).worker_counter < u64::MAX,
        ensures
            final(self).worker_counter == old(self).worker_counter + 1,
            final(self).queues == old(self).queues,
            r == final(self).worker_counter,
    {
        self.worker_counter = self.worker_counter + 1;
        self.worker_counter
    }
}

} // verus!
