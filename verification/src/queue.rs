//! The bounded inbound-message queue: a full queue drops the newest entry
//! rather than blocking the transport pump, so a slow consumer can lose
//! messages but never stall the connection.

use vstd::prelude::*;

verus! {

/// What happened to a pushed entry.
#[derive(Clone, Copy, Debug, PartialEq, Eq, Structural)]
pub enum PushOutcome {
    Accepted,
    Dropped,
}

/// A first-in first-out queue of topic strings with a fixed capacity.
pub struct BoundedQueue {
    items: Vec<String>,
    capacity: usize,
}

impl BoundedQueue {
    /// The entries currently queued, oldest first.
    pub closed spec fn contents(&self) -> Seq<Seq<char>> {
        self.items.deep_view()
    }

    /// The fixed capacity.
    pub closed spec fn cap(&self) -> nat {
        self.capacity as nat
    }

    /// The queue never holds more than its capacity.
    pub open spec fn wf(&self) -> bool {
        self.contents().len() <= self.cap()
    }

    /// An empty queue with the given capacity.
    pub fn new(capacity: usize) -> (r: Self)
        ensures
            r.wf(),
            r.cap() == capacity,
            r.contents() == Seq::<Seq<char>>::empty(),
    {
        let r = BoundedQueue { items: Vec::new(), capacity };
        proof {
            assert(r.contents() =~= Seq::<Seq<char>>::empty());
        }
        r
    }

    /// How many entries are queued.
    pub fn len(&self) -> (r: usize)
        ensures
            r == self.contents().len(),
    {
        self.items.len()
    }

    /// Appends an entry when there is room; drops it, reporting so, when
    /// the queue is full.
    pub fn push(&mut self, topic: String) -> (r: PushOutcome)
        requires
            old(self).wf(),
        ensures
            final(self).wf(),
            final(self).cap() == old(self).cap(),
            if old(self).contents().len() < old(self).cap() {
                r == PushOutcome::Accepted && final(self).contents() == old(self).contents().push(
                    topic@,
                )
            } else {
                r == PushOutcome::Dropped && final(self).contents() == old(self).contents()
            },
    {
        if self.items.len() < self.capacity {
            self.items.push(topic);
            proof {
                assert(self.contents() =~= old(self).contents().push(topic@));
            }
            PushOutcome::Accepted
        } else {
            PushOutcome::Dropped
        }
    }

    /// Removes and returns the oldest entry, if any.
    pub fn pop(&mut self) -> (r: Option<String>)
        requires
            old(self).wf(),
        ensures
            final(self).wf(),
            final(self).cap() == old(self).cap(),
            if old(self).contents().len() > 0 {
                r is Some && r->0@ == old(self).contents()[0] && final(self).contents() == old(
                    self,
                ).contents().drop_first()
            } else {
                r is None && final(self).contents() == old(self).contents()
            },
    {
        if self.items.len() > 0 {
            let first = self.items.remove(0);
            proof {
                assert(self.contents() =~= old(self).contents().drop_first());
            }
            Some(first)
        } else {
            None
        }
    }
}

/// What a queue of capacity `cap` holds after the given entries were pushed
/// into it empty, with no pop in between.
pub open spec fn fill(cap: nat, pushed: Seq<Seq<char>>) -> Seq<Seq<char>>
    decreases pushed.len(),
{
    if pushed.len() == 0 {
        Seq::empty()
    } else {
        let prev = fill(cap, pushed.drop_last());
        if prev.len() < cap {
            prev.push(pushed.last())
        } else {
            prev
        }
    }
}

/// A queue keeps as many of the pushed entries as fit.
pub proof fn lemma_fill_len(cap: nat, pushed: Seq<Seq<char>>)
    ensures
        fill(cap, pushed).len() == if pushed.len() <= cap {
            pushed.len()
        } else {
            cap
        },
    decreases pushed.len(),
{
    if pushed.len() > 0 {
        lemma_fill_len(cap, pushed.drop_last());
    }
}

/// Pushing more entries than the capacity into an undrained queue drops at
/// least one of them: exactly the excess, and never more than the capacity
/// survive.
pub proof fn lemma_queue_overflow(cap: nat, pushed: Seq<Seq<char>>)
    requires
        pushed.len() > cap,
    ensures
        fill(cap, pushed).len() == cap,
        pushed.len() - fill(cap, pushed).len() >= 1,
{
    lemma_fill_len(cap, pushed);
}

} // verus!
