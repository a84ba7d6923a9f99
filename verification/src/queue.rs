//! The queue between the two dispatch loops: the ingress loop enqueues each
//! decoded action, the execution loop dequeues and runs them one at a time.
//!
//! The queue is strictly first-in first-out, so delivery order equals
//! execution order however long any one handler takes.

use crate::action::{Action, ActionView};
use std::collections::VecDeque;
use vstd::prelude::*;

verus! {

/// A first-in first-out queue of decoded actions.
pub struct ActionQueue {
    items: VecDeque<Action>,
}

impl View for ActionQueue {
    type V = Seq<ActionView>;

    closed spec fn view(&self) -> Seq<ActionView> {
        self.items@.map_values(|a: Action| a@)
    }
}

impl ActionQueue {
    /// An empty queue.
    pub fn new() -> (r: ActionQueue)
        ensures
            r@ == Seq::<ActionView>::empty(),
    {
        let r = ActionQueue { items: VecDeque::new() };
        proof {
            assert(r@ =~= Seq::<ActionView>::empty());
        }
        r
    }

    /// How many actions are waiting.
    pub fn len(&self) -> (r: usize)
        ensures
            r == self@.len(),
    {
        self.items.len()
    }

    /// Appends one action at the back.
    pub fn enqueue(&mut self, action: Action)
        ensures
            final(self)@ == old(self)@.push(action@),
    {
        self.items.push_back(action);
        proof {
            assert(self@ =~= old(self)@.push(action@));
        }
    }

    /// Removes and returns the action that has waited longest — the front —
    /// or nothing when the queue is empty.
    pub fn dequeue(&mut self) -> (r: Option<Action>)
        ensures
            match r {
                Some(action) => old(self)@.len() > 0 && action@ == old(self)@[0] && final(self)@
                    == old(self)@.drop_first(),
                None => old(self)@.len() == 0 && final(self)@ == old(self)@,
            },
    {
        let r = self.items.pop_front();
        proof {
            if old(self).items@.len() > 0 {
                assert(self@ =~= old(self)@.drop_first());
            }
        }
        r
    }
}

/// Law: the queue is first-in first-out. Enqueuing actions `a`, `b`, `c` on
/// an empty queue and dequeuing three times — whatever happens between the
/// dequeues — yields `a`, then `b`, then `c`, leaving the queue empty; this
/// follows the contracts of [`ActionQueue::enqueue`] and
/// [`ActionQueue::dequeue`] exactly.
pub proof fn lemma_queue_fifo(s: Seq<ActionView>, a: ActionView, b: ActionView, c: ActionView)
    requires
        s.len() == 0,
    ensures
        ({
            let q = s.push(a).push(b).push(c);
            &&& q[0] == a
            &&& q.drop_first()[0] == b
            &&& q.drop_first().drop_first()[0] == c
            &&& q.drop_first().drop_first().drop_first().len() == 0
        }),
{
}

} // verus!
