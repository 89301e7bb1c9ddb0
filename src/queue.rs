//! The queue of timed messages, earliest due first.

use vstd::prelude::*;
use vstd::multiset::Multiset;
use vstd::seq_lib::{
    to_multiset_build, to_multiset_contains, to_multiset_len, to_multiset_remove, to_multiset_update,
};
use crate::event::TimedMidiMessage;

verus! {

/// Timed messages waiting to be sent, ordered by due time alone: the earliest
/// is always the next out. Among messages due at the same time no order is
/// promised.
pub struct EventQueue {
    /// A binary min-heap on `due_at`: no message is due earlier than its
    /// parent, so the earliest sits at the root.
    items: Vec<TimedMidiMessage>,
}

/// Index of the parent of heap slot `i > 0`.
pub open spec fn parent(i: int) -> int {
    (i - 1) / 2
}

/// No message of `s` is due earlier than its parent.
pub open spec fn heap_ordered(s: Seq<TimedMidiMessage>) -> bool {
    forall|i: int| 0 < i < s.len() ==> s[parent(i)].due_at <= #[trigger] s[i].due_at
}

/// The root of a heap is due no later than any slot.
proof fn lemma_root_is_min(s: Seq<TimedMidiMessage>, k: int)
    requires
        heap_ordered(s),
        0 <= k < s.len(),
    ensures
        s[0].due_at <= s[k].due_at,
    decreases k,
{
    if k > 0 {
        lemma_root_is_min(s, parent(k));
    }
}

/// Exchanging two slots keeps the messages.
proof fn lemma_swap_keeps_messages(s: Seq<TimedMidiMessage>, i: int, j: int)
    requires
        0 <= i < s.len(),
        0 <= j < s.len(),
        i != j,
    ensures
        s.update(i, s[j]).update(j, s[i]).to_multiset() == s.to_multiset(),
{
    broadcast use vstd::multiset::group_multiset_axioms;
    let s1 = s.update(i, s[j]);
    to_multiset_update(s, i, s[j]);
    to_multiset_update(s1, j, s[i]);
    to_multiset_contains(s, s[i]);
    assert(s.contains(s[i]));
    assert(s1[j] == s[j]);
    assert(s1.update(j, s[i]).to_multiset() =~= s.to_multiset());
}

impl EventQueue {
    /// The slots form a heap on due times.
    pub closed spec fn wf(&self) -> bool {
        heap_ordered(self.items@)
    }

    /// The messages in the queue, counted with multiplicity.
    pub closed spec fn events(&self) -> Multiset<TimedMidiMessage> {
        self.items@.to_multiset()
    }

    /// The message the queue hands out next, if any.
    pub closed spec fn next_due(&self) -> Option<TimedMidiMessage> {
        if self.items@.len() == 0 {
            None
        } else {
            Some(self.items@[0])
        }
    }

    /// What `pop_if_due(now)` returns: the next message when it is due by
    /// `now`.
    pub open spec fn due_by(&self, now: u64) -> Option<TimedMidiMessage> {
        match self.next_due() {
            Some(e) => if e.due_at <= now {
                Some(e)
            } else {
                None
            },
            None => None,
        }
    }

    /// The messages left after `pop_if_due(now)`.
    pub open spec fn events_after_pop(&self, now: u64) -> Multiset<TimedMidiMessage> {
        match self.due_by(now) {
            Some(e) => self.events().remove(e),
            None => self.events(),
        }
    }

    /// The next message is one of the queue's messages, none of which is due
    /// earlier; there is none only when the queue is empty.
    pub proof fn lemma_next_due_is_earliest(&self)
        requires
            self.wf(),
        ensures
            self.next_due() is None <==> self.events().len() == 0,
            self.next_due() matches Some(e) ==> {
                &&& self.events().contains(e)
                &&& forall|x: TimedMidiMessage| #[trigger]
                    self.events().contains(x) ==> e.due_at <= x.due_at
            },
    {
        let s = self.items@;
        to_multiset_len(s);
        if s.len() > 0 {
            to_multiset_contains(s, s[0]);
            assert(s.contains(s[0]));
            assert forall|x: TimedMidiMessage| #[trigger]
                self.events().contains(x) implies s[0].due_at <= x.due_at by {
                to_multiset_contains(s, x);
                let k = choose|k: int| 0 <= k < s.len() && s[k] == x;
                lemma_root_is_min(s, k);
            }
        }
    }

    /// An empty queue.
    pub fn new() -> (q: EventQueue)
        ensures
            q.wf(),
            q.events() =~= Multiset::empty(),
    {
        let q = EventQueue { items: Vec::new() };
        proof {
            broadcast use vstd::multiset::group_multiset_axioms;
            assert(q.items@.to_multiset() =~= Multiset::empty()) by {
                to_multiset_len(q.items@);
            }
        }
        q
    }

    /// How many messages wait.
    pub fn len(&self) -> (r: usize)
        requires
            self.wf(),
        ensures
            r == self.events().len(),
    {
        proof {
            to_multiset_len(self.items@);
        }
        self.items.len()
    }

    /// Whether no message waits.
    pub fn is_empty(&self) -> (r: bool)
        requires
            self.wf(),
        ensures
            r == (self.events().len() == 0),
    {
        proof {
            to_multiset_len(self.items@);
        }
        self.items.len() == 0
    }

    /// Adds a message, sifting it up from the last slot: O(log n) steps.
    pub fn push(&mut self, e: TimedMidiMessage)
        requires
            old(self).wf(),
        ensures
            final(self).wf(),
            final(self).events() == old(self).events().insert(e),
    {
        let ghost before = self.items@;
        self.items.push(e);
        proof {
            to_multiset_build(before, e);
        }
        let n = self.items.len();
        let mut i: usize = n - 1;
        while i > 0 && self.items[(i - 1) / 2].due_at > self.items[i].due_at
            invariant
                n == self.items@.len(),
                i < n,
                self.items@.to_multiset() == before.to_multiset().insert(e),
                forall|j: int|
                    0 < j < n && j != i ==> self.items@[parent(j)].due_at
                        <= #[trigger] self.items@[j].due_at,
                i > 0 ==> forall|j: int|
                    0 < j < n && parent(j) == i ==> self.items@[parent(i as int)].due_at
                        <= #[trigger] self.items@[j].due_at,
            decreases i,
        {
            let p = (i - 1) / 2;
            let ghost s = self.items@;
            let child = self.items[i];
            let up = self.items[p];
            self.items[i] = up;
            self.items[p] = child;
            proof {
                lemma_swap_keeps_messages(s, i as int, p as int);
                assert(self.items@ == s.update(i as int, s[p as int]).update(p as int, s[i as int]));
            }
            i = p;
        }
    }

    /// The next message out, without removing it.
    pub fn peek(&self) -> (r: Option<&TimedMidiMessage>)
        requires
            self.wf(),
        ensures
            match r {
                Some(e) => self.next_due() == Some(*e),
                None => self.next_due() is None,
            },
    {
        if self.items.len() == 0 {
            None
        } else {
            Some(&self.items[0])
        }
    }

    /// Removes and returns the next message if it is due by `now`; otherwise
    /// leaves the queue as it is. The last slot takes the root's place and
    /// sifts down: O(log n) steps.
    pub fn pop_if_due(&mut self, now: u64) -> (r: Option<TimedMidiMessage>)
        requires
            old(self).wf(),
        ensures
            final(self).wf(),
            r == old(self).due_by(now),
            final(self).events() == old(self).events_after_pop(now),
            r is None ==> *final(self) == *old(self),
    {
        let n = self.items.len();
        if n == 0 {
            return None;
        }
        if self.items[0].due_at > now {
            return None;
        }
        let ghost start = self.items@;
        let root = self.items[0];
        if n > 1 {
            let last = self.items[n - 1];
            self.items[n - 1] = root;
            self.items[0] = last;
            proof {
                lemma_swap_keeps_messages(start, n - 1, 0);
                assert(self.items@ == start.update(n - 1, start[0]).update(0, start[n - 1]));
            }
        }
        let ghost swapped = self.items@;
        let e = self.items.pop();
        proof {
            to_multiset_remove(swapped, n - 1);
            assert(swapped.remove(n - 1) =~= self.items@);
        }
        let m = n - 1;
        let mut i: usize = 0;
        while i < m / 2
            invariant
                m == self.items@.len(),
                self.items@.to_multiset() == start.to_multiset().remove(root),
                forall|j: int|
                    0 < j < m && parent(j) != i ==> self.items@[parent(j)].due_at
                        <= #[trigger] self.items@[j].due_at,
                i > 0 ==> forall|j: int|
                    0 < j < m && parent(j) == i ==> self.items@[parent(i as int)].due_at
                        <= #[trigger] self.items@[j].due_at,
            ensures
                m == self.items@.len(),
                self.items@.to_multiset() == start.to_multiset().remove(root),
                heap_ordered(self.items@),
            decreases m - i,
        {
            let l = 2 * i + 1;
            let mut c = l;
            if l + 1 < m && self.items[l + 1].due_at < self.items[l].due_at {
                c = l + 1;
            }
            if self.items[i].due_at <= self.items[c].due_at {
                proof {
                    assert forall|j: int| 0 < j < m implies #[trigger] self.items@[parent(j)].due_at
                        <= self.items@[j].due_at by {
                        if parent(j) == i {
                            assert(j == l || j == l + 1);
                        }
                    }
                }
                break;
            }
            let ghost s = self.items@;
            let down = self.items[i];
            let up = self.items[c];
            self.items[i] = up;
            self.items[c] = down;
            proof {
                lemma_swap_keeps_messages(s, i as int, c as int);
                assert(self.items@ == s.update(i as int, s[c as int]).update(c as int, s[i as int]));
                assert forall|j: int| 0 < j < m && parent(j) == i implies self.items@[parent(
                    j,
                )].due_at <= #[trigger] self.items@[j].due_at by {
                    assert(j == l || j == l + 1);
                }
            }
            i = c;
        }
        e
    }
}

/// Peeking and then popping agree: when the message that `peek` reports is
/// not due yet, `pop_if_due` returns nothing and the size stays; when it is
/// due, `pop_if_due` returns that very message and the size drops by one.
pub proof fn lemma_peek_then_pop(q: EventQueue, now: u64)
    requires
        q.wf(),
    ensures
        q.next_due() matches Some(e) ==> {
            &&& now < e.due_at ==> q.due_by(now) is None && q.events_after_pop(now).len()
                == q.events().len()
            &&& e.due_at <= now ==> q.due_by(now) == Some(e) && q.events_after_pop(now).len()
                == q.events().len() - 1
        },
        q.next_due() is None ==> q.due_by(now) is None && q.events_after_pop(now) == q.events(),
{
    broadcast use vstd::multiset::group_multiset_axioms;
    q.lemma_next_due_is_earliest();
}

} // verus!
