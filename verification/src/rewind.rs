//! Bounded history of emulator snapshots for rewinding: the newest
//! states are kept, the oldest dropped once the history is full, and
//! rewinding takes the newest back first.

use vstd::prelude::*;
use std::collections::VecDeque;

verus! {

/// Snapshots kept: 600 frames, about ten seconds at 60 fps.
pub const REWIND_CAPACITY: usize = 600;

/// The saved items after `item` is pushed onto `items` with room for
/// `cap`: the oldest is dropped when full; nothing is kept without room.
pub open spec fn after_push<T>(items: Seq<T>, cap: nat, item: T) -> Seq<T> {
    if cap == 0 {
        Seq::empty()
    } else if items.len() == cap {
        items.skip(1).push(item)
    } else {
        items.push(item)
    }
}

/// A bounded last-in first-out history.
pub struct History<T> {
    /// Saved items, oldest first.
    pub items: VecDeque<T>,
    /// Most items kept.
    pub capacity: usize,
}

impl<T> History<T> {
    /// The invariant: never more items than the capacity.
    pub open spec fn wf(&self) -> bool {
        self.items@.len() <= self.capacity
    }

    /// The saved items, oldest first.
    pub open spec fn contents(&self) -> Seq<T> {
        self.items@
    }

    /// An empty history keeping up to `capacity` items.
    pub fn new(capacity: usize) -> (h: History<T>)
        ensures
            h.wf(),
            h.contents() == Seq::<T>::empty(),
            h.capacity == capacity,
    {
        History { items: VecDeque::new(), capacity }
    }

    /// Number of saved items.
    pub fn len(&self) -> (n: usize)
        ensures
            n == self.contents().len(),
    {
        self.items.len()
    }

    /// Saves an item; when the history is full the oldest is dropped
    /// first. With no capacity nothing is kept.
    pub fn push(&mut self, item: T)
        requires
            old(self).wf(),
        ensures
            final(self).wf(),
            final(self).capacity == old(self).capacity,
            final(self).contents() == after_push(old(self).contents(), old(self).capacity as nat, item),
    {
        if self.capacity == 0 {
            return;
        }
        if self.items.len() == self.capacity {
            let _ = self.items.pop_front();
        }
        self.items.push_back(item);
        proof {
            assert(old(self).contents().skip(1) =~= old(self).items@.subrange(
                1,
                old(self).items@.len() as int,
            ));
        }
    }

    /// Takes back the newest item, if any.
    pub fn pop(&mut self) -> (r: Option<T>)
        requires
            old(self).wf(),
        ensures
            final(self).wf(),
            final(self).capacity == old(self).capacity,
            old(self).contents().len() == 0 ==> r is None && final(self).contents() == old(
                self,
            ).contents(),
            old(self).contents().len() > 0 ==> r == Some(old(self).contents().last())
                && final(self).contents() == old(self).contents().drop_last(),
    {
        let r = self.items.pop_back();
        proof {
            if old(self).items@.len() > 0 {
                assert(old(self).contents().drop_last() =~= old(self).items@.subrange(
                    0,
                    old(self).items@.len() - 1,
                ));
            }
        }
        r
    }
}

/// Rewinding undoes saving: pushing an item and popping gives that item
/// back, and when the history had room, leaves it as it was.
pub proof fn lemma_push_then_pop<T>(before: Seq<T>, cap: nat, item: T)
    requires
        cap > 0,
        before.len() <= cap,
    ensures
        ({
            let after = after_push(before, cap, item);
            &&& after.last() == item
            &&& after.len() <= cap
            &&& before.len() < cap ==> after.drop_last() == before
        }),
{
    let after = after_push(before, cap, item);
    if before.len() < cap {
        assert(after.drop_last() =~= before);
    }
}

} // verus!
