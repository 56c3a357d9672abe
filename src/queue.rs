use crate::error::Error;
use crate::primitives::{AccountId, Balance};
use vstd::prelude::*;

verus! {

/// A withdrawal that could not be paid at once: who is owed, and how much base asset.
pub type UnstakeEntry = (AccountId, Balance);

/// First-in first-out queue of pending withdrawals, holding at most `capacity` entries.
#[derive(Clone, Debug)]
pub struct UnstakeQueue {
    entries: Vec<UnstakeEntry>,
    capacity: u32,
}

impl View for UnstakeQueue {
    type V = Seq<UnstakeEntry>;

    closed spec fn view(&self) -> Seq<UnstakeEntry> {
        self.entries@
    }
}

impl UnstakeQueue {
    /// The most entries the queue may hold.
    pub closed spec fn spec_capacity(&self) -> nat {
        self.capacity as nat
    }

    /// No more entries than the capacity, and every entry owes something.
    pub open spec fn wf(&self) -> bool {
        &&& self@.len() <= self.spec_capacity()
        &&& forall|i: int| 0 <= i < self@.len() ==> #[trigger] self@[i].1 > 0
    }

    /// An empty queue of the given capacity.
    pub fn new(capacity: u32) -> (r: UnstakeQueue)
        ensures
            r.wf(),
            r@ == Seq::<UnstakeEntry>::empty(),
            r.spec_capacity() == capacity,
    {
        UnstakeQueue { entries: Vec::new(), capacity }
    }

    pub fn capacity(&self) -> (r: u32)
        ensures
            r == self.spec_capacity(),
    {
        self.capacity
    }

    pub fn len(&self) -> (r: usize)
        ensures
            r == self@.len(),
    {
        self.entries.len()
    }

    pub fn is_empty(&self) -> (r: bool)
        ensures
            r == (self@.len() == 0),
    {
        self.entries.len() == 0
    }

    /// The entry at position `i`, counted from the front.
    pub fn get(&self, i: usize) -> (r: Option<UnstakeEntry>)
        ensures
            i < self@.len() ==> r == Some(self@[i as int]),
            i >= self@.len() ==> r is None,
    {
        if i < self.entries.len() {
            Some(self.entries[i])
        } else {
            None
        }
    }

    /// The entry that is paid next, if any.
    pub fn front(&self) -> (r: Option<UnstakeEntry>)
        ensures
            self@.len() > 0 ==> r == Some(self@[0]),
            self@.len() == 0 ==> r is None,
    {
        self.get(0)
    }

    /// All entries, front first.
    pub fn to_vec(&self) -> (r: Vec<UnstakeEntry>)
        ensures
            r@ == self@,
    {
        let mut r: Vec<UnstakeEntry> = Vec::new();
        let mut i: usize = 0;
        while i < self.entries.len()
            invariant
                i <= self.entries@.len(),
                r@ == self.entries@.subrange(0, i as int),
            decreases self.entries@.len() - i,
        {
            r.push(self.entries[i]);
            i += 1;
            assert(r@ =~= self.entries@.subrange(0, i as int));
        }
        assert(r@ =~= self.entries@);
        r
    }

    /// Appends `(who, amount)` at the back; fails with `ExceededUnstakeQueueCapacity`, and
    /// leaves the queue as it was, when the queue is full.
    pub fn try_push(&mut self, who: AccountId, amount: Balance) -> (r: Result<(), Error>)
        requires
            old(self).wf(),
            amount > 0,
        ensures
            final(self).wf(),
            final(self).spec_capacity() == old(self).spec_capacity(),
            old(self)@.len() < old(self).spec_capacity() ==> r is Ok && final(self)@ == old(
                self,
            )@.push((who, amount)),
            old(self)@.len() >= old(self).spec_capacity() ==> r == Err::<(), Error>(
                Error::ExceededUnstakeQueueCapacity,
            ) && final(self)@ == old(self)@,
    {
        if self.entries.len() < self.capacity as usize {
            self.entries.push((who, amount));
            assert forall|i: int| 0 <= i < self@.len() implies #[trigger] self@[i].1 > 0 by {
                if i < old(self)@.len() {
                    assert(self@[i] == old(self)@[i]);
                }
            }
            Ok(())
        } else {
            Err(Error::ExceededUnstakeQueueCapacity)
        }
    }

    /// Removes the front entry and hands it back; `None`, with nothing changed, when the
    /// queue is empty.
    pub fn pop_front(&mut self) -> (r: Option<UnstakeEntry>)
        requires
            old(self).wf(),
        ensures
            final(self).wf(),
            final(self).spec_capacity() == old(self).spec_capacity(),
            old(self)@.len() > 0 ==> r == Some(old(self)@[0]) && final(self)@ == old(
                self,
            )@.drop_first(),
            old(self)@.len() == 0 ==> r is None && final(self)@ == old(self)@,
    {
        if self.entries.len() > 0 {
            let e = self.entries.remove(0);
            assert forall|i: int| 0 <= i < self@.len() implies #[trigger] self@[i].1 > 0 by {
                assert(self@[i] == old(self)@[i + 1]);
            }
            assert(self@ =~= old(self)@.drop_first());
            Some(e)
        } else {
            None
        }
    }
}

} // verus!
