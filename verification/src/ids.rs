//! Identity allocator: issues process-lifetime-unique, strictly increasing
//! session identities.

use vstd::prelude::*;

verus! {

/// Issues strictly increasing session identities, starting at 1.
///
/// The ghost set `issued` records every identity handed out so far; the
/// type invariant keeps every issued identity strictly below the counter,
/// so a fresh identity can never collide with an earlier one.
pub struct IdAllocator {
    next_id: usize,
    issued: Ghost<Set<usize>>,
}

impl IdAllocator {
    /// The set of identities this allocator has handed out.
    pub closed spec fn issued_ids(&self) -> Set<usize> {
        self.issued@
    }

    /// The value the next call to `next` will return.
    pub closed spec fn counter(&self) -> nat {
        self.next_id as nat
    }

    /// Every issued identity lies strictly below the counter, and the
    /// counter never falls below its initial value 1. Holds of every
    /// `IdAllocator` at all times.
    #[verifier::type_invariant]
    pub open spec fn wf(&self) -> bool {
        &&& 1 <= self.counter()
        &&& forall|i: usize| self.issued_ids().contains(i) ==> (i as nat) < self.counter()
    }

    /// A fresh allocator: counter at 1, nothing issued yet.
    pub fn new() -> (r: Self)
        ensures
            r.counter() == 1,
            r.issued_ids() == Set::<usize>::empty(),
    {
        IdAllocator { next_id: 1, issued: Ghost(Set::empty()) }
    }

    /// Whether the identity space is used up: the counter can no longer
    /// advance, so no further identity may be drawn.
    pub fn exhausted(&self) -> (r: bool)
        ensures
            r == (self.counter() == usize::MAX as nat),
    {
        self.next_id == usize::MAX
    }

    /// Issues the next identity: returns the current counter value and
    /// advances the counter.
    ///
    /// The returned identity is distinct from every identity issued before,
    /// and is never issued again: identities are unique for the allocator's
    /// lifetime.
    pub fn next(&mut self) -> (id: usize)
        requires
            old(self).counter() < usize::MAX,
        ensures
            id as nat == old(self).counter(),
            final(self).counter() == old(self).counter() + 1,
            !old(self).issued_ids().contains(id),
            final(self).issued_ids() == old(self).issued_ids().insert(id),
    {
        proof {
            use_type_invariant(&*self);
        }
        let id = self.next_id;
        let ghost new_issued = self.issued@.insert(id);
        proof {
            assert forall|i: usize| new_issued.contains(i) implies (i as nat) < id + 1 by {
                if i != id {
                    assert(self.issued_ids().contains(i));
                }
            }
        }
        *self = IdAllocator { next_id: id + 1, issued: Ghost(new_issued) };
        id
    }
}

/// Identity uniqueness across successive allocations: `next` returns an
/// identity outside the issued set and inserts it, so an identity issued
/// from the resulting state can never equal an earlier one. Applied along a
/// chain of allocations this gives pairwise-distinct identities for the
/// allocator's lifetime.
pub proof fn lemma_allocation_distinct(issued: Set<usize>, first: usize, second: usize)
    requires
        !issued.contains(first),
        !issued.insert(first).contains(second),
    ensures
        first != second,
{
}

} // verus!
