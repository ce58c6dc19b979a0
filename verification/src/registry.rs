//! The instance registry.
//!
//! A caller across the bridge boundary holds only an integer handle.
//! Instead of handing out a raw address, the registry maps stable
//! nonzero identifiers to owned instances, so a stale, reused or
//! already-released handle is detected and rejected rather than
//! reaching freed memory.  Zero is the reserved sentinel: it is never
//! allocated, creation reports failure by returning it, and releasing
//! it is a safe no-op.

use vstd::prelude::*;

use std::collections::HashMap;

verus! {

broadcast use vstd::std_specs::hash::group_hash_axioms;

/// Maps live handles to the instances they identify.
pub struct HandleRegistry<T> {
    next: u64,
    table: HashMap<u64, T>,
}

impl<T> View for HandleRegistry<T> {
    type V = Map<u64, T>;

    closed spec fn view(&self) -> Map<u64, T> {
        self.table@
    }
}

impl<T> HandleRegistry<T> {
    /// The registry's invariant: zero is never a live handle, and every
    /// live handle was allocated below the next fresh one.
    pub closed spec fn wf(&self) -> bool {
        &&& !self@.dom().contains(0u64)
        &&& self.next >= 1
        &&& forall|h: u64| self@.dom().contains(h) ==> h < self.next
    }

    /// Whether a fresh handle can still be allocated.
    pub closed spec fn can_allocate(&self) -> bool {
        self.next < u64::MAX
    }

    pub fn new() -> (r: Self)
        ensures
            r.wf(),
            r@ == Map::<u64, T>::empty(),
            r.can_allocate(),
    {
        HandleRegistry { next: 1, table: HashMap::new() }
    }

    /// Stores an instance and returns its fresh handle, or the zero
    /// sentinel once the handle space is exhausted.
    pub fn create(&mut self, v: T) -> (h: u64)
        requires
            old(self).wf(),
        ensures
            final(self).wf(),
            h == 0 <==> !old(self).can_allocate(),
            h != 0 ==> !old(self)@.dom().contains(h) && final(self)@ == old(self)@.insert(h, v),
            h == 0 ==> final(self)@ == old(self)@,
    {
        if self.next == u64::MAX {
            return 0;
        }
        let h = self.next;
        self.next = self.next + 1;
        self.table.insert(h, v);
        h
    }

    /// The instance a handle identifies, if it is live.
    pub fn resolve(&self, h: u64) -> (r: Option<&T>)
        ensures
            match r {
                Some(v) => self@.dom().contains(h) && self@[h] == *v,
                None => !self@.dom().contains(h),
            },
    {
        self.table.get(&h)
    }

    /// Removes a handle and returns the instance it identified, so the
    /// caller reclaims it.  Releasing the zero sentinel, or a handle
    /// that is not live (already released, or never created), is a safe
    /// no-op that returns nothing.
    pub fn release(&mut self, h: u64) -> (r: Option<T>)
        requires
            old(self).wf(),
        ensures
            final(self).wf(),
            final(self).can_allocate() == old(self).can_allocate(),
            final(self)@ == old(self)@.remove(h),
            match r {
                Some(v) => old(self)@.dom().contains(h) && old(self)@[h] == v,
                None => !old(self)@.dom().contains(h),
            },
            h == 0 ==> final(self)@ == old(self)@ && r is None,
    {
        let r = self.table.remove(&h);
        proof {
            if !old(self)@.dom().contains(h) {
                assert(old(self)@.remove(h) =~= old(self)@);
            }
        }
        r
    }
}

/// Law: creating an instance and then releasing the handle it was given
/// leaves the registry exactly as it was — nothing of the instance is
/// retained.
pub proof fn lemma_create_then_release<T>(m: Map<u64, T>, h: u64, v: T)
    requires
        !m.dom().contains(h),
    ensures
        m.insert(h, v).remove(h) =~= m,
{
}

} // verus!
