//! Handle lifecycle: a registry of engine-owned objects.
//!
//! Every object that crosses the boundary is held in a registry and referred
//! to by an opaque handle. Creation allocates the handle and hands it to the
//! caller; the caller destroys it exactly once. Slots are never reused, so a
//! destroyed handle stays dead forever and use-after-destroy is a detectable
//! error (a failed lookup), never a wild access.

use vstd::prelude::*;

verus! {

/// A registry of objects of one kind, addressed by handle. A handle is an
/// index into the slot vector; a destroyed slot is left empty and never
/// reused.
pub struct Registry<T> {
    pub slots: Vec<Option<T>>,
}

impl<T> Registry<T> {
    /// The handle refers to an object that has been inserted and not yet
    /// destroyed.
    pub open spec fn live(self, h: usize) -> bool {
        h < self.slots@.len() && self.slots@[h as int] is Some
    }

    /// The object a live handle refers to.
    pub open spec fn value(self, h: usize) -> T
        recommends
            self.live(h),
    {
        self.slots@[h as int]->Some_0
    }

    /// An empty registry: no handle is live.
    pub fn new() -> (r: Registry<T>)
        ensures
            r.slots@.len() == 0,
            forall|h: usize| !r.live(h),
    {
        Registry { slots: Vec::new() }
    }

    /// Store an object and transfer ownership of the fresh handle to the
    /// caller. Every other handle keeps its state and its object.
    pub fn insert(&mut self, v: T) -> (h: usize)
        ensures
            final(self).live(h),
            final(self).value(h) == v,
            !old(self).live(h),
            final(self).slots@.len() == old(self).slots@.len() + 1,
            forall|h2: usize|
                h2 != h ==> final(self).live(h2) == old(self).live(h2),
            forall|h2: usize|
                h2 != h && old(self).live(h2) ==> final(self).value(h2) == old(self).value(h2),
    {
        let h = self.slots.len();
        self.slots.push(Some(v));
        h
    }

    /// Borrow the object behind a handle: the object for a live handle,
    /// nothing for a dead or never-issued one.
    pub fn get(&self, h: usize) -> (r: Option<&T>)
        ensures
            self.live(h) ==> r == Some(&self.value(h)),
            !self.live(h) ==> r is None,
    {
        if h < self.slots.len() {
            match &self.slots[h] {
                Some(v) => Some(v),
                None => None,
            }
        } else {
            None
        }
    }

    /// Mutably borrow the object behind a live handle.
    pub fn borrow_mut(&mut self, h: usize) -> (r: &mut T)
        requires
            old(self).live(h),
        ensures
            *r == old(self).value(h),
            final(self).slots@ == old(self).slots@.update(h as int, Some(*final(r))),
            final(self).live(h),
    {
        let slot = &mut self.slots[h];
        match slot {
            Some(v) => v,
            None => vstd::pervasive::unreached(),
        }
    }

    /// Destroy the object behind a handle. Destroying a live handle empties
    /// its slot and reports `true`; destroying a dead or never-issued handle
    /// is a no-op reporting `false`. Either way no other handle changes, and
    /// the handle is dead afterwards — a later destroy of the same handle is
    /// again a no-op.
    pub fn destroy(&mut self, h: usize) -> (was_live: bool)
        ensures
            was_live == old(self).live(h),
            !final(self).live(h),
            final(self).slots@.len() == old(self).slots@.len(),
            forall|h2: usize|
                h2 != h ==> final(self).live(h2) == old(self).live(h2),
            forall|h2: usize|
                h2 != h && old(self).live(h2) ==> final(self).value(h2) == old(self).value(h2),
    {
        if h < self.slots.len() {
            let slot = &mut self.slots[h];
            let was = slot.is_some();
            *slot = None;
            was
        } else {
            false
        }
    }
}

} // verus!
