//! Handle-addressed generational storage.
//!
//! A `Handle` is a stable reference into an `Arena`: a slot index paired with
//! the generation the slot had when the value was stored.  A lookup succeeds
//! only while the slot still holds a value of that generation, so handles to
//! removed values are rejected instead of silently aliasing a newer value.

use vstd::prelude::*;

verus! {

/// A stable, generation-checked reference into an [`Arena`].
#[derive(Clone, Copy, PartialEq, Eq, Structural, Debug, Hash)]
pub struct Handle {
    pub index: usize,
    pub generation: u64,
}

struct Slot<T> {
    generation: u64,
    value: Option<T>,
}

/// A vector of generation-counted slots holding values of type `T`.
///
/// Insertion reuses freed slots (bumping their generation) before growing the
/// vector, and removal invalidates every handle issued for the old value.
pub struct Arena<T> {
    slots: Vec<Slot<T>>,
}

impl<T> Arena<T> {
    /// A handle refers to a live value: its slot exists, still carries the
    /// handle's generation, and is occupied.
    pub closed spec fn valid(&self, h: Handle) -> bool {
        &&& h.index < self.slots@.len()
        &&& self.slots@[h.index as int].generation == h.generation
        &&& self.slots@[h.index as int].value is Some
    }

    /// The value a live handle refers to.
    pub closed spec fn at(&self, h: Handle) -> T
        recommends
            self.valid(h),
    {
        self.slots@[h.index as int].value->Some_0
    }

    /// Number of slots ever allocated (live or free).
    pub closed spec fn slot_count(&self) -> nat {
        self.slots@.len()
    }

    /// The slot of `h` exists and matches the handle's generation but holds
    /// no value: the state [`Arena::take`] leaves behind.
    pub closed spec fn reserved(&self, h: Handle) -> bool {
        &&& h.index < self.slots@.len()
        &&& self.slots@[h.index as int].generation == h.generation
        &&& self.slots@[h.index as int].value is None
    }

    /// Every handle live in `self` is live in `other` with the same value.
    pub open spec fn preserved_in(&self, other: &Self) -> bool {
        forall|h: Handle| self.valid(h) ==> #[trigger] other.valid(h) && other.at(h) == self.at(h)
    }

    pub fn new() -> (a: Arena<T>)
        ensures
            a.slot_count() == 0,
            forall|h: Handle| !a.valid(h),
    {
        Arena { slots: Vec::new() }
    }

    /// Stores a value, reusing a freed slot when one is available.
    ///
    /// The returned handle is fresh: it was not valid before the call, and
    /// every previously live handle stays live with its value unchanged.
    pub fn add(&mut self, value: T) -> (h: Handle)
        ensures
            final(self).valid(h),
            final(self).at(h) == value,
            !old(self).valid(h),
            old(self).preserved_in(final(self)),
            forall|h2: Handle|
                final(self).valid(h2) && h2 != h ==> #[trigger] old(self).valid(h2)
                    && old(self).at(h2) == final(self).at(h2),
    {
        let mut i: usize = 0;
        while i < self.slots.len()
            invariant
                i <= self.slots@.len(),
                *self == *old(self),
                forall|j: int|
                    0 <= j < i ==> (#[trigger] self.slots@[j].value is Some
                        || self.slots@[j].generation == u64::MAX),
            decreases self.slots@.len() - i,
        {
            if self.slots[i].value.is_none() && self.slots[i].generation < u64::MAX {
                let generation = self.slots[i].generation + 1;
                self.slots[i] = Slot { generation, value: Some(value) };
                let h = Handle { index: i, generation };
                assert(forall|h2: Handle|
                    old(self).valid(h2) ==> #[trigger] final(self).valid(h2) && final(self).at(h2)
                        == old(self).at(h2));
                return h;
            }
            i = i + 1;
        }
        let index = self.slots.len();
        self.slots.push(Slot { generation: 0, value: Some(value) });
        Handle { index, generation: 0 }
    }

    /// Looks a handle up, rejecting handles whose generation is stale.
    pub fn get(&self, h: Handle) -> (r: Option<&T>)
        ensures
            match r {
                Some(v) => self.valid(h) && *v == self.at(h),
                None => !self.valid(h),
            },
    {
        if h.index < self.slots.len() {
            let slot = &self.slots[h.index];
            if slot.generation == h.generation {
                slot.value.as_ref()
            } else {
                None
            }
        } else {
            None
        }
    }

    /// Removes the value a live handle refers to and invalidates the handle.
    ///
    /// A stale or never-issued handle removes nothing and returns `None`.
    pub fn remove(&mut self, h: Handle) -> (r: Option<T>)
        ensures
            match r {
                Some(v) => old(self).valid(h) && v == old(self).at(h),
                None => !old(self).valid(h),
            },
            !final(self).valid(h),
            forall|h2: Handle|
                old(self).valid(h2) && h2 != h ==> #[trigger] final(self).valid(h2)
                    && final(self).at(h2) == old(self).at(h2),
            forall|h2: Handle| final(self).valid(h2) ==> #[trigger] old(self).valid(h2),
            final(self).slot_count() == old(self).slot_count(),
    {
        if h.index < self.slots.len() {
            if self.slots[h.index].generation == h.generation {
                let slot = &mut self.slots[h.index];
                let taken = slot.value.take();
                if taken.is_some() && slot.generation < u64::MAX {
                    slot.generation = slot.generation + 1;
                }
                taken
            } else {
                None
            }
        } else {
            None
        }
    }

    /// Takes the value out of a live slot, leaving the slot reserved for
    /// [`Arena::put`] under the same handle.
    pub(crate) fn take(&mut self, h: Handle) -> (v: T)
        requires
            old(self).valid(h),
        ensures
            v == old(self).at(h),
            final(self).reserved(h),
            final(self).slot_count() == old(self).slot_count(),
            forall|h2: Handle|
                old(self).valid(h2) && h2 != h ==> #[trigger] final(self).valid(h2)
                    && final(self).at(h2) == old(self).at(h2),
            forall|h2: Handle| final(self).valid(h2) ==> #[trigger] old(self).valid(h2),
    {
        let slot = &mut self.slots[h.index];
        slot.value.take().unwrap()
    }

    /// Restores a value taken with [`Arena::take`] under the same handle.
    pub(crate) fn put(&mut self, h: Handle, value: T)
        requires
            old(self).reserved(h),
        ensures
            final(self).valid(h),
            final(self).at(h) == value,
            final(self).slot_count() == old(self).slot_count(),
            forall|h2: Handle|
                old(self).valid(h2) ==> #[trigger] final(self).valid(h2) && final(self).at(h2)
                    == old(self).at(h2),
            forall|h2: Handle|
                final(self).valid(h2) && h2 != h ==> #[trigger] old(self).valid(h2),
    {
        let slot = &mut self.slots[h.index];
        slot.value = Some(value);
    }
}

} // verus!
