//! A generation-checked arena of records addressed by handles.
//!
//! Shared data — surface buffers, scene nodes, scenes — lives in pools and
//! is reached through [`Handle`]s: an index plus the generation the slot had
//! when the record was put in.  Freeing a record bumps the slot's
//! generation, so a stale handle to a freed record can never resolve to a
//! later occupant.  Slots are not reused; the pool is an arena scoped to one
//! load phase.
//!
//! The pool's view is the sequence of its slots' payloads.

use vstd::prelude::*;

verus! {

/// Reference into a [`Pool`]: a slot index and the generation the slot is
/// expected to carry.  `Handle::none()` matches no slot of any pool.
#[derive(Clone, Copy, Debug, PartialEq, Eq, Structural)]
pub struct Handle {
    /// Index of the slot within the pool.
    pub index: usize,
    /// Generation the slot had when the handle was made; generation `0` is
    /// never live.
    pub generation: u64,
}

impl Handle {
    /// The handle that resolves to nothing.
    pub fn none() -> (r: Handle)
        ensures
            r == Handle::none_spec(),
    {
        Handle { index: 0, generation: 0 }
    }

    /// Spec form of [`Handle::none`].
    pub open spec fn none_spec() -> Handle {
        Handle { index: 0, generation: 0 }
    }

    /// True exactly for the none handle.
    pub fn is_none(&self) -> (r: bool)
        ensures
            r == (*self == Handle::none_spec()),
    {
        self.index == 0 && self.generation == 0
    }
}

/// One pool slot: its current generation and, while occupied, its payload.
#[derive(Debug)]
struct Slot<T> {
    generation: u64,
    payload: Option<T>,
}

/// A generation-checked arena.
#[derive(Debug)]
pub struct Pool<T> {
    slots: Vec<Slot<T>>,
}

impl<T> View for Pool<T> {
    type V = Seq<Option<T>>;

    closed spec fn view(&self) -> Seq<Option<T>> {
        self.slots@.map_values(|s: Slot<T>| s.payload)
    }
}

impl<T> Pool<T> {
    /// Generations are positive, so no live handle equals `Handle::none()`.
    pub closed spec fn wf(self) -> bool {
        forall|i: int| 0 <= i < self.slots@.len() ==> (#[trigger] self.slots@[i]).generation >= 1
    }

    /// `h` resolves to an occupied slot of matching generation.
    pub closed spec fn valid(self, h: Handle) -> bool {
        &&& h.index < self.slots@.len()
        &&& self.slots@[h.index as int].generation == h.generation
        &&& self.slots@[h.index as int].payload is Some
    }

    /// The payload `h` resolves to.
    pub open spec fn at(self, h: Handle) -> T
        recommends
            self.valid(h),
    {
        self@[h.index as int].unwrap()
    }

    /// In a well-formed pool the none handle resolves to nothing.
    pub proof fn lemma_none_invalid(self)
        requires
            self.wf(),
        ensures
            !self.valid(Handle::none_spec()),
    {
    }

    /// A valid handle points at an occupied slot of the view.
    pub proof fn lemma_valid_view(self, h: Handle)
        requires
            self.valid(h),
        ensures
            h.index < self@.len(),
            self@[h.index as int] == Some(self.at(h)),
    {
    }

    /// Creates an empty pool.
    pub fn new() -> (r: Pool<T>)
        ensures
            r@ == Seq::<Option<T>>::empty(),
            r.wf(),
    {
        let r = Pool { slots: Vec::new() };
        proof {
            assert(r@ =~= Seq::<Option<T>>::empty());
        }
        r
    }

    /// Number of slots, occupied or freed.
    pub fn slot_count(&self) -> (r: usize)
        ensures
            r == self@.len(),
    {
        self.slots.len()
    }

    /// Puts a record into a fresh slot and hands back the only handle that
    /// resolves to it.
    pub fn spawn(&mut self, payload: T) -> (h: Handle)
        requires
            old(self).wf(),
        ensures
            final(self).wf(),
            final(self)@ == old(self)@.push(Some(payload)),
            final(self).valid(h),
            final(self).at(h) == payload,
            h.index == old(self)@.len(),
            forall|g: Handle| old(self).valid(g) ==> final(self).valid(g) && final(self).at(g)
                == old(self).at(g),
    {
        let index = self.slots.len();
        self.slots.push(Slot { generation: 1, payload: Some(payload) });
        proof {
            assert(self@ =~= old(self)@.push(Some(payload)));
        }
        Handle { index, generation: 1 }
    }

    /// Looks at a slot by raw index: while the slot is occupied, its
    /// payload together with the live handle that resolves to it.
    pub fn entry_at(&self, index: usize) -> (r: Option<(Handle, &T)>)
        requires
            index < self@.len(),
        ensures
            match r {
                Some(entry) => {
                    &&& self@[index as int] == Some(*entry.1)
                    &&& self.valid(entry.0)
                    &&& entry.0.index == index
                    &&& self.at(entry.0) == *entry.1
                },
                None => self@[index as int] is None,
            },
    {
        let slot = &self.slots[index];
        match &slot.payload {
            Some(t) => Some((Handle { index, generation: slot.generation }, t)),
            None => None,
        }
    }

    /// Resolves a handle: the payload if the handle is valid for this pool,
    /// nothing otherwise.
    pub fn borrow(&self, h: &Handle) -> (r: Option<&T>)
        ensures
            match r {
                Some(t) => self.valid(*h) && *t == self.at(*h),
                None => !self.valid(*h),
            },
    {
        if h.index < self.slots.len() {
            let slot = &self.slots[h.index];
            if slot.generation == h.generation {
                match &slot.payload {
                    Some(t) => Some(t),
                    None => None,
                }
            } else {
                None
            }
        } else {
            None
        }
    }

    /// Frees the record a valid handle points at: the slot is emptied and
    /// its generation bumped, so every handle to it goes stale.  An invalid
    /// handle frees nothing.
    pub fn free(&mut self, h: &Handle)
        requires
            old(self).wf(),
        ensures
            final(self).wf(),
            final(self)@.len() == old(self)@.len(),
            old(self).valid(*h) ==> final(self)@ == old(self)@.update(
                h.index as int,
                None::<T>,
            ),
            !old(self).valid(*h) ==> final(self)@ == old(self)@,
            !final(self).valid(*h),
            forall|g: Handle| old(self).valid(g) && g.index != h.index ==> final(self).valid(g)
                && final(self).at(g) == old(self).at(g),
    {
        if h.index < self.slots.len() {
            let slot = &self.slots[h.index];
            if slot.generation == h.generation && slot.payload.is_some() {
                let generation = slot.generation;
                if generation < u64::MAX {
                    self.slots[h.index] = Slot { generation: generation + 1, payload: None };
                } else {
                    self.slots[h.index] = Slot { generation, payload: None };
                }
                proof {
                    assert(self@ =~= old(self)@.update(h.index as int, None::<T>));
                }
            } else {
                proof {
                    assert(self@ =~= old(self)@);
                }
            }
        } else {
            proof {
                assert(self@ =~= old(self)@);
            }
        }
    }
}

} // verus!
