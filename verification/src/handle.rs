//! The handle lifecycle manager.
//!
//! A [`HandleTable`] owns the objects that callers know only by [`Handle`].
//! A handle is valid from the `create` that issued it until the one `destroy`
//! that retires it; a retired handle is never valid again, also when its slot is
//! given to a later object, because each slot counts its occupants.

use vstd::prelude::*;

verus! {

/// An opaque name for an object in a [`HandleTable`]: the slot, and which
/// occupant of that slot is meant.
#[derive(Clone, Copy, Debug, PartialEq, Eq, Structural)]
pub struct Handle {
    pub index: usize,
    pub generation: u64,
}

impl Handle {
    /// The handle that names nothing.
    pub open spec fn spec_null() -> Handle {
        Handle { index: usize::MAX, generation: u64::MAX }
    }

    /// The handle that names nothing: no table ever issues it.
    #[verifier::when_used_as_spec(spec_null)]
    pub fn null() -> (handle: Handle)
        ensures
            handle == Handle::null(),
    {
        Handle { index: usize::MAX, generation: u64::MAX }
    }

    pub fn is_null(&self) -> (null: bool)
        ensures
            null == (*self == Handle::null()),
    {
        self.index == usize::MAX && self.generation == u64::MAX
    }
}

/// What a table stands for: the objects that are alive, each under its handle,
/// and the handles that were issued once and have been retired since.
pub struct Ledger<T> {
    pub live: Map<Handle, T>,
    pub spent: Set<Handle>,
}

impl<T> Ledger<T> {
    /// No handle is both alive and retired, and the null handle is neither.
    pub open spec fn wf(self) -> bool {
        &&& forall|h: Handle| !(#[trigger] self.live.dom().contains(h) && self.spent.contains(h))
        &&& !self.live.dom().contains(Handle::null())
        &&& !self.spent.contains(Handle::null())
    }

    /// `h` has never been issued.
    pub open spec fn is_fresh(self, h: Handle) -> bool {
        &&& h != Handle::null()
        &&& !self.live.dom().contains(h)
        &&& !self.spent.contains(h)
    }

    /// The ledger after `value` came alive under `h`.
    pub open spec fn create(self, h: Handle, value: T) -> Ledger<T> {
        Ledger { live: self.live.insert(h, value), spent: self.spent }
    }

    /// The ledger after `h` was retired.
    pub open spec fn destroy(self, h: Handle) -> Ledger<T> {
        Ledger { live: self.live.remove(h), spent: self.spent.insert(h) }
    }
}

struct Slot<T> {
    /// How many occupants this slot has seen leave.
    generation: u64,
    value: Option<T>,
}

/// Owner of the objects that cross the boundary as handles.
pub struct HandleTable<T> {
    slots: Vec<Slot<T>>,
    /// Empty slots that may take another occupant.
    free: Vec<usize>,
}

impl<T> View for HandleTable<T> {
    type V = Ledger<T>;

    closed spec fn view(&self) -> Ledger<T> {
        Ledger {
            live: Map::new(|h: Handle| self.occupies(h), |h: Handle| self.slots@[h.index as int].value->0),
            spent: Set::new(|h: Handle| self.has_left(h)),
        }
    }
}

impl<T> HandleTable<T> {
    /// `h` names the present occupant of its slot.
    closed spec fn occupies(&self, h: Handle) -> bool {
        &&& h.index < self.slots@.len()
        &&& self.slots@[h.index as int].generation == h.generation
        &&& self.slots@[h.index as int].value is Some
    }

    /// `h` names an earlier occupant of its slot.
    closed spec fn has_left(&self, h: Handle) -> bool {
        &&& h.index < self.slots@.len()
        &&& h.generation < self.slots@[h.index as int].generation
    }

    /// The table's invariant: an occupied slot can still count its occupant's
    /// leaving, and the free list names each reusable empty slot at most once.
    pub closed spec fn wf(&self) -> bool {
        &&& forall|i: int|
            0 <= i < self.slots@.len() && (#[trigger] self.slots@[i]).value is Some
                ==> self.slots@[i].generation < u64::MAX
        &&& forall|k: int|
            0 <= k < self.free@.len() ==> {
                &&& (#[trigger] self.free@[k]) < self.slots@.len()
                &&& self.slots@[self.free@[k] as int].value is None
                &&& self.slots@[self.free@[k] as int].generation < u64::MAX
            }
        &&& forall|j: int, k: int|
            0 <= j < k < self.free@.len() ==> self.free@[j] != self.free@[k]
    }

    /// A well-formed table stands for a well-formed ledger.
    pub proof fn lemma_view_wf(&self)
        requires
            self.wf(),
        ensures
            self@.wf(),
    {
    }

    /// A table with nothing alive and nothing retired.
    pub fn new() -> (table: HandleTable<T>)
        ensures
            table.wf(),
            table@.live == Map::<Handle, T>::empty(),
            table@.spent == Set::<Handle>::empty(),
    {
        let table = HandleTable { slots: Vec::new(), free: Vec::new() };
        assert(table@.live =~= Map::<Handle, T>::empty());
        assert(table@.spent =~= Set::<Handle>::empty());
        table
    }

    /// Whether `h` is alive in this table.
    pub fn contains(&self, h: Handle) -> (alive: bool)
        ensures
            alive == self@.live.dom().contains(h),
    {
        h.index < self.slots.len() && self.slots[h.index].generation == h.generation
            && self.slots[h.index].value.is_some()
    }

    /// The object that `h` names.
    pub fn get(&self, h: Handle) -> (value: &T)
        requires
            self@.live.dom().contains(h),
        ensures
            *value == self@.live[h],
    {
        self.slots[h.index].value.as_ref().unwrap()
    }

    /// Takes ownership of `value` and issues the handle under which it lives
    /// from now on: one that was never issued before.
    pub fn create(&mut self, value: T) -> (h: Handle)
        requires
            old(self).wf(),
        ensures
            final(self).wf(),
            old(self)@.is_fresh(h),
            final(self)@ == old(self)@.create(h, value),
    {
        let h = match self.free.pop() {
            Some(i) => {
                let generation: u64 = self.slots[i].generation;
                self.slots.set(i, Slot { generation, value: Some(value) });
                Handle { index: i, generation }
            },
            None => {
                let i: usize = self.slots.len();
                self.slots.push(Slot { generation: 0, value: Some(value) });
                Handle { index: i, generation: 0 }
            },
        };
        assert(self@.live =~= old(self)@.live.insert(h, value));
        assert(self@.spent =~= old(self)@.spent);
        h
    }

    /// Retires `h` and hands back the object that it named.  `h` must be
    /// alive: test [`HandleTable::contains`] where that is not known.
    pub fn destroy(&mut self, h: Handle) -> (value: T)
        requires
            old(self).wf(),
            old(self)@.live.dom().contains(h),
        ensures
            final(self).wf(),
            value == old(self)@.live[h],
            final(self)@ == old(self)@.destroy(h),
    {
        let i: usize = h.index;
        let mut slot = Slot { generation: h.generation + 1, value: None };
        self.slots.set_and_swap(i, &mut slot);
        if h.generation + 1 < u64::MAX {
            self.free.push(i);
        }
        assert(self@.live =~= old(self)@.live.remove(h));
        assert(self@.spent =~= old(self)@.spent.insert(h));
        slot.value.unwrap()
    }
}

/// Destroying what was just created leaves alive exactly what was alive before,
/// so nothing leaks, and the handle that was used is retired.
pub proof fn lemma_destroy_undoes_create<T>(ledger: Ledger<T>, h: Handle, value: T)
    requires
        ledger.wf(),
        ledger.is_fresh(h),
    ensures
        ledger.create(h, value).wf(),
        ledger.create(h, value).live[h] == value,
        ledger.create(h, value).destroy(h).wf(),
        ledger.create(h, value).destroy(h).live == ledger.live,
        ledger.create(h, value).destroy(h).spent == ledger.spent.insert(h),
{
    assert(ledger.create(h, value).destroy(h).live =~= ledger.live);
}

/// A retired handle stays retired: it is not alive, so it cannot be destroyed a
/// second time, and no later `create` or `destroy` brings it back.
pub proof fn lemma_spent_is_final<T>(ledger: Ledger<T>, h: Handle)
    requires
        ledger.wf(),
        ledger.spent.contains(h),
    ensures
        !ledger.live.dom().contains(h),
        !ledger.is_fresh(h),
        forall|g: Handle, value: T|
            ledger.is_fresh(g) ==> {
                &&& (#[trigger] ledger.create(g, value)).spent.contains(h)
                &&& !ledger.create(g, value).live.dom().contains(h)
            },
        forall|g: Handle|
            ledger.live.dom().contains(g) ==> {
                &&& (#[trigger] ledger.destroy(g)).spent.contains(h)
                &&& !ledger.destroy(g).live.dom().contains(h)
            },
{
}

/// The null handle is never alive.
pub proof fn lemma_null_is_never_live<T>(ledger: Ledger<T>)
    requires
        ledger.wf(),
    ensures
        !ledger.live.dom().contains(Handle::null()),
        forall|g: Handle, value: T|
            ledger.is_fresh(g) ==> !(#[trigger] ledger.create(g, value)).live.dom().contains(
                Handle::null(),
            ),
{
}

} // verus!
