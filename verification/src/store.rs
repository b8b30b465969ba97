//! The backing store: one slot per cell family.
//!
//! A slot is the shared unit of truth behind a family of strong and weak
//! handles: it holds the optional value, the outstanding access state and
//! the number of strong owners. The store is the explicit heap those slots
//! live in; every handle operation takes it as a parameter, so the whole
//! access discipline is visible to the verifier.

use vstd::prelude::*;

verus! {

/// The access state of a slot: free, shared by `n > 0` readers, or held
/// exclusively by one writer.
#[derive(Clone, Copy, Debug)]
pub enum AccessState {
    /// No access is outstanding.
    Free,
    /// `n` shared (read) accesses are outstanding.
    Shared(u64),
    /// One exclusive (write) access is outstanding.
    Exclusive,
}

impl AccessState {
    /// A shared count is never stored as zero.
    pub open spec fn is_wf(self) -> bool {
        self matches AccessState::Shared(n) ==> n > 0
    }

    /// A new shared access cannot be granted: an exclusive access is out.
    pub open spec fn blocks_shared(self) -> bool {
        self is Exclusive
    }

    /// A new exclusive access cannot be granted: some access is out.
    pub open spec fn blocks_exclusive(self) -> bool {
        !(self is Free)
    }

    /// There is room to count one more shared access.
    pub open spec fn room_for_shared(self) -> bool {
        self matches AccessState::Shared(n) ==> n < u64::MAX
    }

    /// The state after granting one more shared access.
    pub open spec fn one_more_shared(self) -> AccessState {
        match self {
            AccessState::Free => AccessState::Shared(1),
            AccessState::Shared(n) => AccessState::Shared((n + 1) as u64),
            AccessState::Exclusive => AccessState::Exclusive,
        }
    }

    /// The state after releasing one shared access.
    pub open spec fn one_less_shared(self) -> AccessState {
        match self {
            AccessState::Shared(n) => if n <= 1 {
                AccessState::Free
            } else {
                AccessState::Shared((n - 1) as u64)
            },
            _ => AccessState::Free,
        }
    }
}

/// One slot: an optional value, its access state, and how many strong
/// owners currently keep it alive.
pub struct Slot<T> {
    /// The value, or nothing.
    pub value: Option<T>,
    /// The outstanding accesses over the value.
    pub access: AccessState,
    /// The number of strong owners; zero means the slot is dead.
    pub strong: u64,
}

impl<T> Slot<T> {
    /// The slot invariant: shared counts are positive, any outstanding
    /// access implies a present value, and a dead slot is empty and free.
    pub open spec fn wf(self) -> bool {
        &&& self.access.is_wf()
        &&& self.access.blocks_exclusive() ==> self.value is Some
        &&& self.strong == 0 ==> self.value is None && self.access is Free
    }

    /// At least one strong owner remains.
    pub open spec fn live(self) -> bool {
        self.strong > 0
    }

    /// The same slot with another value.
    pub open spec fn with_value(self, v: Option<T>) -> Slot<T> {
        Slot { value: v, ..self }
    }

    /// The same slot with another access state.
    pub open spec fn with_access(self, a: AccessState) -> Slot<T> {
        Slot { access: a, ..self }
    }

    /// The same slot with another strong count.
    pub open spec fn with_strong(self, n: u64) -> Slot<T> {
        Slot { strong: n, ..self }
    }

    /// A dead slot: no owners, no value, no access.
    pub open spec fn dead() -> Slot<T> {
        Slot { value: None, access: AccessState::Free, strong: 0 }
    }

    /// The slot after one strong owner is given up: dead when it was the
    /// last one, else the same slot with one owner fewer.
    pub open spec fn after_drop(self) -> Slot<T> {
        if self.strong == 1 {
            Slot::dead()
        } else {
            self.with_strong((self.strong - 1) as u64)
        }
    }
}

/// The explicit heap of slots backing a set of cell families. Slots are
/// never removed; a slot whose last strong owner is gone is marked dead and
/// emptied.
pub struct CellStore<T> {
    slots: Vec<Slot<T>>,
}

impl<T> View for CellStore<T> {
    type V = Seq<Slot<T>>;

    closed spec fn view(&self) -> Seq<Slot<T>> {
        self.slots@
    }
}

impl<T> CellStore<T> {
    /// Every slot satisfies the slot invariant.
    pub open spec fn wf(self) -> bool {
        forall|i: int| 0 <= i < self@.len() ==> (#[trigger] self@[i]).wf()
    }

    /// An empty store.
    pub fn new() -> (s: CellStore<T>)
        ensures
            s@ == Seq::<Slot<T>>::empty(),
            s.wf(),
    {
        CellStore { slots: Vec::new() }
    }

    /// Appends a fresh live slot holding `value`, free of accesses and with
    /// one strong owner, and returns its index.
    pub(crate) fn alloc_slot(&mut self, value: Option<T>) -> (id: usize)
        ensures
            id == old(self)@.len(),
            final(self)@ == old(self)@.push(
                Slot { value, access: AccessState::Free, strong: 1 },
            ),
    {
        let id = self.slots.len();
        self.slots.push(Slot { value, access: AccessState::Free, strong: 1 });
        id
    }

    /// A shared view of one slot.
    pub(crate) fn slot_ref(&self, id: usize) -> (r: &Slot<T>)
        requires
            id < self@.len(),
        ensures
            *r == self@[id as int],
    {
        &self.slots[id]
    }

    /// An exclusive view of one slot; the store afterwards is the store
    /// before with that slot replaced by whatever the caller left behind.
    pub(crate) fn slot_mut(&mut self, id: usize) -> (r: &mut Slot<T>)
        requires
            id < old(self)@.len(),
        ensures
            *r == old(self)@[id as int],
            final(self)@ == old(self)@.update(id as int, *final(r)),
    {
        &mut self.slots[id]
    }
}

/// Replacing a well-formed slot of a well-formed store keeps the store
/// well-formed.
pub proof fn lemma_wf_update<T>(s0: Seq<Slot<T>>, id: int, slot: Slot<T>)
    requires
        forall|i: int| 0 <= i < s0.len() ==> (#[trigger] s0[i]).wf(),
        0 <= id < s0.len(),
        slot.wf(),
    ensures
        forall|i: int| 0 <= i < s0.update(id, slot).len() ==> (#[trigger] s0.update(id, slot)[i]).wf(),
{
    assert forall|i: int| 0 <= i < s0.update(id, slot).len() implies (#[trigger] s0.update(
        id,
        slot,
    )[i]).wf() by {
        if i != id {
            assert(s0.update(id, slot)[i] == s0[i]);
        }
    }
}

} // verus!
