//! The strong handle: a shared owner of one slot.

use core::marker::PhantomData;
use vstd::prelude::*;

use crate::store::AccessState;
use crate::store::CellStore;
use crate::outcome::outcome_value;
use crate::outcome::RcOCellComputeResult;
use crate::store::Slot;
use crate::errors::RcOCellBorrowError;
use crate::errors::RcOCellError;
use crate::store::lemma_wf_update;
use crate::weak::WeakRcOCell;

verus! {

/// A strong owner of a slot in a [`CellStore`]. As long as at least one
/// strong owner of a slot exists, the slot and its value (if any) are
/// alive. Handles of the same family are made with [`RcOCell::clone_cell`]
/// and given up with [`RcOCell::drop_cell`].
pub struct RcOCell<T> {
    pub(crate) id: usize,
    pub(crate) marker: PhantomData<T>,
}

/// A token for one outstanding shared (read) access over a slot's value.
/// It is released with [`SharedGuard::release`].
pub struct SharedGuard {
    pub(crate) id: usize,
}

/// A token for the one outstanding exclusive (write) access over a slot's
/// value. It is released with [`ExclusiveGuard::release`].
pub struct ExclusiveGuard {
    pub(crate) id: usize,
}

impl SharedGuard {
    /// The index of the slot this guard holds shared access over.
    pub open(crate) spec fn slot_id(self) -> int {
        self.id as int
    }
}

impl ExclusiveGuard {
    /// The index of the slot this guard holds exclusive access over.
    pub open(crate) spec fn slot_id(self) -> int {
        self.id as int
    }
}

impl<T> RcOCell<T> {
    /// The index of the slot this handle owns.
    pub open(crate) spec fn slot_id(self) -> int {
        self.id as int
    }

    /// The slot this handle owns, as the store sees it.
    pub open spec fn slot(self, store: CellStore<T>) -> Slot<T> {
        store@[self.slot_id()]
    }

    /// The handle points into the store and its slot is still kept alive by
    /// at least one strong owner. This holds for every handle obtained
    /// through the public constructors as long as its family is not fully
    /// dropped.
    pub open spec fn valid(self, store: CellStore<T>) -> bool {
        &&& 0 <= self.slot_id() < store@.len()
        &&& store@[self.slot_id()].live()
    }

    /// Constructs a cell over a fresh empty slot.
    pub fn new(store: &mut CellStore<T>) -> (c: RcOCell<T>)
        requires
            old(store).wf(),
        ensures
            final(store).wf(),
            c.slot_id() == old(store)@.len(),
            final(store)@ == old(store)@.push(
                Slot { value: None::<T>, access: AccessState::Free, strong: 1 },
            ),
            c.valid(*final(store)),
    {
        let id = store.alloc_slot(None);
        RcOCell { id, marker: PhantomData }
    }

    /// Constructs a cell over a fresh slot holding `value`.
    pub fn from_value(store: &mut CellStore<T>, value: T) -> (c: RcOCell<T>)
        requires
            old(store).wf(),
        ensures
            final(store).wf(),
            c.slot_id() == old(store)@.len(),
            final(store)@ == old(store)@.push(
                Slot { value: Some(value), access: AccessState::Free, strong: 1 },
            ),
            c.valid(*final(store)),
    {
        let id = store.alloc_slot(Some(value));
        RcOCell { id, marker: PhantomData }
    }

    /// Constructs a cell over a fresh slot holding `value`'s content, a
    /// value or nothing.
    pub fn from_option(store: &mut CellStore<T>, value: Option<T>) -> (c: RcOCell<T>)
        requires
            old(store).wf(),
        ensures
            final(store).wf(),
            c.slot_id() == old(store)@.len(),
            final(store)@ == old(store)@.push(
                Slot { value, access: AccessState::Free, strong: 1 },
            ),
            c.valid(*final(store)),
    {
        let id = store.alloc_slot(value);
        RcOCell { id, marker: PhantomData }
    }

    /// Reports whether the slot holds a value. Never fails: while an
    /// exclusive access is outstanding the value is reported present, since
    /// an access can only be held over a present value.
    pub fn is_some(&self, store: &CellStore<T>) -> (r: bool)
        requires
            store.wf(),
            self.valid(*store),
        ensures
            r == (self.slot(*store).value is Some),
    {
        match store.slot_ref(self.id).access {
            AccessState::Exclusive => true,
            _ => store.slot_ref(self.id).value.is_some(),
        }
    }

    /// Reports whether the slot is empty. Never fails.
    pub fn is_none(&self, store: &CellStore<T>) -> (r: bool)
        requires
            store.wf(),
            self.valid(*store),
        ensures
            r == (self.slot(*store).value is None),
    {
        !self.is_some(store)
    }

    /// Installs `value`, returning the value previously held, if any.
    /// The slot must be free of outstanding accesses.
    pub fn set(&self, store: &mut CellStore<T>, value: T) -> (r: Option<T>)
        requires
            old(store).wf(),
            self.valid(*old(store)),
            !self.slot(*old(store)).access.blocks_exclusive(),
        ensures
            final(store).wf(),
            r == self.slot(*old(store)).value,
            final(store)@ == old(store)@.update(
                self.slot_id(),
                self.slot(*old(store)).with_value(Some(value)),
            ),
    {
        let slot = store.slot_mut(self.id);
        let prev = slot.value.take();
        slot.value = Some(value);
        proof {
            lemma_wf_update(old(store)@, self.slot_id(), store@[self.slot_id()]);
        }
        prev
    }

    /// Installs `value`, returning the value previously held, if any; fails
    /// with an exclusive-access conflict if any access is outstanding.
    pub fn try_set(&self, store: &mut CellStore<T>, value: T) -> (r: Result<Option<T>, RcOCellError>)
        requires
            old(store).wf(),
            self.valid(*old(store)),
        ensures
            final(store).wf(),
            self.slot(*old(store)).access.blocks_exclusive() ==> r == Err::<Option<T>, RcOCellError>(
                RcOCellError::exclusive_denied(),
            ) && final(store)@ == old(store)@,
            !self.slot(*old(store)).access.blocks_exclusive() ==> r == Ok::<Option<T>, RcOCellError>(
                self.slot(*old(store)).value,
            ) && final(store)@ == old(store)@.update(
                self.slot_id(),
                self.slot(*old(store)).with_value(Some(value)),
            ),
    {
        match store.slot_ref(self.id).access {
            AccessState::Free => Ok(self.set(store, value)),
            _ => Err(RcOCellError::BorrowError(RcOCellBorrowError::Mut)),
        }
    }

    /// Empties the slot, returning the value previously held, if any.
    /// The slot must be free of outstanding accesses.
    pub fn clear(&self, store: &mut CellStore<T>) -> (r: Option<T>)
        requires
            old(store).wf(),
            self.valid(*old(store)),
            !self.slot(*old(store)).access.blocks_exclusive(),
        ensures
            final(store).wf(),
            r == self.slot(*old(store)).value,
            final(store)@ == old(store)@.update(
                self.slot_id(),
                self.slot(*old(store)).with_value(None),
            ),
    {
        let slot = store.slot_mut(self.id);
        let prev = slot.value.take();
        proof {
            lemma_wf_update(old(store)@, self.slot_id(), store@[self.slot_id()]);
        }
        prev
    }

    /// Empties the slot, returning the value previously held, if any; fails
    /// with an exclusive-access conflict if any access is outstanding.
    pub fn try_clear(&self, store: &mut CellStore<T>) -> (r: Result<Option<T>, RcOCellError>)
        requires
            old(store).wf(),
            self.valid(*old(store)),
        ensures
            final(store).wf(),
            self.slot(*old(store)).access.blocks_exclusive() ==> r == Err::<Option<T>, RcOCellError>(
                RcOCellError::exclusive_denied(),
            ) && final(store)@ == old(store)@,
            !self.slot(*old(store)).access.blocks_exclusive() ==> r == Ok::<Option<T>, RcOCellError>(
                self.slot(*old(store)).value,
            ) && final(store)@ == old(store)@.update(
                self.slot_id(),
                self.slot(*old(store)).with_value(None),
            ),
    {
        match store.slot_ref(self.id).access {
            AccessState::Free => Ok(self.clear(store)),
            _ => Err(RcOCellError::BorrowError(RcOCellBorrowError::Mut)),
        }
    }

    /// Fetches the value and empties the slot. The slot must hold a value
    /// and be free of outstanding accesses.
    pub fn get_and_clear(&self, store: &mut CellStore<T>) -> (r: T)
        requires
            old(store).wf(),
            self.valid(*old(store)),
            !self.slot(*old(store)).access.blocks_exclusive(),
            self.slot(*old(store)).value is Some,
        ensures
            final(store).wf(),
            r == self.slot(*old(store)).value->0,
            final(store)@ == old(store)@.update(
                self.slot_id(),
                self.slot(*old(store)).with_value(None),
            ),
    {
        let slot = store.slot_mut(self.id);
        let prev = slot.value.take();
        proof {
            lemma_wf_update(old(store)@, self.slot_id(), store@[self.slot_id()]);
        }
        prev.unwrap()
    }

    /// Fetches the value and empties the slot; fails with an
    /// exclusive-access conflict if any access is outstanding, else with
    /// `NoValue` if the slot is empty.
    pub fn try_get_and_clear(&self, store: &mut CellStore<T>) -> (r: Result<T, RcOCellError>)
        requires
            old(store).wf(),
            self.valid(*old(store)),
        ensures
            final(store).wf(),
            self.slot(*old(store)).access.blocks_exclusive() ==> r == Err::<T, RcOCellError>(
                RcOCellError::exclusive_denied(),
            ) && final(store)@ == old(store)@,
            !self.slot(*old(store)).access.blocks_exclusive() && self.slot(*old(store)).value is None
                ==> r == Err::<T, RcOCellError>(RcOCellError::NoValue) && final(store)@ == old(store)@,
            !self.slot(*old(store)).access.blocks_exclusive() && self.slot(*old(store)).value is Some
                ==> r == Ok::<T, RcOCellError>(self.slot(*old(store)).value->0) && final(store)@
                == old(store)@.update(self.slot_id(), self.slot(*old(store)).with_value(None)),
    {
        match store.slot_ref(self.id).access {
            AccessState::Free => {
                if store.slot_ref(self.id).value.is_none() {
                    Err(RcOCellError::NoValue)
                } else {
                    Ok(self.get_and_clear(store))
                }
            },
            _ => Err(RcOCellError::BorrowError(RcOCellBorrowError::Mut)),
        }
    }

    /// Installs `value`, returning the value previously held. The slot must
    /// hold a value and be free of outstanding accesses.
    pub fn replace(&self, store: &mut CellStore<T>, value: T) -> (r: T)
        requires
            old(store).wf(),
            self.valid(*old(store)),
            !self.slot(*old(store)).access.blocks_exclusive(),
            self.slot(*old(store)).value is Some,
        ensures
            final(store).wf(),
            r == self.slot(*old(store)).value->0,
            final(store)@ == old(store)@.update(
                self.slot_id(),
                self.slot(*old(store)).with_value(Some(value)),
            ),
    {
        let slot = store.slot_mut(self.id);
        let prev = slot.value.take();
        slot.value = Some(value);
        proof {
            lemma_wf_update(old(store)@, self.slot_id(), store@[self.slot_id()]);
        }
        prev.unwrap()
    }

    /// Installs `value`, returning the value previously held; fails with an
    /// exclusive-access conflict if any access is outstanding, else with
    /// `NoValue` if the slot is empty.
    pub fn try_replace(&self, store: &mut CellStore<T>, value: T) -> (r: Result<T, RcOCellError>)
        requires
            old(store).wf(),
            self.valid(*old(store)),
        ensures
            final(store).wf(),
            self.slot(*old(store)).access.blocks_exclusive() ==> r == Err::<T, RcOCellError>(
                RcOCellError::exclusive_denied(),
            ) && final(store)@ == old(store)@,
            !self.slot(*old(store)).access.blocks_exclusive() && self.slot(*old(store)).value is None
                ==> r == Err::<T, RcOCellError>(RcOCellError::NoValue) && final(store)@ == old(store)@,
            !self.slot(*old(store)).access.blocks_exclusive() && self.slot(*old(store)).value is Some
                ==> r == Ok::<T, RcOCellError>(self.slot(*old(store)).value->0) && final(store)@
                == old(store)@.update(
                self.slot_id(),
                self.slot(*old(store)).with_value(Some(value)),
            ),
    {
        match store.slot_ref(self.id).access {
            AccessState::Free => {
                if store.slot_ref(self.id).value.is_none() {
                    Err(RcOCellError::NoValue)
                } else {
                    Ok(self.replace(store, value))
                }
            },
            _ => Err(RcOCellError::BorrowError(RcOCellBorrowError::Mut)),
        }
    }

    /// Acquires a shared access over the value. The slot must hold a value
    /// and no exclusive access may be outstanding; further shared accesses
    /// may coexist.
    pub fn borrow(&self, store: &mut CellStore<T>) -> (g: SharedGuard)
        requires
            old(store).wf(),
            self.valid(*old(store)),
            !self.slot(*old(store)).access.blocks_shared(),
            self.slot(*old(store)).access.room_for_shared(),
            self.slot(*old(store)).value is Some,
        ensures
            final(store).wf(),
            g.slot_id() == self.slot_id(),
            final(store)@ == old(store)@.update(
                self.slot_id(),
                self.slot(*old(store)).with_access(
                    self.slot(*old(store)).access.one_more_shared(),
                ),
            ),
    {
        let slot = store.slot_mut(self.id);
        slot.access = match slot.access {
            AccessState::Free => AccessState::Shared(1),
            AccessState::Shared(n) => AccessState::Shared(n + 1),
            AccessState::Exclusive => AccessState::Exclusive,
        };
        proof {
            lemma_wf_update(old(store)@, self.slot_id(), store@[self.slot_id()]);
        }
        SharedGuard { id: self.id }
    }

    /// Acquires a shared access over the value; fails with a shared-access
    /// conflict if an exclusive access is outstanding, else with `NoValue`
    /// if the slot is empty.
    pub fn try_borrow(&self, store: &mut CellStore<T>) -> (r: Result<SharedGuard, RcOCellError>)
        requires
            old(store).wf(),
            self.valid(*old(store)),
            self.slot(*old(store)).access.room_for_shared(),
        ensures
            final(store).wf(),
            self.slot(*old(store)).access.blocks_shared() ==> r == Err::<SharedGuard, RcOCellError>(
                RcOCellError::shared_denied(),
            ) && final(store)@ == old(store)@,
            !self.slot(*old(store)).access.blocks_shared() && self.slot(*old(store)).value is None
                ==> r == Err::<SharedGuard, RcOCellError>(RcOCellError::NoValue) && final(store)@
                == old(store)@,
            !self.slot(*old(store)).access.blocks_shared() && self.slot(*old(store)).value is Some
                ==> (r matches Ok(g) && g.slot_id() == self.slot_id()) && final(store)@ == old(store)@.update(
                self.slot_id(),
                self.slot(*old(store)).with_access(
                    self.slot(*old(store)).access.one_more_shared(),
                ),
            ),
    {
        match store.slot_ref(self.id).access {
            AccessState::Exclusive => Err(
                RcOCellError::BorrowError(RcOCellBorrowError::Normal),
            ),
            _ => {
                if store.slot_ref(self.id).value.is_none() {
                    Err(RcOCellError::NoValue)
                } else {
                    Ok(self.borrow(store))
                }
            },
        }
    }

    /// Acquires the exclusive access over the value. The slot must hold a
    /// value and be free of any outstanding access.
    pub fn borrow_mut(&self, store: &mut CellStore<T>) -> (g: ExclusiveGuard)
        requires
            old(store).wf(),
            self.valid(*old(store)),
            !self.slot(*old(store)).access.blocks_exclusive(),
            self.slot(*old(store)).value is Some,
        ensures
            final(store).wf(),
            g.slot_id() == self.slot_id(),
            final(store)@ == old(store)@.update(
                self.slot_id(),
                self.slot(*old(store)).with_access(AccessState::Exclusive),
            ),
    {
        let slot = store.slot_mut(self.id);
        slot.access = AccessState::Exclusive;
        proof {
            lemma_wf_update(old(store)@, self.slot_id(), store@[self.slot_id()]);
        }
        ExclusiveGuard { id: self.id }
    }

    /// Acquires the exclusive access over the value; fails with an
    /// exclusive-access conflict if any access is outstanding, else with
    /// `NoValue` if the slot is empty.
    pub fn try_borrow_mut(&self, store: &mut CellStore<T>) -> (r: Result<
        ExclusiveGuard,
        RcOCellError,
    >)
        requires
            old(store).wf(),
            self.valid(*old(store)),
        ensures
            final(store).wf(),
            self.slot(*old(store)).access.blocks_exclusive() ==> r == Err::<
                ExclusiveGuard,
                RcOCellError,
            >(RcOCellError::exclusive_denied()) && final(store)@ == old(store)@,
            !self.slot(*old(store)).access.blocks_exclusive() && self.slot(*old(store)).value is None
                ==> r == Err::<ExclusiveGuard, RcOCellError>(RcOCellError::NoValue) && final(store)@ == old(store)@,
            !self.slot(*old(store)).access.blocks_exclusive() && self.slot(*old(store)).value is Some
                ==> (r matches Ok(g) && g.slot_id() == self.slot_id()) && final(store)@ == old(store)@.update(
                self.slot_id(),
                self.slot(*old(store)).with_access(AccessState::Exclusive),
            ),
    {
        match store.slot_ref(self.id).access {
            AccessState::Free => {
                if store.slot_ref(self.id).value.is_none() {
                    Err(RcOCellError::NoValue)
                } else {
                    Ok(self.borrow_mut(store))
                }
            },
            _ => Err(RcOCellError::BorrowError(RcOCellBorrowError::Mut)),
        }
    }

    /// Exchanges the values of two distinct cells. Both slots must be free
    /// of outstanding accesses; empty slots are exchanged like any others.
    pub fn swap(&self, store: &mut CellStore<T>, other: &RcOCell<T>)
        requires
            old(store).wf(),
            self.valid(*old(store)),
            other.valid(*old(store)),
            self.slot_id() != other.slot_id(),
            self.slot(*old(store)).access is Free,
            other.slot(*old(store)).access is Free,
        ensures
            final(store).wf(),
            final(store)@ == old(store)@.update(
                self.slot_id(),
                self.slot(*old(store)).with_value(other.slot(*old(store)).value),
            ).update(other.slot_id(), other.slot(*old(store)).with_value(self.slot(*old(store)).value)),
    {
        let a = store.slot_mut(self.id).value.take();
        let b = store.slot_mut(other.id).value.take();
        store.slot_mut(self.id).value = b;
        store.slot_mut(other.id).value = a;
        proof {
            assert(store@ =~= old(store)@.update(
                self.slot_id(),
                self.slot(*old(store)).with_value(other.slot(*old(store)).value),
            ).update(
                other.slot_id(),
                other.slot(*old(store)).with_value(self.slot(*old(store)).value),
            ));
            lemma_wf_update(
                old(store)@,
                self.slot_id(),
                self.slot(*old(store)).with_value(other.slot(*old(store)).value),
            );
            lemma_wf_update(
                old(store)@.update(
                    self.slot_id(),
                    self.slot(*old(store)).with_value(other.slot(*old(store)).value),
                ),
                other.slot_id(),
                other.slot(*old(store)).with_value(self.slot(*old(store)).value),
            );
        }
    }

    /// Exchanges the values of two distinct cells; fails with an
    /// exclusive-access conflict if and only if either slot has an
    /// outstanding access, and then neither value changes. Empty slots are
    /// exchanged like any others, exactly as in [`RcOCell::swap`].
    pub fn try_swap(&self, store: &mut CellStore<T>, other: &RcOCell<T>) -> (r: Result<
        (),
        RcOCellError,
    >)
        requires
            old(store).wf(),
            self.valid(*old(store)),
            other.valid(*old(store)),
            self.slot_id() != other.slot_id(),
        ensures
            final(store).wf(),
            self.slot(*old(store)).access.blocks_exclusive() || other.slot(
                *old(store),
            ).access.blocks_exclusive() ==> r == Err::<(), RcOCellError>(
                RcOCellError::exclusive_denied(),
            ) && final(store)@ == old(store)@,
            !self.slot(*old(store)).access.blocks_exclusive() && !other.slot(
                *old(store),
            ).access.blocks_exclusive() ==> r == Ok::<(), RcOCellError>(()) && final(store)@ == old(
                store,
            )@.update(
                self.slot_id(),
                self.slot(*old(store)).with_value(other.slot(*old(store)).value),
            ).update(other.slot_id(), other.slot(*old(store)).with_value(self.slot(*old(store)).value)),
    {
        match store.slot_ref(self.id).access {
            AccessState::Free => {},
            _ => {
                return Err(RcOCellError::BorrowError(RcOCellBorrowError::Mut));
            },
        }
        match store.slot_ref(other.id).access {
            AccessState::Free => {},
            _ => {
                return Err(RcOCellError::BorrowError(RcOCellBorrowError::Mut));
            },
        }
        self.swap(store, other);
        Ok(())
    }

    /// A second strong owner of the same slot.
    pub fn clone_cell(&self, store: &mut CellStore<T>) -> (c: RcOCell<T>)
        requires
            old(store).wf(),
            self.valid(*old(store)),
            self.slot(*old(store)).strong < u64::MAX,
        ensures
            final(store).wf(),
            c.slot_id() == self.slot_id(),
            final(store)@ == old(store)@.update(
                self.slot_id(),
                self.slot(*old(store)).with_strong((self.slot(*old(store)).strong + 1) as u64),
            ),
            c.valid(*final(store)),
    {
        let slot = store.slot_mut(self.id);
        slot.strong = slot.strong + 1;
        proof {
            lemma_wf_update(old(store)@, self.slot_id(), store@[self.slot_id()]);
        }
        RcOCell { id: self.id, marker: PhantomData }
    }

    /// Gives up this strong owner. When it was the last one, the slot dies:
    /// its value is dropped and every weak handle to it permanently reports
    /// it as dropped. The last owner can only be given up while no access
    /// is outstanding.
    pub fn drop_cell(self, store: &mut CellStore<T>)
        requires
            old(store).wf(),
            self.valid(*old(store)),
            self.slot(*old(store)).strong == 1 ==> self.slot(*old(store)).access is Free,
        ensures
            final(store).wf(),
            final(store)@ == old(store)@.update(
                self.slot_id(),
                self.slot(*old(store)).after_drop(),
            ),
    {
        let slot = store.slot_mut(self.id);
        if slot.strong == 1 {
            slot.strong = 0;
            slot.value = None;
            slot.access = AccessState::Free;
        } else {
            slot.strong = slot.strong - 1;
        }
        proof {
            lemma_wf_update(old(store)@, self.slot_id(), store@[self.slot_id()]);
        }
    }

    /// A non-owning weak handle to the same slot.
    pub fn downgrade(&self) -> (w: WeakRcOCell<T>)
        ensures
            w.slot_id() == self.slot_id(),
    {
        WeakRcOCell { id: self.id, marker: PhantomData }
    }

    /// A copy of the value. The slot must hold a value and no exclusive
    /// access may be outstanding.
    pub fn get_and_clone(&self, store: &CellStore<T>) -> (r: T) where T: Clone
        requires
            store.wf(),
            self.valid(*store),
            !self.slot(*store).access.blocks_shared(),
            self.slot(*store).value is Some,
        ensures
            cloned::<T>(self.slot(*store).value->0, r),
    {
        store.slot_ref(self.id).value.as_ref().unwrap().clone()
    }

    /// A copy of the value; fails with a shared-access conflict if an
    /// exclusive access is outstanding, else with `NoValue` if the slot is
    /// empty.
    pub fn try_get_and_clone(&self, store: &CellStore<T>) -> (r: Result<T, RcOCellError>) where
        T: Clone,

        requires
            store.wf(),
            self.valid(*store),
        ensures
            self.slot(*store).access.blocks_shared() ==> r == Err::<T, RcOCellError>(
                RcOCellError::shared_denied(),
            ),
            !self.slot(*store).access.blocks_shared() && self.slot(*store).value is None ==> r
                == Err::<T, RcOCellError>(RcOCellError::NoValue),
            !self.slot(*store).access.blocks_shared() && self.slot(*store).value is Some ==> (
            r matches Ok(v) && cloned::<T>(self.slot(*store).value->0, v)),
    {
        match store.slot_ref(self.id).access {
            AccessState::Exclusive => Err(
                RcOCellError::BorrowError(RcOCellBorrowError::Normal),
            ),
            _ => {
                if store.slot_ref(self.id).value.is_none() {
                    Err(RcOCellError::NoValue)
                } else {
                    Ok(self.get_and_clone(store))
                }
            },
        }
    }
}

/// The precondition of a `compute` callback holds of the prior value.
pub open spec fn may_compute_on<T, F: FnOnce(Option<T>) -> (Option<T>, RcOCellComputeResult<T>)>(
    f: F,
    prior: Option<T>,
) -> bool {
    call_requires(f, (prior,))
}

/// `p` is a possible return of a `compute` callback given the prior value:
/// the value it hands back (its in-place edits) paired with the outcome it
/// declares.
pub open spec fn computes_on<T, F: FnOnce(Option<T>) -> (Option<T>, RcOCellComputeResult<T>)>(
    f: F,
    prior: Option<T>,
    p: (Option<T>, RcOCellComputeResult<T>),
) -> bool {
    call_ensures(f, (prior,), p)
}

impl<T> RcOCell<T> {
    /// Runs `f` with the current value taken out of the slot, if any, then
    /// applies the outcome `f` returned to the value `f` handed back:
    /// `Replace` installs the new value, `Remove` empties the slot,
    /// `DoNothing` keeps the handed-back value, edits included. The slot
    /// must be free of outstanding accesses.
    pub fn compute<F: FnOnce(Option<T>) -> (Option<T>, RcOCellComputeResult<T>)>(
        &self,
        store: &mut CellStore<T>,
        f: F,
    )
        requires
            old(store).wf(),
            self.valid(*old(store)),
            self.slot(*old(store)).access is Free,
            may_compute_on(f, self.slot(*old(store)).value),
        ensures
            final(store).wf(),
            exists|p: (Option<T>, RcOCellComputeResult<T>)|
                #[trigger] computes_on(f, self.slot(*old(store)).value, p) && final(store)@
                    == old(store)@.update(
                    self.slot_id(),
                    self.slot(*old(store)).with_value(outcome_value(p.0, p.1)),
                ),
    {
        let slot = store.slot_mut(self.id);
        let prior = slot.value.take();
        let (back, res) = f(prior);
        let ghost p = (back, res);
        slot.value = match res {
            RcOCellComputeResult::Replace(t) => Some(t),
            RcOCellComputeResult::Remove => None,
            RcOCellComputeResult::DoNothing => back,
        };
        proof {
            lemma_wf_update(old(store)@, self.slot_id(), store@[self.slot_id()]);
            assert(computes_on(f, self.slot(*old(store)).value, p));
        }
    }

    /// Runs `f` with the current value taken out of the slot, if any, then
    /// applies the outcome `f` returned to the value `f` handed back;
    /// fails with an exclusive-access conflict if any access is
    /// outstanding, in which case `f` does not run and nothing changes.
    pub fn try_compute<F: FnOnce(Option<T>) -> (Option<T>, RcOCellComputeResult<T>)>(
        &self,
        store: &mut CellStore<T>,
        f: F,
    ) -> (r: Result<(), RcOCellError>)
        requires
            old(store).wf(),
            self.valid(*old(store)),
            !self.slot(*old(store)).access.blocks_exclusive() ==> may_compute_on(
                f,
                self.slot(*old(store)).value,
            ),
        ensures
            final(store).wf(),
            self.slot(*old(store)).access.blocks_exclusive() ==> r == Err::<(), RcOCellError>(
                RcOCellError::exclusive_denied(),
            ) && final(store)@ == old(store)@,
            !self.slot(*old(store)).access.blocks_exclusive() ==> r == Ok::<(), RcOCellError>(())
                && exists|p: (Option<T>, RcOCellComputeResult<T>)|
                #[trigger] computes_on(f, self.slot(*old(store)).value, p) && final(store)@
                    == old(store)@.update(
                    self.slot_id(),
                    self.slot(*old(store)).with_value(outcome_value(p.0, p.1)),
                ),
    {
        match store.slot_ref(self.id).access {
            AccessState::Free => {
                self.compute(store, f);
                Ok(())
            },
            _ => Err(RcOCellError::BorrowError(RcOCellBorrowError::Mut)),
        }
    }

    /// Runs `f` with the value taken out of the slot if one is present,
    /// applies the outcome `f` returned to the value `f` handed back, and
    /// reports whether `f` ran. The slot must be free of outstanding
    /// accesses.
    pub fn compute_if_present<F: FnOnce(T) -> (T, RcOCellComputeResult<T>)>(
        &self,
        store: &mut CellStore<T>,
        f: F,
    ) -> (r: bool)
        requires
            old(store).wf(),
            self.valid(*old(store)),
            self.slot(*old(store)).access is Free,
            self.slot(*old(store)).value matches Some(v) ==> call_requires(f, (v,)),
        ensures
            final(store).wf(),
            r == (self.slot(*old(store)).value is Some),
            self.slot(*old(store)).value is None ==> final(store)@ == old(store)@,
            self.slot(*old(store)).value matches Some(v) ==> exists|
                back: T,
                res: RcOCellComputeResult<T>,
            |
                #[trigger] call_ensures(f, (v,), (back, res)) && final(store)@ == old(
                    store,
                )@.update(
                    self.slot_id(),
                    self.slot(*old(store)).with_value(outcome_value(Some(back), res)),
                ),
    {
        if store.slot_ref(self.id).value.is_none() {
            return false;
        }
        let slot = store.slot_mut(self.id);
        let v = slot.value.take().unwrap();
        let (back, res) = f(v);
        let ghost p = (back, res);
        slot.value = match res {
            RcOCellComputeResult::Replace(t) => Some(t),
            RcOCellComputeResult::Remove => None,
            RcOCellComputeResult::DoNothing => Some(back),
        };
        proof {
            lemma_wf_update(old(store)@, self.slot_id(), store@[self.slot_id()]);
            assert(call_ensures(f, (self.slot(*old(store)).value->0,), p));
        }
        true
    }

    /// Runs `f` with the value taken out of the slot if one is present,
    /// applies the outcome `f` returned to the value `f` handed back, and
    /// reports whether `f` ran; fails with an exclusive-access conflict if
    /// any access is outstanding, in which case `f` does not run and
    /// nothing changes.
    pub fn try_compute_if_present<F: FnOnce(T) -> (T, RcOCellComputeResult<T>)>(
        &self,
        store: &mut CellStore<T>,
        f: F,
    ) -> (r: Result<bool, RcOCellError>)
        requires
            old(store).wf(),
            self.valid(*old(store)),
            self.slot(*old(store)).value matches Some(v) ==> !self.slot(
                *old(store),
            ).access.blocks_exclusive() ==> call_requires(f, (v,)),
        ensures
            final(store).wf(),
            self.slot(*old(store)).access.blocks_exclusive() ==> r == Err::<bool, RcOCellError>(
                RcOCellError::exclusive_denied(),
            ) && final(store)@ == old(store)@,
            !self.slot(*old(store)).access.blocks_exclusive() ==> r == Ok::<bool, RcOCellError>(
                self.slot(*old(store)).value is Some,
            ),
            !self.slot(*old(store)).access.blocks_exclusive() && self.slot(*old(store)).value is None
                ==> final(store)@ == old(store)@,
            self.slot(*old(store)).value matches Some(v) ==> !self.slot(
                *old(store),
            ).access.blocks_exclusive() ==> exists|back: T, res: RcOCellComputeResult<T>|
                #[trigger] call_ensures(f, (v,), (back, res)) && final(store)@ == old(
                    store,
                )@.update(
                    self.slot_id(),
                    self.slot(*old(store)).with_value(outcome_value(Some(back), res)),
                ),
    {
        match store.slot_ref(self.id).access {
            AccessState::Free => Ok(self.compute_if_present(store, f)),
            _ => Err(RcOCellError::BorrowError(RcOCellBorrowError::Mut)),
        }
    }

    /// Runs `f` only if the slot is empty and the exclusive access is
    /// immediately obtainable, installing the value `f` produces, if any.
    /// Reports whether `f` ran; a populated or contended slot is a no-op,
    /// never a failure.
    pub fn compute_if_absent<F: FnOnce() -> Option<T>>(
        &self,
        store: &mut CellStore<T>,
        f: F,
    ) -> (r: bool)
        requires
            old(store).wf(),
            self.valid(*old(store)),
            self.slot(*old(store)).access is Free && self.slot(*old(store)).value is None
                ==> call_requires(f, ()),
        ensures
            final(store).wf(),
            r == (self.slot(*old(store)).access is Free && self.slot(*old(store)).value is None),
            !(self.slot(*old(store)).access is Free && self.slot(*old(store)).value is None)
                ==> final(store)@ == old(store)@,
            self.slot(*old(store)).access is Free && self.slot(*old(store)).value is None ==> exists|
                o: Option<T>,
            |
                #[trigger] call_ensures(f, (), o) && final(store)@ == old(store)@.update(
                    self.slot_id(),
                    self.slot(*old(store)).with_value(o),
                ),
    {
        match store.slot_ref(self.id).access {
            AccessState::Free => {
                if store.slot_ref(self.id).value.is_some() {
                    return false;
                }
                let produced = f();
                let ghost target = self.slot(*old(store)).with_value(produced);
                store.slot_mut(self.id).value = produced;
                proof {
                    assert(store@ =~= old(store)@.update(self.slot_id(), target));
                    lemma_wf_update(old(store)@, self.slot_id(), target);
                }
                true
            },
            _ => false,
        }
    }

    /// Runs `f` with the value if one is present and reports whether it
    /// ran. The outcome `f` returns is informational only and is not
    /// applied to the slot. No exclusive access may be outstanding.
    pub fn if_present<F: FnOnce(&T) -> RcOCellComputeResult<T>>(
        &self,
        store: &CellStore<T>,
        f: F,
    ) -> (r: bool)
        requires
            store.wf(),
            self.valid(*store),
            !self.slot(*store).access.blocks_shared(),
            self.slot(*store).value matches Some(v) ==> call_requires(f, (&v,)),
        ensures
            r == (self.slot(*store).value is Some),
    {
        match store.slot_ref(self.id).value.as_ref() {
            None => false,
            Some(vref) => {
                f(vref);
                true
            },
        }
    }

    /// Runs `f` with the value taken out of the slot if one is present,
    /// installs the value `f` hands back, and reports whether `f` ran. The
    /// outcome `f` returns alongside is informational only and is not
    /// applied to the slot. The slot must be free of outstanding accesses.
    pub fn if_present_mut<F: FnOnce(T) -> (T, RcOCellComputeResult<T>)>(
        &self,
        store: &mut CellStore<T>,
        f: F,
    ) -> (r: bool)
        requires
            old(store).wf(),
            self.valid(*old(store)),
            self.slot(*old(store)).access is Free,
            self.slot(*old(store)).value matches Some(v) ==> call_requires(f, (v,)),
        ensures
            final(store).wf(),
            r == (self.slot(*old(store)).value is Some),
            self.slot(*old(store)).value is None ==> final(store)@ == old(store)@,
            self.slot(*old(store)).value matches Some(v) ==> exists|back: T, res: RcOCellComputeResult<T>|
                #[trigger] call_ensures(f, (v,), (back, res)) && final(store)@ == old(
                    store,
                )@.update(self.slot_id(), self.slot(*old(store)).with_value(Some(back))),
    {
        if store.slot_ref(self.id).value.is_none() {
            return false;
        }
        let slot = store.slot_mut(self.id);
        let v = slot.value.take().unwrap();
        let (back, res) = f(v);
        slot.value = Some(back);
        proof {
            lemma_wf_update(old(store)@, self.slot_id(), store@[self.slot_id()]);
            assert(call_ensures(f, (self.slot(*old(store)).value->0,), (back, res)));
        }
        true
    }

    /// Runs `f` with the value if one is present and reports whether it
    /// ran; the outcome `f` returns is informational only. Fails with a
    /// shared-access conflict if an exclusive access is outstanding, in
    /// which case `f` does not run.
    pub fn try_if_present<F: FnOnce(&T) -> RcOCellComputeResult<T>>(
        &self,
        store: &CellStore<T>,
        f: F,
    ) -> (r: Result<bool, RcOCellError>)
        requires
            store.wf(),
            self.valid(*store),
            self.slot(*store).value matches Some(v) ==> !self.slot(*store).access.blocks_shared()
                ==> call_requires(f, (&v,)),
        ensures
            self.slot(*store).access.blocks_shared() ==> r == Err::<bool, RcOCellError>(
                RcOCellError::shared_denied(),
            ),
            !self.slot(*store).access.blocks_shared() ==> r == Ok::<bool, RcOCellError>(
                self.slot(*store).value is Some,
            ),
    {
        match store.slot_ref(self.id).access {
            AccessState::Exclusive => Err(
                RcOCellError::BorrowError(RcOCellBorrowError::Normal),
            ),
            _ => Ok(self.if_present(store, f)),
        }
    }

    /// Runs `f` with the value taken out of the slot if one is present,
    /// installs the value `f` hands back, and reports whether `f` ran; the
    /// outcome `f` returns alongside is informational only. Fails with an
    /// exclusive-access conflict if any access is outstanding, in which
    /// case `f` does not run and nothing changes.
    pub fn try_if_present_mut<F: FnOnce(T) -> (T, RcOCellComputeResult<T>)>(
        &self,
        store: &mut CellStore<T>,
        f: F,
    ) -> (r: Result<bool, RcOCellError>)
        requires
            old(store).wf(),
            self.valid(*old(store)),
            self.slot(*old(store)).value matches Some(v) ==> !self.slot(
                *old(store),
            ).access.blocks_exclusive() ==> call_requires(f, (v,)),
        ensures
            final(store).wf(),
            self.slot(*old(store)).access.blocks_exclusive() ==> r == Err::<bool, RcOCellError>(
                RcOCellError::exclusive_denied(),
            ) && final(store)@ == old(store)@,
            !self.slot(*old(store)).access.blocks_exclusive() ==> r == Ok::<bool, RcOCellError>(
                self.slot(*old(store)).value is Some,
            ),
            !self.slot(*old(store)).access.blocks_exclusive() && self.slot(*old(store)).value is None
                ==> final(store)@ == old(store)@,
            self.slot(*old(store)).value matches Some(v) ==> !self.slot(
                *old(store),
            ).access.blocks_exclusive() ==> exists|back: T, res: RcOCellComputeResult<T>|
                #[trigger] call_ensures(f, (v,), (back, res)) && final(store)@ == old(
                    store,
                )@.update(self.slot_id(), self.slot(*old(store)).with_value(Some(back))),
    {
        match store.slot_ref(self.id).access {
            AccessState::Free => Ok(self.if_present_mut(store, f)),
            _ => Err(RcOCellError::BorrowError(RcOCellBorrowError::Mut)),
        }
    }

    /// Calls `f` with the value if one is present and returns its result;
    /// returns nothing when the slot is empty. No exclusive access may be
    /// outstanding. The slot itself is untouched.
    pub fn map<F: FnOnce(&T) -> X, X>(&self, store: &CellStore<T>, f: F) -> (r: Option<X>)
        requires
            store.wf(),
            self.valid(*store),
            !self.slot(*store).access.blocks_shared(),
            self.slot(*store).value matches Some(v) ==> call_requires(f, (&v,)),
        ensures
            self.slot(*store).value is None ==> r is None,
            self.slot(*store).value matches Some(v) ==> (r matches Some(x) && call_ensures(
                f,
                (&v,),
                x,
            )),
    {
        match store.slot_ref(self.id).value.as_ref() {
            None => None,
            Some(vref) => Some(f(vref)),
        }
    }

    /// Calls `f` with the value if one is present and returns its result;
    /// returns nothing when the slot is empty. Fails with a shared-access
    /// conflict if an exclusive access is outstanding, in which case `f`
    /// does not run.
    pub fn try_map<F: FnOnce(&T) -> X, X>(&self, store: &CellStore<T>, f: F) -> (r: Result<
        Option<X>,
        RcOCellError,
    >)
        requires
            store.wf(),
            self.valid(*store),
            self.slot(*store).value matches Some(v) ==> !self.slot(*store).access.blocks_shared()
                ==> call_requires(f, (&v,)),
        ensures
            self.slot(*store).access.blocks_shared() ==> r == Err::<Option<X>, RcOCellError>(
                RcOCellError::shared_denied(),
            ),
            !self.slot(*store).access.blocks_shared() && self.slot(*store).value is None ==> r
                == Ok::<Option<X>, RcOCellError>(None),
            self.slot(*store).value matches Some(v) ==> !self.slot(*store).access.blocks_shared()
                ==> (r matches Ok(o) && o matches Some(x) && call_ensures(f, (&v,), x)),
    {
        match store.slot_ref(self.id).access {
            AccessState::Exclusive => Err(
                RcOCellError::BorrowError(RcOCellBorrowError::Normal),
            ),
            _ => Ok(self.map(store, f)),
        }
    }

    /// Calls `f` with the value taken out of the slot if one is present,
    /// installs the value `f` hands back, and returns `f`'s second result;
    /// returns nothing when the slot is empty. The slot must be free of
    /// outstanding accesses.
    pub fn map_mut<F: FnOnce(T) -> (T, X), X>(&self, store: &mut CellStore<T>, f: F) -> (r: Option<
        X,
    >)
        requires
            old(store).wf(),
            self.valid(*old(store)),
            self.slot(*old(store)).access is Free,
            self.slot(*old(store)).value matches Some(v) ==> call_requires(f, (v,)),
        ensures
            final(store).wf(),
            self.slot(*old(store)).value is None ==> r is None && final(store)@ == old(store)@,
            self.slot(*old(store)).value matches Some(v) ==> exists|back: T, x: X|
                #[trigger] call_ensures(f, (v,), (back, x)) && r == Some(x) && final(store)@
                    == old(store)@.update(
                    self.slot_id(),
                    self.slot(*old(store)).with_value(Some(back)),
                ),
    {
        if store.slot_ref(self.id).value.is_none() {
            return None;
        }
        let slot = store.slot_mut(self.id);
        let v = slot.value.take().unwrap();
        let (back, x) = f(v);
        slot.value = Some(back);
        proof {
            lemma_wf_update(old(store)@, self.slot_id(), store@[self.slot_id()]);
            assert(call_ensures(f, (self.slot(*old(store)).value->0,), (back, x)));
        }
        Some(x)
    }

    /// Calls `f` with the value taken out of the slot if one is present,
    /// installs the value `f` hands back, and returns `f`'s second result;
    /// returns nothing when the slot is empty. Fails with an
    /// exclusive-access conflict if any access is outstanding, in which
    /// case `f` does not run and nothing changes.
    pub fn try_map_mut<F: FnOnce(T) -> (T, X), X>(&self, store: &mut CellStore<T>, f: F) -> (r:
        Result<Option<X>, RcOCellError>)
        requires
            old(store).wf(),
            self.valid(*old(store)),
            self.slot(*old(store)).value matches Some(v) ==> !self.slot(
                *old(store),
            ).access.blocks_exclusive() ==> call_requires(f, (v,)),
        ensures
            final(store).wf(),
            self.slot(*old(store)).access.blocks_exclusive() ==> r == Err::<Option<X>, RcOCellError>(
                RcOCellError::exclusive_denied(),
            ) && final(store)@ == old(store)@,
            !self.slot(*old(store)).access.blocks_exclusive() && self.slot(*old(store)).value is None
                ==> r == Ok::<Option<X>, RcOCellError>(None) && final(store)@ == old(store)@,
            self.slot(*old(store)).value matches Some(v) ==> !self.slot(
                *old(store),
            ).access.blocks_exclusive() ==> exists|back: T, x: X|
                #[trigger] call_ensures(f, (v,), (back, x)) && r == Ok::<Option<X>, RcOCellError>(
                    Some(x),
                ) && final(store)@ == old(store)@.update(
                    self.slot_id(),
                    self.slot(*old(store)).with_value(Some(back)),
                ),
    {
        match store.slot_ref(self.id).access {
            AccessState::Free => Ok(self.map_mut(store, f)),
            _ => Err(RcOCellError::BorrowError(RcOCellBorrowError::Mut)),
        }
    }
    /// Consumes this owner, handing out the value after emptying the slot;
    /// fails with an exclusive-access conflict if any access is
    /// outstanding, else with `NoValue` if the slot is empty. The owner is
    /// given up in every case.
    pub fn try_into_value(self, store: &mut CellStore<T>) -> (r: Result<T, RcOCellError>)
        requires
            old(store).wf(),
            self.valid(*old(store)),
            self.slot(*old(store)).strong == 1 ==> self.slot(*old(store)).access is Free,
        ensures
            final(store).wf(),
            self.slot(*old(store)).access.blocks_exclusive() ==> r == Err::<T, RcOCellError>(
                RcOCellError::exclusive_denied(),
            ) && final(store)@ == old(store)@.update(
                self.slot_id(),
                self.slot(*old(store)).after_drop(),
            ),
            !self.slot(*old(store)).access.blocks_exclusive() && self.slot(*old(store)).value is None
                ==> r == Err::<T, RcOCellError>(RcOCellError::NoValue) && final(store)@ == old(
                store,
            )@.update(self.slot_id(), self.slot(*old(store)).after_drop()),
            !self.slot(*old(store)).access.blocks_exclusive() && self.slot(*old(store)).value is Some
                ==> r == Ok::<T, RcOCellError>(self.slot(*old(store)).value->0) && final(store)@
                == old(store)@.update(
                self.slot_id(),
                self.slot(*old(store)).with_value(None).after_drop(),
            ),
    {
        let r = self.try_get_and_clear(store);
        let ghost mid = store@;
        self.drop_cell(store);
        proof {
            assert(store@ =~= old(store)@.update(
                self.slot_id(),
                mid[self.slot_id()].after_drop(),
            ));
        }
        r
    }

    /// Consumes this owner, handing out the slot's content, a value or
    /// nothing, after emptying the slot; fails with an exclusive-access
    /// conflict if any access is outstanding. The owner is given up in
    /// every case.
    pub fn try_into_option(self, store: &mut CellStore<T>) -> (r: Result<Option<T>, RcOCellError>)
        requires
            old(store).wf(),
            self.valid(*old(store)),
            self.slot(*old(store)).strong == 1 ==> self.slot(*old(store)).access is Free,
        ensures
            final(store).wf(),
            self.slot(*old(store)).access.blocks_exclusive() ==> r == Err::<Option<T>, RcOCellError>(
                RcOCellError::exclusive_denied(),
            ) && final(store)@ == old(store)@.update(
                self.slot_id(),
                self.slot(*old(store)).after_drop(),
            ),
            !self.slot(*old(store)).access.blocks_exclusive() ==> r == Ok::<Option<T>, RcOCellError>(
                self.slot(*old(store)).value,
            ) && final(store)@ == old(store)@.update(
                self.slot_id(),
                self.slot(*old(store)).with_value(None).after_drop(),
            ),
    {
        let r = self.try_clear(store);
        let ghost mid = store@;
        self.drop_cell(store);
        proof {
            assert(store@ =~= old(store)@.update(
                self.slot_id(),
                mid[self.slot_id()].after_drop(),
            ));
        }
        r
    }

    /// Renders the cell with `f`: when a value is present and a shared
    /// access is obtainable, `f`'s rendering of the value; otherwise one of
    /// two fixed diagnostic strings naming the cause.
    pub fn display_with<F: FnOnce(&T) -> String>(&self, store: &CellStore<T>, f: F) -> (r: String)
        requires
            store.wf(),
            self.valid(*store),
            self.slot(*store).value matches Some(v) ==> !self.slot(*store).access.blocks_shared()
                ==> call_requires(f, (&v,)),
        ensures
            self.slot(*store).access.blocks_shared() ==> r@
                == "Value currently inaccessible because it is borrowed mutably somewhere"@,
            !self.slot(*store).access.blocks_shared() && self.slot(*store).value is None ==> r@
                == "No value present"@,
            self.slot(*store).value matches Some(v) ==> !self.slot(*store).access.blocks_shared()
                ==> call_ensures(f, (&v,), r),
    {
        match store.slot_ref(self.id).access {
            AccessState::Exclusive => String::from_str(
                "Value currently inaccessible because it is borrowed mutably somewhere",
            ),
            _ => {
                match store.slot_ref(self.id).value.as_ref() {
                    None => String::from_str("No value present"),
                    Some(vref) => f(vref),
                }
            },
        }
    }
}

impl RcOCell<String> {
    /// Renders a string cell: the value itself when present and readable,
    /// else the fixed diagnostic string naming the cause.
    pub fn display_string(&self, store: &CellStore<String>) -> (r: String)
        requires
            store.wf(),
            self.valid(*store),
        ensures
            self.slot(*store).access.blocks_shared() ==> r@
                == "Value currently inaccessible because it is borrowed mutably somewhere"@,
            !self.slot(*store).access.blocks_shared() && self.slot(*store).value is None ==> r@
                == "No value present"@,
            self.slot(*store).value matches Some(v) ==> !self.slot(*store).access.blocks_shared()
                ==> r@ == v@,
    {
        let render = |s: &String| -> (out: String)
            ensures
                out@ == s@,
            {
                s.clone()
            };
        self.display_with(store, render)
    }
}

impl SharedGuard {
    /// Reads the value this guard holds shared access over.
    pub fn read<'a, T>(&self, store: &'a CellStore<T>) -> (r: &'a T)
        requires
            store.wf(),
            0 <= self.slot_id() < store@.len(),
            store@[self.slot_id()].access matches AccessState::Shared(_),
        ensures
            *r == store@[self.slot_id()].value->0,
    {
        store.slot_ref(self.id).value.as_ref().unwrap()
    }

    /// Releases this shared access: the slot's shared count goes down by
    /// one, back to free when this was the last one.
    pub fn release<T>(self, store: &mut CellStore<T>)
        requires
            old(store).wf(),
            0 <= self.slot_id() < old(store)@.len(),
            old(store)@[self.slot_id()].access matches AccessState::Shared(_),
        ensures
            final(store).wf(),
            final(store)@ == old(store)@.update(
                self.slot_id(),
                old(store)@[self.slot_id()].with_access(
                    old(store)@[self.slot_id()].access.one_less_shared(),
                ),
            ),
    {
        let id = self.id;
        let slot = store.slot_mut(id);
        slot.access = match slot.access {
            AccessState::Shared(n) => if n <= 1 {
                AccessState::Free
            } else {
                AccessState::Shared(n - 1)
            },
            _ => AccessState::Free,
        };
        proof {
            lemma_wf_update(old(store)@, id as int, store@[id as int]);
        }
    }
}

impl ExclusiveGuard {
    /// Reads the value this guard holds exclusive access over.
    pub fn read<'a, T>(&self, store: &'a CellStore<T>) -> (r: &'a T)
        requires
            store.wf(),
            0 <= self.slot_id() < store@.len(),
            store@[self.slot_id()].access is Exclusive,
        ensures
            *r == store@[self.slot_id()].value->0,
    {
        store.slot_ref(self.id).value.as_ref().unwrap()
    }

    /// Writes through this exclusive access, returning the value it
    /// replaces.
    pub fn write<T>(&self, store: &mut CellStore<T>, value: T) -> (r: T)
        requires
            old(store).wf(),
            0 <= self.slot_id() < old(store)@.len(),
            old(store)@[self.slot_id()].access is Exclusive,
        ensures
            final(store).wf(),
            r == old(store)@[self.slot_id()].value->0,
            final(store)@ == old(store)@.update(
                self.slot_id(),
                old(store)@[self.slot_id()].with_value(Some(value)),
            ),
    {
        let id = self.id;
        let slot = store.slot_mut(id);
        let prev = slot.value.take();
        slot.value = Some(value);
        proof {
            lemma_wf_update(old(store)@, id as int, store@[id as int]);
        }
        prev.unwrap()
    }

    /// Releases this exclusive access: the slot is free again.
    pub fn release<T>(self, store: &mut CellStore<T>)
        requires
            old(store).wf(),
            0 <= self.slot_id() < old(store)@.len(),
            old(store)@[self.slot_id()].access is Exclusive,
        ensures
            final(store).wf(),
            final(store)@ == old(store)@.update(
                self.slot_id(),
                old(store)@[self.slot_id()].with_access(AccessState::Free),
            ),
    {
        let id = self.id;
        let slot = store.slot_mut(id);
        slot.access = AccessState::Free;
        proof {
            lemma_wf_update(old(store)@, id as int, store@[id as int]);
        }
    }
}

} // verus!
