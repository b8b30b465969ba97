//! The weak handle: a non-owning reference to a slot.
//!
//! Every operation mirrors the corresponding strong-handle operation by
//! first checking that the slot still has a strong owner: the direct
//! variants demand liveness, the `try_` variants report a dead slot with
//! [`RcOCellError::Dropped`].

use core::marker::PhantomData;
use vstd::prelude::*;

use crate::cell::RcOCell;
use crate::errors::RcOCellError;
use crate::outcome::outcome_value;
use crate::outcome::RcOCellComputeResult;
use crate::store::CellStore;
use crate::store::Slot;

verus! {

/// A non-owning handle to a slot. It does not keep the slot alive: once the
/// last strong owner is gone, every weak handle to the slot permanently
/// reports it as dropped.
pub struct WeakRcOCell<T> {
    pub(crate) id: usize,
    pub(crate) marker: PhantomData<T>,
}

impl<T> Clone for WeakRcOCell<T> {
    /// Another weak handle to the same slot.
    fn clone(&self) -> (r: Self)
        ensures
            r == *self,
    {
        WeakRcOCell { id: self.id, marker: PhantomData }
    }
}

impl<T> WeakRcOCell<T> {
    /// The index of the slot this handle refers to.
    pub open(crate) spec fn slot_id(self) -> int {
        self.id as int
    }

    /// The slot this handle refers to, as the store sees it.
    pub open spec fn slot(self, store: CellStore<T>) -> Slot<T> {
        store@[self.slot_id()]
    }

    /// The handle points into the store. Unlike a strong handle, a weak
    /// handle stays in bounds forever but its slot may be dead.
    pub open spec fn in_bounds(self, store: CellStore<T>) -> bool {
        0 <= self.slot_id() < store@.len()
    }

    /// The slot still has a strong owner.
    pub open spec fn live(self, store: CellStore<T>) -> bool {
        store@[self.slot_id()].live()
    }

    /// The strong-handle view of the same slot, used internally to
    /// delegate once liveness is settled.
    fn as_strong(&self) -> (c: RcOCell<T>)
        ensures
            c.slot_id() == self.slot_id(),
    {
        RcOCell { id: self.id, marker: PhantomData }
    }

    /// Promotes this handle to a new strong owner of the slot. The slot
    /// must still be alive.
    pub fn upgrade(&self, store: &mut CellStore<T>) -> (c: RcOCell<T>)
        requires
            old(store).wf(),
            self.in_bounds(*old(store)),
            self.live(*old(store)),
            self.slot(*old(store)).strong < u64::MAX,
        ensures
            final(store).wf(),
            c.slot_id() == self.slot_id(),
            c.valid(*final(store)),
            final(store)@ == old(store)@.update(
                self.slot_id(),
                self.slot(*old(store)).with_strong((self.slot(*old(store)).strong + 1) as u64),
            ),
    {
        self.as_strong().clone_cell(store)
    }

    /// Promotes this handle to a new strong owner of the slot; fails with
    /// `Dropped` if the slot is already dead.
    pub fn try_upgrade(&self, store: &mut CellStore<T>) -> (r: Result<RcOCell<T>, RcOCellError>)
        requires
            old(store).wf(),
            self.in_bounds(*old(store)),
            self.slot(*old(store)).strong < u64::MAX,
        ensures
            final(store).wf(),
            !self.live(*old(store)) ==> r == Err::<RcOCell<T>, RcOCellError>(RcOCellError::Dropped)
                && final(store)@ == old(store)@,
            self.live(*old(store)) ==> (r matches Ok(c) && c.slot_id() == self.slot_id()
                && c.valid(*final(store))) && final(store)@ == old(store)@.update(
                self.slot_id(),
                self.slot(*old(store)).with_strong((self.slot(*old(store)).strong + 1) as u64),
            ),
    {
        if store.slot_ref(self.id).strong == 0 {
            return Err(RcOCellError::Dropped);
        }
        Ok(self.upgrade(store))
    }

    /// Reports whether the slot is alive and holds a value. Never fails.
    pub fn is_some(&self, store: &CellStore<T>) -> (r: bool)
        requires
            store.wf(),
            self.in_bounds(*store),
        ensures
            r == (self.live(*store) && self.slot(*store).value is Some),
    {
        if store.slot_ref(self.id).strong == 0 {
            return false;
        }
        self.as_strong().is_some(store)
    }

    /// Reports whether the slot is empty or already dead. Never fails.
    pub fn is_none(&self, store: &CellStore<T>) -> (r: bool)
        requires
            store.wf(),
            self.in_bounds(*store),
        ensures
            r == (!self.live(*store) || self.slot(*store).value is None),
    {
        if store.slot_ref(self.id).strong == 0 {
            return true;
        }
        self.as_strong().is_none(store)
    }

    /// Runs `f` with the current value taken out of the slot, if any, then
    /// applies the outcome `f` returned to the value `f` handed back. The
    /// slot must be alive and free of outstanding accesses.
    pub fn compute<F: FnOnce(Option<T>) -> (Option<T>, RcOCellComputeResult<T>)>(
        &self,
        store: &mut CellStore<T>,
        f: F,
    )
        requires
            old(store).wf(),
            self.in_bounds(*old(store)),
            self.live(*old(store)),
            self.slot(*old(store)).access is Free,
            crate::cell::may_compute_on(f, self.slot(*old(store)).value),
        ensures
            final(store).wf(),
            exists|p: (Option<T>, RcOCellComputeResult<T>)|
                #[trigger] crate::cell::computes_on(f, self.slot(*old(store)).value, p)
                    && final(store)@ == old(store)@.update(
                    self.slot_id(),
                    self.slot(*old(store)).with_value(outcome_value(p.0, p.1)),
                ),
    {
        self.as_strong().compute(store, f)
    }

    /// Runs `f` with the current value taken out of the slot, if any, then
    /// applies the outcome `f` returned to the value `f` handed back;
    /// fails with `Dropped` if the slot is dead, and with an
    /// exclusive-access conflict if any access is outstanding.
    pub fn try_compute<F: FnOnce(Option<T>) -> (Option<T>, RcOCellComputeResult<T>)>(
        &self,
        store: &mut CellStore<T>,
        f: F,
    ) -> (r: Result<(), RcOCellError>)
        requires
            old(store).wf(),
            self.in_bounds(*old(store)),
            self.live(*old(store)) && !self.slot(*old(store)).access.blocks_exclusive()
                ==> crate::cell::may_compute_on(f, self.slot(*old(store)).value),
        ensures
            final(store).wf(),
            !self.live(*old(store)) ==> r == Err::<(), RcOCellError>(RcOCellError::Dropped) && final(store)@ == old(store)@,
            self.live(*old(store)) && self.slot(*old(store)).access.blocks_exclusive() ==> r
                == Err::<(), RcOCellError>(RcOCellError::exclusive_denied()) && final(store)@
                == old(store)@,
            self.live(*old(store)) && !self.slot(*old(store)).access.blocks_exclusive() ==> r
                == Ok::<(), RcOCellError>(()) && exists|p: (Option<T>, RcOCellComputeResult<T>)|
                #[trigger] crate::cell::computes_on(f, self.slot(*old(store)).value, p)
                    && final(store)@ == old(store)@.update(
                    self.slot_id(),
                    self.slot(*old(store)).with_value(outcome_value(p.0, p.1)),
                ),
    {
        if store.slot_ref(self.id).strong == 0 {
            return Err(RcOCellError::Dropped);
        }
        self.as_strong().try_compute(store, f)
    }

    /// Runs `f` with the value taken out of the slot if one is present,
    /// applies the outcome `f` returned to the value `f` handed back, and
    /// reports whether `f` ran. The slot must be alive and free of
    /// outstanding accesses.
    pub fn compute_if_present<F: FnOnce(T) -> (T, RcOCellComputeResult<T>)>(
        &self,
        store: &mut CellStore<T>,
        f: F,
    ) -> (r: bool)
        requires
            old(store).wf(),
            self.in_bounds(*old(store)),
            self.live(*old(store)),
            self.slot(*old(store)).access is Free,
            self.slot(*old(store)).value matches Some(v) ==> call_requires(f, (v,)),
        ensures
            final(store).wf(),
            r == (self.slot(*old(store)).value is Some),
            self.slot(*old(store)).value is None ==> final(store)@ == old(store)@,
            self.slot(*old(store)).value matches Some(v) ==> exists|
                back: T,
                res: RcOCellComputeResult<T>,
            |
                #[trigger] call_ensures(f, (v,), (back, res)) && final(store)@ == old(
                    store,
                )@.update(
                    self.slot_id(),
                    self.slot(*old(store)).with_value(outcome_value(Some(back), res)),
                ),
    {
        self.as_strong().compute_if_present(store, f)
    }

    /// Runs `f` with the value taken out of the slot if one is present,
    /// applies the outcome `f` returned to the value `f` handed back, and
    /// reports whether `f` ran; fails with `Dropped` if the slot is dead,
    /// and with an exclusive-access conflict if any access is outstanding.
    pub fn try_compute_if_present<F: FnOnce(T) -> (T, RcOCellComputeResult<T>)>(
        &self,
        store: &mut CellStore<T>,
        f: F,
    ) -> (r: Result<bool, RcOCellError>)
        requires
            old(store).wf(),
            self.in_bounds(*old(store)),
            self.slot(*old(store)).value matches Some(v) ==> self.live(*old(store)) && !self.slot(
                *old(store),
            ).access.blocks_exclusive() ==> call_requires(f, (v,)),
        ensures
            final(store).wf(),
            !self.live(*old(store)) ==> r == Err::<bool, RcOCellError>(RcOCellError::Dropped)
                && final(store)@ == old(store)@,
            self.live(*old(store)) && self.slot(*old(store)).access.blocks_exclusive() ==> r
                == Err::<bool, RcOCellError>(RcOCellError::exclusive_denied()) && final(store)@
                == old(store)@,
            self.live(*old(store)) && !self.slot(*old(store)).access.blocks_exclusive() ==> r
                == Ok::<bool, RcOCellError>(self.slot(*old(store)).value is Some),
            self.live(*old(store)) && !self.slot(*old(store)).access.blocks_exclusive() && self.slot(
                *old(store),
            ).value is None ==> final(store)@ == old(store)@,
            self.slot(*old(store)).value matches Some(v) ==> self.live(*old(store)) && !self.slot(
                *old(store),
            ).access.blocks_exclusive() ==> exists|back: T, res: RcOCellComputeResult<T>|
                #[trigger] call_ensures(f, (v,), (back, res)) && final(store)@ == old(
                    store,
                )@.update(
                    self.slot_id(),
                    self.slot(*old(store)).with_value(outcome_value(Some(back), res)),
                ),
    {
        if store.slot_ref(self.id).strong == 0 {
            return Err(RcOCellError::Dropped);
        }
        self.as_strong().try_compute_if_present(store, f)
    }

    /// Runs `f` only if the slot is empty and the exclusive access is
    /// immediately obtainable, installing the value `f` produces, if any,
    /// and reports whether `f` ran. The slot must be alive.
    pub fn compute_if_absent<F: FnOnce() -> Option<T>>(
        &self,
        store: &mut CellStore<T>,
        f: F,
    ) -> (r: bool)
        requires
            old(store).wf(),
            self.in_bounds(*old(store)),
            self.live(*old(store)),
            self.slot(*old(store)).access is Free && self.slot(*old(store)).value is None
                ==> call_requires(f, ()),
        ensures
            final(store).wf(),
            r == (self.slot(*old(store)).access is Free && self.slot(*old(store)).value is None),
            !(self.slot(*old(store)).access is Free && self.slot(*old(store)).value is None)
                ==> final(store)@ == old(store)@,
            self.slot(*old(store)).access is Free && self.slot(*old(store)).value is None ==> exists|
                o: Option<T>,
            |
                #[trigger] call_ensures(f, (), o) && final(store)@ == old(store)@.update(
                    self.slot_id(),
                    self.slot(*old(store)).with_value(o),
                ),
    {
        self.as_strong().compute_if_absent(store, f)
    }

    /// Runs `f` only if the slot is empty and the exclusive access is
    /// immediately obtainable, installing the value `f` produces, if any,
    /// and reports whether `f` ran; fails with `Dropped` if the slot is
    /// dead.
    pub fn try_compute_if_absent<F: FnOnce() -> Option<T>>(
        &self,
        store: &mut CellStore<T>,
        f: F,
    ) -> (r: Result<bool, RcOCellError>)
        requires
            old(store).wf(),
            self.in_bounds(*old(store)),
            self.live(*old(store)) && self.slot(*old(store)).access is Free && self.slot(
                *old(store),
            ).value is None ==> call_requires(f, ()),
        ensures
            final(store).wf(),
            !self.live(*old(store)) ==> r == Err::<bool, RcOCellError>(RcOCellError::Dropped)
                && final(store)@ == old(store)@,
            self.live(*old(store)) ==> r == Ok::<bool, RcOCellError>(
                self.slot(*old(store)).access is Free && self.slot(*old(store)).value is None,
            ),
            self.live(*old(store)) && !(self.slot(*old(store)).access is Free && self.slot(
                *old(store),
            ).value is None) ==> final(store)@ == old(store)@,
            self.live(*old(store)) && self.slot(*old(store)).access is Free && self.slot(
                *old(store),
            ).value is None ==> exists|o: Option<T>|
                #[trigger] call_ensures(f, (), o) && final(store)@ == old(store)@.update(
                    self.slot_id(),
                    self.slot(*old(store)).with_value(o),
                ),
    {
        if store.slot_ref(self.id).strong == 0 {
            return Err(RcOCellError::Dropped);
        }
        Ok(self.compute_if_absent(store, f))
    }

    /// Runs `f` with the value if one is present and reports whether it
    /// ran; the outcome `f` returns is informational only. The slot must
    /// be alive and no exclusive access may be outstanding.
    pub fn if_present<F: FnOnce(&T) -> RcOCellComputeResult<T>>(
        &self,
        store: &CellStore<T>,
        f: F,
    ) -> (r: bool)
        requires
            store.wf(),
            self.in_bounds(*store),
            self.live(*store),
            !self.slot(*store).access.blocks_shared(),
            self.slot(*store).value matches Some(v) ==> call_requires(f, (&v,)),
        ensures
            r == (self.slot(*store).value is Some),
    {
        self.as_strong().if_present(store, f)
    }

    /// Runs `f` with the value taken out of the slot if one is present,
    /// installs the value `f` hands back, and reports whether `f` ran; the
    /// outcome `f` returns alongside is informational only. The slot must
    /// be alive and free of outstanding accesses.
    pub fn if_present_mut<F: FnOnce(T) -> (T, RcOCellComputeResult<T>)>(
        &self,
        store: &mut CellStore<T>,
        f: F,
    ) -> (r: bool)
        requires
            old(store).wf(),
            self.in_bounds(*old(store)),
            self.live(*old(store)),
            self.slot(*old(store)).access is Free,
            self.slot(*old(store)).value matches Some(v) ==> call_requires(f, (v,)),
        ensures
            final(store).wf(),
            r == (self.slot(*old(store)).value is Some),
            self.slot(*old(store)).value is None ==> final(store)@ == old(store)@,
            self.slot(*old(store)).value matches Some(v) ==> exists|
                back: T,
                res: RcOCellComputeResult<T>,
            |
                #[trigger] call_ensures(f, (v,), (back, res)) && final(store)@ == old(store)@.update(self.slot_id(), self.slot(*old(store)).with_value(Some(back))),
    {
        self.as_strong().if_present_mut(store, f)
    }

    /// Runs `f` with the value if one is present and reports whether it
    /// ran; the outcome `f` returns is informational only. Fails with
    /// `Dropped` if the slot is dead, and with a shared-access conflict if
    /// an exclusive access is outstanding.
    pub fn try_if_present<F: FnOnce(&T) -> RcOCellComputeResult<T>>(
        &self,
        store: &CellStore<T>,
        f: F,
    ) -> (r: Result<bool, RcOCellError>)
        requires
            store.wf(),
            self.in_bounds(*store),
            self.slot(*store).value matches Some(v) ==> self.live(*store) && !self.slot(
                *store,
            ).access.blocks_shared() ==> call_requires(f, (&v,)),
        ensures
            !self.live(*store) ==> r == Err::<bool, RcOCellError>(RcOCellError::Dropped),
            self.live(*store) && self.slot(*store).access.blocks_shared() ==> r == Err::<
                bool,
                RcOCellError,
            >(RcOCellError::shared_denied()),
            self.live(*store) && !self.slot(*store).access.blocks_shared() ==> r == Ok::<
                bool,
                RcOCellError,
            >(self.slot(*store).value is Some),
    {
        if store.slot_ref(self.id).strong == 0 {
            return Err(RcOCellError::Dropped);
        }
        self.as_strong().try_if_present(store, f)
    }

    /// Runs `f` with the value taken out of the slot if one is present,
    /// installs the value `f` hands back, and reports whether `f` ran; the
    /// outcome `f` returns alongside is informational only. Fails with
    /// `Dropped` if the slot is dead, and with an exclusive-access
    /// conflict if any access is outstanding.
    pub fn try_if_present_mut<F: FnOnce(T) -> (T, RcOCellComputeResult<T>)>(
        &self,
        store: &mut CellStore<T>,
        f: F,
    ) -> (r: Result<bool, RcOCellError>)
        requires
            old(store).wf(),
            self.in_bounds(*old(store)),
            self.slot(*old(store)).value matches Some(v) ==> self.live(*old(store)) && !self.slot(
                *old(store),
            ).access.blocks_exclusive() ==> call_requires(f, (v,)),
        ensures
            final(store).wf(),
            !self.live(*old(store)) ==> r == Err::<bool, RcOCellError>(RcOCellError::Dropped)
                && final(store)@ == old(store)@,
            self.live(*old(store)) && self.slot(*old(store)).access.blocks_exclusive() ==> r
                == Err::<bool, RcOCellError>(RcOCellError::exclusive_denied()) && final(store)@
                == old(store)@,
            self.live(*old(store)) && !self.slot(*old(store)).access.blocks_exclusive() ==> r
                == Ok::<bool, RcOCellError>(self.slot(*old(store)).value is Some),
            self.live(*old(store)) && !self.slot(*old(store)).access.blocks_exclusive() && self.slot(
                *old(store),
            ).value is None ==> final(store)@ == old(store)@,
            self.slot(*old(store)).value matches Some(v) ==> self.live(*old(store)) && !self.slot(
                *old(store),
            ).access.blocks_exclusive() ==> exists|back: T, res: RcOCellComputeResult<T>|
                #[trigger] call_ensures(f, (v,), (back, res)) && final(store)@ == old(store)@.update(self.slot_id(), self.slot(*old(store)).with_value(Some(back))),
    {
        if store.slot_ref(self.id).strong == 0 {
            return Err(RcOCellError::Dropped);
        }
        self.as_strong().try_if_present_mut(store, f)
    }

    /// Fetches the value and empties the slot. The slot must be alive,
    /// hold a value, and be free of outstanding accesses.
    pub fn get_and_clear(&self, store: &mut CellStore<T>) -> (r: T)
        requires
            old(store).wf(),
            self.in_bounds(*old(store)),
            self.live(*old(store)),
            !self.slot(*old(store)).access.blocks_exclusive(),
            self.slot(*old(store)).value is Some,
        ensures
            final(store).wf(),
            r == self.slot(*old(store)).value->0,
            final(store)@ == old(store)@.update(
                self.slot_id(),
                self.slot(*old(store)).with_value(None),
            ),
    {
        self.as_strong().get_and_clear(store)
    }

    /// Fetches the value and empties the slot; fails with `Dropped` if the
    /// slot is dead, with an exclusive-access conflict if any access is
    /// outstanding, else with `NoValue` if the slot is empty.
    pub fn try_get_and_clear(&self, store: &mut CellStore<T>) -> (r: Result<T, RcOCellError>)
        requires
            old(store).wf(),
            self.in_bounds(*old(store)),
        ensures
            final(store).wf(),
            !self.live(*old(store)) ==> r == Err::<T, RcOCellError>(RcOCellError::Dropped) && final(store)@ == old(store)@,
            self.live(*old(store)) && self.slot(*old(store)).access.blocks_exclusive() ==> r
                == Err::<T, RcOCellError>(RcOCellError::exclusive_denied()) && final(store)@ == old(store)@,
            self.live(*old(store)) && !self.slot(*old(store)).access.blocks_exclusive() && self.slot(
                *old(store),
            ).value is None ==> r == Err::<T, RcOCellError>(RcOCellError::NoValue) && final(store)@
                == old(store)@,
            self.live(*old(store)) && !self.slot(*old(store)).access.blocks_exclusive() && self.slot(
                *old(store),
            ).value is Some ==> r == Ok::<T, RcOCellError>(self.slot(*old(store)).value->0) && final(store)@ == old(store)@.update(
                self.slot_id(),
                self.slot(*old(store)).with_value(None),
            ),
    {
        if store.slot_ref(self.id).strong == 0 {
            return Err(RcOCellError::Dropped);
        }
        self.as_strong().try_get_and_clear(store)
    }

    /// Installs `value`, returning the value previously held. The slot
    /// must be alive, hold a value, and be free of outstanding accesses.
    pub fn replace(&self, store: &mut CellStore<T>, value: T) -> (r: T)
        requires
            old(store).wf(),
            self.in_bounds(*old(store)),
            self.live(*old(store)),
            !self.slot(*old(store)).access.blocks_exclusive(),
            self.slot(*old(store)).value is Some,
        ensures
            final(store).wf(),
            r == self.slot(*old(store)).value->0,
            final(store)@ == old(store)@.update(
                self.slot_id(),
                self.slot(*old(store)).with_value(Some(value)),
            ),
    {
        self.as_strong().replace(store, value)
    }

    /// Installs `value`, returning the value previously held; fails with
    /// `Dropped` if the slot is dead, with an exclusive-access conflict if
    /// any access is outstanding, else with `NoValue` if the slot is
    /// empty.
    pub fn try_replace(&self, store: &mut CellStore<T>, value: T) -> (r: Result<T, RcOCellError>)
        requires
            old(store).wf(),
            self.in_bounds(*old(store)),
        ensures
            final(store).wf(),
            !self.live(*old(store)) ==> r == Err::<T, RcOCellError>(RcOCellError::Dropped) && final(store)@ == old(store)@,
            self.live(*old(store)) && self.slot(*old(store)).access.blocks_exclusive() ==> r
                == Err::<T, RcOCellError>(RcOCellError::exclusive_denied()) && final(store)@ == old(store)@,
            self.live(*old(store)) && !self.slot(*old(store)).access.blocks_exclusive() && self.slot(
                *old(store),
            ).value is None ==> r == Err::<T, RcOCellError>(RcOCellError::NoValue) && final(store)@
                == old(store)@,
            self.live(*old(store)) && !self.slot(*old(store)).access.blocks_exclusive() && self.slot(
                *old(store),
            ).value is Some ==> r == Ok::<T, RcOCellError>(self.slot(*old(store)).value->0) && final(store)@ == old(store)@.update(
                self.slot_id(),
                self.slot(*old(store)).with_value(Some(value)),
            ),
    {
        if store.slot_ref(self.id).strong == 0 {
            return Err(RcOCellError::Dropped);
        }
        self.as_strong().try_replace(store, value)
    }

    /// Installs `value`, returning the value previously held, if any. The
    /// slot must be alive and free of outstanding accesses.
    pub fn set(&self, store: &mut CellStore<T>, value: T) -> (r: Option<T>)
        requires
            old(store).wf(),
            self.in_bounds(*old(store)),
            self.live(*old(store)),
            !self.slot(*old(store)).access.blocks_exclusive(),
        ensures
            final(store).wf(),
            r == self.slot(*old(store)).value,
            final(store)@ == old(store)@.update(
                self.slot_id(),
                self.slot(*old(store)).with_value(Some(value)),
            ),
    {
        self.as_strong().set(store, value)
    }

    /// Installs `value`, returning the value previously held, if any;
    /// fails with `Dropped` if the slot is dead, and with an
    /// exclusive-access conflict if any access is outstanding.
    pub fn try_set(&self, store: &mut CellStore<T>, value: T) -> (r: Result<
        Option<T>,
        RcOCellError,
    >)
        requires
            old(store).wf(),
            self.in_bounds(*old(store)),
        ensures
            final(store).wf(),
            !self.live(*old(store)) ==> r == Err::<Option<T>, RcOCellError>(RcOCellError::Dropped)
                && final(store)@ == old(store)@,
            self.live(*old(store)) && self.slot(*old(store)).access.blocks_exclusive() ==> r
                == Err::<Option<T>, RcOCellError>(RcOCellError::exclusive_denied()) && final(store)@ == old(store)@,
            self.live(*old(store)) && !self.slot(*old(store)).access.blocks_exclusive() ==> r
                == Ok::<Option<T>, RcOCellError>(self.slot(*old(store)).value) && final(store)@
                == old(store)@.update(
                self.slot_id(),
                self.slot(*old(store)).with_value(Some(value)),
            ),
    {
        if store.slot_ref(self.id).strong == 0 {
            return Err(RcOCellError::Dropped);
        }
        self.as_strong().try_set(store, value)
    }

    /// Empties the slot, returning the value previously held, if any. The
    /// slot must be alive and free of outstanding accesses.
    pub fn clear(&self, store: &mut CellStore<T>) -> (r: Option<T>)
        requires
            old(store).wf(),
            self.in_bounds(*old(store)),
            self.live(*old(store)),
            !self.slot(*old(store)).access.blocks_exclusive(),
        ensures
            final(store).wf(),
            r == self.slot(*old(store)).value,
            final(store)@ == old(store)@.update(
                self.slot_id(),
                self.slot(*old(store)).with_value(None),
            ),
    {
        self.as_strong().clear(store)
    }

    /// Empties the slot, returning the value previously held, if any;
    /// fails with `Dropped` if the slot is dead, and with an
    /// exclusive-access conflict if any access is outstanding.
    pub fn try_clear(&self, store: &mut CellStore<T>) -> (r: Result<Option<T>, RcOCellError>)
        requires
            old(store).wf(),
            self.in_bounds(*old(store)),
        ensures
            final(store).wf(),
            !self.live(*old(store)) ==> r == Err::<Option<T>, RcOCellError>(RcOCellError::Dropped)
                && final(store)@ == old(store)@,
            self.live(*old(store)) && self.slot(*old(store)).access.blocks_exclusive() ==> r
                == Err::<Option<T>, RcOCellError>(RcOCellError::exclusive_denied()) && final(store)@ == old(store)@,
            self.live(*old(store)) && !self.slot(*old(store)).access.blocks_exclusive() ==> r
                == Ok::<Option<T>, RcOCellError>(self.slot(*old(store)).value) && final(store)@
                == old(store)@.update(
                self.slot_id(),
                self.slot(*old(store)).with_value(None),
            ),
    {
        if store.slot_ref(self.id).strong == 0 {
            return Err(RcOCellError::Dropped);
        }
        self.as_strong().try_clear(store)
    }

    /// Calls `f` with the value if one is present and returns its result;
    /// returns nothing when the slot is empty. The slot must be alive and
    /// no exclusive access may be outstanding.
    pub fn map<F: FnOnce(&T) -> X, X>(&self, store: &CellStore<T>, f: F) -> (r: Option<X>)
        requires
            store.wf(),
            self.in_bounds(*store),
            self.live(*store),
            !self.slot(*store).access.blocks_shared(),
            self.slot(*store).value matches Some(v) ==> call_requires(f, (&v,)),
        ensures
            self.slot(*store).value is None ==> r is None,
            self.slot(*store).value matches Some(v) ==> (r matches Some(x) && call_ensures(
                f,
                (&v,),
                x,
            )),
    {
        self.as_strong().map(store, f)
    }

    /// Calls `f` with the value if one is present and returns its result;
    /// returns nothing when the slot is empty. Fails with `Dropped` if the
    /// slot is dead, and with a shared-access conflict if an exclusive
    /// access is outstanding.
    pub fn try_map<F: FnOnce(&T) -> X, X>(&self, store: &CellStore<T>, f: F) -> (r: Result<
        Option<X>,
        RcOCellError,
    >)
        requires
            store.wf(),
            self.in_bounds(*store),
            self.slot(*store).value matches Some(v) ==> self.live(*store) && !self.slot(
                *store,
            ).access.blocks_shared() ==> call_requires(f, (&v,)),
        ensures
            !self.live(*store) ==> r == Err::<Option<X>, RcOCellError>(RcOCellError::Dropped),
            self.live(*store) && self.slot(*store).access.blocks_shared() ==> r == Err::<
                Option<X>,
                RcOCellError,
            >(RcOCellError::shared_denied()),
            self.live(*store) && !self.slot(*store).access.blocks_shared() && self.slot(
                *store,
            ).value is None ==> r == Ok::<Option<X>, RcOCellError>(None),
            self.slot(*store).value matches Some(v) ==> self.live(*store) && !self.slot(
                *store,
            ).access.blocks_shared() ==> (r matches Ok(o) && o matches Some(x) && call_ensures(
                f,
                (&v,),
                x,
            )),
    {
        if store.slot_ref(self.id).strong == 0 {
            return Err(RcOCellError::Dropped);
        }
        self.as_strong().try_map(store, f)
    }

    /// Calls `f` with the value taken out of the slot if one is present,
    /// installs the value `f` hands back, and returns `f`'s second result;
    /// returns nothing when the slot is empty. The slot must be alive and
    /// free of outstanding accesses.
    pub fn map_mut<F: FnOnce(T) -> (T, X), X>(&self, store: &mut CellStore<T>, f: F) -> (r: Option<
        X,
    >)
        requires
            old(store).wf(),
            self.in_bounds(*old(store)),
            self.live(*old(store)),
            self.slot(*old(store)).access is Free,
            self.slot(*old(store)).value matches Some(v) ==> call_requires(f, (v,)),
        ensures
            final(store).wf(),
            self.slot(*old(store)).value is None ==> r is None && final(store)@ == old(store)@,
            self.slot(*old(store)).value matches Some(v) ==> exists|back: T, x: X|
                #[trigger] call_ensures(f, (v,), (back, x)) && r == Some(x) && final(store)@ == old(store)@.update(self.slot_id(), self.slot(*old(store)).with_value(Some(back))),
    {
        self.as_strong().map_mut(store, f)
    }

    /// Calls `f` with the value taken out of the slot if one is present,
    /// installs the value `f` hands back, and returns `f`'s second result;
    /// returns nothing when the slot is empty. Fails with `Dropped` if the
    /// slot is dead, and with an exclusive-access conflict if any access
    /// is outstanding.
    pub fn try_map_mut<F: FnOnce(T) -> (T, X), X>(&self, store: &mut CellStore<T>, f: F) -> (r:
        Result<Option<X>, RcOCellError>)
        requires
            old(store).wf(),
            self.in_bounds(*old(store)),
            self.slot(*old(store)).value matches Some(v) ==> self.live(*old(store)) && !self.slot(
                *old(store),
            ).access.blocks_exclusive() ==> call_requires(f, (v,)),
        ensures
            final(store).wf(),
            !self.live(*old(store)) ==> r == Err::<Option<X>, RcOCellError>(RcOCellError::Dropped)
                && final(store)@ == old(store)@,
            self.live(*old(store)) && self.slot(*old(store)).access.blocks_exclusive() ==> r
                == Err::<Option<X>, RcOCellError>(RcOCellError::exclusive_denied()) && final(store)@ == old(store)@,
            self.live(*old(store)) && !self.slot(*old(store)).access.blocks_exclusive() && self.slot(
                *old(store),
            ).value is None ==> r == Ok::<Option<X>, RcOCellError>(None) && final(store)@ == old(store)@,
            self.slot(*old(store)).value matches Some(v) ==> self.live(*old(store)) && !self.slot(
                *old(store),
            ).access.blocks_exclusive() ==> exists|back: T, x: X|
                #[trigger] call_ensures(f, (v,), (back, x)) && r == Ok::<Option<X>, RcOCellError>(
                    Some(x),
                ) && final(store)@ == old(store)@.update(
                    self.slot_id(),
                    self.slot(*old(store)).with_value(Some(back)),
                ),
    {
        if store.slot_ref(self.id).strong == 0 {
            return Err(RcOCellError::Dropped);
        }
        self.as_strong().try_map_mut(store, f)
    }

    /// A copy of the value. The slot must be alive, hold a value, and no
    /// exclusive access may be outstanding.
    pub fn get_and_clone(&self, store: &CellStore<T>) -> (r: T) where T: Clone
        requires
            store.wf(),
            self.in_bounds(*store),
            self.live(*store),
            !self.slot(*store).access.blocks_shared(),
            self.slot(*store).value is Some,
        ensures
            cloned::<T>(self.slot(*store).value->0, r),
    {
        self.as_strong().get_and_clone(store)
    }

    /// A copy of the value; fails with `Dropped` if the slot is dead, with
    /// a shared-access conflict if an exclusive access is outstanding,
    /// else with `NoValue` if the slot is empty.
    pub fn try_get_and_clone(&self, store: &CellStore<T>) -> (r: Result<T, RcOCellError>) where
        T: Clone,

        requires
            store.wf(),
            self.in_bounds(*store),
        ensures
            !self.live(*store) ==> r == Err::<T, RcOCellError>(RcOCellError::Dropped),
            self.live(*store) && self.slot(*store).access.blocks_shared() ==> r == Err::<
                T,
                RcOCellError,
            >(RcOCellError::shared_denied()),
            self.live(*store) && !self.slot(*store).access.blocks_shared() && self.slot(
                *store,
            ).value is None ==> r == Err::<T, RcOCellError>(RcOCellError::NoValue),
            self.live(*store) && !self.slot(*store).access.blocks_shared() && self.slot(
                *store,
            ).value is Some ==> (r matches Ok(v) && cloned::<T>(self.slot(*store).value->0, v)),
    {
        if store.slot_ref(self.id).strong == 0 {
            return Err(RcOCellError::Dropped);
        }
        self.as_strong().try_get_and_clone(store)
    }

    /// Renders the slot with `f`: when it is alive, holds a value and a
    /// shared access is obtainable, `f`'s rendering of the value;
    /// otherwise one of three fixed diagnostic strings naming the cause.
    pub fn display_with<F: FnOnce(&T) -> String>(&self, store: &CellStore<T>, f: F) -> (r: String)
        requires
            store.wf(),
            self.in_bounds(*store),
            self.slot(*store).value matches Some(v) ==> self.live(*store) && !self.slot(
                *store,
            ).access.blocks_shared() ==> call_requires(f, (&v,)),
        ensures
            !self.live(*store) ==> r@ == "Value already dropped"@,
            self.live(*store) && self.slot(*store).access.blocks_shared() ==> r@
                == "Value currently inaccessible because it is borrowed mutably somewhere"@,
            self.live(*store) && !self.slot(*store).access.blocks_shared() && self.slot(
                *store,
            ).value is None ==> r@ == "No value present"@,
            self.slot(*store).value matches Some(v) ==> self.live(*store) && !self.slot(
                *store,
            ).access.blocks_shared() ==> call_ensures(f, (&v,), r),
    {
        if store.slot_ref(self.id).strong == 0 {
            return String::from_str("Value already dropped");
        }
        self.as_strong().display_with(store, f)
    }
}

impl WeakRcOCell<String> {
    /// Renders a weak string handle: the value itself when the slot is
    /// alive, populated and readable, else the fixed diagnostic string
    /// naming the cause.
    pub fn display_string(&self, store: &CellStore<String>) -> (r: String)
        requires
            store.wf(),
            self.in_bounds(*store),
        ensures
            !self.live(*store) ==> r@ == "Value already dropped"@,
            self.live(*store) && self.slot(*store).access.blocks_shared() ==> r@
                == "Value currently inaccessible because it is borrowed mutably somewhere"@,
            self.live(*store) && !self.slot(*store).access.blocks_shared() && self.slot(
                *store,
            ).value is None ==> r@ == "No value present"@,
            self.slot(*store).value matches Some(v) ==> self.live(*store) && !self.slot(
                *store,
            ).access.blocks_shared() ==> r@ == v@,
    {
        if store.slot_ref(self.id).strong == 0 {
            return String::from_str("Value already dropped");
        }
        self.as_strong().display_string(store)
    }
}

} // verus!
