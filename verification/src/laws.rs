//! Library-wide laws, stated and proved over the store model.
//!
//! Each law restates in its `requires` what the operations involved
//! guarantee in their own `ensures`, and concludes the property over the
//! same spec functions and views those contracts use.

use vstd::prelude::*;

use crate::cell::RcOCell;
use crate::outcome::outcome_value;
use crate::outcome::RcOCellComputeResult;
use crate::store::AccessState;
use crate::store::CellStore;
use crate::store::Slot;
use crate::weak::WeakRcOCell;

verus! {

/// Law: shared accesses coexist, and an exclusive access conflicts with
/// any other outstanding access. Granting a shared access over a state
/// that was not exclusively held leaves the state open to further shared
/// grants while blocking exclusive grants; an exclusively held state
/// blocks both.
pub proof fn lemma_guard_exclusion(a: AccessState)
    ensures
        !a.blocks_shared() ==> !a.one_more_shared().blocks_shared(),
        a.one_more_shared().blocks_exclusive(),
        !(a is Free) ==> a.blocks_exclusive(),
        a.blocks_shared() ==> a.blocks_exclusive(),
{
}

/// Law: releasing the shared access just acquired restores the access
/// state exactly as it was, for any well-formed state that admitted the
/// acquisition; release moves the state back toward free.
pub proof fn lemma_release_undoes_acquire(a: AccessState)
    requires
        a.is_wf(),
        !a.blocks_shared(),
        a.room_for_shared(),
    ensures
        a.one_more_shared().one_less_shared() == a,
{
}

/// Law: a newly constructed empty cell is empty: over the slot that `new`
/// appends, `is_none` returns true and `is_some` returns false, and the
/// new handle is a valid owner of a well-formed store.
pub proof fn lemma_new_cell_is_empty<T>(store0: CellStore<T>, store1: CellStore<T>, c: RcOCell<T>)
    requires
        store0.wf(),
        c.slot_id() == store0@.len(),
        store1@ == store0@.push(Slot { value: None::<T>, access: AccessState::Free, strong: 1 }),
    ensures
        c.slot(store1).value is None,
        !(c.slot(store1).value is Some),
        c.valid(store1),
        store1.wf(),
{
    assert forall|i: int| 0 <= i < store1@.len() implies (#[trigger] store1@[i]).wf() by {
        if i < store0@.len() {
            assert(store1@[i] == store0@[i]);
        }
    }
}

/// Law: for every value `v`, `set(v)` followed by `get_and_clear` hands
/// back exactly `v` and leaves the cell empty. The two `requires` below
/// are what `set` and `get_and_clear` state in their `ensures`.
pub proof fn lemma_set_then_get_and_clear<T>(
    store0: CellStore<T>,
    store1: CellStore<T>,
    store2: CellStore<T>,
    c: RcOCell<T>,
    v: T,
    r: T,
)
    requires
        c.valid(store0),
        store1@ == store0@.update(c.slot_id(), c.slot(store0).with_value(Some(v))),
        r == c.slot(store1).value->0,
        store2@ == store1@.update(c.slot_id(), c.slot(store1).with_value(None)),
    ensures
        r == v,
        c.slot(store2).value is None,
{
}

/// Law: when the last strong owner of a slot is given up, the slot dies:
/// every weak handle to it then reports no value, and can no longer be
/// promoted. The first `requires` restates what `drop_cell` ensures for a
/// slot with a single owner.
pub proof fn lemma_last_owner_drop<T>(
    store0: CellStore<T>,
    store1: CellStore<T>,
    c: RcOCell<T>,
    w: WeakRcOCell<T>,
)
    requires
        c.valid(store0),
        c.slot(store0).strong == 1,
        store1@ == store0@.update(c.slot_id(), c.slot(store0).after_drop()),
        w.slot_id() == c.slot_id(),
    ensures
        !w.live(store1),
        w.slot(store1).value is None,
{
}

/// Law: applying a tri-state outcome behaves as declared, starting from a
/// populated or an empty slot alike: `Replace(x)` makes the slot hold
/// `x`, `Remove` empties it, and `DoNothing` leaves the prior value, or
/// absence, unchanged.
pub proof fn lemma_outcome_value<T>(prior: Option<T>, res: RcOCellComputeResult<T>)
    ensures
        res matches RcOCellComputeResult::Replace(x) ==> outcome_value(prior, res) == Some(x),
        res is Remove ==> outcome_value(prior, res) is None,
        res is DoNothing ==> outcome_value(prior, res) == prior,
{
}

/// Law: exchanging the values of two distinct slots, as `swap` ensures it,
/// leaves the first cell holding what the second held and the second
/// holding what the first held, and touches nothing else of either slot.
pub proof fn lemma_swap_exchanges<T>(
    store0: CellStore<T>,
    store1: CellStore<T>,
    a: RcOCell<T>,
    b: RcOCell<T>,
)
    requires
        a.valid(store0),
        b.valid(store0),
        a.slot_id() != b.slot_id(),
        store1@ == store0@.update(a.slot_id(), a.slot(store0).with_value(b.slot(store0).value))
            .update(b.slot_id(), b.slot(store0).with_value(a.slot(store0).value)),
    ensures
        a.slot(store1).value == b.slot(store0).value,
        b.slot(store1).value == a.slot(store0).value,
        a.slot(store1).access == a.slot(store0).access,
        b.slot(store1).access == b.slot(store0).access,
        a.slot(store1).strong == a.slot(store0).strong,
        b.slot(store1).strong == b.slot(store0).strong,
{
}

} // verus!
