//! The tri-state outcome a mutating callback returns to declare what should
//! happen to the slot's value.

use vstd::prelude::*;

verus! {

/// The outcome of a `compute`-style callback: replace the value, remove it,
/// or leave the slot exactly as it was.
///
/// A closed tagged union keeps "no change" distinguishable from "replace
/// with an empty value".
pub enum RcOCellComputeResult<T> {
    /// Install the carried value in the slot.
    Replace(T),
    /// Empty the slot (a no-op when it already holds nothing).
    Remove,
    /// Leave the slot's value, or its absence, untouched.
    DoNothing,
}

/// The value a slot holds after an outcome is applied to a slot that held
/// `prior`.
pub open spec fn outcome_value<T>(prior: Option<T>, res: RcOCellComputeResult<T>) -> Option<T> {
    match res {
        RcOCellComputeResult::Replace(t) => Some(t),
        RcOCellComputeResult::Remove => None,
        RcOCellComputeResult::DoNothing => prior,
    }
}

} // verus!
