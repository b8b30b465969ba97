//! The failure taxonomy of the fallible cell operations.

use vstd::prelude::*;

verus! {

/// Why an access request could not be granted.
#[derive(Clone, Copy, Debug, PartialEq, Eq, Structural)]
pub enum RcOCellBorrowError {
    /// A shared access failed because an exclusive access is outstanding.
    Normal,
    /// An exclusive access failed because some access (shared or exclusive)
    /// is outstanding.
    Mut,
}

/// The typed failure reasons returned by the fallible (`try_`) operations.
#[derive(Clone, Copy, Debug, PartialEq, Eq, Structural)]
pub enum RcOCellError {
    /// The operation needed a present value but the slot was empty.
    NoValue,
    /// The operation went through a weak handle whose slot no longer exists.
    Dropped,
    /// The requested access conflicts with an outstanding access.
    BorrowError(RcOCellBorrowError),
}

impl RcOCellError {
    /// The error reported when a shared access is denied: an exclusive
    /// access is outstanding.
    pub open spec fn shared_denied() -> RcOCellError {
        RcOCellError::BorrowError(RcOCellBorrowError::Normal)
    }

    /// The error reported when an exclusive access is denied: some access,
    /// shared or exclusive, is outstanding.
    pub open spec fn exclusive_denied() -> RcOCellError {
        RcOCellError::BorrowError(RcOCellBorrowError::Mut)
    }
}

impl RcOCellBorrowError {
    /// A short description of the conflict, in the wording std uses for the
    /// corresponding runtime borrow failures.
    pub fn message(&self) -> (r: String)
        ensures
            *self is Normal ==> r@ == "already mutably borrowed"@,
            *self is Mut ==> r@ == "already borrowed"@,
    {
        match self {
            RcOCellBorrowError::Normal => String::from_str("already mutably borrowed"),
            RcOCellBorrowError::Mut => String::from_str("already borrowed"),
        }
    }
}

impl RcOCellError {
    /// A short description of the failure.
    pub fn message(&self) -> (r: String)
        ensures
            *self is NoValue ==> r@ == "No value present"@,
            *self is Dropped ==> r@ == "Cell already dropped"@,
            *self matches RcOCellError::BorrowError(b) && b is Normal ==> (r@
                == "already mutably borrowed"@),
            *self matches RcOCellError::BorrowError(b) && b is Mut ==> r@ == "already borrowed"@,
    {
        match self {
            RcOCellError::NoValue => String::from_str("No value present"),
            RcOCellError::Dropped => String::from_str("Cell already dropped"),
            RcOCellError::BorrowError(b) => b.message(),
        }
    }
}

} // verus!
