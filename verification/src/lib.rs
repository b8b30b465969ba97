//! A shared-ownership container holding zero or one value, with a
//! runtime-enforced exclusive/shared access discipline and a non-owning
//! weak counterpart.
//!
//! Every family of strong handles ([`RcOCell`]) and weak handles
//! ([`WeakRcOCell`]) is backed by a slot inside an explicit [`CellStore`].
//! The store records, for each slot, the optional value, the outstanding
//! access state (free, shared by `n` readers, or exclusively held) and the
//! number of strong owners; every operation takes the store as a
//! parameter, so the whole aliasing discipline is a verified state
//! machine rather than hidden interior mutation.
//!
//! Three conventions follow from making the discipline explicit:
//!
//! - Access tokens ([`SharedGuard`], [`ExclusiveGuard`]) are released by an
//!   explicit `release` call rather than by going out of scope, and strong
//!   ownership is duplicated and given up with [`RcOCell::clone_cell`] and
//!   [`RcOCell::drop_cell`]; the slot dies when its last strong owner is
//!   given up.
//! - Each operation comes in two forms. The `try_` form returns a typed
//!   [`RcOCellError`] on an empty slot, a dead slot or an access conflict.
//!   The direct form instead demands in its `requires` that the condition
//!   cannot arise, and is proved never to fail under that contract.
//! - Mutating callbacks take the value out of the slot and hand a value
//!   back — the moral equivalent of editing through a mutable view — and
//!   declare the slot's post-state through the returned
//!   [`RcOCellComputeResult`], which is applied to the handed-back value;
//!   the contracts relate the slot's new content to the callback's own
//!   postcondition. Read-only callbacks receive a shared view instead.

pub mod cell;
pub mod errors;
pub mod laws;
pub mod outcome;
pub mod store;
pub mod weak;

pub use cell::ExclusiveGuard;
pub use cell::RcOCell;
pub use cell::SharedGuard;
pub use errors::RcOCellBorrowError;
pub use errors::RcOCellError;
pub use outcome::RcOCellComputeResult;
pub use store::CellStore;
pub use weak::WeakRcOCell;
