//! Error kinds reported by the settlement core.

use vstd::prelude::*;

verus! {

/// Every failure of the settlement core, each aborting the enclosing
/// transaction. `DecodeFailed` and `IncorrectProgramId` stand for the
/// runtime's native decode and execution error kinds, which pass through
/// this layer unmodified.
#[derive(Debug, Clone, Copy, PartialEq, Eq, Structural)]
pub enum ErrorCode {
    /// An account record whose initialized flag is false.
    Uninitialized,
    /// An account whose owning program differs from the expected one.
    IncorrectOwner,
    /// A creator identity absent from the sale configuration's creator list.
    CreatorNotFound,
    /// A token transfer the runtime refused to execute.
    TokenTransferFailed,
    /// A checked multiplication or division that could not produce a value.
    ArithmeticOverflow,
    /// An account blob that does not decode to the expected record shape.
    DecodeFailed,
    /// A token-program identity that is not the token program's.
    IncorrectProgramId,
}

} // verus!
