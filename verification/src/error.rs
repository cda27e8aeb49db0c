use vstd::prelude::*;

verus! {

/// The distinct terminal outcomes of a failed deposit attempt. Every failure
/// is returned to the caller unchanged; nothing is retried or swallowed.
#[derive(Clone, Copy, Debug, PartialEq, Eq, Structural)]
pub enum DepositError {
    /// The wrong number of accounts was supplied.
    StructuralError,
    /// The owner account did not sign the transaction.
    AuthorizationError,
    /// The vault is not owned by the base system program, or its address does
    /// not match the canonical derived address for the owner.
    OwnershipError,
    /// The vault already holds a nonzero balance.
    StateError,
    /// The instruction payload has the wrong length or decodes to zero.
    PayloadError,
    /// The native transfer could not be performed (insufficient funds).
    TransferError,
}

} // verus!
