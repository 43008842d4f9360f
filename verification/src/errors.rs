//! The protocol's error taxonomy. Every operation either commits in full or
//! returns one of these and leaves every account unchanged.

use vstd::prelude::*;

verus! {

/// The reasons an operation is refused. Each is terminal for the invoking
/// operation: nothing is retried and no state changes.
#[derive(Clone, Copy, Debug, PartialEq, Eq, Structural)]
pub enum SaiCitizenshipError {
    /// The caller of an administrative operation is not the administrator.
    Unauthorized,
    /// A configured price is not positive.
    InvalidConfiguration,
    /// `start_sale` while the sale is already active.
    AlreadyActive,
    /// `stop_sale` while the sale is already inactive.
    AlreadyInactive,
    /// A swap was attempted while the sale is inactive.
    SaleNotStarted,
    /// The receiving account's asset class does not match the asset paid out.
    DestinationMismatch,
    /// The buyer's payment account holds less than the configured price.
    InsufficientFunds,
    /// The selected custody vault holds less than the amount to pay out.
    InsolventVault,
    /// The proceeds vault is empty, so there is nothing to sweep.
    NothingToWithdraw,
    /// A supplied account does not match the stored vault reference, or is
    /// not authorized as the operation demands.
    RelationshipViolation,
    /// The nonce search found no viable custody derivation.
    DerivationFailed,
}

} // verus!
