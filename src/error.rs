//! Failures of the marketplace operations.

use vstd::prelude::*;

verus! {

/// Failures of the owner slot's transitions.
#[derive(Clone, Copy, Debug, PartialEq, Eq)]
pub enum OwnershipError {
    /// Ownership has been renounced.
    NoOwner,
    /// The caller is not the current owner.
    NotOwner,
    /// The caller is not the proposed owner.
    NotPendingOwner,
    /// No transfer has been proposed.
    TransferNotFound,
}

#[derive(Clone, Copy, Debug, PartialEq, Eq)]
pub enum ContractError {
    /// The caller is not the admin, or not the token's current owner.
    Unauthorized,
    /// The marketplace may not transfer the token.
    NotApproved,
    CollectionAlreadyRegistered,
    CollectionNotFound,
    SaleDoesNotExist,
    /// The price is not in the accepted currency.
    DenomNotSupported,
    /// The attached funds are not exactly the price.
    InsufficientFunds,
    /// An address string did not validate; raised where addresses are validated.
    InvalidAddress,
    /// A percentage above 100.
    PercentageOutOfRange,
    /// The fee and the royalty together exceed the payment.
    FeeSplitExceedsPayment,
    Ownership(OwnershipError),
}

} // verus!
