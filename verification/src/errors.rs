//! The ways an operation is rejected.

use vstd::prelude::*;

verus! {

/// Why an operation was rejected. A rejected operation changes nothing and
/// asks for no ledger call.
#[derive(Clone, Copy, Debug, PartialEq, Eq, Structural)]
pub enum ErrorCode {
    /// The configuration singleton already exists.
    AlreadyInitialized,
    /// The caller does not hold the role the operation asks for.
    Unauthorized,
    /// The amount must be positive and is not.
    InvalidAmount,
    /// The referral record is already bound.
    AlreadyBound,
    /// A participant named themselves as their inviter.
    SelfInvite,
    /// The receiving account is not the recipient's account for the asset.
    RecipientAccountMismatch,
    /// The system signer no longer holds the minting rights of the asset.
    MintingUnauthorized,
    /// The ledger refused a call.
    LedgerServiceError,
}

} // verus!
