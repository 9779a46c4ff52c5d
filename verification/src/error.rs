//! The error taxonomy of the platform. Every precondition violation is
//! returned to the caller as one of these typed failures; nothing is retried
//! internally and nothing is downgraded to a default value.

use vstd::prelude::*;

verus! {

#[derive(Clone, Copy, Debug, PartialEq, Eq, Structural)]
pub enum ChallengeError {
    /// One-shot setup was attempted a second time.
    AlreadyInitialized,
    /// The mint account was already registered.
    MintAccountExisted,
    /// The caller is not a platform administrator.
    OnlyAdministrator,
    /// The caller is not the owner.
    OnlyOwner,
    /// The order has expired.
    OrderExpired,
    /// The offer is invalid.
    InvalidOffer,
    /// A defensive invariant check on just-written state failed.
    InvalidValue,
    /// The reward asset is not whitelisted and enabled in the registry.
    UnAllowedMintToken,
    /// The challenge is not in a state its owner may cancel.
    ChallengeCannotBeCanceled,
    /// Withdrawal is not available for the challenge.
    WithdrawalIsNotAvailable,
    /// Claiming is not available for the challenge.
    ClaimIsNotAvailable,
    /// Moving assets out of the vault is not available for the challenge.
    TransferTokenFromVaultIsNotAvailable,
    /// Depositing is not available for the challenge.
    DepositIsNotAvailable,
    /// Only participants can execute this operation.
    OnlyParticipant,
    /// The participant already joined the challenge.
    AlreadyParticipated,
    /// The deposited amount is below the challenge minimum.
    MinDepositIsNotReached,
}

} // verus!
