//! Domain events, emitted for off-system observers as an audit trail. Each
//! operation appends to an event log passed in by the caller; nothing consumes
//! the log internally. The module also defines the transfer intent a
//! fund-moving operation hands back to the runtime.

use vstd::prelude::*;

use crate::state::{ChallengeStatus, MintInfo, Pubkey};
use crate::transfer_assets_from_vault::TransferAssetsFromVaultActionType;
use crate::transfer_assets_to_vault::TransferAssetsToVaultActionType;

verus! {

/// An asset movement the caller must carry out: move `amount` from `source`
/// to `destination`, all or nothing. When the movement fails, the caller must
/// discard the entities mutated by the operation that issued the intent.
#[derive(Clone, Copy, Debug, PartialEq, Eq, Structural)]
pub struct TransferIntent {
    pub source: Pubkey,
    pub destination: Pubkey,
    pub amount: u64,
}

/// Emitted when the registry's administrator or asset lists are replaced.
#[derive(Clone, Debug)]
pub struct ChallengeRegistryUpdated {
    pub actor: Pubkey,
    pub allowed_administrators: Vec<Pubkey>,
    pub allowed_mint_accounts: Vec<MintInfo>,
}

/// Emitted when a custodial vault is registered for a mint.
#[derive(Clone, Copy, Debug, PartialEq, Eq, Structural)]
pub struct VaultCreated {
    pub actor: Pubkey,
    pub mint_account: Pubkey,
    pub associated_account: Pubkey,
}

/// Emitted when a challenge is created.
#[derive(Clone, Debug)]
pub struct ChallengeCreated {
    pub actor: Pubkey,
    pub id: String,
}

/// Emitted when a challenge's winner list is submitted.
#[derive(Clone, Debug)]
pub struct ChallengeFinalized {
    pub actor: Pubkey,
    pub id: String,
    pub status: ChallengeStatus,
}

/// Emitted when a challenge is canceled.
#[derive(Clone, Debug)]
pub struct ChallengeCanceled {
    pub actor: Pubkey,
    pub id: String,
    pub status: ChallengeStatus,
}

/// Emitted when funds move into the vault (a deposit or a donation).
#[derive(Clone, Debug)]
pub struct RewardReceived {
    pub actor: Pubkey,
    pub challenge_id: String,
    pub reward_mint_token: Pubkey,
    pub action_type: TransferAssetsToVaultActionType,
    pub amount: u64,
}

/// Emitted when funds move out of the vault (a claim, a withdrawal, or the
/// donation sweep).
#[derive(Clone, Debug)]
pub struct RewardClaimed {
    pub actor: Pubkey,
    pub challenge_id: String,
    pub reward_mint_token: Pubkey,
    pub action_type: TransferAssetsFromVaultActionType,
    pub amount: u64,
}

/// One entry of the audit log.
#[derive(Clone, Debug)]
pub enum ChallengeEvent {
    RegistryUpdated(ChallengeRegistryUpdated),
    VaultCreated(VaultCreated),
    ChallengeCreated(ChallengeCreated),
    ChallengeFinalized(ChallengeFinalized),
    ChallengeCanceled(ChallengeCanceled),
    RewardReceived(RewardReceived),
    RewardClaimed(RewardClaimed),
}

pub open spec fn is_registry_updated(
    ev: ChallengeEvent,
    actor: Pubkey,
    allowed_administrators: Seq<Pubkey>,
    allowed_mint_accounts: Seq<MintInfo>,
) -> bool {
    ev matches ChallengeEvent::RegistryUpdated(e) && e.actor == actor
        && e.allowed_administrators@ == allowed_administrators && e.allowed_mint_accounts@
        == allowed_mint_accounts
}

pub open spec fn is_vault_created(
    ev: ChallengeEvent,
    actor: Pubkey,
    mint_account: Pubkey,
    associated_account: Pubkey,
) -> bool {
    ev matches ChallengeEvent::VaultCreated(e) && e == (VaultCreated {
        actor,
        mint_account,
        associated_account,
    })
}

pub open spec fn is_challenge_created(ev: ChallengeEvent, actor: Pubkey, id: Seq<char>) -> bool {
    ev matches ChallengeEvent::ChallengeCreated(e) && e.actor == actor && e.id@ == id
}

pub open spec fn is_challenge_finalized(
    ev: ChallengeEvent,
    actor: Pubkey,
    id: Seq<char>,
    status: ChallengeStatus,
) -> bool {
    ev matches ChallengeEvent::ChallengeFinalized(e) && e.actor == actor && e.id@ == id && e.status
        == status
}

pub open spec fn is_challenge_canceled(
    ev: ChallengeEvent,
    actor: Pubkey,
    id: Seq<char>,
    status: ChallengeStatus,
) -> bool {
    ev matches ChallengeEvent::ChallengeCanceled(e) && e.actor == actor && e.id@ == id && e.status
        == status
}

pub open spec fn is_reward_received(
    ev: ChallengeEvent,
    actor: Pubkey,
    challenge_id: Seq<char>,
    reward_mint_token: Pubkey,
    action_type: TransferAssetsToVaultActionType,
    amount: u64,
) -> bool {
    ev matches ChallengeEvent::RewardReceived(e) && e.actor == actor && e.challenge_id@
        == challenge_id && e.reward_mint_token == reward_mint_token && e.action_type == action_type
        && e.amount == amount
}

pub open spec fn is_reward_claimed(
    ev: ChallengeEvent,
    actor: Pubkey,
    challenge_id: Seq<char>,
    reward_mint_token: Pubkey,
    action_type: TransferAssetsFromVaultActionType,
    amount: u64,
) -> bool {
    ev matches ChallengeEvent::RewardClaimed(e) && e.actor == actor && e.challenge_id@
        == challenge_id && e.reward_mint_token == reward_mint_token && e.action_type == action_type
        && e.amount == amount
}

/// The log grew by exactly one entry.
pub open spec fn appended(
    events_after: Seq<ChallengeEvent>,
    events_before: Seq<ChallengeEvent>,
) -> bool {
    events_after.len() == events_before.len() + 1 && events_after.drop_last() == events_before
}

} // verus!
