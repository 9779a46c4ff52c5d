//! Moving assets out of the vault: a winner's claim, a player's withdrawal
//! after cancellation, or the administrator's sweep of the donation pool.
//! Each operation validates its preconditions, updates the ledger, and issues
//! the transfer intent for the outgoing funds.

use vstd::prelude::*;
use vstd::assert_seqs_equal;

use crate::error::ChallengeError;
use crate::event::{appended, is_reward_claimed, ChallengeEvent, RewardClaimed, TransferIntent};
use crate::model::lemma_count_where_bounds;
use crate::state::{
    deposit_of, lemma_sum_deposits_nonneg, lemma_winner_key_is_player_key, player_has_key,
    spec_is_administrator, spec_is_player, spec_is_winner, spec_unclaimed_winners,
    spec_unwithdrawn_players, Challenge, ChallengePlatformRegistry, ChallengeStatus, ChallengeView,
    PlayerInfo, Pubkey, RegistryView,
};

verus! {

/// Why assets are moved out of the vault.
#[derive(Clone, Copy, Debug, PartialEq, Eq, Structural)]
pub enum TransferAssetsFromVaultActionType {
    Claiming,
    Withdrawing,
    AdminWithdrawingDonatePool,
}

#[derive(Clone, Debug)]
pub struct TransferAssetsFromVaultParams {
    pub challenge_id: String,
    pub action_type: TransferAssetsFromVaultActionType,
}

/// The entities and identities a payout acts on: the signer, the reward mint,
/// the registry, the signer's token account, the challenge, and the vault.
#[derive(Clone, Debug)]
pub struct TransferAssetsFromVaultContext {
    pub signer: Pubkey,
    pub mint_account: Pubkey,
    pub challenge_registry: ChallengePlatformRegistry,
    pub signer_token_account: Pubkey,
    pub challenge: Challenge,
    pub challenge_token_vault: Pubkey,
}

/// The ledger after `k`'s claim: `k`'s entry carries the claimed mark.
pub open spec fn mark_claimed(s: Seq<PlayerInfo>, k: Pubkey) -> Seq<PlayerInfo> {
    s.map(
        |i: int, p: PlayerInfo|
            if p.public_key == k {
                PlayerInfo { is_winner_claimed_reward: true, ..p }
            } else {
                p
            },
    )
}

/// The ledger after `k`'s withdrawal: `k`'s entry carries the withdrawn mark.
pub open spec fn mark_withdrawn(s: Seq<PlayerInfo>, k: Pubkey) -> Seq<PlayerInfo> {
    s.map(
        |i: int, p: PlayerInfo|
            if p.public_key == k {
                PlayerInfo { is_player_withdrawn: true, ..p }
            } else {
                p
            },
    )
}

/// A claim: only from `Finalized`, only by a winner, and only once — a second
/// claim computes a zero reward and fails. The reward is the floor share
/// `prize_pool / winners`; the pool itself is not reduced, and when the last
/// winner claims, the status moves to `Claimed`.
pub open spec fn spec_claim(c: ChallengeView, signer: Pubkey) -> (ChallengeView, Result<
    u64,
    ChallengeError,
>) {
    if c.status != ChallengeStatus::Finalized {
        (c, Err(ChallengeError::ClaimIsNotAvailable))
    } else if !spec_is_winner(c.players, signer) {
        (c, Err(ChallengeError::ClaimIsNotAvailable))
    } else {
        let reward = c.prize_for(signer);
        if reward == 0 {
            (c, Err(ChallengeError::ClaimIsNotAvailable))
        } else {
            let players2 = mark_claimed(c.players, signer);
            let status2 = if spec_unclaimed_winners(players2) == 0 {
                ChallengeStatus::Claimed
            } else {
                ChallengeStatus::Finalized
            };
            (ChallengeView { players: players2, status: status2, ..c }, Ok(reward))
        }
    }
}

/// A withdrawal: only from `Canceled`, only by a player, and only once — a
/// second withdrawal computes a zero amount and fails. The amount is the
/// player's recorded stake; when the last player withdraws, the status moves
/// to `Withdrawn`.
pub open spec fn spec_withdraw(c: ChallengeView, signer: Pubkey) -> (ChallengeView, Result<
    u64,
    ChallengeError,
>) {
    if c.status != ChallengeStatus::Canceled {
        (c, Err(ChallengeError::WithdrawalIsNotAvailable))
    } else if !spec_is_player(c.players, signer) {
        (c, Err(ChallengeError::WithdrawalIsNotAvailable))
    } else {
        let amount = c.withdrawal_for(signer);
        if amount == 0 {
            (c, Err(ChallengeError::WithdrawalIsNotAvailable))
        } else {
            let players2 = mark_withdrawn(c.players, signer);
            let status2 = if spec_unwithdrawn_players(players2) == 0 {
                ChallengeStatus::Withdrawn
            } else {
                ChallengeStatus::Canceled
            };
            (ChallengeView { players: players2, status: status2, ..c }, Ok(amount))
        }
    }
}

/// The administrator's donation sweep: available in any status, it empties
/// the donation pool and reduces the prize pool by the same amount; the
/// player ledger is untouched.
pub open spec fn spec_admin_sweep(c: ChallengeView, reg: RegistryView, signer: Pubkey) -> (
    ChallengeView,
    Result<u64, ChallengeError>,
) {
    if !spec_is_administrator(reg, signer) {
        (c, Err(ChallengeError::OnlyAdministrator))
    } else if c.donate_pool == 0 {
        (c, Err(ChallengeError::WithdrawalIsNotAvailable))
    } else {
        (
            ChallengeView {
                prize_pool: (c.prize_pool - c.donate_pool) as u64,
                donate_pool: 0u64,
                ..c
            },
            Ok(c.donate_pool),
        )
    }
}

impl TransferAssetsFromVaultContext {
    /// Routes to a claim, a withdrawal, or the donation sweep by the action
    /// type.
    pub fn execute(
        &mut self,
        params: TransferAssetsFromVaultParams,
        events: &mut Vec<ChallengeEvent>,
    ) -> (r: Result<TransferIntent, ChallengeError>)
        requires
            old(self).challenge.wf(),
        ensures
            final(self).challenge.wf(),
            *final(self) == (TransferAssetsFromVaultContext {
                challenge: final(self).challenge,
                ..*old(self)
            }),
            ({
                let (c2, res) = match params.action_type {
                    TransferAssetsFromVaultActionType::Claiming => spec_claim(
                        old(self).challenge@,
                        old(self).signer,
                    ),
                    TransferAssetsFromVaultActionType::Withdrawing => spec_withdraw(
                        old(self).challenge@,
                        old(self).signer,
                    ),
                    TransferAssetsFromVaultActionType::AdminWithdrawingDonatePool => spec_admin_sweep(
                        old(self).challenge@,
                        old(self).challenge_registry@,
                        old(self).signer,
                    ),
                };
                &&& final(self).challenge@ == c2
                &&& (r matches Ok(intent) ==> res == Ok::<u64, ChallengeError>(intent.amount)
                    && intent.source == old(self).challenge_token_vault && intent.destination
                    == old(self).signer_token_account && appended(final(events)@, old(events)@)
                    && is_reward_claimed(
                    final(events)@.last(),
                    old(self).signer,
                    old(self).challenge@.id,
                    old(self).mint_account,
                    params.action_type,
                    intent.amount,
                ))
                &&& (r matches Err(e) ==> res == Err::<u64, ChallengeError>(e) && final(events)@
                    == old(events)@)
            }),
    {
        match params.action_type {
            TransferAssetsFromVaultActionType::Claiming => self.claim(params, events),
            TransferAssetsFromVaultActionType::Withdrawing => self.withdraw(params, events),
            TransferAssetsFromVaultActionType::AdminWithdrawingDonatePool => self
                .admin_withdraw_donate_pool(params, events),
        }
    }

    fn claim(
        &mut self,
        params: TransferAssetsFromVaultParams,
        events: &mut Vec<ChallengeEvent>,
    ) -> (r: Result<TransferIntent, ChallengeError>)
        requires
            params.action_type is Claiming,
            old(self).challenge.wf(),
        ensures
            final(self).challenge.wf(),
            *final(self) == (TransferAssetsFromVaultContext {
                challenge: final(self).challenge,
                ..*old(self)
            }),
            ({
                let (c2, res) = spec_claim(old(self).challenge@, old(self).signer);
                &&& final(self).challenge@ == c2
                &&& (r matches Ok(intent) ==> res == Ok::<u64, ChallengeError>(intent.amount)
                    && intent.source == old(self).challenge_token_vault && intent.destination
                    == old(self).signer_token_account && appended(final(events)@, old(events)@)
                    && is_reward_claimed(
                    final(events)@.last(),
                    old(self).signer,
                    old(self).challenge@.id,
                    old(self).mint_account,
                    params.action_type,
                    intent.amount,
                ))
                &&& (r matches Err(e) ==> res == Err::<u64, ChallengeError>(e) && final(events)@
                    == old(events)@)
            }),
    {
        if !self.challenge.is_challenge_open_for_claim() {
            return Err(ChallengeError::ClaimIsNotAvailable);
        }
        if !self.challenge.is_winner(self.signer) {
            return Err(ChallengeError::ClaimIsNotAvailable);
        }
        let reward_amount = match self.challenge.get_prize_for(self.signer) {
            Ok(v) => v,
            Err(_) => return Err(ChallengeError::ClaimIsNotAvailable),
        };
        if reward_amount == 0 {
            return Err(ChallengeError::ClaimIsNotAvailable);
        }
        let ghost s0 = self.challenge@.players;
        let ghost k = old(self).signer;
        proof {
            lemma_winner_key_is_player_key(s0, k);
        }
        let idx = self.challenge.find_player_for_mutation(self.signer);
        let existing = self.challenge.players[idx];
        let updated = PlayerInfo { is_winner_claimed_reward: true, ..existing };
        self.challenge.players.set(idx, updated);
        proof {
            let s2 = self.challenge@.players;
            assert forall|j: int| 0 <= j < s0.len() && j != idx ==> s0[j].public_key != k by {
                if 0 <= j < s0.len() && j != idx && s0[j].public_key == k {
                    assert(s0[idx as int].public_key == k);
                }
            }
            assert_seqs_equal!(s2 == mark_claimed(s0, k), j => {
                if j == idx as int {
                } else {
                    assert(s0[j].public_key != k);
                }
            });
            assert(forall|j: int|
                0 <= j < s2.len() ==> (#[trigger] s2[j]).public_key == s0[j].public_key
                    && deposit_of()(s2[j]) == deposit_of()(s0[j]));
            crate::model::lemma_sum_by_congruent(s2, s0, deposit_of());
            lemma_count_where_bounds(s2, crate::state::unclaimed_winner());
        }
        let unclaimed = match self.challenge.get_total_unclaimed_winners() {
            Ok(v) => v,
            Err(_) => return Err(ChallengeError::ClaimIsNotAvailable),
        };
        proof {
            assert(self.challenge@.players == mark_claimed(s0, k));
            assert(spec_unclaimed_winners(mark_claimed(s0, k)) >= 0);
            assert((unclaimed == 0) == (spec_unclaimed_winners(mark_claimed(s0, k)) == 0));
        }
        if unclaimed == 0 {
            self.challenge.status = ChallengeStatus::Claimed;
        }
        let event = RewardClaimed {
            actor: self.signer,
            challenge_id: self.challenge.id.clone(),
            reward_mint_token: self.mint_account,
            action_type: params.action_type,
            amount: reward_amount,
        };
        events.push(ChallengeEvent::RewardClaimed(event));
        proof {
            assert(events@.drop_last() =~= old(events)@);
        }
        Ok(
            TransferIntent {
                source: self.challenge_token_vault,
                destination: self.signer_token_account,
                amount: reward_amount,
            },
        )
    }

    fn withdraw(
        &mut self,
        params: TransferAssetsFromVaultParams,
        events: &mut Vec<ChallengeEvent>,
    ) -> (r: Result<TransferIntent, ChallengeError>)
        requires
            params.action_type is Withdrawing,
            old(self).challenge.wf(),
        ensures
            final(self).challenge.wf(),
            *final(self) == (TransferAssetsFromVaultContext {
                challenge: final(self).challenge,
                ..*old(self)
            }),
            ({
                let (c2, res) = spec_withdraw(old(self).challenge@, old(self).signer);
                &&& final(self).challenge@ == c2
                &&& (r matches Ok(intent) ==> res == Ok::<u64, ChallengeError>(intent.amount)
                    && intent.source == old(self).challenge_token_vault && intent.destination
                    == old(self).signer_token_account && appended(final(events)@, old(events)@)
                    && is_reward_claimed(
                    final(events)@.last(),
                    old(self).signer,
                    old(self).challenge@.id,
                    old(self).mint_account,
                    params.action_type,
                    intent.amount,
                ))
                &&& (r matches Err(e) ==> res == Err::<u64, ChallengeError>(e) && final(events)@
                    == old(events)@)
            }),
    {
        if !self.challenge.is_challenge_open_for_withdrawal() {
            return Err(ChallengeError::WithdrawalIsNotAvailable);
        }
        if !self.challenge.is_player(self.signer) {
            return Err(ChallengeError::WithdrawalIsNotAvailable);
        }
        let withdrawal_amount = match self.challenge.get_withdrawal_for(self.signer) {
            Ok(v) => v,
            Err(_) => return Err(ChallengeError::WithdrawalIsNotAvailable),
        };
        if withdrawal_amount == 0 {
            return Err(ChallengeError::WithdrawalIsNotAvailable);
        }
        let ghost s0 = self.challenge@.players;
        let ghost k = old(self).signer;
        let idx = self.challenge.find_player_for_mutation(self.signer);
        let existing = self.challenge.players[idx];
        let updated = PlayerInfo { is_player_withdrawn: true, ..existing };
        self.challenge.players.set(idx, updated);
        proof {
            let s2 = self.challenge@.players;
            assert forall|j: int| 0 <= j < s0.len() && j != idx ==> s0[j].public_key != k by {
                if 0 <= j < s0.len() && j != idx && s0[j].public_key == k {
                    assert(s0[idx as int].public_key == k);
                }
            }
            assert_seqs_equal!(s2 == mark_withdrawn(s0, k), j => {
                if j == idx as int {
                } else {
                    assert(s0[j].public_key != k);
                }
            });
            assert(forall|j: int|
                0 <= j < s2.len() ==> (#[trigger] s2[j]).public_key == s0[j].public_key
                    && deposit_of()(s2[j]) == deposit_of()(s0[j]));
            crate::model::lemma_sum_by_congruent(s2, s0, deposit_of());
            lemma_count_where_bounds(s2, crate::state::not_withdrawn());
        }
        let unwithdrawn = match self.challenge.get_total_unwithdrawn_player() {
            Ok(v) => v,
            Err(_) => return Err(ChallengeError::WithdrawalIsNotAvailable),
        };
        proof {
            assert(self.challenge@.players == mark_withdrawn(s0, k));
            assert(spec_unwithdrawn_players(mark_withdrawn(s0, k)) >= 0);
            assert((unwithdrawn == 0) == (spec_unwithdrawn_players(mark_withdrawn(s0, k)) == 0));
        }
        if unwithdrawn == 0 {
            self.challenge.status = ChallengeStatus::Withdrawn;
        }
        let event = RewardClaimed {
            actor: self.signer,
            challenge_id: self.challenge.id.clone(),
            reward_mint_token: self.mint_account,
            action_type: params.action_type,
            amount: withdrawal_amount,
        };
        events.push(ChallengeEvent::RewardClaimed(event));
        proof {
            assert(events@.drop_last() =~= old(events)@);
        }
        Ok(
            TransferIntent {
                source: self.challenge_token_vault,
                destination: self.signer_token_account,
                amount: withdrawal_amount,
            },
        )
    }

    fn admin_withdraw_donate_pool(
        &mut self,
        params: TransferAssetsFromVaultParams,
        events: &mut Vec<ChallengeEvent>,
    ) -> (r: Result<TransferIntent, ChallengeError>)
        requires
            params.action_type is AdminWithdrawingDonatePool,
            old(self).challenge.wf(),
        ensures
            final(self).challenge.wf(),
            *final(self) == (TransferAssetsFromVaultContext {
                challenge: final(self).challenge,
                ..*old(self)
            }),
            ({
                let (c2, res) = spec_admin_sweep(
                    old(self).challenge@,
                    old(self).challenge_registry@,
                    old(self).signer,
                );
                &&& final(self).challenge@ == c2
                &&& (r matches Ok(intent) ==> res == Ok::<u64, ChallengeError>(intent.amount)
                    && intent.source == old(self).challenge_token_vault && intent.destination
                    == old(self).signer_token_account && appended(final(events)@, old(events)@)
                    && is_reward_claimed(
                    final(events)@.last(),
                    old(self).signer,
                    old(self).challenge@.id,
                    old(self).mint_account,
                    params.action_type,
                    intent.amount,
                ))
                &&& (r matches Err(e) ==> res == Err::<u64, ChallengeError>(e) && final(events)@
                    == old(events)@)
            }),
    {
        if !self.challenge_registry.is_administrator(self.signer) {
            return Err(ChallengeError::OnlyAdministrator);
        }
        let withdrawal_amount = self.challenge.donate_pool;
        if withdrawal_amount == 0 {
            return Err(ChallengeError::WithdrawalIsNotAvailable);
        }
        proof {
            lemma_sum_deposits_nonneg(self.challenge@.players);
        }
        self.challenge.prize_pool = self.challenge.prize_pool - withdrawal_amount;
        self.challenge.donate_pool = 0;
        let event = RewardClaimed {
            actor: self.signer,
            challenge_id: self.challenge.id.clone(),
            reward_mint_token: self.mint_account,
            action_type: params.action_type,
            amount: withdrawal_amount,
        };
        events.push(ChallengeEvent::RewardClaimed(event));
        proof {
            assert(events@.drop_last() =~= old(events)@);
        }
        Ok(
            TransferIntent {
                source: self.challenge_token_vault,
                destination: self.signer_token_account,
                amount: withdrawal_amount,
            },
        )
    }
}

} // verus!
