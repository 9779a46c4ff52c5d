//! Moving assets into the vault: a player's deposit or a pure donation.
//! Either operation validates the challenge status, issues the transfer
//! intent for the incoming funds, and updates the pools and the ledger.

use vstd::prelude::*;
use vstd::assert_seqs_equal;

use crate::error::ChallengeError;
use crate::event::{appended, is_reward_received, ChallengeEvent, RewardReceived, TransferIntent};
use crate::model::{
    lemma_count_where_single, lemma_sum_by_element_bound, lemma_sum_by_push, lemma_sum_by_update,
    sum_by,
};
use crate::state::{
    deposit_of, player_has_key, spec_is_player, Challenge, ChallengeStatus, ChallengeView,
    PlayerInfo, Pubkey,
};

verus! {

/// Why assets are moved into the vault.
#[derive(Clone, Copy, Debug, PartialEq, Eq, Structural)]
pub enum TransferAssetsToVaultActionType {
    JoinChallenge,
    Donate,
}

#[derive(Clone, Debug)]
pub struct TransferAssetsToVaultParams {
    pub challenge_id: String,
    pub action_type: TransferAssetsToVaultActionType,
    pub amount: u64,
}

/// The entities and identities a deposit or donation acts on: the signer, the
/// reward mint, the signer's token account, the challenge, and the vault.
#[derive(Clone, Debug)]
pub struct TransferAssetsToVaultContext {
    pub signer: Pubkey,
    pub mint_account: Pubkey,
    pub signer_token_account: Pubkey,
    pub challenge: Challenge,
    pub challenge_token_vault: Pubkey,
}

/// The ledger after a deposit of `amount` by `k`: the existing entry's stake
/// grows by `amount`, or a new entry opens with exactly that stake.
pub open spec fn spec_deposit_players(s: Seq<PlayerInfo>, k: Pubkey, amount: u64) -> Seq<
    PlayerInfo,
> {
    if spec_is_player(s, k) {
        s.map(
            |i: int, p: PlayerInfo|
                if p.public_key == k {
                    PlayerInfo { total_deposit: (p.total_deposit + amount) as u64, ..p }
                } else {
                    p
                },
        )
    } else {
        s.push(
            PlayerInfo {
                public_key: k,
                total_deposit: amount,
                is_winner: false,
                is_winner_claimed_reward: false,
                is_player_withdrawn: false,
            },
        )
    }
}

/// A deposit: only while the challenge is open for participants, only at or
/// above the minimum; raises the prize pool and the depositor's stake by the
/// amount.
pub open spec fn spec_deposit(c: ChallengeView, signer: Pubkey, amount: u64) -> (ChallengeView,
    Result<(), ChallengeError>,
) {
    if c.status != ChallengeStatus::Created {
        (c, Err(ChallengeError::DepositIsNotAvailable))
    } else if amount < c.min_deposit {
        (c, Err(ChallengeError::MinDepositIsNotReached))
    } else {
        (
            ChallengeView {
                prize_pool: (c.prize_pool + amount) as u64,
                players: spec_deposit_players(c.players, signer, amount),
                ..c
            },
            Ok(()),
        )
    }
}

/// A donation: only while the challenge is open for participants, no minimum,
/// no ledger entry; raises both pools by the amount.
pub open spec fn spec_donate(c: ChallengeView, signer: Pubkey, amount: u64) -> (ChallengeView,
    Result<(), ChallengeError>,
) {
    if c.status != ChallengeStatus::Created {
        (c, Err(ChallengeError::DepositIsNotAvailable))
    } else {
        (
            ChallengeView {
                prize_pool: (c.prize_pool + amount) as u64,
                donate_pool: (c.donate_pool + amount) as u64,
                ..c
            },
            Ok(()),
        )
    }
}

impl TransferAssetsToVaultContext {
    /// Routes to a deposit or a donation by the action type.
    pub fn execute(
        &mut self,
        params: TransferAssetsToVaultParams,
        events: &mut Vec<ChallengeEvent>,
    ) -> (r: Result<TransferIntent, ChallengeError>)
        requires
            old(self).challenge.wf(),
            old(self).challenge@.status == ChallengeStatus::Created && (
            params.action_type is Donate || params.amount >= old(self).challenge@.min_deposit)
                ==> old(self).challenge@.prize_pool + params.amount <= u64::MAX,
        ensures
            final(self).challenge.wf(),
            *final(self) == (TransferAssetsToVaultContext {
                challenge: final(self).challenge,
                ..*old(self)
            }),
            ({
                let (c2, res) = if params.action_type is JoinChallenge {
                    spec_deposit(old(self).challenge@, old(self).signer, params.amount)
                } else {
                    spec_donate(old(self).challenge@, old(self).signer, params.amount)
                };
                &&& final(self).challenge@ == c2
                &&& (r matches Ok(intent) ==> res == Ok::<(), ChallengeError>(()) && intent
                    == (TransferIntent {
                    source: old(self).signer_token_account,
                    destination: old(self).challenge_token_vault,
                    amount: params.amount,
                }) && appended(final(events)@, old(events)@) && is_reward_received(
                    final(events)@.last(),
                    old(self).signer,
                    old(self).challenge@.id,
                    old(self).mint_account,
                    params.action_type,
                    params.amount,
                ))
                &&& (r matches Err(e) ==> res == Err::<(), ChallengeError>(e) && final(events)@
                    == old(events)@)
            }),
    {
        match params.action_type {
            TransferAssetsToVaultActionType::JoinChallenge => self.deposit(params, events),
            TransferAssetsToVaultActionType::Donate => self.donate(params, events),
        }
    }

    fn deposit(
        &mut self,
        params: TransferAssetsToVaultParams,
        events: &mut Vec<ChallengeEvent>,
    ) -> (r: Result<TransferIntent, ChallengeError>)
        requires
            params.action_type is JoinChallenge,
            old(self).challenge.wf(),
            old(self).challenge@.status == ChallengeStatus::Created && params.amount >= old(
                self,
            ).challenge@.min_deposit ==> old(self).challenge@.prize_pool + params.amount
                <= u64::MAX,
        ensures
            final(self).challenge.wf(),
            *final(self) == (TransferAssetsToVaultContext {
                challenge: final(self).challenge,
                ..*old(self)
            }),
            ({
                let (c2, res) = spec_deposit(old(self).challenge@, old(self).signer, params.amount);
                &&& final(self).challenge@ == c2
                &&& (r matches Ok(intent) ==> res == Ok::<(), ChallengeError>(()) && intent
                    == (TransferIntent {
                    source: old(self).signer_token_account,
                    destination: old(self).challenge_token_vault,
                    amount: params.amount,
                }) && appended(final(events)@, old(events)@) && is_reward_received(
                    final(events)@.last(),
                    old(self).signer,
                    old(self).challenge@.id,
                    old(self).mint_account,
                    params.action_type,
                    params.amount,
                ))
                &&& (r matches Err(e) ==> res == Err::<(), ChallengeError>(e) && final(events)@
                    == old(events)@)
            }),
    {
        if !self.challenge.is_challenge_open_for_participants() {
            return Err(ChallengeError::DepositIsNotAvailable);
        }
        if params.amount < self.challenge.min_deposit {
            return Err(ChallengeError::MinDepositIsNotReached);
        }
        let ghost s0 = self.challenge@.players;
        let ghost k = old(self).signer;
        let ghost e0 = PlayerInfo {
            public_key: k,
            total_deposit: 0u64,
            is_winner: false,
            is_winner_claimed_reward: false,
            is_player_withdrawn: false,
        };
        proof {
            assert(forall|j: int| 0 <= j < s0.len() ==> deposit_of()(#[trigger] s0[j]) >= 0);
        }
        self.challenge.prize_pool = self.challenge.prize_pool + params.amount;
        let idx = self.challenge.get_or_create_player(self.signer);
        let ghost s1 = self.challenge@.players;
        let existing = self.challenge.players[idx];
        proof {
            if spec_is_player(s0, k) {
                assert(s1 == s0);
                lemma_sum_by_element_bound(s0, deposit_of(), idx as int);
                assert(deposit_of()(s0[idx as int]) == s0[idx as int].total_deposit as int);
            } else {
                assert(s1 == s0.push(e0));
                assert forall|j: int| 0 <= j < s0.len() implies s0[j].public_key != k by {
                    if s0[j].public_key == k {
                        assert(player_has_key(k)(s0[j]));
                        assert forall|x: int|
                            0 <= x < s0.len() && x != j implies !player_has_key(k)(s0[x]) by {
                            assert(s0[x].public_key != s0[j].public_key);
                        }
                        lemma_count_where_single(s0, player_has_key(k), j);
                    }
                }
                assert(idx == s0.len());
                assert(existing == e0);
            }
        }
        let updated = PlayerInfo {
            total_deposit: existing.total_deposit + params.amount,
            ..existing
        };
        self.challenge.players.set(idx, updated);
        proof {
            let s2 = self.challenge@.players;
            let a = params.amount;
            if spec_is_player(s0, k) {
                assert(s1 == s0);
                assert forall|j: int| 0 <= j < s0.len() && j != idx ==> s0[j].public_key != k by {
                    if 0 <= j < s0.len() && j != idx && s0[j].public_key == k {
                        assert(s0[idx as int].public_key == k);
                    }
                }
                assert_seqs_equal!(s2 == spec_deposit_players(s0, k, a), j => {
                    if j == idx as int {
                    } else {
                        assert(s0[j].public_key != k);
                    }
                });
                lemma_sum_by_update(s0, deposit_of(), idx as int, updated);
                assert(deposit_of()(updated) == updated.total_deposit as int);
            } else {
                assert(s1 == s0.push(e0));
                assert(idx == s0.len());
                assert_seqs_equal!(s2 == spec_deposit_players(s0, k, a));
                lemma_sum_by_push(s0, deposit_of(), e0);
                lemma_sum_by_update(s1, deposit_of(), idx as int, updated);
                assert(deposit_of()(e0) == 0);
                assert(deposit_of()(updated) == a as int);
            }
            assert(sum_by(s2, deposit_of()) == sum_by(s0, deposit_of()) + a);
            assert forall|x: int, y: int|
                0 <= x < y < s2.len() implies s2[x].public_key != s2[y].public_key by {
                if spec_is_player(s0, k) {
                } else {
                    if y < s0.len() {
                    } else {
                        assert(s0[x].public_key != k);
                    }
                }
            }
        }
        let event = RewardReceived {
            actor: self.signer,
            challenge_id: self.challenge.id.clone(),
            reward_mint_token: self.mint_account,
            action_type: params.action_type,
            amount: params.amount,
        };
        events.push(ChallengeEvent::RewardReceived(event));
        proof {
            assert(events@.drop_last() =~= old(events)@);
        }
        Ok(
            TransferIntent {
                source: self.signer_token_account,
                destination: self.challenge_token_vault,
                amount: params.amount,
            },
        )
    }

    fn donate(
        &mut self,
        params: TransferAssetsToVaultParams,
        events: &mut Vec<ChallengeEvent>,
    ) -> (r: Result<TransferIntent, ChallengeError>)
        requires
            params.action_type is Donate,
            old(self).challenge.wf(),
            old(self).challenge@.status == ChallengeStatus::Created ==> old(
                self,
            ).challenge@.prize_pool + params.amount <= u64::MAX,
        ensures
            final(self).challenge.wf(),
            *final(self) == (TransferAssetsToVaultContext {
                challenge: final(self).challenge,
                ..*old(self)
            }),
            ({
                let (c2, res) = spec_donate(old(self).challenge@, old(self).signer, params.amount);
                &&& final(self).challenge@ == c2
                &&& (r matches Ok(intent) ==> res == Ok::<(), ChallengeError>(()) && intent
                    == (TransferIntent {
                    source: old(self).signer_token_account,
                    destination: old(self).challenge_token_vault,
                    amount: params.amount,
                }) && appended(final(events)@, old(events)@) && is_reward_received(
                    final(events)@.last(),
                    old(self).signer,
                    old(self).challenge@.id,
                    old(self).mint_account,
                    params.action_type,
                    params.amount,
                ))
                &&& (r matches Err(e) ==> res == Err::<(), ChallengeError>(e) && final(events)@
                    == old(events)@)
            }),
    {
        if !self.challenge.is_challenge_open_for_participants() {
            return Err(ChallengeError::DepositIsNotAvailable);
        }
        proof {
            crate::state::lemma_sum_deposits_nonneg(self.challenge@.players);
        }
        self.challenge.prize_pool = self.challenge.prize_pool + params.amount;
        self.challenge.donate_pool = self.challenge.donate_pool + params.amount;
        let event = RewardReceived {
            actor: self.signer,
            challenge_id: self.challenge.id.clone(),
            reward_mint_token: self.mint_account,
            action_type: params.action_type,
            amount: params.amount,
        };
        events.push(ChallengeEvent::RewardReceived(event));
        proof {
            assert(events@.drop_last() =~= old(events)@);
        }
        Ok(
            TransferIntent {
                source: self.signer_token_account,
                destination: self.challenge_token_vault,
                amount: params.amount,
            },
        )
    }
}

} // verus!
