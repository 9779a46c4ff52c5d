//! The library's governing laws, stated and proved over the spec transitions:
//! one-shot initialization, the asset whitelist gate on creation, conservation
//! of the pools under deposits and donations, claim idempotence, the mutual
//! exclusion of the two terminal branches, and the status gate on withdrawal.

use vstd::prelude::*;

use crate::error::ChallengeError;
use crate::create_challenge::spec_create_result;
use crate::initialize_challenge_program::spec_initialize;
use crate::model::{
    count_where, lemma_count_where_congruent, lemma_count_where_exists, lemma_count_where_single,
    lemma_sum_by_push, lemma_sum_by_update,
};
use crate::admin_cancel_challenge::spec_admin_cancel;
use crate::cancel_challenge::spec_cancel;
use crate::state::{
    claimed_winner_with_key, deposit_of, lemma_sum_deposits_nonneg, player_has_key,
    spec_is_player, spec_mint_enabled, spec_sum_deposits, winner_with_key, ChallengeStatus,
    ChallengeView, MintInfo, PlayerInfo, Pubkey, RegistryView,
};
use crate::submit_winner_list::spec_submit_winners;
use crate::transfer_assets_from_vault::{
    mark_claimed, spec_admin_sweep, spec_claim, spec_withdraw,
};
use crate::transfer_assets_to_vault::{spec_deposit, spec_deposit_players, spec_donate};

verus! {

/// The reachability order on statuses: `Created` precedes everything,
/// `Canceled` only `Withdrawn`, and `Finalized` only `Claimed`.
pub open spec fn status_le(a: ChallengeStatus, b: ChallengeStatus) -> bool {
    ||| a == b
    ||| a == ChallengeStatus::Created
    ||| (a == ChallengeStatus::Canceled && b == ChallengeStatus::Withdrawn)
    ||| (a == ChallengeStatus::Finalized && b == ChallengeStatus::Claimed)
}

/// The reachability order composes across any sequence of operations.
pub proof fn lemma_status_le_transitive(a: ChallengeStatus, b: ChallengeStatus, c: ChallengeStatus)
    requires
        status_le(a, b),
        status_le(b, c),
    ensures
        status_le(a, c),
{
}

/// The two terminal branches are mutually exclusive: nothing reachable from
/// `Finalized` is `Canceled` or `Withdrawn`, and nothing reachable from
/// `Canceled` is `Finalized` or `Claimed`.
pub proof fn lemma_terminal_branches_exclusive(s: ChallengeStatus)
    ensures
        status_le(ChallengeStatus::Finalized, s) ==> s != ChallengeStatus::Canceled && s
            != ChallengeStatus::Withdrawn,
        status_le(ChallengeStatus::Canceled, s) ==> s != ChallengeStatus::Finalized && s
            != ChallengeStatus::Claimed,
{
}

/// Every operation moves the status only along the reachability order; with
/// transitivity, a challenge that took one terminal branch can never cross to
/// the other, whatever operations follow.
pub proof fn lemma_transitions_monotonic(
    c: ChallengeView,
    reg: RegistryView,
    signer: Pubkey,
    amount: u64,
    ws: Seq<Pubkey>,
)
    ensures
        status_le(c.status, spec_deposit(c, signer, amount).0.status),
        status_le(c.status, spec_donate(c, signer, amount).0.status),
        status_le(c.status, spec_claim(c, signer).0.status),
        status_le(c.status, spec_withdraw(c, signer).0.status),
        status_le(c.status, spec_admin_sweep(c, reg, signer).0.status),
        status_le(c.status, spec_cancel(c, signer).0.status),
        status_le(c.status, spec_admin_cancel(c, reg, signer).0.status),
        status_le(c.status, spec_submit_winners(c, reg, signer, ws).0.status),
{
}

/// Initializing twice always fails the second time with `AlreadyInitialized`,
/// and the registry after the second call equals the registry after the first.
pub proof fn lemma_initialize_idempotent(
    reg: RegistryView,
    owner1: Pubkey,
    admins1: Seq<Pubkey>,
    mints1: Seq<MintInfo>,
    owner2: Pubkey,
    admins2: Seq<Pubkey>,
    mints2: Seq<MintInfo>,
)
    requires
        !reg.was_initialized,
    ensures
        ({
            let (reg1, res1) = spec_initialize(reg, owner1, admins1, mints1);
            let (reg2, res2) = spec_initialize(reg1, owner2, admins2, mints2);
            &&& res1 == Ok::<(), ChallengeError>(())
            &&& res2 == Err::<(), ChallengeError>(ChallengeError::AlreadyInitialized)
            &&& reg2 == reg1
        }),
{
}

/// The whitelist gate: for a well-formed request, creation succeeds exactly
/// when the reward asset is whitelisted and enabled at call time, and is
/// refused with `UnAllowedMintToken` otherwise. A created challenge carries
/// no reference back to the registry, so disabling the asset afterwards does
/// not affect it.
pub proof fn lemma_create_whitelist_gate(
    reg: RegistryView,
    owner: Pubkey,
    id: Seq<char>,
    mint_account: Pubkey,
)
    requires
        id.len() > 0,
        owner != (Pubkey { value: 0 }),
    ensures
        spec_create_result(reg, owner, id, mint_account) == Ok::<(), ChallengeError>(())
            <==> spec_mint_enabled(reg.allowed_mint_accounts, mint_account),
        !spec_mint_enabled(reg.allowed_mint_accounts, mint_account) ==> spec_create_result(
            reg,
            owner,
            id,
            mint_account,
        ) == Err::<(), ChallengeError>(ChallengeError::UnAllowedMintToken),
{
}

/// Conservation, stated: in every well-formed challenge the prize pool equals
/// the sum of the players' stakes plus the donation pool.
pub proof fn lemma_conservation(c: ChallengeView)
    requires
        c.wf(),
    ensures
        spec_sum_deposits(c.players) + c.donate_pool == c.prize_pool,
{
}

/// Conservation, preserved: a successful deposit leaves the challenge
/// well-formed, so the balance equation holds again after the call.
pub proof fn lemma_deposit_conserves(c: ChallengeView, signer: Pubkey, amount: u64)
    requires
        c.wf(),
        c.prize_pool + amount <= u64::MAX,
    ensures
        ({
            let (c2, res) = spec_deposit(c, signer, amount);
            res is Ok ==> c2.wf() && spec_sum_deposits(c2.players) + c2.donate_pool
                == c2.prize_pool
        }),
{
    let (c2, res) = spec_deposit(c, signer, amount);
    if res is Ok {
        let s0 = c.players;
        let s2 = c2.players;
        if spec_is_player(s0, signer) {
            lemma_count_where_exists(s0, player_has_key(signer));
            let idx = choose|j: int| 0 <= j < s0.len() && player_has_key(signer)(s0[j]);
            assert(s0[idx].public_key == signer);
            assert forall|j: int| 0 <= j < s0.len() && j != idx implies s0[j].public_key
                != signer by {
                assert(s0[j].public_key != s0[idx].public_key);
            }
            let bumped = PlayerInfo {
                total_deposit: (s0[idx].total_deposit + amount) as u64,
                ..s0[idx]
            };
            assert(s2 =~= s0.update(idx, bumped));
            lemma_sum_by_update(s0, deposit_of(), idx, bumped);
            crate::model::lemma_sum_by_element_bound(s0, deposit_of(), idx);
            assert(deposit_of()(s0[idx]) == s0[idx].total_deposit as int);
            assert(deposit_of()(bumped) == bumped.total_deposit as int);
            assert forall|x: int, y: int|
                0 <= x < y < s2.len() implies s2[x].public_key != s2[y].public_key by {
                assert(s2[x].public_key == s0[x].public_key);
                assert(s2[y].public_key == s0[y].public_key);
            }
        } else {
            lemma_count_where_exists(s0, player_has_key(signer));
            assert forall|j: int| 0 <= j < s0.len() implies s0[j].public_key != signer by {
                if s0[j].public_key == signer {
                    assert(player_has_key(signer)(s0[j]));
                    assert forall|x: int|
                        0 <= x < s0.len() && x != j implies !player_has_key(signer)(s0[x]) by {
                        assert(s0[x].public_key != s0[j].public_key);
                    }
                    lemma_count_where_single(s0, player_has_key(signer), j);
                }
            }
            let entry = PlayerInfo {
                public_key: signer,
                total_deposit: amount,
                is_winner: false,
                is_winner_claimed_reward: false,
                is_player_withdrawn: false,
            };
            assert(s2 == s0.push(entry));
            lemma_sum_by_push(s0, deposit_of(), entry);
            assert(deposit_of()(entry) == amount as int);
        }
    }
}

/// Conservation, preserved: a successful donation raises both sides of the
/// balance equation by the same amount.
pub proof fn lemma_donate_conserves(c: ChallengeView, signer: Pubkey, amount: u64)
    requires
        c.wf(),
        c.prize_pool + amount <= u64::MAX,
    ensures
        ({
            let (c2, res) = spec_donate(c, signer, amount);
            res is Ok ==> c2.wf() && spec_sum_deposits(c2.players) + c2.donate_pool
                == c2.prize_pool
        }),
{
    lemma_sum_deposits_nonneg(c.players);
}

/// Claim idempotence: after a successful claim, claiming again for the same
/// identity fails with `ClaimIsNotAvailable` and changes nothing — so no
/// second payout intent is ever issued.
pub proof fn lemma_claim_idempotent(c: ChallengeView, signer: Pubkey)
    requires
        c.wf(),
        spec_claim(c, signer).1 is Ok,
    ensures
        ({
            let (c1, res1) = spec_claim(c, signer);
            spec_claim(c1, signer) == (
                c1,
                Err::<u64, ChallengeError>(ChallengeError::ClaimIsNotAvailable),
            )
        }),
{
    let (c1, res1) = spec_claim(c, signer);
    let s0 = c.players;
    let s1 = c1.players;
    assert(s1 == mark_claimed(s0, signer));
    if c1.status == ChallengeStatus::Finalized {
        assert forall|j: int|
            0 <= j < s0.len() implies winner_with_key(signer)(s1[j]) == winner_with_key(signer)(
            s0[j],
        ) by {
            assert(s1[j].public_key == s0[j].public_key);
            assert(s1[j].is_winner == s0[j].is_winner);
        }
        lemma_count_where_congruent(s1, s0, winner_with_key(signer));
        lemma_count_where_exists(s0, winner_with_key(signer));
        let idx = choose|j: int| 0 <= j < s0.len() && winner_with_key(signer)(s0[j]);
        assert(s1[idx].public_key == signer && s1[idx].is_winner
            && s1[idx].is_winner_claimed_reward);
        assert(claimed_winner_with_key(signer)(s1[idx]));
        lemma_count_where_exists(s1, claimed_winner_with_key(signer));
        assert(c1.prize_for(signer) == 0);
    }
}

/// Withdrawal idempotence: after a successful withdrawal, withdrawing again
/// for the same identity fails with `WithdrawalIsNotAvailable` and changes
/// nothing.
pub proof fn lemma_withdraw_idempotent(c: ChallengeView, signer: Pubkey)
    requires
        c.wf(),
        spec_withdraw(c, signer).1 is Ok,
    ensures
        ({
            let (c1, res1) = spec_withdraw(c, signer);
            spec_withdraw(c1, signer) == (
                c1,
                Err::<u64, ChallengeError>(ChallengeError::WithdrawalIsNotAvailable),
            )
        }),
{
    let (c1, res1) = spec_withdraw(c, signer);
    let s0 = c.players;
    let s1 = c1.players;
    if c1.status == ChallengeStatus::Canceled {
        assert forall|j: int|
            0 <= j < s0.len() implies player_has_key(signer)(s1[j]) == player_has_key(signer)(
            s0[j],
        ) by {
            assert(s1[j].public_key == s0[j].public_key);
        }
        lemma_count_where_congruent(s1, s0, player_has_key(signer));
        if spec_is_player(s1, signer) {
            lemma_count_where_exists(s1, player_has_key(signer));
            let w = choose|j: int|
                0 <= j < s1.len() && #[trigger] s1[j].public_key == signer;
            assert(player_has_key(signer)(s1[w]));
            assert(s1[w].is_player_withdrawn);
            assert(c1.withdrawal_for(signer) == 0);
        }
    }
}

/// The status gate on withdrawal: for a challenge in any status but
/// `Canceled`, withdrawal fails with `WithdrawalIsNotAvailable` for every
/// caller, owner and administrators included, and changes nothing.
pub proof fn lemma_withdraw_status_gate(c: ChallengeView, signer: Pubkey)
    requires
        c.status != ChallengeStatus::Canceled,
    ensures
        spec_withdraw(c, signer) == (
            c,
            Err::<u64, ChallengeError>(ChallengeError::WithdrawalIsNotAvailable),
        ),
{
}

} // verus!
