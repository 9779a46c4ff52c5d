//! Challenge lifecycle: creation, deposits and donations, winner submission,
//! claims, cancellation and withdrawal, and the donation sweep.

use challenge::admin_cancel_challenge;
use challenge::cancel_challenge::{CancelChallengeContext, CancelChallengeParams};
use challenge::create_challenge::{CreateChallengeContext, CreateChallengeParams};
use challenge::error::ChallengeError;
use challenge::event::{ChallengeEvent, TransferIntent};
use challenge::state::{Challenge, ChallengePlatformRegistry, ChallengeStatus, MintInfo, Pubkey};
use challenge::submit_winner_list::{SubmitWinnersContext, SubmitWinnersParams};
use challenge::transfer_assets_from_vault::{
    TransferAssetsFromVaultActionType, TransferAssetsFromVaultContext,
    TransferAssetsFromVaultParams,
};
use challenge::transfer_assets_to_vault::{
    TransferAssetsToVaultActionType, TransferAssetsToVaultContext, TransferAssetsToVaultParams,
};

fn key(value: u64) -> Pubkey {
    Pubkey { value }
}

/// A registry owned by identity 1, with identity 2 as administrator and mint
/// 7 whitelisted and enabled, custodied by vault 70.
fn registry() -> ChallengePlatformRegistry {
    ChallengePlatformRegistry {
        owner: key(1),
        was_initialized: true,
        allowed_administrators: vec![key(2)],
        allowed_mint_accounts: vec![MintInfo {
            is_enabled: true,
            mint_account: key(7),
            token_account: key(70),
        }],
    }
}

fn create(owner: u64, min_deposit: u64) -> Challenge {
    let mut events: Vec<ChallengeEvent> = Vec::new();
    let mut ctx = CreateChallengeContext {
        challenge_owner: key(owner),
        challenge: Challenge::default(),
        challenge_registry: registry(),
    };
    let params = CreateChallengeParams {
        id: String::from("ch"),
        min_deposit,
        reward_token_mint_account: key(7),
    };
    assert_eq!(ctx.execute(params, &mut events), Ok(()));
    assert!(matches!(events.last(), Some(ChallengeEvent::ChallengeCreated(_))));
    ctx.challenge
}

fn move_to_vault(
    challenge: Challenge,
    signer: u64,
    action_type: TransferAssetsToVaultActionType,
    amount: u64,
    events: &mut Vec<ChallengeEvent>,
) -> (Challenge, Result<TransferIntent, ChallengeError>) {
    let mut ctx = TransferAssetsToVaultContext {
        signer: key(signer),
        mint_account: key(7),
        signer_token_account: key(signer * 100),
        challenge,
        challenge_token_vault: key(70),
    };
    let params = TransferAssetsToVaultParams {
        challenge_id: String::from("ch"),
        action_type,
        amount,
    };
    let r = ctx.execute(params, events);
    (ctx.challenge, r)
}

fn deposit(
    challenge: Challenge,
    signer: u64,
    amount: u64,
    events: &mut Vec<ChallengeEvent>,
) -> (Challenge, Result<TransferIntent, ChallengeError>) {
    move_to_vault(
        challenge,
        signer,
        TransferAssetsToVaultActionType::JoinChallenge,
        amount,
        events,
    )
}

fn donate(
    challenge: Challenge,
    signer: u64,
    amount: u64,
    events: &mut Vec<ChallengeEvent>,
) -> (Challenge, Result<TransferIntent, ChallengeError>) {
    move_to_vault(challenge, signer, TransferAssetsToVaultActionType::Donate, amount, events)
}

fn move_from_vault(
    challenge: Challenge,
    signer: u64,
    action_type: TransferAssetsFromVaultActionType,
    events: &mut Vec<ChallengeEvent>,
) -> (Challenge, Result<TransferIntent, ChallengeError>) {
    let mut ctx = TransferAssetsFromVaultContext {
        signer: key(signer),
        mint_account: key(7),
        challenge_registry: registry(),
        signer_token_account: key(signer * 100),
        challenge,
        challenge_token_vault: key(70),
    };
    let params = TransferAssetsFromVaultParams {
        challenge_id: String::from("ch"),
        action_type,
    };
    let r = ctx.execute(params, events);
    (ctx.challenge, r)
}

fn claim(
    challenge: Challenge,
    signer: u64,
    events: &mut Vec<ChallengeEvent>,
) -> (Challenge, Result<TransferIntent, ChallengeError>) {
    move_from_vault(challenge, signer, TransferAssetsFromVaultActionType::Claiming, events)
}

fn withdraw(
    challenge: Challenge,
    signer: u64,
    events: &mut Vec<ChallengeEvent>,
) -> (Challenge, Result<TransferIntent, ChallengeError>) {
    move_from_vault(challenge, signer, TransferAssetsFromVaultActionType::Withdrawing, events)
}

fn sweep(
    challenge: Challenge,
    signer: u64,
    events: &mut Vec<ChallengeEvent>,
) -> (Challenge, Result<TransferIntent, ChallengeError>) {
    move_from_vault(
        challenge,
        signer,
        TransferAssetsFromVaultActionType::AdminWithdrawingDonatePool,
        events,
    )
}

fn submit_winners(
    challenge: Challenge,
    signer: u64,
    winners: Vec<u64>,
    events: &mut Vec<ChallengeEvent>,
) -> (Challenge, Result<(), ChallengeError>) {
    let mut ctx = SubmitWinnersContext {
        signer: key(signer),
        challenge_registry: registry(),
        challenge,
    };
    let params = SubmitWinnersParams {
        id: String::from("ch"),
        winner_list: winners.into_iter().map(key).collect(),
    };
    let r = ctx.execute(params, events);
    (ctx.challenge, r)
}

fn cancel(
    challenge: Challenge,
    signer: u64,
    events: &mut Vec<ChallengeEvent>,
) -> (Challenge, Result<(), ChallengeError>) {
    let mut ctx = CancelChallengeContext { signer: key(signer), challenge };
    let r = ctx.execute(CancelChallengeParams { id: String::from("ch") }, events);
    (ctx.challenge, r)
}

fn ledger_sum(challenge: &Challenge) -> u64 {
    challenge.players.iter().map(|p| p.total_deposit).sum()
}

#[test]
fn create_rejects_empty_id_default_owner_and_foreign_asset() {
    let mut events: Vec<ChallengeEvent> = Vec::new();
    let mut ctx = CreateChallengeContext {
        challenge_owner: key(5),
        challenge: Challenge::default(),
        challenge_registry: registry(),
    };
    let empty_id = CreateChallengeParams {
        id: String::new(),
        min_deposit: 1,
        reward_token_mint_account: key(7),
    };
    assert_eq!(ctx.execute(empty_id, &mut events), Err(ChallengeError::InvalidValue));

    let foreign_asset = CreateChallengeParams {
        id: String::from("ch"),
        min_deposit: 1,
        reward_token_mint_account: key(8),
    };
    assert_eq!(ctx.execute(foreign_asset, &mut events), Err(ChallengeError::UnAllowedMintToken));

    let mut defaulted = CreateChallengeContext {
        challenge_owner: Pubkey::default(),
        challenge: Challenge::default(),
        challenge_registry: registry(),
    };
    let params = CreateChallengeParams {
        id: String::from("ch"),
        min_deposit: 1,
        reward_token_mint_account: key(7),
    };
    assert_eq!(defaulted.execute(params, &mut events), Err(ChallengeError::InvalidValue));
    assert!(events.is_empty());
}

#[test]
fn create_succeeds_for_enabled_asset_and_later_disabling_is_not_retroactive() {
    let challenge = create(5, 10);
    assert_eq!(challenge.id, "ch");
    assert_eq!(challenge.owner, key(5));
    assert_eq!(challenge.status, ChallengeStatus::Created);
    assert_eq!(challenge.prize_pool, 0);
    assert_eq!(challenge.donate_pool, 0);
    assert!(challenge.players.is_empty());

    // Disable the asset in the registry afterwards: the existing challenge
    // still accepts deposits; only new creations are refused.
    let mut disabled = registry();
    disabled.allowed_mint_accounts[0].is_enabled = false;
    let mut events: Vec<ChallengeEvent> = Vec::new();
    let (challenge, r) = deposit(challenge, 11, 10, &mut events);
    assert!(r.is_ok());
    assert_eq!(challenge.prize_pool, 10);

    let mut ctx = CreateChallengeContext {
        challenge_owner: key(5),
        challenge: Challenge::default(),
        challenge_registry: disabled,
    };
    let params = CreateChallengeParams {
        id: String::from("other"),
        min_deposit: 1,
        reward_token_mint_account: key(7),
    };
    assert_eq!(ctx.execute(params, &mut events), Err(ChallengeError::UnAllowedMintToken));
}

#[test]
fn deposit_enforces_minimum_and_open_status() {
    let mut events: Vec<ChallengeEvent> = Vec::new();
    let challenge = create(5, 10);
    let (challenge, r) = deposit(challenge, 11, 9, &mut events);
    assert_eq!(r.unwrap_err(), ChallengeError::MinDepositIsNotReached);
    assert_eq!(challenge.prize_pool, 0);

    let (challenge, r) = deposit(challenge, 11, 10, &mut events);
    let intent = r.unwrap();
    assert_eq!(intent.amount, 10);
    assert_eq!(intent.source, key(1100));
    assert_eq!(intent.destination, key(70));

    let (challenge, r) = cancel(challenge, 5, &mut events);
    assert_eq!(r, Ok(()));
    let (challenge, r) = deposit(challenge, 11, 10, &mut events);
    assert_eq!(r.unwrap_err(), ChallengeError::DepositIsNotAvailable);
    assert_eq!(challenge.prize_pool, 10);
}

#[test]
fn conservation_holds_after_every_deposit_and_donation() {
    let mut events: Vec<ChallengeEvent> = Vec::new();
    let mut challenge = create(5, 10);
    let steps: [(u64, u64, bool); 5] =
        [(11, 10, false), (12, 25, false), (13, 3, true), (11, 40, false), (14, 1, true)];
    for (signer, amount, is_donation) in steps {
        let (next, r) = if is_donation {
            donate(challenge, signer, amount, &mut events)
        } else {
            deposit(challenge, signer, amount, &mut events)
        };
        assert!(r.is_ok());
        challenge = next;
        assert_eq!(ledger_sum(&challenge) + challenge.donate_pool, challenge.prize_pool);
    }
    assert_eq!(challenge.prize_pool, 79);
    assert_eq!(challenge.donate_pool, 4);
    assert_eq!(ledger_sum(&challenge), 75);
    // Two depositors; donors get no ledger entry, and identity 11's two
    // deposits share one entry with the summed stake.
    assert_eq!(challenge.players.len(), 2);
    assert!(challenge.is_player(key(11)));
    assert_eq!(challenge.players[0].total_deposit, 50);
}

#[test]
fn split_of_100_among_3_winners_pays_33_each_and_leaves_1() {
    let mut events: Vec<ChallengeEvent> = Vec::new();
    let mut challenge = create(5, 1);
    for (signer, amount) in [(11u64, 34u64), (12, 33), (13, 33)] {
        let (next, r) = deposit(challenge, signer, amount, &mut events);
        assert!(r.is_ok());
        challenge = next;
    }
    assert_eq!(challenge.prize_pool, 100);
    let (mut challenge, r) = submit_winners(challenge, 5, vec![11, 12, 13], &mut events);
    assert_eq!(r, Ok(()));
    assert_eq!(challenge.status, ChallengeStatus::Finalized);

    let mut vault_balance: u64 = 100;
    for signer in [11u64, 12, 13] {
        let (next, r) = claim(challenge, signer, &mut events);
        let intent = r.unwrap();
        assert_eq!(intent.amount, 33);
        vault_balance -= intent.amount;
        challenge = next;
    }
    // 99 paid out; the indivisible remainder of 1 stays behind, by design.
    assert_eq!(vault_balance, 1);
    assert_eq!(challenge.status, ChallengeStatus::Claimed);
}

#[test]
fn claim_twice_succeeds_once_and_then_fails() {
    let mut events: Vec<ChallengeEvent> = Vec::new();
    let challenge = create(5, 1);
    let (challenge, r) = deposit(challenge, 11, 10, &mut events);
    assert!(r.is_ok());
    let (challenge, r) = deposit(challenge, 12, 20, &mut events);
    assert!(r.is_ok());
    let (challenge, r) = submit_winners(challenge, 5, vec![11, 12], &mut events);
    assert_eq!(r, Ok(()));

    let (challenge, r) = claim(challenge, 11, &mut events);
    assert_eq!(r.unwrap().amount, 15);
    let events_after_first = events.len();
    let (challenge, r) = claim(challenge, 11, &mut events);
    assert_eq!(r.unwrap_err(), ChallengeError::ClaimIsNotAvailable);
    // No second transfer intent and no second event.
    assert_eq!(events.len(), events_after_first);
    assert_eq!(challenge.status, ChallengeStatus::Finalized);
}

#[test]
fn claim_requires_finalized_status_and_winner() {
    let mut events: Vec<ChallengeEvent> = Vec::new();
    let challenge = create(5, 1);
    let (challenge, r) = deposit(challenge, 11, 10, &mut events);
    assert!(r.is_ok());
    let (challenge, r) = claim(challenge, 11, &mut events);
    assert_eq!(r.unwrap_err(), ChallengeError::ClaimIsNotAvailable);
    let (challenge, r) = submit_winners(challenge, 5, vec![11], &mut events);
    assert_eq!(r, Ok(()));
    let (_, r) = claim(challenge, 12, &mut events);
    assert_eq!(r.unwrap_err(), ChallengeError::ClaimIsNotAvailable);
}

#[test]
fn finalized_and_canceled_branches_exclude_each_other() {
    let mut events: Vec<ChallengeEvent> = Vec::new();
    let challenge = create(5, 1);
    let (challenge, r) = deposit(challenge, 11, 10, &mut events);
    assert!(r.is_ok());
    let (challenge, r) = submit_winners(challenge, 5, vec![11], &mut events);
    assert_eq!(r, Ok(()));
    let (challenge, r) = cancel(challenge, 5, &mut events);
    assert_eq!(r.unwrap_err(), ChallengeError::ChallengeCannotBeCanceled);
    assert_eq!(challenge.status, ChallengeStatus::Finalized);

    let other = create(6, 1);
    let (other, r) = deposit(other, 11, 10, &mut events);
    assert!(r.is_ok());
    let (other, r) = cancel(other, 6, &mut events);
    assert_eq!(r, Ok(()));
    let (other, r) = submit_winners(other, 6, vec![11], &mut events);
    assert_eq!(r.unwrap_err(), ChallengeError::InvalidValue);
    assert_eq!(other.status, ChallengeStatus::Canceled);
}

#[test]
fn withdraw_fails_outside_canceled_for_every_caller() {
    let mut events: Vec<ChallengeEvent> = Vec::new();
    let challenge = create(5, 1);
    let (mut challenge, r) = deposit(challenge, 11, 10, &mut events);
    assert!(r.is_ok());
    // Still `Created`: refused for the player, the owner and the admin alike.
    for signer in [11u64, 5, 2, 1] {
        let (next, r) = withdraw(challenge, signer, &mut events);
        assert_eq!(r.unwrap_err(), ChallengeError::WithdrawalIsNotAvailable);
        challenge = next;
    }
    let (mut challenge, r) = submit_winners(challenge, 5, vec![11], &mut events);
    assert_eq!(r, Ok(()));
    for signer in [11u64, 5, 2, 1] {
        let (next, r) = withdraw(challenge, signer, &mut events);
        assert_eq!(r.unwrap_err(), ChallengeError::WithdrawalIsNotAvailable);
        challenge = next;
    }
}

#[test]
fn withdraw_refunds_each_player_once_then_marks_withdrawn() {
    let mut events: Vec<ChallengeEvent> = Vec::new();
    let challenge = create(5, 1);
    let (challenge, r) = deposit(challenge, 11, 10, &mut events);
    assert!(r.is_ok());
    let (challenge, r) = deposit(challenge, 12, 20, &mut events);
    assert!(r.is_ok());
    let (challenge, r) = cancel(challenge, 5, &mut events);
    assert_eq!(r, Ok(()));

    let (challenge, r) = withdraw(challenge, 11, &mut events);
    let intent = r.unwrap();
    assert_eq!(intent.amount, 10);
    assert_eq!(intent.source, key(70));
    assert_eq!(intent.destination, key(1100));
    assert_eq!(challenge.status, ChallengeStatus::Canceled);

    let (challenge, r) = withdraw(challenge, 11, &mut events);
    assert_eq!(r.unwrap_err(), ChallengeError::WithdrawalIsNotAvailable);

    let (challenge, r) = withdraw(challenge, 12, &mut events);
    assert_eq!(r.unwrap().amount, 20);
    assert_eq!(challenge.status, ChallengeStatus::Withdrawn);
}

#[test]
fn admin_sweep_takes_donations_in_any_status_and_only_once() {
    let mut events: Vec<ChallengeEvent> = Vec::new();
    let challenge = create(5, 1);
    let (challenge, r) = deposit(challenge, 11, 10, &mut events);
    assert!(r.is_ok());
    let (challenge, r) = donate(challenge, 13, 6, &mut events);
    assert!(r.is_ok());
    assert_eq!(challenge.prize_pool, 16);

    // Deliberately available while still `Created`.
    let (challenge, r) = sweep(challenge, 2, &mut events);
    assert_eq!(r.unwrap().amount, 6);
    assert_eq!(challenge.donate_pool, 0);
    assert_eq!(challenge.prize_pool, 10);

    let (challenge, r) = sweep(challenge, 2, &mut events);
    assert_eq!(r.unwrap_err(), ChallengeError::WithdrawalIsNotAvailable);
    let (_, r) = sweep(challenge, 11, &mut events);
    assert_eq!(r.unwrap_err(), ChallengeError::OnlyAdministrator);
}

#[test]
fn submit_winners_requires_authority_and_known_players() {
    let mut events: Vec<ChallengeEvent> = Vec::new();
    let challenge = create(5, 1);
    let (challenge, r) = deposit(challenge, 11, 10, &mut events);
    assert!(r.is_ok());

    let (challenge, r) = submit_winners(challenge, 9, vec![11], &mut events);
    assert_eq!(r.unwrap_err(), ChallengeError::InvalidValue);

    let (challenge, r) = submit_winners(challenge, 5, vec![11, 12], &mut events);
    assert_eq!(r.unwrap_err(), ChallengeError::OnlyParticipant);
    assert_eq!(challenge.status, ChallengeStatus::Created);
    assert!(!challenge.players[0].is_winner);

    // The platform administrator may finalize without owning the challenge.
    let (challenge, r) = submit_winners(challenge, 2, vec![11], &mut events);
    assert_eq!(r, Ok(()));
    assert_eq!(challenge.status, ChallengeStatus::Finalized);
    assert!(challenge.is_winner(key(11)));
}

#[test]
fn cancel_is_owner_only_and_admin_entry_point_adds_a_gate() {
    let mut events: Vec<ChallengeEvent> = Vec::new();
    let challenge = create(5, 1);
    let (challenge, r) = cancel(challenge, 6, &mut events);
    assert_eq!(r.unwrap_err(), ChallengeError::ChallengeCannotBeCanceled);

    let mut ctx = admin_cancel_challenge::CancelChallengeContext {
        signer: key(9),
        challenge_registry: registry(),
        challenge,
    };
    let params = admin_cancel_challenge::CancelChallengeParams { id: String::from("ch") };
    assert_eq!(
        ctx.execute(params, &mut events),
        Err(ChallengeError::OnlyAdministrator)
    );

    // An administrator who does not own the challenge still cannot cancel it.
    let mut ctx = admin_cancel_challenge::CancelChallengeContext {
        signer: key(2),
        challenge_registry: registry(),
        challenge: ctx.challenge,
    };
    let params = admin_cancel_challenge::CancelChallengeParams { id: String::from("ch") };
    assert_eq!(
        ctx.execute(params, &mut events),
        Err(ChallengeError::ChallengeCannotBeCanceled)
    );

    // The owner, canceling through the plain entry point, succeeds.
    let (challenge, r) = cancel(ctx.challenge, 5, &mut events);
    assert_eq!(r, Ok(()));
    assert_eq!(challenge.status, ChallengeStatus::Canceled);
    assert!(matches!(events.last(), Some(ChallengeEvent::ChallengeCanceled(_))));
}

#[test]
fn end_to_end_single_winner_takes_the_whole_pool() {
    let mut events: Vec<ChallengeEvent> = Vec::new();
    let challenge = create(5, 10);
    let (challenge, r) = deposit(challenge, 11, 10, &mut events);
    assert!(r.is_ok());
    let (challenge, r) = deposit(challenge, 12, 20, &mut events);
    assert!(r.is_ok());
    assert_eq!(challenge.prize_pool, 30);

    let (challenge, r) = submit_winners(challenge, 5, vec![12], &mut events);
    assert_eq!(r, Ok(()));

    let (challenge, r) = claim(challenge, 12, &mut events);
    let intent = r.unwrap();
    // One winner: the whole pool of 30, debited from the vault to the winner.
    assert_eq!(intent.amount, 30);
    assert_eq!(intent.source, key(70));
    assert_eq!(intent.destination, key(1200));
    assert_eq!(challenge.status, ChallengeStatus::Claimed);
    match events.last() {
        Some(ChallengeEvent::RewardClaimed(e)) => {
            assert_eq!(e.amount, 30);
            assert_eq!(e.actor, key(12));
            assert_eq!(e.challenge_id, "ch");
        },
        other => panic!("expected a reward-claimed event, got {:?}", other),
    }
}

#[test]
fn zero_reward_share_makes_claim_unavailable() {
    let mut events: Vec<ChallengeEvent> = Vec::new();
    // A minimum of zero admits a zero-stake entry, leaving an empty pool.
    let challenge = create(5, 0);
    let (challenge, r) = deposit(challenge, 11, 0, &mut events);
    assert!(r.is_ok());
    assert_eq!(challenge.prize_pool, 0);
    let (challenge, r) = submit_winners(challenge, 5, vec![11], &mut events);
    assert_eq!(r, Ok(()));
    let (challenge, r) = claim(challenge, 11, &mut events);
    assert_eq!(r.unwrap_err(), ChallengeError::ClaimIsNotAvailable);
    assert_eq!(challenge.status, ChallengeStatus::Finalized);
}

#[test]
fn deposit_and_donation_events_carry_action_and_amount() {
    let mut events: Vec<ChallengeEvent> = Vec::new();
    let challenge = create(5, 1);
    let (challenge, r) = deposit(challenge, 11, 4, &mut events);
    assert!(r.is_ok());
    match events.last() {
        Some(ChallengeEvent::RewardReceived(e)) => {
            assert_eq!(e.actor, key(11));
            assert_eq!(e.amount, 4);
            assert_eq!(e.challenge_id, "ch");
            assert_eq!(e.reward_mint_token, key(7));
            assert_eq!(e.action_type, TransferAssetsToVaultActionType::JoinChallenge);
        },
        other => panic!("expected a reward-received event, got {:?}", other),
    }
    let (_, r) = donate(challenge, 12, 3, &mut events);
    assert!(r.is_ok());
    match events.last() {
        Some(ChallengeEvent::RewardReceived(e)) => {
            assert_eq!(e.amount, 3);
            assert_eq!(e.action_type, TransferAssetsToVaultActionType::Donate);
        },
        other => panic!("expected a reward-received event, got {:?}", other),
    }
}
