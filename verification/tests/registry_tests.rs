//! Registry behaviour: one-shot initialization, administrator checks, the
//! asset whitelist, and vault registration.

use challenge::error::ChallengeError;
use challenge::event::ChallengeEvent;
use challenge::create_token_vault::CreateTokenVaultContext;
use challenge::initialize_challenge_program::{
    InitializeChallengePlatformContext, InitializeChallengePlatformParams,
};
use challenge::state::{ChallengePlatformRegistry, MintInfo, Pubkey};
use challenge::update_challenge_registry::{
    UpdateChallengePlatformContext, UpdateChallengePlatformParams,
};

fn key(value: u64) -> Pubkey {
    Pubkey { value }
}

fn fresh_registry() -> ChallengePlatformRegistry {
    ChallengePlatformRegistry {
        owner: Pubkey::default(),
        was_initialized: false,
        allowed_administrators: Vec::new(),
        allowed_mint_accounts: Vec::new(),
    }
}

fn mint_info(mint: u64, vault: u64, enabled: bool) -> MintInfo {
    MintInfo {
        is_enabled: enabled,
        mint_account: key(mint),
        token_account: key(vault),
    }
}

#[test]
fn initialize_sets_owner_administrators_and_assets() {
    let mut ctx = InitializeChallengePlatformContext {
        owner: key(1),
        challenge_registry: fresh_registry(),
    };
    let params = InitializeChallengePlatformParams {
        allowed_mint_accounts: vec![mint_info(7, 70, true)],
        allowed_administrators: vec![key(2)],
    };
    assert_eq!(ctx.execute(params), Ok(()));
    assert!(ctx.challenge_registry.was_initialized);
    assert_eq!(ctx.challenge_registry.owner, key(1));
    assert_eq!(ctx.challenge_registry.allowed_administrators, vec![key(2)]);
    assert_eq!(ctx.challenge_registry.allowed_mint_accounts.len(), 1);
}

#[test]
fn initialize_twice_fails_and_keeps_state() {
    let mut ctx = InitializeChallengePlatformContext {
        owner: key(1),
        challenge_registry: fresh_registry(),
    };
    let params = InitializeChallengePlatformParams {
        allowed_mint_accounts: vec![mint_info(7, 70, true)],
        allowed_administrators: vec![key(2)],
    };
    assert_eq!(ctx.execute(params), Ok(()));
    let after_first = (
        ctx.challenge_registry.owner,
        ctx.challenge_registry.allowed_administrators.clone(),
        ctx.challenge_registry.allowed_mint_accounts.clone(),
    );
    let second = InitializeChallengePlatformParams {
        allowed_mint_accounts: vec![mint_info(8, 80, true)],
        allowed_administrators: vec![key(3)],
    };
    let mut ctx = InitializeChallengePlatformContext {
        owner: key(9),
        challenge_registry: ctx.challenge_registry,
    };
    assert_eq!(ctx.execute(second), Err(ChallengeError::AlreadyInitialized));
    assert_eq!(ctx.challenge_registry.owner, after_first.0);
    assert_eq!(ctx.challenge_registry.allowed_administrators, after_first.1);
    assert_eq!(ctx.challenge_registry.allowed_mint_accounts, after_first.2);
}

#[test]
fn owner_is_implicitly_administrator() {
    let registry = ChallengePlatformRegistry {
        owner: key(1),
        was_initialized: true,
        allowed_administrators: vec![key(2)],
        allowed_mint_accounts: Vec::new(),
    };
    assert!(registry.is_administrator(key(1)));
    assert!(registry.is_administrator(key(2)));
    assert!(!registry.is_administrator(key(3)));
}

#[test]
fn administrator_listed_twice_is_still_recognized() {
    // The administrator list is a set: membership is what counts, so an
    // identity that happens to be listed twice keeps its rights.
    let registry = ChallengePlatformRegistry {
        owner: key(1),
        was_initialized: true,
        allowed_administrators: vec![key(2), key(2)],
        allowed_mint_accounts: Vec::new(),
    };
    assert!(registry.is_administrator(key(2)));
}

#[test]
fn update_replaces_both_collections_wholesale() {
    let mut events: Vec<ChallengeEvent> = Vec::new();
    let mut ctx = UpdateChallengePlatformContext {
        owner: key(1),
        challenge_registry: ChallengePlatformRegistry {
            owner: key(1),
            was_initialized: true,
            allowed_administrators: vec![key(2)],
            allowed_mint_accounts: vec![mint_info(7, 70, true)],
        },
    };
    let params = UpdateChallengePlatformParams {
        allowed_mint_accounts: vec![mint_info(8, 80, false)],
        allowed_administrators: vec![key(3), key(4)],
    };
    assert_eq!(ctx.execute(params, &mut events), Ok(()));
    assert_eq!(ctx.challenge_registry.allowed_administrators, vec![key(3), key(4)]);
    assert_eq!(ctx.challenge_registry.allowed_mint_accounts, vec![mint_info(8, 80, false)]);
    assert_eq!(events.len(), 1);
    assert!(matches!(events.last(), Some(ChallengeEvent::RegistryUpdated(_))));
}

#[test]
fn update_requires_administrator() {
    let mut events: Vec<ChallengeEvent> = Vec::new();
    let mut ctx = UpdateChallengePlatformContext {
        owner: key(9),
        challenge_registry: ChallengePlatformRegistry {
            owner: key(1),
            was_initialized: true,
            allowed_administrators: Vec::new(),
            allowed_mint_accounts: Vec::new(),
        },
    };
    let params = UpdateChallengePlatformParams {
        allowed_mint_accounts: Vec::new(),
        allowed_administrators: Vec::new(),
    };
    assert_eq!(ctx.execute(params, &mut events), Err(ChallengeError::OnlyAdministrator));
    assert!(events.is_empty());
}

#[test]
fn create_token_vault_registers_enabled_descriptor() {
    let mut events: Vec<ChallengeEvent> = Vec::new();
    let mut ctx = CreateTokenVaultContext {
        signer: key(1),
        challenge_registry: ChallengePlatformRegistry {
            owner: key(1),
            was_initialized: true,
            allowed_administrators: Vec::new(),
            allowed_mint_accounts: Vec::new(),
        },
        mint_account: key(7),
        challenge_token_vault: key(70),
    };
    assert_eq!(ctx.execute(&mut events), Ok(()));
    assert_eq!(ctx.challenge_registry.allowed_mint_accounts, vec![mint_info(7, 70, true)]);
    assert!(ctx.challenge_registry.is_mint_account_existed(key(7)));
    assert!(ctx.challenge_registry.is_mint_account_enabled(key(7)));
    assert_eq!(ctx.challenge_registry.get_mint_info(key(7)), mint_info(7, 70, true));
    assert!(matches!(events.last(), Some(ChallengeEvent::VaultCreated(_))));
}

#[test]
fn create_token_vault_refuses_duplicate_mint() {
    let mut events: Vec<ChallengeEvent> = Vec::new();
    let mut ctx = CreateTokenVaultContext {
        signer: key(1),
        challenge_registry: ChallengePlatformRegistry {
            owner: key(1),
            was_initialized: true,
            allowed_administrators: Vec::new(),
            allowed_mint_accounts: vec![mint_info(7, 70, true)],
        },
        mint_account: key(7),
        challenge_token_vault: key(71),
    };
    assert_eq!(ctx.execute(&mut events), Err(ChallengeError::MintAccountExisted));
    assert_eq!(ctx.challenge_registry.allowed_mint_accounts.len(), 1);
    assert!(events.is_empty());
}

#[test]
fn create_token_vault_requires_administrator() {
    let mut events: Vec<ChallengeEvent> = Vec::new();
    let mut ctx = CreateTokenVaultContext {
        signer: key(9),
        challenge_registry: ChallengePlatformRegistry {
            owner: key(1),
            was_initialized: true,
            allowed_administrators: Vec::new(),
            allowed_mint_accounts: Vec::new(),
        },
        mint_account: key(7),
        challenge_token_vault: key(70),
    };
    assert_eq!(ctx.execute(&mut events), Err(ChallengeError::OnlyAdministrator));
    assert!(ctx.challenge_registry.allowed_mint_accounts.is_empty());
}

#[test]
fn mint_checks_distinguish_disabled_from_absent() {
    let registry = ChallengePlatformRegistry {
        owner: key(1),
        was_initialized: true,
        allowed_administrators: Vec::new(),
        allowed_mint_accounts: vec![mint_info(7, 70, false)],
    };
    assert!(registry.is_mint_account_existed(key(7)));
    assert!(!registry.is_mint_account_enabled(key(7)));
    assert!(!registry.is_mint_account_existed(key(8)));
    assert!(!registry.is_mint_account_enabled(key(8)));
}
