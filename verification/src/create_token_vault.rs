//! Registration of a custodial vault for a mint: appends an enabled
//! descriptor to the registry's whitelist, refusing duplicates. Only an
//! administrator may register a vault.

use vstd::prelude::*;

use crate::error::ChallengeError;
use crate::event::{appended, is_vault_created, ChallengeEvent, VaultCreated};
use crate::state::{
    spec_is_administrator, spec_mint_existed, ChallengePlatformRegistry, MintInfo, Pubkey,
    RegistryView,
};

verus! {

/// The caller, the registry, the mint, and the vault account registered for
/// that mint.
#[derive(Clone, Debug)]
pub struct CreateTokenVaultContext {
    pub signer: Pubkey,
    pub challenge_registry: ChallengePlatformRegistry,
    pub mint_account: Pubkey,
    pub challenge_token_vault: Pubkey,
}

/// Vault registration: only an administrator may call, a mint may be
/// registered once, and the new descriptor starts enabled.
pub open spec fn spec_create_token_vault(
    reg: RegistryView,
    signer: Pubkey,
    mint_account: Pubkey,
    token_account: Pubkey,
) -> (RegistryView, Result<(), ChallengeError>) {
    if !spec_is_administrator(reg, signer) {
        (reg, Err(ChallengeError::OnlyAdministrator))
    } else if spec_mint_existed(reg.allowed_mint_accounts, mint_account) {
        (reg, Err(ChallengeError::MintAccountExisted))
    } else {
        (
            RegistryView {
                allowed_mint_accounts: reg.allowed_mint_accounts.push(
                    MintInfo { is_enabled: true, mint_account, token_account },
                ),
                ..reg
            },
            Ok(()),
        )
    }
}

impl CreateTokenVaultContext {
    /// Registers the vault and emits the vault-created event; see
    /// [`spec_create_token_vault`].
    pub fn execute(&mut self, events: &mut Vec<ChallengeEvent>) -> (r: Result<(), ChallengeError>)
        ensures
            *final(self) == (CreateTokenVaultContext {
                challenge_registry: final(self).challenge_registry,
                ..*old(self)
            }),
            ({
                let (reg2, res) = spec_create_token_vault(
                    old(self).challenge_registry@,
                    old(self).signer,
                    old(self).mint_account,
                    old(self).challenge_token_vault,
                );
                &&& final(self).challenge_registry@ == reg2
                &&& r == res
                &&& (r is Ok ==> appended(final(events)@, old(events)@) && is_vault_created(
                    final(events)@.last(),
                    old(self).signer,
                    old(self).mint_account,
                    old(self).challenge_token_vault,
                ))
                &&& (r is Err ==> final(events)@ == old(events)@)
            }),
    {
        if !self.challenge_registry.is_administrator(self.signer) {
            return Err(ChallengeError::OnlyAdministrator);
        }
        if self.challenge_registry.is_mint_account_existed(self.mint_account) {
            return Err(ChallengeError::MintAccountExisted);
        }
        self.challenge_registry.allowed_mint_accounts.push(
            MintInfo {
                is_enabled: true,
                mint_account: self.mint_account,
                token_account: self.challenge_token_vault,
            },
        );
        let event = VaultCreated {
            actor: self.signer,
            mint_account: self.mint_account,
            associated_account: self.challenge_token_vault,
        };
        events.push(ChallengeEvent::VaultCreated(event));
        proof {
            assert(events@.drop_last() =~= old(events)@);
        }
        Ok(())
    }
}

} // verus!
