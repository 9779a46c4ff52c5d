//! Wholesale replacement of the registry's administrator list and asset
//! whitelist, allowed only to an administrator.

use vstd::prelude::*;

use crate::error::ChallengeError;
use crate::event::{appended, is_registry_updated, ChallengeEvent, ChallengeRegistryUpdated};
use crate::state::{
    spec_is_administrator, ChallengePlatformRegistry, MintInfo, Pubkey, RegistryView,
};

verus! {

#[derive(Clone, Debug)]
pub struct UpdateChallengePlatformParams {
    /// The whitelisted mint accounts.
    pub allowed_mint_accounts: Vec<MintInfo>,
    /// The allowed administrators.
    pub allowed_administrators: Vec<Pubkey>,
}

/// The caller and the registry the update rewrites.
#[derive(Clone, Debug)]
pub struct UpdateChallengePlatformContext {
    pub owner: Pubkey,
    pub challenge_registry: ChallengePlatformRegistry,
}

/// An update: only an administrator may call; both collections are replaced
/// wholesale, with no incremental diff. Owner and initialization mark stay.
pub open spec fn spec_update(
    reg: RegistryView,
    signer: Pubkey,
    admins: Seq<Pubkey>,
    mints: Seq<MintInfo>,
) -> (RegistryView, Result<(), ChallengeError>) {
    if !spec_is_administrator(reg, signer) {
        (reg, Err(ChallengeError::OnlyAdministrator))
    } else {
        (
            RegistryView { allowed_administrators: admins, allowed_mint_accounts: mints, ..reg },
            Ok(()),
        )
    }
}

impl UpdateChallengePlatformContext {
    /// Performs the update and emits the registry-updated event; see
    /// [`spec_update`].
    pub fn execute(
        &mut self,
        params: UpdateChallengePlatformParams,
        events: &mut Vec<ChallengeEvent>,
    ) -> (r: Result<(), ChallengeError>)
        ensures
            *final(self) == (UpdateChallengePlatformContext {
                challenge_registry: final(self).challenge_registry,
                ..*old(self)
            }),
            ({
                let (reg2, res) = spec_update(
                    old(self).challenge_registry@,
                    old(self).owner,
                    params.allowed_administrators@,
                    params.allowed_mint_accounts@,
                );
                &&& final(self).challenge_registry@ == reg2
                &&& r == res
                &&& (r is Ok ==> appended(final(events)@, old(events)@) && is_registry_updated(
                    final(events)@.last(),
                    old(self).owner,
                    params.allowed_administrators@,
                    params.allowed_mint_accounts@,
                ))
                &&& (r is Err ==> final(events)@ == old(events)@)
            }),
    {
        if !self.challenge_registry.is_administrator(self.owner) {
            return Err(ChallengeError::OnlyAdministrator);
        }
        let admins_copy = params.allowed_administrators.clone();
        let mints_copy = params.allowed_mint_accounts.clone();
        proof {
            assert(admins_copy@ =~= params.allowed_administrators@);
            assert(mints_copy@ =~= params.allowed_mint_accounts@);
        }
        self.challenge_registry.allowed_administrators = admins_copy;
        self.challenge_registry.allowed_mint_accounts = mints_copy;
        let event = ChallengeRegistryUpdated {
            actor: self.owner,
            allowed_administrators: params.allowed_administrators,
            allowed_mint_accounts: params.allowed_mint_accounts,
        };
        events.push(ChallengeEvent::RegistryUpdated(event));
        proof {
            assert(events@.drop_last() =~= old(events)@);
        }
        Ok(())
    }
}

} // verus!
