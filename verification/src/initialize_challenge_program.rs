//! One-time bootstrap of the platform registry: records the owner, the
//! administrator list and the asset whitelist. A second initialization of the
//! same registry fails and leaves it untouched.

use vstd::prelude::*;

use crate::error::ChallengeError;
use crate::state::{ChallengePlatformRegistry, MintInfo, Pubkey, RegistryView};

verus! {

#[derive(Clone, Debug)]
pub struct InitializeChallengePlatformParams {
    /// The whitelisted mint accounts.
    pub allowed_mint_accounts: Vec<MintInfo>,
    /// The allowed administrators.
    pub allowed_administrators: Vec<Pubkey>,
}

/// The caller and the registry slot the bootstrap writes.
#[derive(Clone, Debug)]
pub struct InitializeChallengePlatformContext {
    pub owner: Pubkey,
    pub challenge_registry: ChallengePlatformRegistry,
}

/// Initialization: one-shot. On the first call the registry takes the owner
/// and both lists and is marked initialized; any further call fails with
/// `AlreadyInitialized` and changes nothing.
pub open spec fn spec_initialize(
    reg: RegistryView,
    owner: Pubkey,
    admins: Seq<Pubkey>,
    mints: Seq<MintInfo>,
) -> (RegistryView, Result<(), ChallengeError>) {
    if reg.was_initialized {
        (reg, Err(ChallengeError::AlreadyInitialized))
    } else {
        (
            RegistryView {
                owner,
                was_initialized: true,
                allowed_administrators: admins,
                allowed_mint_accounts: mints,
            },
            Ok(()),
        )
    }
}

impl InitializeChallengePlatformContext {
    /// Performs the bootstrap; see [`spec_initialize`].
    pub fn execute(&mut self, params: InitializeChallengePlatformParams) -> (r: Result<
        (),
        ChallengeError,
    >)
        ensures
            *final(self) == (InitializeChallengePlatformContext {
                challenge_registry: final(self).challenge_registry,
                ..*old(self)
            }),
            ({
                let (reg2, res) = spec_initialize(
                    old(self).challenge_registry@,
                    old(self).owner,
                    params.allowed_administrators@,
                    params.allowed_mint_accounts@,
                );
                final(self).challenge_registry@ == reg2 && r == res
            }),
    {
        match self.challenge_registry.handle_post_initialized() {
            Ok(_) => {},
            Err(e) => {
                return Err(e);
            },
        }
        self.challenge_registry.owner = self.owner;
        self.challenge_registry.allowed_mint_accounts = params.allowed_mint_accounts;
        self.challenge_registry.allowed_administrators = params.allowed_administrators;
        Ok(())
    }
}

} // verus!
