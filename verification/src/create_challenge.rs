//! Creation of a challenge: a fresh escrow with an empty ledger and zero
//! pools, gated by the registry's asset whitelist. The identifier, the owner
//! and the reward asset are validated before anything is written, so a
//! refused creation leaves the slot untouched.

use vstd::prelude::*;
use vstd::string::StrSliceExecFns;

use crate::error::ChallengeError;
use crate::event::{appended, is_challenge_created, ChallengeCreated, ChallengeEvent};
use crate::state::{
    spec_mint_enabled, Challenge, ChallengePlatformRegistry, ChallengeStatus, ChallengeView,
    PlayerInfo, Pubkey, RegistryView,
};

verus! {

#[derive(Clone, Debug)]
pub struct CreateChallengeParams {
    /// Off-chain identifier used as the external lookup key.
    pub id: String,
    /// Minimum amount a single deposit must reach.
    pub min_deposit: u64,
    /// The whitelisted asset the challenge pays rewards in.
    pub reward_token_mint_account: Pubkey,
}

/// The creator, the slot the new challenge is written to, and the registry
/// consulted for the whitelist check.
#[derive(Clone, Debug)]
pub struct CreateChallengeContext {
    pub challenge_owner: Pubkey,
    pub challenge: Challenge,
    pub challenge_registry: ChallengePlatformRegistry,
}

/// Whether a creation request is accepted: the identifier must be non-empty,
/// the owner must not be the absent marker, and the reward asset must be
/// whitelisted and enabled at call time — each refusal with its error.
pub open spec fn spec_create_result(
    reg: RegistryView,
    owner: Pubkey,
    id: Seq<char>,
    mint_account: Pubkey,
) -> Result<(), ChallengeError> {
    if id.len() == 0 {
        Err(ChallengeError::InvalidValue)
    } else if owner == (Pubkey { value: 0 }) {
        Err(ChallengeError::InvalidValue)
    } else if !spec_mint_enabled(reg.allowed_mint_accounts, mint_account) {
        Err(ChallengeError::UnAllowedMintToken)
    } else {
        Ok(())
    }
}

/// The state of a freshly created challenge: the given identity fields, an
/// empty ledger, zero pools, and the initial status.
pub open spec fn spec_created_challenge(
    owner: Pubkey,
    id: Seq<char>,
    min_deposit: u64,
    mint_account: Pubkey,
) -> ChallengeView {
    ChallengeView {
        id,
        owner,
        min_deposit,
        players: Seq::<PlayerInfo>::empty(),
        prize_pool: 0u64,
        donate_pool: 0u64,
        reward_token_mint_account: mint_account,
        status: ChallengeStatus::Created,
    }
}

impl CreateChallengeContext {
    /// Validates the request and writes the fresh challenge; see
    /// [`spec_create_result`] and [`spec_created_challenge`].
    pub fn execute(
        &mut self,
        params: CreateChallengeParams,
        events: &mut Vec<ChallengeEvent>,
    ) -> (r: Result<(), ChallengeError>)
        ensures
            *final(self) == (CreateChallengeContext {
                challenge: final(self).challenge,
                ..*old(self)
            }),
            r == spec_create_result(
                old(self).challenge_registry@,
                old(self).challenge_owner,
                params.id@,
                params.reward_token_mint_account,
            ),
            r is Ok ==> final(self).challenge@ == spec_created_challenge(
                old(self).challenge_owner,
                params.id@,
                params.min_deposit,
                params.reward_token_mint_account,
            ) && final(self).challenge.wf() && appended(final(events)@, old(events)@)
                && is_challenge_created(
                final(events)@.last(),
                old(self).challenge_owner,
                params.id@,
            ),
            r is Err ==> final(self).challenge == old(self).challenge && final(events)@ == old(
                events,
            )@,
    {
        match self.handle_post_initialized(&params) {
            Ok(_) => {},
            Err(e) => {
                return Err(e);
            },
        }
        let id_for_event = params.id.clone();
        self.challenge = Challenge {
            id: params.id,
            owner: self.challenge_owner,
            min_deposit: params.min_deposit,
            players: Vec::new(),
            prize_pool: 0,
            donate_pool: 0,
            reward_token_mint_account: params.reward_token_mint_account,
            status: ChallengeStatus::Created,
        };
        let event = ChallengeCreated { actor: self.challenge_owner, id: id_for_event };
        events.push(ChallengeEvent::ChallengeCreated(event));
        proof {
            assert(events@.drop_last() =~= old(events)@);
        }
        Ok(())
    }

    /// Validates the would-be challenge before it is written: a non-empty
    /// identifier, a present owner, and a whitelisted reward asset.
    fn handle_post_initialized(&self, params: &CreateChallengeParams) -> (r: Result<
        (),
        ChallengeError,
    >)
        ensures
            r == spec_create_result(
                self.challenge_registry@,
                self.challenge_owner,
                params.id@,
                params.reward_token_mint_account,
            ),
    {
        if params.id.as_str().unicode_len() == 0 {
            return Err(ChallengeError::InvalidValue);
        }
        if self.challenge_owner == Pubkey::default() {
            return Err(ChallengeError::InvalidValue);
        }
        self.validate_mint_account(params.reward_token_mint_account)
    }

    /// Refuses a reward asset that is not whitelisted and enabled.
    fn validate_mint_account(&self, mint_account: Pubkey) -> (r: Result<(), ChallengeError>)
        ensures
            r == if spec_mint_enabled(self.challenge_registry@.allowed_mint_accounts, mint_account) {
                Ok::<(), ChallengeError>(())
            } else {
                Err::<(), ChallengeError>(ChallengeError::UnAllowedMintToken)
            },
    {
        if !self.challenge_registry.is_mint_account_enabled(mint_account) {
            return Err(ChallengeError::UnAllowedMintToken);
        }
        Ok(())
    }
}

} // verus!
