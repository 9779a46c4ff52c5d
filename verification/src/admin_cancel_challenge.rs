//! The administrator-gated cancellation entry point: the caller must be a
//! registry administrator, and the cancellation itself still follows the
//! owner-only rule — so it succeeds only for an administrator who also owns
//! the challenge, and only from `Created`.

use vstd::prelude::*;

use crate::error::ChallengeError;
use crate::event::{appended, is_challenge_canceled, ChallengeCanceled, ChallengeEvent};
use crate::state::{
    spec_is_administrator, Challenge, ChallengePlatformRegistry, ChallengeStatus, ChallengeView,
    Pubkey, RegistryView,
};

verus! {

#[derive(Clone, Debug)]
pub struct CancelChallengeParams {
    /// The identifier the caller located the challenge by.
    pub id: String,
}

/// The caller, the registry consulted for the administrator check, and the
/// challenge being canceled.
#[derive(Clone, Debug)]
pub struct CancelChallengeContext {
    pub signer: Pubkey,
    pub challenge_registry: ChallengePlatformRegistry,
    pub challenge: Challenge,
}

/// An administrator-gated cancellation: a non-administrator is refused
/// outright; past that gate the rules of an owner cancellation apply.
pub open spec fn spec_admin_cancel(c: ChallengeView, reg: RegistryView, signer: Pubkey) -> (
    ChallengeView,
    Result<(), ChallengeError>,
) {
    if !spec_is_administrator(reg, signer) {
        (c, Err(ChallengeError::OnlyAdministrator))
    } else if c.status == ChallengeStatus::Created && c.owner == signer {
        (ChallengeView { status: ChallengeStatus::Canceled, ..c }, Ok(()))
    } else {
        (c, Err(ChallengeError::ChallengeCannotBeCanceled))
    }
}

impl CancelChallengeContext {
    /// Cancels the challenge under the administrator gate and emits the
    /// cancellation event; see [`spec_admin_cancel`].
    pub fn execute(
        &mut self,
        _params: CancelChallengeParams,
        events: &mut Vec<ChallengeEvent>,
    ) -> (r: Result<(), ChallengeError>)
        ensures
            *final(self) == (CancelChallengeContext {
                challenge: final(self).challenge,
                ..*old(self)
            }),
            ({
                let (c2, res) = spec_admin_cancel(
                    old(self).challenge@,
                    old(self).challenge_registry@,
                    old(self).signer,
                );
                &&& final(self).challenge@ == c2
                &&& r == res
                &&& (r is Ok ==> appended(final(events)@, old(events)@) && is_challenge_canceled(
                    final(events)@.last(),
                    old(self).challenge@.owner,
                    old(self).challenge@.id,
                    ChallengeStatus::Canceled,
                ))
                &&& (r is Err ==> final(events)@ == old(events)@)
            }),
            old(self).challenge.wf() ==> final(self).challenge.wf(),
    {
        if !self.challenge_registry.is_administrator(self.signer) {
            return Err(ChallengeError::OnlyAdministrator);
        }
        if self.challenge.is_challenge_cancelable_for(&self.signer) {
            self.challenge.status = ChallengeStatus::Canceled;
            let event = ChallengeCanceled {
                actor: self.challenge.owner,
                id: self.challenge.id.clone(),
                status: ChallengeStatus::Canceled,
            };
            events.push(ChallengeEvent::ChallengeCanceled(event));
            proof {
                assert(events@.drop_last() =~= old(events)@);
            }
            return Ok(());
        }
        Err(ChallengeError::ChallengeCannotBeCanceled)
    }
}

} // verus!
