//! Cancellation by the challenge owner: allowed only while the challenge is
//! still open for participants. Cancellation refunds nothing by itself — it
//! only unlocks the withdrawal path; funds stay in the vault until each
//! player withdraws individually.

use vstd::prelude::*;

use crate::error::ChallengeError;
use crate::event::{appended, is_challenge_canceled, ChallengeCanceled, ChallengeEvent};
use crate::state::{Challenge, ChallengeStatus, ChallengeView, Pubkey};

verus! {

#[derive(Clone, Debug)]
pub struct CancelChallengeParams {
    /// The identifier the caller located the challenge by.
    pub id: String,
}

/// The caller and the challenge being canceled.
#[derive(Clone, Debug)]
pub struct CancelChallengeContext {
    pub signer: Pubkey,
    pub challenge: Challenge,
}

/// A cancellation: only the owner, and only from `Created`.
pub open spec fn spec_cancel(c: ChallengeView, signer: Pubkey) -> (ChallengeView, Result<
    (),
    ChallengeError,
>) {
    if c.status == ChallengeStatus::Created && c.owner == signer {
        (ChallengeView { status: ChallengeStatus::Canceled, ..c }, Ok(()))
    } else {
        (c, Err(ChallengeError::ChallengeCannotBeCanceled))
    }
}

impl CancelChallengeContext {
    /// Cancels the challenge and emits the cancellation event; see
    /// [`spec_cancel`].
    pub fn execute(
        &mut self,
        _params: CancelChallengeParams,
        events: &mut Vec<ChallengeEvent>,
    ) -> (r: Result<(), ChallengeError>)
        ensures
            *final(self) == (CancelChallengeContext {
                challenge: final(self).challenge,
                ..*old(self)
            }),
            ({
                let (c2, res) = spec_cancel(old(self).challenge@, old(self).signer);
                &&& final(self).challenge@ == c2
                &&& r == res
                &&& (r is Ok ==> appended(final(events)@, old(events)@) && is_challenge_canceled(
                    final(events)@.last(),
                    old(self).challenge@.owner,
                    old(self).challenge@.id,
                    ChallengeStatus::Canceled,
                ))
                &&& (r is Err ==> final(events)@ == old(events)@)
            }),
            old(self).challenge.wf() ==> final(self).challenge.wf(),
    {
        if self.challenge.is_challenge_cancelable_for(&self.signer) {
            self.challenge.status = ChallengeStatus::Canceled;
            let event = ChallengeCanceled {
                actor: self.challenge.owner,
                id: self.challenge.id.clone(),
                status: ChallengeStatus::Canceled,
            };
            events.push(ChallengeEvent::ChallengeCanceled(event));
            proof {
                assert(events@.drop_last() =~= old(events)@);
            }
            return Ok(());
        }
        Err(ChallengeError::ChallengeCannotBeCanceled)
    }
}

} // verus!
