//! Winner submission: a registry administrator or the challenge owner marks
//! the winning players and finalizes the challenge. Every submitted identity
//! must already hold a player entry; the transition is one-shot, since
//! `Finalized` is unreachable from any other status.

use vstd::prelude::*;
use vstd::assert_seqs_equal;

use crate::error::ChallengeError;
use crate::event::{appended, is_challenge_finalized, ChallengeEvent, ChallengeFinalized};
use crate::model::{
    count_where, lemma_count_where_congruent, lemma_count_where_exists, lemma_count_where_single,
    lemma_sum_by_congruent,
};
use crate::state::{
    deposit_of, player_has_key, spec_is_administrator, Challenge, ChallengePlatformRegistry,
    ChallengeStatus, ChallengeView, PlayerInfo, Pubkey, RegistryView,
};

verus! {

#[derive(Clone, Debug)]
pub struct SubmitWinnersParams {
    /// The identifier the caller located the challenge by.
    pub id: String,
    /// The winning identities; each must hold a player entry.
    pub winner_list: Vec<Pubkey>,
}

/// The caller, the registry consulted for the administrator check, and the
/// challenge being finalized.
#[derive(Clone, Debug)]
pub struct SubmitWinnersContext {
    pub signer: Pubkey,
    pub challenge_registry: ChallengePlatformRegistry,
    pub challenge: Challenge,
}

/// Every submitted identity holds at least one player entry.
pub open spec fn all_players(s: Seq<PlayerInfo>, ws: Seq<Pubkey>) -> bool {
    forall|i: int|
        0 <= i < ws.len() ==> #[trigger] count_where(s, player_has_key(ws[i])) >= 1
}

/// The ledger after winner submission: every entry whose identity appears in
/// the list carries the winner mark.
pub open spec fn mark_winners(s: Seq<PlayerInfo>, ws: Seq<Pubkey>) -> Seq<PlayerInfo> {
    s.map(
        |i: int, p: PlayerInfo|
            if ws.contains(p.public_key) {
                PlayerInfo { is_winner: true, ..p }
            } else {
                p
            },
    )
}

/// Winner submission: only an administrator or the challenge owner, only from
/// `Created`, and only for identities that deposited; an unknown identity
/// refuses the whole submission, so winners are never silently undercounted.
/// On success the listed players are marked winners and the status moves to
/// `Finalized`.
pub open spec fn spec_submit_winners(
    c: ChallengeView,
    reg: RegistryView,
    signer: Pubkey,
    ws: Seq<Pubkey>,
) -> (ChallengeView, Result<(), ChallengeError>) {
    if !(spec_is_administrator(reg, signer) || c.owner == signer) {
        (c, Err(ChallengeError::InvalidValue))
    } else if c.status != ChallengeStatus::Created {
        (c, Err(ChallengeError::InvalidValue))
    } else if !all_players(c.players, ws) {
        (c, Err(ChallengeError::OnlyParticipant))
    } else {
        (
            ChallengeView {
                players: mark_winners(c.players, ws),
                status: ChallengeStatus::Finalized,
                ..c
            },
            Ok(()),
        )
    }
}

/// Membership in one element more of a prefix: the new element joins the set.
proof fn lemma_take_succ_contains(ws: Seq<Pubkey>, i: int, x: Pubkey)
    requires
        0 <= i < ws.len(),
    ensures
        ws.take(i + 1).contains(x) <==> (ws.take(i).contains(x) || ws[i] == x),
{
    if ws.take(i + 1).contains(x) {
        let j = choose|j: int| 0 <= j < ws.take(i + 1).len() && #[trigger] ws.take(i + 1)[j] == x;
        if j < i {
            assert(ws.take(i)[j] == x);
        }
    }
    if ws.take(i).contains(x) {
        let j = choose|j: int| 0 <= j < ws.take(i).len() && #[trigger] ws.take(i)[j] == x;
        assert(ws.take(i + 1)[j] == x);
    }
    if ws[i] == x {
        assert(ws.take(i + 1)[i] == x);
    }
}

impl SubmitWinnersContext {
    /// Marks the winners and finalizes the challenge; see
    /// [`spec_submit_winners`].
    pub fn execute(
        &mut self,
        params: SubmitWinnersParams,
        events: &mut Vec<ChallengeEvent>,
    ) -> (r: Result<(), ChallengeError>)
        requires
            old(self).challenge.wf(),
        ensures
            final(self).challenge.wf(),
            *final(self) == (SubmitWinnersContext {
                challenge: final(self).challenge,
                ..*old(self)
            }),
            ({
                let (c2, res) = spec_submit_winners(
                    old(self).challenge@,
                    old(self).challenge_registry@,
                    old(self).signer,
                    params.winner_list@,
                );
                &&& final(self).challenge@ == c2
                &&& r == res
                &&& (r is Ok ==> appended(final(events)@, old(events)@) && is_challenge_finalized(
                    final(events)@.last(),
                    old(self).signer,
                    old(self).challenge@.id,
                    ChallengeStatus::Finalized,
                ))
                &&& (r is Err ==> final(events)@ == old(events)@)
            }),
    {
        let is_admin = self.challenge_registry.is_administrator(self.signer);
        let is_owner = self.challenge.is_challenge_owner(self.signer);
        if !(is_admin || is_owner) {
            return Err(ChallengeError::InvalidValue);
        }
        if !self.challenge.is_challenge_open_for_participants() {
            return Err(ChallengeError::InvalidValue);
        }
        let ghost s0 = self.challenge@.players;
        let ghost ws = params.winner_list@;
        let mut i: usize = 0;
        while i < params.winner_list.len()
            invariant
                i <= ws.len(),
                params.winner_list@ == ws,
                *self == *old(self),
                s0 == self.challenge@.players,
                old(self).challenge.wf(),
                spec_is_administrator(old(self).challenge_registry@, old(self).signer) || old(
                    self,
                ).challenge@.owner == old(self).signer,
                old(self).challenge@.status == ChallengeStatus::Created,
                forall|j: int|
                    0 <= j < i ==> #[trigger] count_where(s0, player_has_key(ws[j])) >= 1,
            decreases ws.len() - i,
        {
            if !self.challenge.is_player(params.winner_list[i]) {
                proof {
                    let k = ws[i as int];
                    lemma_count_where_exists(s0, player_has_key(k));
                    if count_where(s0, player_has_key(k)) >= 1 {
                        let j = choose|j: int| 0 <= j < s0.len() && player_has_key(k)(s0[j]);
                        assert forall|x: int|
                            0 <= x < s0.len() && x != j implies !player_has_key(k)(s0[x]) by {
                            assert(s0[x].public_key != s0[j].public_key);
                        }
                        lemma_count_where_single(s0, player_has_key(k), j);
                    }
                    assert(!all_players(s0, ws));
                }
                return Err(ChallengeError::OnlyParticipant);
            }
            i = i + 1;
        }
        let mut wi: usize = 0;
        while wi < params.winner_list.len()
            invariant
                wi <= ws.len(),
                params.winner_list@ == ws,
                *self == (SubmitWinnersContext { challenge: self.challenge, ..*old(self) }),
                self.challenge == (Challenge {
                    players: self.challenge.players,
                    ..old(self).challenge
                }),
                s0 == old(self).challenge@.players,
                old(self).challenge.wf(),
                all_players(s0, ws),
                self.challenge@.players == mark_winners(s0, ws.take(wi as int)),
            decreases ws.len() - wi,
        {
            let w = params.winner_list[wi];
            let ghost cur = self.challenge@.players;
            proof {
                assert(cur.len() == s0.len());
                assert forall|j: int|
                    0 <= j < s0.len() implies player_has_key(w)(cur[j]) == player_has_key(w)(
                    s0[j],
                ) by {
                    assert(cur[j].public_key == s0[j].public_key);
                }
                lemma_count_where_congruent(cur, s0, player_has_key(w));
                assert(count_where(s0, player_has_key(w)) >= 1);
            }
            let idx = self.challenge.find_player_for_mutation(w);
            let existing = self.challenge.players[idx];
            let updated = PlayerInfo { is_winner: true, ..existing };
            self.challenge.players.set(idx, updated);
            proof {
                let next = self.challenge@.players;
                assert(s0[idx as int].public_key == w);
                assert forall|j: int|
                    0 <= j < s0.len() && j != idx implies s0[j].public_key != w by {
                    assert(s0[j].public_key != s0[idx as int].public_key);
                }
                assert_seqs_equal!(next == mark_winners(s0, ws.take(wi as int + 1)), j => {
                    lemma_take_succ_contains(ws, wi as int, s0[j].public_key);
                    if j == idx as int {
                        assert(ws.take(wi as int + 1).contains(s0[j].public_key));
                    } else {
                        assert(s0[j].public_key != w);
                        assert(ws.take(wi as int + 1).contains(s0[j].public_key) == ws.take(
                            wi as int,
                        ).contains(s0[j].public_key));
                    }
                });
            }
            wi = wi + 1;
        }
        proof {
            assert(ws.take(ws.len() as int) =~= ws);
        }
        self.challenge.status = ChallengeStatus::Finalized;
        proof {
            let s2 = self.challenge@.players;
            assert(forall|j: int|
                0 <= j < s2.len() ==> (#[trigger] s2[j]).public_key == s0[j].public_key
                    && deposit_of()(s2[j]) == deposit_of()(s0[j]));
            lemma_sum_by_congruent(s2, s0, deposit_of());
        }
        let event = ChallengeFinalized {
            actor: self.signer,
            id: self.challenge.id.clone(),
            status: ChallengeStatus::Finalized,
        };
        events.push(ChallengeEvent::ChallengeFinalized(event));
        proof {
            assert(events@.drop_last() =~= old(events)@);
        }
        Ok(())
    }
}

} // verus!
