//! Entity state: the platform registry (administrators and the whitelisted
//! reward assets) and a challenge (status, player ledger and pools), together
//! with the spec-level model each entity is reasoned about in.

use vstd::prelude::*;

use crate::error::ChallengeError;
use crate::model::{
    count_where, lemma_count_where_bounds, lemma_count_where_exists, lemma_count_where_none,
    lemma_count_where_take_step, sum_by,
};

verus! {

/// An identity recognized by the execution substrate: the address of a
/// principal, of a mint, or of a token account.
#[derive(Clone, Copy, Debug, PartialEq, Eq, Structural, Hash, PartialOrd, Ord)]
pub struct Pubkey {
    pub value: u64,
}

impl Default for Pubkey {
    /// The all-zero key, used as the "absent" marker.
    fn default() -> (r: Pubkey)
        ensures
            r == (Pubkey { value: 0 }),
    {
        Pubkey { value: 0 }
    }
}

/// A whitelisted reward-asset descriptor: the mint and the custodial vault
/// account that holds deposits of that asset.
#[derive(Clone, Copy, Debug, PartialEq, Eq, Structural)]
pub struct MintInfo {
    /// Whether the mint token is active or not.
    pub is_enabled: bool,
    pub mint_account: Pubkey,
    pub token_account: Pubkey,
}

/// The lifecycle states of a challenge. `Created` is the only initial state;
/// `Created` moves to `Canceled` or `Finalized`, `Canceled` to `Withdrawn`,
/// and `Finalized` to `Claimed`. `Withdrawn` and `Claimed` are terminal.
#[derive(Clone, Copy, Debug, PartialEq, Eq, Structural)]
pub enum ChallengeStatus {
    Created,
    Finalized,
    Canceled,
    Claimed,
    Withdrawn,
}

/// Per-identity ledger record within one challenge. `total_deposit` records
/// the player's claim entitlement, not a live balance: payouts never reduce it.
#[derive(Clone, Copy, Debug, PartialEq, Eq, Structural)]
pub struct PlayerInfo {
    pub public_key: Pubkey,
    pub total_deposit: u64,
    pub is_winner: bool,
    pub is_winner_claimed_reward: bool,
    pub is_player_withdrawn: bool,
}

// ---------------------------------------------------------------------------
// Predicates over the ledger, written as named spec closures so that every
// contract counts with the same terms.
// ---------------------------------------------------------------------------

pub open spec fn player_has_key(k: Pubkey) -> spec_fn(PlayerInfo) -> bool {
    |p: PlayerInfo| p.public_key == k
}

pub open spec fn winner_with_key(k: Pubkey) -> spec_fn(PlayerInfo) -> bool {
    |p: PlayerInfo| p.public_key == k && p.is_winner
}

pub open spec fn claimed_winner_with_key(k: Pubkey) -> spec_fn(PlayerInfo) -> bool {
    |p: PlayerInfo| p.public_key == k && p.is_winner && p.is_winner_claimed_reward
}

pub open spec fn player_is_winner() -> spec_fn(PlayerInfo) -> bool {
    |p: PlayerInfo| p.is_winner
}

pub open spec fn unclaimed_winner() -> spec_fn(PlayerInfo) -> bool {
    |p: PlayerInfo| p.is_winner && !p.is_winner_claimed_reward
}

pub open spec fn not_withdrawn() -> spec_fn(PlayerInfo) -> bool {
    |p: PlayerInfo| !p.is_player_withdrawn
}

pub open spec fn deposit_of() -> spec_fn(PlayerInfo) -> int {
    |p: PlayerInfo| p.total_deposit as int
}

pub open spec fn key_is(k: Pubkey) -> spec_fn(Pubkey) -> bool {
    |a: Pubkey| a == k
}

pub open spec fn mint_has_key(k: Pubkey) -> spec_fn(MintInfo) -> bool {
    |m: MintInfo| m.mint_account == k
}

pub open spec fn enabled_mint_with_key(k: Pubkey) -> spec_fn(MintInfo) -> bool {
    |m: MintInfo| m.mint_account == k && m.is_enabled
}

/// An identity holds exactly one player entry.
pub open spec fn spec_is_player(s: Seq<PlayerInfo>, k: Pubkey) -> bool {
    count_where(s, player_has_key(k)) == 1
}

/// An identity holds exactly one player entry marked as winner.
pub open spec fn spec_is_winner(s: Seq<PlayerInfo>, k: Pubkey) -> bool {
    count_where(s, winner_with_key(k)) == 1
}

pub open spec fn spec_total_winners(s: Seq<PlayerInfo>) -> int {
    count_where(s, player_is_winner())
}

pub open spec fn spec_unclaimed_winners(s: Seq<PlayerInfo>) -> int {
    count_where(s, unclaimed_winner())
}

pub open spec fn spec_unwithdrawn_players(s: Seq<PlayerInfo>) -> int {
    count_where(s, not_withdrawn())
}

pub open spec fn spec_sum_deposits(s: Seq<PlayerInfo>) -> int {
    sum_by(s, deposit_of())
}

pub open spec fn spec_mint_existed(s: Seq<MintInfo>, k: Pubkey) -> bool {
    count_where(s, mint_has_key(k)) >= 1
}

pub open spec fn spec_mint_enabled(s: Seq<MintInfo>, k: Pubkey) -> bool {
    count_where(s, enabled_mint_with_key(k)) >= 1
}

// ---------------------------------------------------------------------------
// The platform registry.
// ---------------------------------------------------------------------------

/// Mathematical model of a [`ChallengePlatformRegistry`].
pub struct RegistryView {
    pub owner: Pubkey,
    pub was_initialized: bool,
    pub allowed_administrators: Seq<Pubkey>,
    pub allowed_mint_accounts: Seq<MintInfo>,
}

/// The identity is the registry owner, or is contained in the allowed
/// administrators. The owner administers even when absent from the list, and
/// the list is a set: how often an identity appears does not matter.
pub open spec fn spec_is_administrator(reg: RegistryView, signer: Pubkey) -> bool {
    reg.owner == signer || count_where(reg.allowed_administrators, key_is(signer)) >= 1
}

/// The platform-level registry: the owner, the set of administrator
/// identities, and the whitelisted reward assets. Created exactly once.
#[derive(Clone, Debug)]
pub struct ChallengePlatformRegistry {
    /// The platform owner, implicitly an administrator.
    pub owner: Pubkey,
    /// Whether the registry was initialized; initialization is one-shot.
    pub was_initialized: bool,
    /// The allowed administrators.
    pub allowed_administrators: Vec<Pubkey>,
    /// The whitelisted mint accounts, append-only but for wholesale updates.
    pub allowed_mint_accounts: Vec<MintInfo>,
}

impl View for ChallengePlatformRegistry {
    type V = RegistryView;

    open spec fn view(&self) -> RegistryView {
        RegistryView {
            owner: self.owner,
            was_initialized: self.was_initialized,
            allowed_administrators: self.allowed_administrators@,
            allowed_mint_accounts: self.allowed_mint_accounts@,
        }
    }
}

impl ChallengePlatformRegistry {
    /// Marks the registry initialized; fails when that already happened, so
    /// initialization is a one-time bootstrap.
    pub fn handle_post_initialized(&mut self) -> (r: Result<(), ChallengeError>)
        ensures
            old(self)@.was_initialized ==> r == Err::<(), ChallengeError>(
                ChallengeError::AlreadyInitialized,
            ) && *final(self) == *old(self),
            !old(self)@.was_initialized ==> r == Ok::<(), ChallengeError>(()) && *final(self)
                == (ChallengePlatformRegistry { was_initialized: true, ..*old(self) }),
    {
        if !self.was_initialized {
            self.was_initialized = true;
            return Ok(());
        }
        Err(ChallengeError::AlreadyInitialized)
    }

    /// Whether the mint account was previously registered.
    pub fn is_mint_account_existed(&self, mint_account: Pubkey) -> (r: bool)
        ensures
            r == spec_mint_existed(self@.allowed_mint_accounts, mint_account),
    {
        let mut count: u64 = 0;
        let mut i: usize = 0;
        while i < self.allowed_mint_accounts.len()
            invariant
                i <= self.allowed_mint_accounts@.len(),
                count <= i,
                count == count_where(
                    self.allowed_mint_accounts@.take(i as int),
                    mint_has_key(mint_account),
                ),
            decreases self.allowed_mint_accounts@.len() - i,
        {
            proof {
                lemma_count_where_take_step(
                    self.allowed_mint_accounts@,
                    mint_has_key(mint_account),
                    i as int,
                );
                assert(mint_has_key(mint_account)(self.allowed_mint_accounts@[i as int])
                    == (self.allowed_mint_accounts@[i as int].mint_account == mint_account));
            }
            if self.allowed_mint_accounts[i].mint_account == mint_account {
                count = count + 1;
            }
            i = i + 1;
        }
        proof {
            assert(self.allowed_mint_accounts@.take(self.allowed_mint_accounts@.len() as int)
                =~= self.allowed_mint_accounts@);
        }
        count >= 1
    }

    /// Whether the mint account is registered and enabled.
    pub fn is_mint_account_enabled(&self, mint_account: Pubkey) -> (r: bool)
        ensures
            r == spec_mint_enabled(self@.allowed_mint_accounts, mint_account),
    {
        let ghost f = enabled_mint_with_key(mint_account);
        let mut count: u64 = 0;
        let mut i: usize = 0;
        while i < self.allowed_mint_accounts.len()
            invariant
                f == enabled_mint_with_key(mint_account),
                i <= self.allowed_mint_accounts@.len(),
                count <= i,
                count == count_where(self.allowed_mint_accounts@.take(i as int), f),
            decreases self.allowed_mint_accounts@.len() - i,
        {
            proof {
                lemma_count_where_take_step(self.allowed_mint_accounts@, f, i as int);
            }
            if self.allowed_mint_accounts[i].mint_account == mint_account
                && self.allowed_mint_accounts[i].is_enabled {
                count = count + 1;
            }
            i = i + 1;
        }
        proof {
            assert(self.allowed_mint_accounts@.take(self.allowed_mint_accounts@.len() as int)
                =~= self.allowed_mint_accounts@);
        }
        count >= 1
    }

    /// Returns the first descriptor registered for the mint account. Used only
    /// after whitelist checks elsewhere already guarantee existence.
    pub fn get_mint_info(&self, mint_account: Pubkey) -> (r: MintInfo)
        requires
            spec_mint_existed(self@.allowed_mint_accounts, mint_account),
        ensures
            r.mint_account == mint_account,
            exists|i: int|
                0 <= i < self@.allowed_mint_accounts.len() && #[trigger] self@.allowed_mint_accounts[i]
                    == r && forall|j: int|
                    0 <= j < i ==> self@.allowed_mint_accounts[j].mint_account != mint_account,
    {
        let ghost f = mint_has_key(mint_account);
        let mut i: usize = 0;
        while i < self.allowed_mint_accounts.len()
            invariant
                i <= self.allowed_mint_accounts@.len(),
                forall|j: int| 0 <= j < i ==> self.allowed_mint_accounts@[j].mint_account != mint_account,
                spec_mint_existed(self@.allowed_mint_accounts, mint_account),
            decreases self.allowed_mint_accounts@.len() - i,
        {
            if self.allowed_mint_accounts[i].mint_account == mint_account {
                return self.allowed_mint_accounts[i];
            }
            i = i + 1;
        }
        proof {
            lemma_count_where_exists(self.allowed_mint_accounts@, f);
        }
        assert(false);
        MintInfo { is_enabled: false, mint_account, token_account: Pubkey { value: 0 } }
    }

    /// Whether the signer is the owner or is contained in the allowed
    /// administrators.
    pub fn is_administrator(&self, signer: Pubkey) -> (r: bool)
        ensures
            r == spec_is_administrator(self@, signer),
    {
        if self.owner == signer {
            return true;
        }
        let ghost f = key_is(signer);
        let mut count: u64 = 0;
        let mut i: usize = 0;
        while i < self.allowed_administrators.len()
            invariant
                f == key_is(signer),
                i <= self.allowed_administrators@.len(),
                count <= i,
                count == count_where(self.allowed_administrators@.take(i as int), f),
            decreases self.allowed_administrators@.len() - i,
        {
            proof {
                lemma_count_where_take_step(self.allowed_administrators@, f, i as int);
            }
            if self.allowed_administrators[i] == signer {
                count = count + 1;
            }
            i = i + 1;
        }
        proof {
            assert(self.allowed_administrators@.take(self.allowed_administrators@.len() as int)
                =~= self.allowed_administrators@);
        }
        count >= 1
    }
}

// ---------------------------------------------------------------------------
// A challenge.
// ---------------------------------------------------------------------------

/// Mathematical model of a [`Challenge`].
pub struct ChallengeView {
    pub id: Seq<char>,
    pub owner: Pubkey,
    pub min_deposit: u64,
    pub players: Seq<PlayerInfo>,
    pub prize_pool: u64,
    pub donate_pool: u64,
    pub reward_token_mint_account: Pubkey,
    pub status: ChallengeStatus,
}

impl ChallengeView {
    /// No identity holds two player entries.
    pub open spec fn players_unique(self) -> bool {
        forall|i: int, j: int|
            0 <= i < j < self.players.len() ==> self.players[i].public_key
                != self.players[j].public_key
    }

    /// The prize pool is exactly the players' stakes plus the donation pool.
    /// Payouts reduce neither the per-player ledger nor the prize pool (only
    /// the donation sweep does), so this balance holds in every status.
    pub open spec fn pools_balanced(self) -> bool {
        spec_sum_deposits(self.players) + self.donate_pool == self.prize_pool
    }

    pub open spec fn wf(self) -> bool {
        self.players_unique() && self.pools_balanced()
    }

    /// Reward owed to a winning identity: an equal floor-division share of the
    /// prize pool, or zero once that winner has claimed. The remainder of an
    /// indivisible split stays in the pool and is never distributed.
    pub open spec fn prize_for(self, signer: Pubkey) -> u64 {
        if count_where(self.players, claimed_winner_with_key(signer)) >= 1 {
            0u64
        } else {
            (self.prize_pool as int / spec_total_winners(self.players)) as u64
        }
    }

    /// Refund owed to a player of a canceled challenge: the recorded stake,
    /// or zero once withdrawn.
    pub open spec fn withdrawal_for(self, signer: Pubkey) -> u64 {
        let i = choose|i: int| 0 <= i < self.players.len() && #[trigger] self.players[i].public_key
            == signer;
        if self.players[i].is_player_withdrawn {
            0u64
        } else {
            self.players[i].total_deposit
        }
    }
}

/// One escrow campaign: identifier, owner, minimum stake, the player ledger,
/// the two pools, the reward asset, and the lifecycle status.
#[derive(Clone, Debug)]
pub struct Challenge {
    /// External lookup key; immutable and non-empty after creation.
    pub id: String,
    /// The challenge owner.
    pub owner: Pubkey,
    /// Minimum amount a single deposit must reach.
    pub min_deposit: u64,
    /// The player ledger, unique by identity.
    pub players: Vec<PlayerInfo>,
    /// Total amount held for the challenge pending distribution.
    pub prize_pool: u64,
    /// The subset of the prize pool contributed as pure donations.
    pub donate_pool: u64,
    /// The whitelisted reward asset this challenge pays in.
    pub reward_token_mint_account: Pubkey,
    /// The lifecycle status.
    pub status: ChallengeStatus,
}

impl View for Challenge {
    type V = ChallengeView;

    open spec fn view(&self) -> ChallengeView {
        ChallengeView {
            id: self.id@,
            owner: self.owner,
            min_deposit: self.min_deposit,
            players: self.players@,
            prize_pool: self.prize_pool,
            donate_pool: self.donate_pool,
            reward_token_mint_account: self.reward_token_mint_account,
            status: self.status,
        }
    }
}

impl Challenge {
    pub open spec fn wf(self) -> bool {
        self@.wf()
    }

    /// A fresh, empty challenge in the initial status.
    pub fn default() -> (c: Challenge)
        ensures
            c@ == (ChallengeView {
                id: Seq::<char>::empty(),
                owner: Pubkey { value: 0 },
                min_deposit: 0u64,
                players: Seq::<PlayerInfo>::empty(),
                prize_pool: 0u64,
                donate_pool: 0u64,
                reward_token_mint_account: Pubkey { value: 0 },
                status: ChallengeStatus::Created,
            }),
            c.wf(),
    {
        Challenge {
            id: String::new(),
            owner: Pubkey::default(),
            min_deposit: 0,
            players: Vec::new(),
            prize_pool: 0,
            donate_pool: 0,
            reward_token_mint_account: Pubkey::default(),
            status: ChallengeStatus::Created,
        }
    }

    /// The challenge is still open for participants.
    pub fn is_challenge_open_for_participants(&self) -> (r: bool)
        ensures
            r == (self@.status == ChallengeStatus::Created),
    {
        self.status == ChallengeStatus::Created
    }

    /// The challenge is open for winners to claim.
    pub fn is_challenge_open_for_claim(&self) -> (r: bool)
        ensures
            r == (self@.status == ChallengeStatus::Finalized),
    {
        self.status == ChallengeStatus::Finalized
    }

    /// The challenge is open for players to withdraw their stake.
    pub fn is_challenge_open_for_withdrawal(&self) -> (r: bool)
        ensures
            r == (self@.status == ChallengeStatus::Canceled),
    {
        self.status == ChallengeStatus::Canceled
    }

    /// Whether the signer may cancel: only the owner, and only while the
    /// challenge is still open for participants.
    pub fn is_challenge_cancelable_for(&self, signer: &Pubkey) -> (r: bool)
        ensures
            r == (self@.status == ChallengeStatus::Created && self@.owner == *signer),
    {
        self.is_challenge_open_for_participants() && self.is_challenge_owner(*signer)
    }

    /// Whether the signer owns the challenge.
    pub fn is_challenge_owner(&self, signer: Pubkey) -> (r: bool)
        ensures
            r == (self@.owner == signer),
    {
        self.owner == signer
    }

    /// Whether the signer holds exactly one player entry.
    pub fn is_player(&self, signer: Pubkey) -> (r: bool)
        ensures
            r == spec_is_player(self@.players, signer),
    {
        let ghost f = player_has_key(signer);
        let mut count: u64 = 0;
        let mut i: usize = 0;
        while i < self.players.len()
            invariant
                f == player_has_key(signer),
                i <= self.players@.len(),
                count <= i,
                count == count_where(self.players@.take(i as int), f),
            decreases self.players@.len() - i,
        {
            proof {
                lemma_count_where_take_step(self.players@, f, i as int);
            }
            if self.players[i].public_key == signer {
                count = count + 1;
            }
            i = i + 1;
        }
        proof {
            assert(self.players@.take(self.players@.len() as int) =~= self.players@);
        }
        count == 1
    }

    /// Whether the signer holds exactly one player entry marked as winner.
    pub fn is_winner(&self, signer: Pubkey) -> (r: bool)
        ensures
            r == spec_is_winner(self@.players, signer),
    {
        let ghost f = winner_with_key(signer);
        let mut count: u64 = 0;
        let mut i: usize = 0;
        while i < self.players.len()
            invariant
                f == winner_with_key(signer),
                i <= self.players@.len(),
                count <= i,
                count == count_where(self.players@.take(i as int), f),
            decreases self.players@.len() - i,
        {
            proof {
                lemma_count_where_take_step(self.players@, f, i as int);
            }
            if self.players[i].public_key == signer && self.players[i].is_winner {
                count = count + 1;
            }
            i = i + 1;
        }
        proof {
            assert(self.players@.take(self.players@.len() as int) =~= self.players@);
        }
        count == 1
    }

    /// Index of the first player entry held by the given identity.
    pub fn find_player_for_mutation(&self, player: Pubkey) -> (idx: usize)
        requires
            count_where(self@.players, player_has_key(player)) >= 1,
        ensures
            idx < self@.players.len(),
            self@.players[idx as int].public_key == player,
            forall|j: int| 0 <= j < idx ==> self@.players[j].public_key != player,
    {
        let mut i: usize = 0;
        while i < self.players.len()
            invariant
                i <= self.players@.len(),
                forall|j: int| 0 <= j < i ==> self@.players[j].public_key != player,
            decreases self.players@.len() - i,
        {
            if self.players[i].public_key == player {
                return i;
            }
            i = i + 1;
        }
        proof {
            lemma_count_where_exists(self.players@, player_has_key(player));
        }
        assert(false);
        0
    }

    /// Appends a new player entry, refusing a duplicate identity.
    pub fn add_player(&mut self, pub_key: Pubkey, total_deposit: u64) -> (r: Result<
        (),
        ChallengeError,
    >)
        ensures
            spec_is_player(old(self)@.players, pub_key) ==> r == Err::<(), ChallengeError>(
                ChallengeError::AlreadyParticipated,
            ) && *final(self) == *old(self),
            !spec_is_player(old(self)@.players, pub_key) ==> r == Ok::<(), ChallengeError>(())
                && *final(self) == (Challenge { players: final(self).players, ..*old(self) })
                && final(self)@.players == old(self)@.players.push(
                PlayerInfo {
                    public_key: pub_key,
                    total_deposit,
                    is_winner: false,
                    is_winner_claimed_reward: false,
                    is_player_withdrawn: false,
                },
            ),
    {
        if self.is_player(pub_key) {
            return Err(ChallengeError::AlreadyParticipated);
        }
        self.players.push(
            PlayerInfo {
                public_key: pub_key,
                total_deposit,
                is_winner: false,
                is_winner_claimed_reward: false,
                is_player_withdrawn: false,
            },
        );
        Ok(())
    }

    /// Index of the entry for the identity, creating a zero-deposit entry
    /// first when the identity holds none.
    pub fn get_or_create_player(&mut self, pub_key: Pubkey) -> (idx: usize)
        ensures
            spec_is_player(old(self)@.players, pub_key) ==> *final(self) == *old(self),
            !spec_is_player(old(self)@.players, pub_key) ==> *final(self) == (Challenge {
                players: final(self).players,
                ..*old(self)
            }) && final(self)@.players == old(self)@.players.push(
                PlayerInfo {
                    public_key: pub_key,
                    total_deposit: 0u64,
                    is_winner: false,
                    is_winner_claimed_reward: false,
                    is_player_withdrawn: false,
                },
            ),
            idx < final(self)@.players.len(),
            final(self)@.players[idx as int].public_key == pub_key,
            forall|j: int| 0 <= j < idx ==> final(self)@.players[j].public_key != pub_key,
    {
        if !self.is_player(pub_key) {
            let r = self.add_player(pub_key, 0);
            assert(r is Ok);
            proof {
                assert(self@.players.drop_last() =~= old(self)@.players);
                assert(self@.players.last().public_key == pub_key);
            }
        }
        proof {
            if spec_is_player(old(self)@.players, pub_key) {
            } else {
                lemma_count_where_bounds(self@.players.drop_last(), player_has_key(pub_key));
            }
        }
        self.find_player_for_mutation(pub_key)
    }

    /// Overwrites the deposit, winner and claim fields of the entry whose
    /// identity matches `player`; the withdrawn flag and the identity itself
    /// are left as they are. Fails when no such entry exists.
    pub fn mutate_player(&mut self, player: PlayerInfo) -> (r: Result<(), ChallengeError>)
        ensures
            !spec_is_player(old(self)@.players, player.public_key) ==> r == Err::<
                (),
                ChallengeError,
            >(ChallengeError::OnlyParticipant) && *final(self) == *old(self),
            spec_is_player(old(self)@.players, player.public_key) ==> r == Ok::<
                (),
                ChallengeError,
            >(()) && *final(self) == (Challenge { players: final(self).players, ..*old(self) })
                && exists|i: int|
                0 <= i < old(self)@.players.len() && old(self)@.players[i].public_key
                    == player.public_key && (forall|j: int|
                    0 <= j < i ==> old(self)@.players[j].public_key != player.public_key)
                    && final(self)@.players == old(self)@.players.update(
                    i,
                    PlayerInfo {
                        public_key: old(self)@.players[i].public_key,
                        total_deposit: player.total_deposit,
                        is_winner: player.is_winner,
                        is_winner_claimed_reward: player.is_winner_claimed_reward,
                        is_player_withdrawn: old(self)@.players[i].is_player_withdrawn,
                    },
                ),
    {
        if !self.is_player(player.public_key) {
            return Err(ChallengeError::OnlyParticipant);
        }
        proof {
            lemma_count_where_bounds(self@.players, player_has_key(player.public_key));
        }
        let idx = self.find_player_for_mutation(player.public_key);
        let existing = self.players[idx];
        self.players.set(
            idx,
            PlayerInfo {
                public_key: existing.public_key,
                total_deposit: player.total_deposit,
                is_winner: player.is_winner,
                is_winner_claimed_reward: player.is_winner_claimed_reward,
                is_player_withdrawn: existing.is_player_withdrawn,
            },
        );
        Ok(())
    }

    /// Number of winners that have not yet claimed their reward.
    pub fn get_total_unclaimed_winners(&self) -> (r: Result<u64, ChallengeError>)
        ensures
            r matches Ok(n) && n == spec_unclaimed_winners(self@.players),
    {
        let ghost f = unclaimed_winner();
        let mut count: u64 = 0;
        let mut i: usize = 0;
        while i < self.players.len()
            invariant
                f == unclaimed_winner(),
                i <= self.players@.len(),
                count <= i,
                count == count_where(self.players@.take(i as int), f),
            decreases self.players@.len() - i,
        {
            proof {
                lemma_count_where_take_step(self.players@, f, i as int);
            }
            if self.players[i].is_winner && !self.players[i].is_winner_claimed_reward {
                count = count + 1;
            }
            i = i + 1;
        }
        proof {
            assert(self.players@.take(self.players@.len() as int) =~= self.players@);
            lemma_count_where_bounds(self.players@, f);
        }
        Ok(count)
    }

    /// Number of players that have not yet withdrawn their stake.
    pub fn get_total_unwithdrawn_player(&self) -> (r: Result<u64, ChallengeError>)
        ensures
            r matches Ok(n) && n == spec_unwithdrawn_players(self@.players),
    {
        let ghost f = not_withdrawn();
        let mut count: u64 = 0;
        let mut i: usize = 0;
        while i < self.players.len()
            invariant
                f == not_withdrawn(),
                i <= self.players@.len(),
                count <= i,
                count == count_where(self.players@.take(i as int), f),
            decreases self.players@.len() - i,
        {
            proof {
                lemma_count_where_take_step(self.players@, f, i as int);
            }
            if !self.players[i].is_player_withdrawn {
                count = count + 1;
            }
            i = i + 1;
        }
        proof {
            assert(self.players@.take(self.players@.len() as int) =~= self.players@);
            lemma_count_where_bounds(self.players@, f);
        }
        Ok(count)
    }

    /// Reward owed to a winning identity; see [`ChallengeView::prize_for`].
    pub fn get_prize_for(&self, signer: Pubkey) -> (r: Result<u64, ChallengeError>)
        requires
            self@.players_unique(),
            count_where(self@.players, winner_with_key(signer)) >= 1,
        ensures
            r == Ok::<u64, ChallengeError>(self@.prize_for(signer)),
    {
        proof {
            lemma_winner_key_is_player_key(self@.players, signer);
        }
        let idx = self.find_player_for_mutation(signer);
        proof {
            lemma_count_where_exists(self@.players, winner_with_key(signer));
            let w = choose|i: int|
                0 <= i < self@.players.len() && winner_with_key(signer)(self@.players[i]);
            assert(w == idx);
        }
        if self.players[idx].is_winner_claimed_reward {
            proof {
                assert(claimed_winner_with_key(signer)(self@.players[idx as int]));
                lemma_count_where_exists(self@.players, claimed_winner_with_key(signer));
            }
            return Ok(0);
        }
        proof {
            assert forall|j: int|
                0 <= j < self@.players.len() ==> !claimed_winner_with_key(signer)(
                    #[trigger] self@.players[j],
                ) by {
                if 0 <= j < self@.players.len() && claimed_winner_with_key(signer)(
                    self@.players[j],
                ) {
                    assert(self@.players[j].public_key == signer);
                    assert(j == idx);
                }
            }
            lemma_count_where_none(self@.players, claimed_winner_with_key(signer));
        }
        let ghost fw = player_is_winner();
        let mut total_winners: u64 = 0;
        let mut i: usize = 0;
        while i < self.players.len()
            invariant
                fw == player_is_winner(),
                i <= self.players@.len(),
                total_winners <= i,
                total_winners == count_where(self.players@.take(i as int), fw),
            decreases self.players@.len() - i,
        {
            proof {
                lemma_count_where_take_step(self.players@, fw, i as int);
            }
            if self.players[i].is_winner {
                total_winners = total_winners + 1;
            }
            i = i + 1;
        }
        proof {
            assert(self.players@.take(self.players@.len() as int) =~= self.players@);
            assert(player_is_winner()(self@.players[idx as int]));
            lemma_count_where_exists(self@.players, player_is_winner());
        }
        Ok(self.prize_pool / total_winners)
    }

    /// Refund owed to a player; see [`ChallengeView::withdrawal_for`].
    pub fn get_withdrawal_for(&self, signer: Pubkey) -> (r: Result<u64, ChallengeError>)
        requires
            self@.players_unique(),
            count_where(self@.players, player_has_key(signer)) >= 1,
        ensures
            r == Ok::<u64, ChallengeError>(self@.withdrawal_for(signer)),
    {
        let idx = self.find_player_for_mutation(signer);
        proof {
            let w = choose|i: int|
                0 <= i < self@.players.len() && #[trigger] self@.players[i].public_key == signer;
            assert(self@.players[idx as int].public_key == signer);
            assert(w == idx);
        }
        if self.players[idx].is_player_withdrawn {
            Ok(0)
        } else {
            Ok(self.players[idx].total_deposit)
        }
    }
}

/// Stakes are non-negative, so the ledger sum is; in a balanced challenge the
/// donation pool therefore never exceeds the prize pool.
pub proof fn lemma_sum_deposits_nonneg(s: Seq<PlayerInfo>)
    ensures
        spec_sum_deposits(s) >= 0,
{
    assert(forall|j: int| 0 <= j < s.len() ==> deposit_of()(#[trigger] s[j]) >= 0);
    crate::model::lemma_sum_by_nonneg(s, deposit_of());
}

/// A winner entry for a key is in particular a player entry for that key.
pub proof fn lemma_winner_key_is_player_key(s: Seq<PlayerInfo>, k: Pubkey)
    requires
        count_where(s, winner_with_key(k)) >= 1,
    ensures
        count_where(s, player_has_key(k)) >= 1,
{
    lemma_count_where_exists(s, winner_with_key(k));
    let i = choose|i: int| 0 <= i < s.len() && winner_with_key(k)(s[i]);
    assert(player_has_key(k)(s[i]));
    lemma_count_where_exists(s, player_has_key(k));
}

} // verus!
