//! One voting round: vote intake, a power-weighted tally, a rolling
//! commitment to the vote transcript, and finalization by a reveal committee.

use vstd::prelude::*;
use vstd::std_specs::iter::IteratorSpec;
use vstd::utf8::encode_utf8;
use crate::crypto::{hex_encode, hex_of, le_bytes_low64, push_bytes, push_le_low64, sha256_of, sha_256};
use crate::error::ContractError;
use crate::tally::{
    apply, distinct_names, lemma_seq_sum_prefix, lemma_slot_power_covers, lemma_slot_power_push,
    lemma_slot_power_update, lemma_slots_below_total, lemma_tally_sum, lemma_votes_map_absent,
    lemma_votes_map_lookup, lemma_votes_map_push, lemma_votes_map_update, retract, seq_max,
    seq_sum, slot_power, total_power, votes_map, Vote,
};
use crate::types::{
    clone_strings, InitHook, PollInitMsg, PollMetadata, ResponseStatus, RevealCommittee,
    SecretContract,
};

verus! {

/// The fewest choices a poll can have.
pub const MIN_CHOICES: usize = 2;

/// The shortest title, in characters.
pub const MIN_TITLE_LEN: usize = 2;

/// The shortest description, in characters.
pub const MIN_DESCRIPTION_LEN: usize = 10;

/// The shortest author alias, in characters.
pub const MIN_ALIAS_LEN: usize = 3;

/// A poll's settings and outcome flags, and the rolling hash of its votes.
#[derive(Debug, PartialEq, Eq)]
pub struct StoredPollConfig {
    pub end_timestamp: u64,
    pub quorum: u8,
    pub min_threshold: u8,
    pub choices: Vec<String>,
    pub finalized: bool,
    pub valid: bool,
    pub rolling_hash: [u8; 32],
}

impl StoredPollConfig {
    /// Both hold the same values, the choices compared by content.
    pub open spec fn same_as(&self, other: &StoredPollConfig) -> bool {
        &&& self.end_timestamp == other.end_timestamp
        &&& self.quorum == other.quorum
        &&& self.min_threshold == other.min_threshold
        &&& self.choices@ == other.choices@
        &&& self.finalized == other.finalized
        &&& self.valid == other.valid
        &&& self.rolling_hash == other.rolling_hash
    }
}

impl Clone for StoredPollConfig {
    fn clone(&self) -> (r: Self)
        ensures
            r.same_as(self),
    {
        StoredPollConfig {
            end_timestamp: self.end_timestamp,
            quorum: self.quorum,
            min_threshold: self.min_threshold,
            choices: clone_strings(&self.choices),
            finalized: self.finalized,
            valid: self.valid,
            rolling_hash: self.rolling_hash,
        }
    }
}

/// The committee and who of it has revealed so far.
#[derive(Debug, PartialEq, Eq)]
pub struct StoredRevealConfig {
    pub committee: RevealCommittee,
    pub num_revealed: u64,
    pub revealed: Vec<String>,
}

/// What a call of `finalize` reports.
#[derive(Debug, PartialEq, Eq)]
pub struct FinalizeAnswer {
    pub finalized: bool,
    pub valid: Option<bool>,
    pub choices: Option<Vec<String>>,
    pub tally: Option<Vec<u128>>,
}

/// A poll's whole state.
#[derive(Debug, PartialEq, Eq)]
pub struct Poll {
    /// The factory that created the poll.
    pub owner: String,
    pub staking_pool: SecretContract,
    pub metadata: PollMetadata,
    pub config: StoredPollConfig,
    /// One slot of summed voting power per choice.
    pub tally: Vec<u128>,
    /// The voters, in the order of their first vote, beside their votes.
    pub voters: Vec<String>,
    pub votes: Vec<Vote>,
    pub num_voters: u64,
    pub reveal: StoredRevealConfig,
}

/// Some name in `s` is `name`.
pub open spec fn names_contain(s: Seq<String>, name: Seq<char>) -> bool {
    exists|i: int| 0 <= i < s.len() && s[i]@ == name
}

/// The bytes folded into the rolling hash for one vote.
pub open spec fn roll_input(prev: Seq<u8>, voter: Seq<char>, vote: Vote, salt: Seq<char>) -> Seq<u8> {
    prev + encode_utf8(voter) + seq![vote.choice] + le_bytes_low64(vote.voting_power)
        + encode_utf8(salt)
}

/// Participation as an integer percentage of the total locked amount.
pub open spec fn participation(total_votes: int, total_locked: int) -> int {
    (100 * total_votes) / total_locked
}

/// A finished tally is valid when participation exceeds the quorum and the
/// winning slot exceeds the minimum threshold.
pub open spec fn outcome_valid(tally: Seq<u128>, total_locked: u128, quorum: u8, min_threshold: u8) -> bool {
    participation(seq_sum(tally), total_locked as int) > quorum as int && seq_max(tally)
        > min_threshold as int
}

/// Why `init` refuses a message, if it does.
pub open spec fn init_error(now: u64, msg: &PollInitMsg) -> Option<ContractError> {
    if msg.choices@.len() < MIN_CHOICES {
        Some(ContractError::TooFewChoices)
    } else if msg.metadata.title@.len() < MIN_TITLE_LEN {
        Some(ContractError::TitleTooShort)
    } else if msg.metadata.description@.len() < MIN_DESCRIPTION_LEN {
        Some(ContractError::DescriptionTooShort)
    } else if msg.metadata.author_alias@.len() < MIN_ALIAS_LEN {
        Some(ContractError::AliasTooShort)
    } else if now as int + msg.config.duration as int > u64::MAX {
        Some(ContractError::Overflow)
    } else {
        None
    }
}

/// Whether `s` holds at least `k` characters.
fn has_at_least_chars(s: &str, k: usize) -> (r: bool)
    ensures
        r == (s@.len() >= k),
{
    let mut it = s.chars();
    let mut n: usize = 0;
    while n < k
        invariant
            n <= k,
            n + it.remaining().len() == s@.len(),
            it.obeys_prophetic_iter_laws(),
        decreases k - n,
    {
        match it.next() {
            Some(_) => {
                n = n + 1;
            },
            None => {
                return false;
            },
        }
    }
    true
}

/// The index of `name` in `names`, if it is there.
fn position(names: &Vec<String>, name: &String) -> (r: Option<usize>)
    ensures
        match r {
            Some(i) => i < names@.len() && names@[i as int]@ == name@,
            None => forall|i: int| 0 <= i < names@.len() ==> (#[trigger] names@[i])@ != name@,
        },
{
    let mut i: usize = 0;
    while i < names.len()
        invariant
            0 <= i <= names@.len(),
            forall|j: int| 0 <= j < i ==> (#[trigger] names@[j])@ != name@,
        decreases names@.len() - i,
    {
        if names[i] == *name {
            return Some(i);
        }
        i = i + 1;
    }
    None
}

/// The sum of the slots, or `None` when it does not fit in a `u128`.
fn sum_tally(t: &Vec<u128>) -> (r: Option<u128>)
    ensures
        match r {
            Some(s) => s as int == seq_sum(t@),
            None => seq_sum(t@) > u128::MAX,
        },
{
    let mut acc: u128 = 0;
    let mut i: usize = 0;
    while i < t.len()
        invariant
            0 <= i <= t@.len(),
            acc as int == seq_sum(t@.subrange(0, i as int)),
        decreases t@.len() - i,
    {
        assert(t@.subrange(0, i + 1).drop_last() =~= t@.subrange(0, i as int));
        match acc.checked_add(t[i]) {
            Some(s) => {
                acc = s;
            },
            None => {
                proof {
                    lemma_seq_sum_prefix(t@, i + 1);
                }
                return None;
            },
        }
        i = i + 1;
    }
    assert(t@.subrange(0, i as int) =~= t@);
    Some(acc)
}

/// The largest slot (zero for an empty tally).
fn max_tally(t: &Vec<u128>) -> (r: u128)
    ensures
        r as int == seq_max(t@),
{
    let mut m: u128 = 0;
    let mut i: usize = 0;
    while i < t.len()
        invariant
            0 <= i <= t@.len(),
            m as int == seq_max(t@.subrange(0, i as int)),
        decreases t@.len() - i,
    {
        assert(t@.subrange(0, i + 1).drop_last() =~= t@.subrange(0, i as int));
        if t[i] > m {
            m = t[i];
        }
        i = i + 1;
    }
    assert(t@.subrange(0, i as int) =~= t@);
    m
}

/// The rolling hash after one more vote:
/// `sha256(prev || voter || choice || power, low eight bytes little-endian || salt)`.
fn roll_hash(hash: [u8; 32], voter: &str, vote: Vote, salt: &str) -> (r: [u8; 32])
    ensures
        r@ == sha256_of(roll_input(hash@, voter@, vote, salt@)),
{
    let mut extended: Vec<u8> = Vec::new();
    push_bytes(&mut extended, hash.as_slice());
    push_bytes(&mut extended, voter.as_bytes());
    extended.push(vote.choice);
    push_le_low64(&mut extended, vote.voting_power);
    push_bytes(&mut extended, salt.as_bytes());
    assert(extended@ =~= roll_input(hash@, voter@, vote, salt@));
    sha_256(extended.as_slice())
}

impl Poll {
    /// The recorded votes, keyed by voter.
    pub open spec fn vote_map(&self) -> Map<Seq<char>, Vote> {
        votes_map(self.voters@, self.votes@)
    }

    /// The recorded vote of `voter`, if any.
    pub open spec fn vote_of(&self, voter: Seq<char>) -> Option<Vote> {
        if self.vote_map().contains_key(voter) {
            Some(self.vote_map()[voter])
        } else {
            None
        }
    }

    /// The poll's invariant: the tally holds, slot by slot, the power of the
    /// recorded votes; each voter has at most one vote; the reveal record
    /// lists distinct committee members; and the outcome flags follow the
    /// reveal count.
    pub open spec fn wf(&self) -> bool {
        &&& self.config.choices@.len() >= MIN_CHOICES
        &&& self.tally@.len() == self.config.choices@.len()
        &&& self.voters@.len() == self.votes@.len()
        &&& distinct_names(self.voters@)
        &&& forall|i: int|
            0 <= i < self.votes@.len() ==> (#[trigger] self.votes@[i].choice as int)
                < self.tally@.len()
        &&& forall|c: int|
            0 <= c < self.tally@.len() ==> #[trigger] self.tally@[c] as int == slot_power(
                self.votes@,
                c,
            )
        &&& self.num_voters as int == self.votes@.len()
        &&& self.reveal.num_revealed as int == self.reveal.revealed@.len()
        &&& distinct_names(self.reveal.revealed@)
        &&& forall|i: int|
            0 <= i < self.reveal.revealed@.len() ==> names_contain(
                self.reveal.committee.revealers@,
                (#[trigger] self.reveal.revealed@[i])@,
            )
        &&& self.config.finalized == (self.reveal.committee.n >= 1 && self.reveal.num_revealed
            >= self.reveal.committee.n)
        &&& self.config.valid ==> self.config.finalized
    }

    /// Everything but the votes, the tally, the voter count and the rolling
    /// hash is as in `other`.
    pub open spec fn same_setup(&self, other: &Poll) -> bool {
        &&& self.owner == other.owner
        &&& self.staking_pool == other.staking_pool
        &&& self.metadata == other.metadata
        &&& self.config.end_timestamp == other.config.end_timestamp
        &&& self.config.quorum == other.config.quorum
        &&& self.config.min_threshold == other.config.min_threshold
        &&& self.config.choices@ == other.config.choices@
        &&& self.config.finalized == other.config.finalized
        &&& self.config.valid == other.config.valid
        &&& self.reveal.committee.same_as(&other.reveal.committee)
        &&& self.reveal.num_revealed == other.reveal.num_revealed
        &&& self.reveal.revealed@ == other.reveal.revealed@
    }

    /// Why recording `v` for `voter` fails, if it does.
    pub open spec fn recast_error(&self, voter: Seq<char>, v: Vote) -> Option<ContractError> {
        if v.choice as int >= self.tally@.len() {
            Some(ContractError::UnknownChoice)
        } else if retract(self.tally@, self.vote_of(voter))[v.choice as int] + v.voting_power
            > u128::MAX {
            Some(ContractError::Overflow)
        } else if self.vote_of(voter) is None && self.num_voters == u64::MAX {
            Some(ContractError::Overflow)
        } else {
            None
        }
    }

    /// Why `vote` fails, if it does.
    pub open spec fn vote_error(&self, now: u64, voter: Seq<char>, v: Vote) -> Option<ContractError> {
        if self.config.end_timestamp < now {
            Some(ContractError::VoteClosed)
        } else {
            self.recast_error(voter, v)
        }
    }

    /// Why `update_voting_power` fails, if it does.
    pub open spec fn power_update_error(
        &self,
        sender: Seq<char>,
        now: u64,
        voter: Seq<char>,
        new_power: u128,
    ) -> Option<ContractError> {
        if sender != self.owner@ {
            Some(ContractError::Unauthorized)
        } else if self.config.end_timestamp < now {
            Some(ContractError::VoteClosed)
        } else {
            match self.vote_of(voter) {
                Some(p) => self.recast_error(voter, Vote { choice: p.choice, voting_power: new_power }),
                None => None,
            }
        }
    }

    /// Why `finalize` fails, if it does.
    pub open spec fn finalize_error(
        &self,
        sender: Seq<char>,
        now: u64,
        claimed: Seq<char>,
        total_locked: u128,
    ) -> Option<ContractError> {
        let reaches = self.reveal.num_revealed as int + 1 == self.reveal.committee.n as int;
        if now < self.config.end_timestamp {
            Some(ContractError::VoteStillOpen)
        } else if hex_of(self.config.rolling_hash@) != claimed {
            Some(ContractError::HashMismatch)
        } else if !names_contain(self.reveal.committee.revealers@, sender) {
            Some(ContractError::Unauthorized)
        } else if names_contain(self.reveal.revealed@, sender) {
            Some(ContractError::AlreadyRevealed)
        } else if self.reveal.num_revealed == u64::MAX {
            Some(ContractError::Overflow)
        } else if reaches && 100 * seq_sum(self.tally@) > u128::MAX {
            Some(ContractError::Overflow)
        } else if reaches && total_locked == 0 {
            Some(ContractError::NothingLocked)
        } else {
            None
        }
    }
}



impl Poll {
    /// Records `new_vote` for `voter`, found at `idx` among the voters or
    /// absent, and moves the tally with it.
    fn update_vote(&mut self, idx: Option<usize>, voter: &String, new_vote: Vote) -> (r: Result<
        (),
        ContractError,
    >)
        requires
            old(self).wf(),
            match idx {
                Some(i) => i < old(self).voters@.len() && old(self).voters@[i as int]@ == voter@,
                None => forall|i: int|
                    0 <= i < old(self).voters@.len() ==> (#[trigger] old(self).voters@[i])@
                        != voter@,
            },
        ensures
            final(self).wf(),
            match r {
                Ok(_) => {
                    &&& old(self).recast_error(voter@, new_vote) is None
                    &&& final(self).tally@ == apply(
                        retract(old(self).tally@, old(self).vote_of(voter@)),
                        new_vote,
                    )
                    &&& final(self).vote_map() == old(self).vote_map().insert(voter@, new_vote)
                    &&& final(self).num_voters == old(self).num_voters + if old(self).vote_of(
                        voter@,
                    ) is None {
                        1int
                    } else {
                        0int
                    }
                    &&& final(self).same_setup(old(self))
                    &&& final(self).config.rolling_hash == old(self).config.rolling_hash
                },
                Err(e) => old(self).recast_error(voter@, new_vote) == Some(e) && *final(self)
                    == *old(self),
            },
    {
        proof {
            match idx {
                Some(i) => lemma_votes_map_lookup(self.voters@, self.votes@, i as int),
                None => lemma_votes_map_absent(self.voters@, self.votes@, voter@),
            }
        }
        let len = self.tally.len();
        if new_vote.choice as usize >= len {
            return Err(ContractError::UnknownChoice);
        }
        let c = new_vote.choice as usize;
        let base: u128 = match idx {
            Some(i) => {
                let p = self.votes[i];
                if p.choice == new_vote.choice {
                    proof {
                        lemma_slot_power_covers(self.votes@, i as int);
                    }
                    self.tally[c] - p.voting_power
                } else {
                    self.tally[c]
                }
            },
            None => self.tally[c],
        };
        let new_slot = match base.checked_add(new_vote.voting_power) {
            Some(x) => x,
            None => {
                return Err(ContractError::Overflow);
            },
        };
        if idx.is_none() && self.num_voters == u64::MAX {
            return Err(ContractError::Overflow);
        }
        let ghost old_votes = self.votes@;
        let ghost old_voters = self.voters@;
        let ghost old_tally = self.tally@;
        match idx {
            Some(i) => {
                let p = self.votes[i];
                let pc = p.choice as usize;
                proof {
                    lemma_slot_power_covers(old_votes, i as int);
                }
                let lowered = self.tally[pc] - p.voting_power;
                self.tally.set(pc, lowered);
                self.tally.set(c, new_slot);
                self.votes.set(i, new_vote);
                proof {
                    assert forall|c2: int| 0 <= c2 < self.tally@.len() implies #[trigger] self.tally@[c2]
                        as int == slot_power(self.votes@, c2) by {
                        lemma_slot_power_update(old_votes, i as int, new_vote, c2);
                    }
                    assert forall|j: int| 0 <= j < self.votes@.len() implies (
                    #[trigger] self.votes@[j].choice as int) < self.tally@.len() by {
                        if j != i {
                            assert(self.votes@[j] == old_votes[j]);
                        }
                    }
                    lemma_votes_map_update(old_voters, old_votes, i as int, new_vote);
                    assert(self.votes@ == old_votes.update(i as int, new_vote));
                    assert(self.tally@ =~= apply(retract(old_tally, Some(p)), new_vote));
                }
            },
            None => {
                self.tally.set(c, new_slot);
                self.voters.push(voter.clone());
                self.votes.push(new_vote);
                self.num_voters = self.num_voters + 1;
                proof {
                    assert forall|c2: int| 0 <= c2 < self.tally@.len() implies #[trigger] self.tally@[c2]
                        as int == slot_power(self.votes@, c2) by {
                        lemma_slot_power_push(old_votes, new_vote, c2);
                    }
                    assert forall|j: int| 0 <= j < self.votes@.len() implies (
                    #[trigger] self.votes@[j].choice as int) < self.tally@.len() by {
                        if j < old_votes.len() {
                            assert(self.votes@[j] == old_votes[j]);
                        }
                    }
                    assert forall|a: int, b: int|
                        0 <= a < b < self.voters@.len() implies self.voters@[a]@
                        != self.voters@[b]@ by {
                        if b == old_voters.len() {
                            assert(self.voters@[a] == old_voters[a]);
                        } else {
                            assert(self.voters@[a] == old_voters[a]);
                            assert(self.voters@[b] == old_voters[b]);
                        }
                    }
                    lemma_votes_map_push(old_voters, old_votes, *voter, new_vote);
                    assert(self.tally@ =~= apply(old_tally, new_vote));
                }
            },
        }
        Ok(())
    }

    /// Fails with `VoteClosed` once `now` is past the end of the poll.
    pub fn require_vote_ongoing(&self, now: u64) -> (r: Result<(), ContractError>)
        ensures
            r is Err <==> self.config.end_timestamp < now,
            r is Err ==> r == Err::<(), ContractError>(ContractError::VoteClosed),
    {
        if self.config.end_timestamp < now {
            return Err(ContractError::VoteClosed);
        }
        Ok(())
    }

    /// Casts or changes `voter`'s vote with the power the staking pool reports
    /// for it, and folds the vote and `salt` into the rolling hash.
    pub fn vote(&mut self, voter: &String, now: u64, choice: u8, voting_power: u128, salt: &String) -> (r:
        Result<ResponseStatus, ContractError>)
        requires
            old(self).wf(),
        ensures
            final(self).wf(),
            match r {
                Ok(s) => {
                    let v = Vote { choice, voting_power };
                    &&& s == ResponseStatus::Success
                    &&& old(self).vote_error(now, voter@, v) is None
                    &&& final(self).tally@ == apply(retract(old(self).tally@, old(self).vote_of(voter@)), v)
                    &&& final(self).vote_map() == old(self).vote_map().insert(voter@, v)
                    &&& final(self).num_voters == old(self).num_voters + if old(self).vote_of(voter@) is None {
                        1int
                    } else {
                        0int
                    }
                    &&& final(self).config.rolling_hash@ == sha256_of(
                        roll_input(old(self).config.rolling_hash@, voter@, v, salt@),
                    )
                    &&& final(self).same_setup(old(self))
                },
                Err(e) => old(self).vote_error(now, voter@, Vote { choice, voting_power }) == Some(e)
                    && *final(self) == *old(self),
            },
    {
        match self.require_vote_ongoing(now) {
            Err(e) => {
                return Err(e);
            },
            Ok(()) => {},
        }
        let idx = position(&self.voters, voter);
        let new_vote = Vote { choice, voting_power };
        match self.update_vote(idx, voter, new_vote) {
            Err(e) => {
                return Err(e);
            },
            Ok(()) => {},
        }
        self.config.rolling_hash = roll_hash(self.config.rolling_hash, voter.as_str(), new_vote, salt.as_str());
        Ok(ResponseStatus::Success)
    }

    /// Adjusts the power of `voter`'s recorded vote, keeping its choice; a
    /// voter without a vote is left alone. Only the factory may call this.
    pub fn update_voting_power(&mut self, sender: &String, now: u64, voter: &String, new_power: u128) -> (r:
        Result<ResponseStatus, ContractError>)
        requires
            old(self).wf(),
        ensures
            final(self).wf(),
            match r {
                Ok(s) => {
                    &&& s == ResponseStatus::Success
                    &&& old(self).power_update_error(sender@, now, voter@, new_power) is None
                    &&& match old(self).vote_of(voter@) {
                        Some(p) => {
                            let v = Vote { choice: p.choice, voting_power: new_power };
                            &&& final(self).tally@ == apply(retract(old(self).tally@, Some(p)), v)
                            &&& final(self).vote_map() == old(self).vote_map().insert(voter@, v)
                            &&& final(self).num_voters == old(self).num_voters
                            &&& final(self).config.rolling_hash == old(self).config.rolling_hash
                            &&& final(self).same_setup(old(self))
                        },
                        None => *final(self) == *old(self),
                    }
                },
                Err(e) => old(self).power_update_error(sender@, now, voter@, new_power) == Some(e)
                    && *final(self) == *old(self),
            },
    {
        if !(*sender == self.owner) {
            return Err(ContractError::Unauthorized);
        }
        match self.require_vote_ongoing(now) {
            Err(e) => {
                return Err(e);
            },
            Ok(()) => {},
        }
        match position(&self.voters, voter) {
            Some(i) => {
                proof {
                    lemma_votes_map_lookup(self.voters@, self.votes@, i as int);
                }
                let prev = self.votes[i];
                match self.update_vote(Some(i), voter, Vote { choice: prev.choice, voting_power: new_power }) {
                    Err(e) => {
                        return Err(e);
                    },
                    Ok(()) => {},
                }
            },
            None => {
                proof {
                    lemma_votes_map_absent(self.voters@, self.votes@, voter@);
                }
            },
        }
        Ok(ResponseStatus::Success)
    }
}



impl Poll {
    /// A committee member attests the rolling hash after the poll has ended.
    /// The member who brings the reveal count to `n` finalizes the poll and
    /// decides its validity from `total_locked`, the staking pool's total.
    pub fn finalize(&mut self, sender: &String, now: u64, rolling_hash: &String, total_locked: u128) -> (r:
        Result<FinalizeAnswer, ContractError>)
        requires
            old(self).wf(),
        ensures
            final(self).wf(),
            now < old(self).config.end_timestamp ==> r == Err::<FinalizeAnswer, ContractError>(
                ContractError::VoteStillOpen,
            ),
            now >= old(self).config.end_timestamp && hex_of(old(self).config.rolling_hash@)
                != rolling_hash@ ==> r == Err::<FinalizeAnswer, ContractError>(
                ContractError::HashMismatch,
            ),
            match r {
                Ok(a) => {
                    let k = old(self).reveal.num_revealed as int + 1;
                    let n = old(self).reveal.committee.n as int;
                    &&& old(self).finalize_error(sender@, now, rolling_hash@, total_locked) is None
                    &&& final(self).reveal.revealed@ == old(self).reveal.revealed@.push(*sender)
                    &&& final(self).reveal.num_revealed == k
                    &&& final(self).reveal.committee.same_as(&old(self).reveal.committee)
                    &&& final(self).owner == old(self).owner
                    &&& final(self).staking_pool == old(self).staking_pool
                    &&& final(self).metadata == old(self).metadata
                    &&& final(self).tally@ == old(self).tally@
                    &&& final(self).voters@ == old(self).voters@
                    &&& final(self).votes@ == old(self).votes@
                    &&& final(self).num_voters == old(self).num_voters
                    &&& final(self).config.end_timestamp == old(self).config.end_timestamp
                    &&& final(self).config.quorum == old(self).config.quorum
                    &&& final(self).config.min_threshold == old(self).config.min_threshold
                    &&& final(self).config.choices@ == old(self).config.choices@
                    &&& final(self).config.rolling_hash == old(self).config.rolling_hash
                    &&& if k > n {
                        &&& final(self).config.finalized == old(self).config.finalized
                        &&& final(self).config.valid == old(self).config.valid
                        &&& a.finalized == old(self).config.finalized
                        &&& a.valid == Some(old(self).config.valid)
                        &&& a.choices is Some && a.choices.unwrap()@ == old(self).config.choices@
                        &&& a.tally is Some && a.tally.unwrap()@ == old(self).tally@
                    } else if k < n {
                        &&& final(self).config.finalized == old(self).config.finalized
                        &&& final(self).config.valid == old(self).config.valid
                        &&& !a.finalized
                        &&& a.valid is None && a.choices is None && a.tally is None
                    } else {
                        &&& final(self).config.finalized
                        &&& final(self).config.valid == outcome_valid(
                            old(self).tally@,
                            total_locked,
                            old(self).config.quorum,
                            old(self).config.min_threshold,
                        )
                        &&& a.finalized
                        &&& a.valid == Some(final(self).config.valid)
                        &&& a.choices is Some && a.choices.unwrap()@ == old(self).config.choices@
                        &&& a.tally is Some && a.tally.unwrap()@ == old(self).tally@
                    }
                },
                Err(e) => old(self).finalize_error(sender@, now, rolling_hash@, total_locked) == Some(e)
                    && *final(self) == *old(self),
            },
    {
        if now < self.config.end_timestamp {
            return Err(ContractError::VoteStillOpen);
        }
        let hex = hex_encode(self.config.rolling_hash.as_slice());
        if !(hex == *rolling_hash) {
            return Err(ContractError::HashMismatch);
        }
        match position(&self.reveal.committee.revealers, sender) {
            Some(_) => {},
            None => {
                return Err(ContractError::Unauthorized);
            },
        }
        match position(&self.reveal.revealed, sender) {
            Some(_) => {
                return Err(ContractError::AlreadyRevealed);
            },
            None => {},
        }
        if self.reveal.num_revealed == u64::MAX {
            return Err(ContractError::Overflow);
        }
        let k = self.reveal.num_revealed + 1;
        let n = self.reveal.committee.n;
        let mut valid = self.config.valid;
        if k == n {
            let total = match sum_tally(&self.tally) {
                Some(t) => t,
                None => {
                    return Err(ContractError::Overflow);
                },
            };
            let scaled = match total.checked_mul(100) {
                Some(s) => s,
                None => {
                    return Err(ContractError::Overflow);
                },
            };
            if total_locked == 0 {
                return Err(ContractError::NothingLocked);
            }
            let participation = scaled / total_locked;
            let winning = max_tally(&self.tally);
            valid = participation > self.config.quorum as u128 && winning > self.config.min_threshold as u128;
        }
        let ghost old_revealed = self.reveal.revealed@;
        self.reveal.revealed.push(sender.clone());
        self.reveal.num_revealed = k;
        proof {
            assert forall|a: int, b: int|
                0 <= a < b < self.reveal.revealed@.len() implies self.reveal.revealed@[a]@
                != self.reveal.revealed@[b]@ by {
                assert(self.reveal.revealed@[a] == old_revealed[a]);
                if b < old_revealed.len() {
                    assert(self.reveal.revealed@[b] == old_revealed[b]);
                }
            }
            assert forall|i: int| 0 <= i < self.reveal.revealed@.len() implies names_contain(
                self.reveal.committee.revealers@,
                (#[trigger] self.reveal.revealed@[i])@,
            ) by {
                if i < old_revealed.len() {
                    assert(self.reveal.revealed@[i] == old_revealed[i]);
                }
            }
        }
        if k > n {
            Ok(FinalizeAnswer {
                finalized: self.config.finalized,
                valid: Some(self.config.valid),
                choices: Some(clone_strings(&self.config.choices)),
                tally: Some(clone_tally(&self.tally)),
            })
        } else if k < n {
            Ok(FinalizeAnswer { finalized: false, valid: None, choices: None, tally: None })
        } else {
            self.config.finalized = true;
            self.config.valid = valid;
            Ok(FinalizeAnswer {
                finalized: true,
                valid: Some(valid),
                choices: Some(clone_strings(&self.config.choices)),
                tally: Some(clone_tally(&self.tally)),
            })
        }
    }
}

/// Copies a tally.
fn clone_tally(t: &Vec<u128>) -> (r: Vec<u128>)
    ensures
        r@ == t@,
{
    let r = t.clone();
    assert(r@ =~= t@);
    r
}



impl Poll {
    /// Opens a poll created by `sender` (its factory) at time `now`, and hands
    /// back the callback message to send, if the creator asked for one.
    pub fn init(sender: &String, now: u64, msg: PollInitMsg) -> (r: Result<(Poll, Option<InitHook>), ContractError>)
        ensures
            match r {
                Ok((p, hook)) => {
                    &&& init_error(now, &msg) is None
                    &&& p.wf()
                    &&& p.owner == *sender
                    &&& p.staking_pool == msg.staking_pool
                    &&& p.metadata == msg.metadata
                    &&& p.config.end_timestamp == now + msg.config.duration
                    &&& p.config.quorum == msg.config.quorum
                    &&& p.config.min_threshold == msg.config.min_threshold
                    &&& p.config.choices@ == msg.choices@
                    &&& !p.config.finalized
                    &&& !p.config.valid
                    &&& p.config.rolling_hash@ == Seq::new(32, |i: int| 0u8)
                    &&& p.tally@ == Seq::new(msg.choices@.len(), |i: int| 0u128)
                    &&& p.vote_map() == Map::<Seq<char>, Vote>::empty()
                    &&& p.num_voters == 0
                    &&& p.reveal.committee == msg.reveal_com
                    &&& p.reveal.num_revealed == 0
                    &&& p.reveal.revealed@.len() == 0
                    &&& hook == msg.init_hook
                },
                Err(e) => init_error(now, &msg) == Some(e),
            },
    {
        if msg.choices.len() < MIN_CHOICES {
            return Err(ContractError::TooFewChoices);
        }
        if !has_at_least_chars(msg.metadata.title.as_str(), MIN_TITLE_LEN) {
            return Err(ContractError::TitleTooShort);
        }
        if !has_at_least_chars(msg.metadata.description.as_str(), MIN_DESCRIPTION_LEN) {
            return Err(ContractError::DescriptionTooShort);
        }
        if !has_at_least_chars(msg.metadata.author_alias.as_str(), MIN_ALIAS_LEN) {
            return Err(ContractError::AliasTooShort);
        }
        let ending = match now.checked_add(msg.config.duration) {
            Some(e) => e,
            None => {
                return Err(ContractError::Overflow);
            },
        };
        let n = msg.choices.len();
        let tally: Vec<u128> = vec![0; n];
        let config = StoredPollConfig {
            end_timestamp: ending,
            quorum: msg.config.quorum,
            min_threshold: msg.config.min_threshold,
            choices: msg.choices,
            finalized: false,
            valid: false,
            rolling_hash: [0u8; 32],
        };
        let poll = Poll {
            owner: sender.clone(),
            staking_pool: msg.staking_pool,
            metadata: msg.metadata,
            config,
            tally,
            voters: Vec::new(),
            votes: Vec::new(),
            num_voters: 0,
            reveal: StoredRevealConfig { committee: msg.reveal_com, num_revealed: 0, revealed: Vec::new() },
        };
        proof {
            assert(poll.config.rolling_hash@ =~= Seq::new(32, |i: int| 0u8));
            assert(poll.tally@ =~= Seq::new(n as nat, |i: int| 0u128));
            assert(poll.vote_map() =~= Map::<Seq<char>, Vote>::empty());
        }
        Ok((poll, msg.init_hook))
    }
}



/// The questions a poll answers.
#[derive(Debug, PartialEq, Eq)]
pub enum QueryMsg {
    Choices,
    VoteInfo,
    HasVoted { voter: String },
    Tally,
    NumberOfVoters,
    RevealCommittee,
    Revealed,
    RollingHash,
    /// Answered only after the caller has proved, with the staking pool's
    /// viewing key, that it speaks for `voter`.
    Vote { voter: String, key: String },
}

/// A poll's answers.
#[derive(Debug, PartialEq, Eq)]
pub enum QueryAnswer {
    Choices { choices: Vec<String> },
    VoteInfo { metadata: PollMetadata, config: StoredPollConfig, reveal_com: RevealCommittee },
    HasVoted { has_voted: bool },
    Tally { choices: Vec<String>, tally: Vec<u128> },
    Vote { choice: u8, voting_power: u128 },
    NumberOfVoters { count: u64 },
    RevealCommittee { committee: RevealCommittee },
    Revealed { required: u64, num_revealed: u64, revealed: Vec<String> },
    RollingHash { hash: String },
}

impl Poll {
    /// The recorded vote of `voter`, if any.
    pub fn read_vote(&self, voter: &String) -> (r: Option<Vote>)
        requires
            self.wf(),
        ensures
            r == self.vote_of(voter@),
    {
        match position(&self.voters, voter) {
            Some(i) => {
                proof {
                    lemma_votes_map_lookup(self.voters@, self.votes@, i as int);
                }
                Some(self.votes[i])
            },
            None => {
                proof {
                    lemma_votes_map_absent(self.voters@, self.votes@, voter@);
                }
                None
            },
        }
    }

    /// The choice labels, in order.
    pub fn query_choices(&self) -> (r: Vec<String>)
        ensures
            r@ == self.config.choices@,
    {
        clone_strings(&self.config.choices)
    }

    /// The metadata, the settings and the committee.
    pub fn query_vote_info(&self) -> (r: (PollMetadata, StoredPollConfig, RevealCommittee))
        ensures
            r.0 == self.metadata,
            r.1.same_as(&self.config),
            r.2.same_as(&self.reveal.committee),
    {
        (self.metadata.clone(), self.config.clone(), self.reveal.committee.clone())
    }

    /// Whether `voter` has a recorded vote.
    pub fn query_has_voted(&self, voter: &String) -> (r: bool)
        requires
            self.wf(),
        ensures
            r == self.vote_map().contains_key(voter@),
    {
        self.read_vote(voter).is_some()
    }

    /// Fails unless the poll is finalized and valid.
    pub fn require_vote_finalized_and_valid(&self) -> (r: Result<(), ContractError>)
        ensures
            !self.config.finalized ==> r == Err::<(), ContractError>(ContractError::NotFinalized),
            self.config.finalized && !self.config.valid ==> r == Err::<(), ContractError>(
                ContractError::NotValid,
            ),
            self.config.finalized && self.config.valid ==> r is Ok,
    {
        if !self.config.finalized {
            return Err(ContractError::NotFinalized);
        } else if !self.config.valid {
            return Err(ContractError::NotValid);
        }
        Ok(())
    }

    /// The choices and their tally, once the poll is finalized and valid.
    pub fn query_tally(&self) -> (r: Result<(Vec<String>, Vec<u128>), ContractError>)
        ensures
            !self.config.finalized ==> r == Err::<(Vec<String>, Vec<u128>), ContractError>(
                ContractError::NotFinalized,
            ),
            self.config.finalized && !self.config.valid ==> r == Err::<
                (Vec<String>, Vec<u128>),
                ContractError,
            >(ContractError::NotValid),
            self.config.finalized && self.config.valid ==> r is Ok,
            r is Ok ==> r.unwrap().0@ == self.config.choices@ && r.unwrap().1@ == self.tally@,
    {
        match self.require_vote_finalized_and_valid() {
            Err(e) => {
                return Err(e);
            },
            Ok(()) => {},
        }
        Ok((clone_strings(&self.config.choices), clone_tally(&self.tally)))
    }

    /// `voter`'s own vote. The caller authenticates `voter` first.
    pub fn query_vote(&self, voter: &String) -> (r: Result<Vote, ContractError>)
        requires
            self.wf(),
        ensures
            match self.vote_of(voter@) {
                Some(v) => r == Ok::<Vote, ContractError>(v),
                None => r == Err::<Vote, ContractError>(ContractError::VoteNotFound),
            },
    {
        match self.read_vote(voter) {
            Some(v) => Ok(v),
            None => Err(ContractError::VoteNotFound),
        }
    }

    /// How many addresses have voted.
    pub fn query_num_of_voters(&self) -> (r: u64)
        ensures
            r == self.num_voters,
    {
        self.num_voters
    }

    /// The reveal committee.
    pub fn query_reveal_com(&self) -> (r: RevealCommittee)
        ensures
            r.same_as(&self.reveal.committee),
    {
        self.reveal.committee.clone()
    }

    /// The required reveal count, the count so far and who has revealed.
    pub fn query_revealed(&self) -> (r: (u64, u64, Vec<String>))
        ensures
            r.0 == self.reveal.committee.n,
            r.1 == self.reveal.num_revealed,
            r.2@ == self.reveal.revealed@,
    {
        (self.reveal.committee.n, self.reveal.num_revealed, clone_strings(&self.reveal.revealed))
    }

    /// The rolling hash, in lowercase hex.
    pub fn query_rolling_hash(&self) -> (r: String)
        ensures
            r@ == hex_of(self.config.rolling_hash@),
    {
        hex_encode(self.config.rolling_hash.as_slice())
    }

    /// Answers `msg`.
    pub fn query(&self, msg: &QueryMsg) -> (r: Result<QueryAnswer, ContractError>)
        requires
            self.wf(),
        ensures
            match msg {
                QueryMsg::Choices => r matches Ok(QueryAnswer::Choices { choices }) && choices@
                    == self.config.choices@,
                QueryMsg::VoteInfo => r matches Ok(
                    QueryAnswer::VoteInfo { metadata, config, reveal_com },
                ) && metadata == self.metadata && config.same_as(&self.config)
                    && reveal_com.same_as(&self.reveal.committee),
                QueryMsg::HasVoted { voter } => r matches Ok(QueryAnswer::HasVoted { has_voted })
                    && has_voted == self.vote_map().contains_key(voter@),
                QueryMsg::Tally => match r {
                    Ok(QueryAnswer::Tally { choices, tally }) => self.config.finalized
                        && self.config.valid && choices@ == self.config.choices@ && tally@
                        == self.tally@,
                    Ok(_) => false,
                    Err(e) => (!self.config.finalized && e == ContractError::NotFinalized) || (
                    self.config.finalized && !self.config.valid && e == ContractError::NotValid),
                },
                QueryMsg::NumberOfVoters => r matches Ok(QueryAnswer::NumberOfVoters { count })
                    && count == self.num_voters,
                QueryMsg::RevealCommittee => r matches Ok(
                    QueryAnswer::RevealCommittee { committee },
                ) && committee.same_as(&self.reveal.committee),
                QueryMsg::Revealed => r matches Ok(
                    QueryAnswer::Revealed { required, num_revealed, revealed },
                ) && required == self.reveal.committee.n && num_revealed
                    == self.reveal.num_revealed && revealed@ == self.reveal.revealed@,
                QueryMsg::RollingHash => r matches Ok(QueryAnswer::RollingHash { hash }) && hash@
                    == hex_of(self.config.rolling_hash@),
                QueryMsg::Vote { voter, key } => match self.vote_of(voter@) {
                    Some(v) => r matches Ok(QueryAnswer::Vote { choice, voting_power }) && choice
                        == v.choice && voting_power == v.voting_power,
                    None => r matches Err(e) && e == ContractError::VoteNotFound,
                },
            },
    {
        match msg {
            QueryMsg::Choices => Ok(QueryAnswer::Choices { choices: self.query_choices() }),
            QueryMsg::VoteInfo => {
                let (metadata, config, reveal_com) = self.query_vote_info();
                Ok(QueryAnswer::VoteInfo { metadata, config, reveal_com })
            },
            QueryMsg::HasVoted { voter } => Ok(
                QueryAnswer::HasVoted { has_voted: self.query_has_voted(voter) },
            ),
            QueryMsg::Tally => match self.query_tally() {
                Ok((choices, tally)) => Ok(QueryAnswer::Tally { choices, tally }),
                Err(e) => Err(e),
            },
            QueryMsg::NumberOfVoters => Ok(
                QueryAnswer::NumberOfVoters { count: self.query_num_of_voters() },
            ),
            QueryMsg::RevealCommittee => Ok(
                QueryAnswer::RevealCommittee { committee: self.query_reveal_com() },
            ),
            QueryMsg::Revealed => {
                let (required, num_revealed, revealed) = self.query_revealed();
                Ok(QueryAnswer::Revealed { required, num_revealed, revealed })
            },
            QueryMsg::RollingHash => Ok(QueryAnswer::RollingHash { hash: self.query_rolling_hash() }),
            QueryMsg::Vote { voter, key: _ } => match self.query_vote(voter) {
                Ok(v) => Ok(QueryAnswer::Vote { choice: v.choice, voting_power: v.voting_power }),
                Err(e) => Err(e),
            },
        }
    }
}

/// The tally always holds the voting power of the current votes: for a
/// well-formed poll, the sum of the tally's slots equals the sum of the power
/// of every recorded vote. `vote`, `update_voting_power` and `finalize` keep a
/// poll well formed, so this holds after every sequence of operations.
pub proof fn lemma_tally_matches_votes(p: &Poll)
    requires
        p.wf(),
    ensures
        seq_sum(p.tally@) == total_power(p.votes@),
{
    lemma_tally_sum(p.tally@, p.votes@, p.tally@.len() as int);
    assert(p.tally@.subrange(0, p.tally@.len() as int) =~= p.tally@);
    assert forall|i: int| 0 <= i < p.votes@.len() implies (#[trigger] p.votes@[i].choice as int)
        < p.tally@.len() by {}
    lemma_slots_below_total(p.votes@, p.tally@.len() as int);
}



impl Poll {
    /// Whether the next accepted reveal brings the count to the committee's
    /// threshold, the only case in which `finalize` reads the locked total.
    pub fn reveal_reaches_threshold(&self) -> (r: bool)
        ensures
            r == (self.reveal.num_revealed as int + 1 == self.reveal.committee.n as int),
    {
        self.reveal.num_revealed < u64::MAX && self.reveal.num_revealed + 1 == self.reveal.committee.n
    }
}

/// Changing a vote's choice moves its full power: the recorded power leaves
/// the old choice's slot, the new power joins the new choice's slot, and no
/// other slot changes. (`vote` states that the voter count stays the same in
/// that case, and grows by exactly one for a first vote.)
pub proof fn lemma_changed_vote_moves_power(p: &Poll, voter: Seq<char>, v: Vote)
    requires
        p.wf(),
        p.vote_of(voter) is Some,
        p.vote_of(voter).unwrap().choice != v.choice,
        p.recast_error(voter, v) is None,
    ensures
        ({
            let prev = p.vote_of(voter).unwrap();
            let t = apply(retract(p.tally@, Some(prev)), v);
            &&& t[prev.choice as int] == p.tally@[prev.choice as int] - prev.voting_power
            &&& t[v.choice as int] == p.tally@[v.choice as int] + v.voting_power
            &&& forall|c: int|
                0 <= c < p.tally@.len() && c != prev.choice as int && c != v.choice as int
                    ==> #[trigger] t[c] == p.tally@[c]
        }),
{
    if !(exists|i: int| 0 <= i < p.voters@.len() && (#[trigger] p.voters@[i])@ == voter) {
        lemma_votes_map_absent(p.voters@, p.votes@, voter);
    }
    let i = choose|i: int| 0 <= i < p.voters@.len() && (#[trigger] p.voters@[i])@ == voter;
    lemma_votes_map_lookup(p.voters@, p.votes@, i);
    lemma_slot_power_covers(p.votes@, i);
    assert(p.votes@[i].choice < p.tally@.len());
}



/// Whether no two names in `names` are the same text.
fn names_distinct(names: &Vec<String>) -> (r: bool)
    ensures
        r == distinct_names(names@),
{
    let mut j: usize = 0;
    while j < names.len()
        invariant
            0 <= j <= names@.len(),
            forall|a: int, b: int| 0 <= a < b < j ==> names@[a]@ != names@[b]@,
        decreases names@.len() - j,
    {
        let mut i: usize = 0;
        while i < j
            invariant
                0 <= i <= j < names@.len(),
                forall|a: int, b: int| 0 <= a < b < j ==> names@[a]@ != names@[b]@,
                forall|a: int| 0 <= a < i ==> names@[a]@ != names@[j as int]@,
            decreases j - i,
        {
            if names[i] == names[j] {
                return false;
            }
            i = i + 1;
        }
        j = j + 1;
    }
    true
}

/// The slot powers of `votes` for `n` slots, or `None` when a vote names no
/// slot or a slot does not fit in a `u128`.
fn slot_sums(votes: &Vec<Vote>, n: usize) -> (r: Option<Vec<u128>>)
    ensures
        match r {
            Some(s) => s@.len() == n && (forall|i: int|
                0 <= i < votes@.len() ==> (#[trigger] votes@[i].choice as int) < n) && (forall|
                c: int,
            | 0 <= c < n ==> #[trigger] s@[c] as int == slot_power(votes@, c)),
            None => !(forall|i: int| 0 <= i < votes@.len() ==> (#[trigger] votes@[i].choice as int) < n)
                || exists|c: int| 0 <= c < n && slot_power(votes@, c) > u128::MAX,
        },
{
    let mut sums: Vec<u128> = vec![0; n];
    let mut j: usize = 0;
    while j < votes.len()
        invariant
            0 <= j <= votes@.len(),
            sums@.len() == n,
            forall|i: int| 0 <= i < j ==> (#[trigger] votes@[i].choice as int) < n,
            forall|c: int|
                0 <= c < n ==> #[trigger] sums@[c] as int == slot_power(votes@.subrange(0, j as int), c),
        decreases votes@.len() - j,
    {
        let ghost before = votes@.subrange(0, j as int);
        let v = votes[j];
        assert(votes@.subrange(0, j + 1) =~= before.push(v));
        if v.choice as usize >= n {
            return None;
        }
        let c = v.choice as usize;
        match sums[c].checked_add(v.voting_power) {
            Some(x) => {
                sums.set(c, x);
            },
            None => {
                proof {
                    lemma_slot_power_push(before, v, c as int);
                    lemma_slot_power_prefix(votes@, j + 1, c as int);
                    assert(votes@.subrange(0, j + 1) == before.push(v));
                }
                return None;
            },
        }
        proof {
            assert forall|c2: int| 0 <= c2 < n implies #[trigger] sums@[c2] as int == slot_power(
                votes@.subrange(0, j + 1),
                c2,
            ) by {
                lemma_slot_power_push(before, v, c2);
            }
        }
        j = j + 1;
    }
    assert(votes@.subrange(0, j as int) =~= votes@);
    Some(sums)
}

/// Slot powers only grow as votes are added.
proof fn lemma_slot_power_prefix(votes: Seq<Vote>, k: int, c: int)
    requires
        0 <= k <= votes.len(),
    ensures
        slot_power(votes.subrange(0, k), c) <= slot_power(votes, c),
    decreases votes.len(),
{
    if k < votes.len() {
        assert(votes.drop_last() =~= votes.subrange(0, votes.len() - 1));
        lemma_slot_power_prefix(votes.drop_last(), k, c);
        assert(votes.drop_last().subrange(0, k) =~= votes.subrange(0, k));
    } else {
        assert(votes.subrange(0, k) =~= votes);
    }
}

impl Poll {
    /// Whether the poll satisfies its invariant; a state read back from
    /// storage is checked with this before it is used.
    pub fn is_well_formed(&self) -> (r: bool)
        ensures
            r == self.wf(),
    {
        if self.config.choices.len() < MIN_CHOICES || self.tally.len() != self.config.choices.len()
            || self.voters.len() != self.votes.len() {
            return false;
        }
        if !names_distinct(&self.voters) {
            return false;
        }
        let sums = match slot_sums(&self.votes, self.tally.len()) {
            Some(s) => s,
            None => {
                proof {
                    if forall|i: int|
                        0 <= i < self.votes@.len() ==> (#[trigger] self.votes@[i].choice as int)
                            < self.tally@.len() {
                        let c = choose|c: int|
                            0 <= c < self.tally@.len() && slot_power(self.votes@, c) > u128::MAX;
                        assert(self.tally@[c] as int != slot_power(self.votes@, c));
                    }
                }
                return false;
            },
        };
        let mut c: usize = 0;
        while c < self.tally.len()
            invariant
                0 <= c <= self.tally@.len(),
                sums@.len() == self.tally@.len(),
                forall|d: int| 0 <= d < sums@.len() ==> #[trigger] sums@[d] as int == slot_power(self.votes@, d),
                forall|d: int| 0 <= d < c ==> #[trigger] self.tally@[d] as int == slot_power(self.votes@, d),
            decreases self.tally@.len() - c,
        {
            if self.tally[c] != sums[c] {
                return false;
            }
            c = c + 1;
        }
        if self.num_voters as u128 != self.votes.len() as u128 {
            return false;
        }
        if self.reveal.num_revealed as u128 != self.reveal.revealed.len() as u128 {
            return false;
        }
        if !names_distinct(&self.reveal.revealed) {
            return false;
        }
        let mut i: usize = 0;
        while i < self.reveal.revealed.len()
            invariant
                0 <= i <= self.reveal.revealed@.len(),
                forall|k: int|
                    0 <= k < i ==> names_contain(
                        self.reveal.committee.revealers@,
                        (#[trigger] self.reveal.revealed@[k])@,
                    ),
            decreases self.reveal.revealed@.len() - i,
        {
            match position(&self.reveal.committee.revealers, &self.reveal.revealed[i]) {
                Some(_) => {},
                None => {
                    return false;
                },
            }
            i = i + 1;
        }
        let n = self.reveal.committee.n;
        if self.config.finalized != (n >= 1 && self.reveal.num_revealed >= n) {
            return false;
        }
        if self.config.valid && !self.config.finalized {
            return false;
        }
        true
    }
}



/// Where a poll stands in its lifecycle.
#[derive(Clone, Copy, Debug, PartialEq, Eq, Structural)]
pub enum Phase {
    /// Votes are taken.
    Open,
    /// The voting window has closed and nobody has revealed yet.
    Closed,
    /// Some committee members have revealed, not yet enough to decide.
    Revealing,
    /// The committee threshold was reached and the outcome decided.
    Finalized { valid: bool },
}

impl Poll {
    pub open spec fn spec_phase(&self, now: u64) -> Phase {
        if self.config.finalized {
            Phase::Finalized { valid: self.config.valid }
        } else if self.reveal.num_revealed > 0 {
            Phase::Revealing
        } else if self.config.end_timestamp < now {
            Phase::Closed
        } else {
            Phase::Open
        }
    }

    /// The lifecycle phase at time `now`.
    pub fn phase(&self, now: u64) -> (r: Phase)
        ensures
            r == self.spec_phase(now),
    {
        if self.config.finalized {
            Phase::Finalized { valid: self.config.valid }
        } else if self.reveal.num_revealed > 0 {
            Phase::Revealing
        } else if self.config.end_timestamp < now {
            Phase::Closed
        } else {
            Phase::Open
        }
    }
}

} // verus!
