//! The records the factory and the polls exchange and keep.

use vstd::prelude::*;

verus! {

/// Where a poll's code lives: its code identifier and code hash.
#[derive(Debug, PartialEq, Eq)]
pub struct PollContract {
    pub code_id: u64,
    pub code_hash: String,
}

impl Clone for PollContract {
    fn clone(&self) -> (r: Self)
        ensures
            r == *self,
    {
        PollContract { code_id: self.code_id, code_hash: self.code_hash.clone() }
    }
}

/// A reference to another contract instance: its address and code hash.
#[derive(Debug, PartialEq, Eq)]
pub struct SecretContract {
    pub address: String,
    pub contract_hash: String,
}

impl Clone for SecretContract {
    fn clone(&self) -> (r: Self)
        ensures
            r == *self,
    {
        SecretContract { address: self.address.clone(), contract_hash: self.contract_hash.clone() }
    }
}

/// The parameters of a poll: how long it runs (seconds), the participation
/// percentage it must exceed, and the support its winning choice must exceed.
#[derive(Clone, Copy, Debug, PartialEq, Eq, Structural)]
pub struct PollConfig {
    pub duration: u64,
    pub quorum: u8,
    pub min_threshold: u8,
}

/// What a poll is about and who proposed it.
#[derive(Debug, PartialEq, Eq)]
pub struct PollMetadata {
    pub title: String,
    pub description: String,
    pub vote_type: String,
    pub author_addr: Option<String>,
    pub author_alias: String,
}

impl Clone for PollMetadata {
    fn clone(&self) -> (r: Self)
        ensures
            r == *self,
    {
        let author_addr = match &self.author_addr {
            Some(a) => Some(a.clone()),
            None => None,
        };
        PollMetadata {
            title: self.title.clone(),
            description: self.description.clone(),
            vote_type: self.vote_type.clone(),
            author_addr,
            author_alias: self.author_alias.clone(),
        }
    }
}

/// A reveal committee: how many members must attest, and who may.
#[derive(Debug, PartialEq, Eq)]
pub struct RevealCommittee {
    pub n: u64,
    pub revealers: Vec<String>,
}

impl RevealCommittee {
    /// Both committees require the same count and list the same members in order.
    pub open spec fn same_as(&self, other: &RevealCommittee) -> bool {
        self.n == other.n && self.revealers@ == other.revealers@
    }
}

impl Clone for RevealCommittee {
    fn clone(&self) -> (r: Self)
        ensures
            r.same_as(self),
    {
        let revealers = self.revealers.clone();
        assert(revealers@ =~= self.revealers@);
        RevealCommittee { n: self.n, revealers }
    }
}

/// Copies a list of strings.
pub fn clone_strings(v: &Vec<String>) -> (r: Vec<String>)
    ensures
        r@ == v@,
{
    let r = v.clone();
    assert(r@ =~= v@);
    r
}

/// The outcome reported by an operation that returns no other data.
#[derive(Clone, Copy, Debug, PartialEq, Eq, Structural)]
pub enum ResponseStatus {
    Success,
    Failure,
}

/// The messages a factory accepts.
#[derive(Debug, PartialEq, Eq)]
pub enum PollFactoryHandleMsg {
    NewPoll {
        poll_metadata: PollMetadata,
        poll_config: Option<PollConfig>,
        poll_choices: Vec<String>,
        pool_viewing_key: String,
    },
    /// From the staking pool: a voter's power changed.
    UpdateVotingPower { voter: String, new_power: u128 },
    /// From a new poll: the challenge it was created with.
    RegisterForUpdates { challenge: String, end_time: u64 },
    UpdateDefaultPollConfig {
        duration: Option<u64>,
        quorum: Option<u8>,
        min_threshold: Option<u8>,
    },
    UpdateConfig {
        new_poll_code: Option<PollContract>,
        new_staking_pool: Option<SecretContract>,
        new_min_stake_amount: Option<u128>,
        new_reveal_com: Option<RevealCommittee>,
    },
    ChangeAdmin { new_admin: String },
}

/// The messages a poll accepts.
#[derive(Debug, PartialEq, Eq)]
pub enum PollHandleMsg {
    Vote { choice: u8, staking_pool_viewing_key: String, salt: String },
    UpdateVotingPower { voter: String, new_power: u128 },
    Finalize { rolling_hash: String },
}

/// A message a new poll sends back to the contract that created it.
#[derive(Debug, PartialEq, Eq)]
pub struct InitHook {
    pub contract_addr: String,
    pub code_hash: String,
    pub msg: PollFactoryHandleMsg,
}

/// Everything a poll is created with.
#[derive(Debug, PartialEq, Eq)]
pub struct PollInitMsg {
    pub metadata: PollMetadata,
    pub config: PollConfig,
    pub reveal_com: RevealCommittee,
    pub choices: Vec<String>,
    pub staking_pool: SecretContract,
    pub init_hook: Option<InitHook>,
}

} // verus!
