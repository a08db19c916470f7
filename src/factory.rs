//! The factory: admin-gated configuration, poll creation gated by a minimum
//! stake, challenge issuance and checking, and the registry of active polls.

use vstd::prelude::*;
use crate::challenge::{challenge_text, hashed_text, Challenge};
use crate::crypto::{sha256_of, sha_256};
use crate::error::ContractError;
use crate::types::{
    InitHook, PollConfig, PollContract, PollFactoryHandleMsg, PollHandleMsg, PollInitMsg,
    PollMetadata, ResponseStatus, RevealCommittee, SecretContract,
};

verus! {

/// The factory's configuration.
#[derive(Debug, PartialEq, Eq)]
pub struct Config {
    pub poll_contract: PollContract,
    pub staking_pool: SecretContract,
    /// The identifier the next poll gets; one more after each creation.
    pub id_counter: u128,
    /// The digest of the seed the factory was set up with.
    pub prng_seed: [u8; 32],
    pub min_staked: u128,
    pub reveal_com: RevealCommittee,
}

/// A registered poll that still takes voting-power updates.
#[derive(Debug, PartialEq, Eq)]
pub struct ActivePoll {
    pub address: String,
    pub hash: String,
    pub end_time: u64,
}

impl Clone for ActivePoll {
    fn clone(&self) -> (r: Self)
        ensures
            r == *self,
    {
        ActivePoll { address: self.address.clone(), hash: self.hash.clone(), end_time: self.end_time }
    }
}

/// Everything a factory is set up with.
#[derive(Debug, PartialEq, Eq)]
pub struct InitMsg {
    pub prng_seed: Vec<u8>,
    pub poll_contract: PollContract,
    pub staking_pool: SecretContract,
    pub default_poll_config: PollConfig,
    pub min_staked: u128,
    pub reveal_com: RevealCommittee,
}

/// A request to instantiate a new poll from the poll code.
#[derive(Debug, PartialEq, Eq)]
pub struct PollInstantiation {
    pub code_id: u64,
    pub code_hash: String,
    pub msg: PollInitMsg,
    /// The identifier given to the new poll.
    pub id: u128,
}

/// A message for a registered poll.
#[derive(Debug, PartialEq, Eq)]
pub struct PollExecution {
    pub contract_addr: String,
    pub code_hash: String,
    pub msg: PollHandleMsg,
}

/// The questions a factory answers.
#[derive(Debug, PartialEq, Eq)]
pub enum QueryMsg {
    /// The polls active as of `current_time` (seconds since the epoch).
    ActivePolls { current_time: u64 },
    DefaultPollConfig,
    StakingPool,
    PollCode,
    Admin,
    RevealCommittee,
    MinimumStake,
}

/// A factory's answers.
#[derive(Debug, PartialEq, Eq)]
pub enum QueryAnswer {
    ActivePolls { active_polls: Vec<ActivePoll> },
    DefaultPollConfig { poll_config: PollConfig },
    StakingPool { contract: SecretContract },
    PollCode { contract: PollContract },
    Admin { address: String },
    RevealCommittee { committee: RevealCommittee },
    MinimumStake { amount: u128 },
}

/// The factory's whole state.
#[derive(Debug, PartialEq, Eq)]
pub struct Factory {
    pub admin: String,
    pub default_poll_config: PollConfig,
    pub config: Config,
    /// The outstanding challenge, if any.
    pub challenge: Option<Challenge>,
    pub active_polls: Vec<ActivePoll>,
}

/// The polls of `s` whose end time is not before `t`, in order.
pub open spec fn live_polls(s: Seq<ActivePoll>, t: u64) -> Seq<ActivePoll> {
    s.filter(|p: ActivePoll| p.end_time >= t)
}

impl Factory {
    /// Whether `response` answers the outstanding challenge.
    pub open spec fn accepts(&self, response: Seq<char>) -> bool {
        &&& self.challenge is Some
        &&& hashed_text(response) == hashed_text(self.challenge.unwrap().0@)
    }

    /// The two factories agree on everything but the challenge, the poll
    /// counter and the registry.
    pub open spec fn same_settings(&self, other: &Factory) -> bool {
        &&& self.admin == other.admin
        &&& self.default_poll_config == other.default_poll_config
        &&& self.config.poll_contract == other.config.poll_contract
        &&& self.config.staking_pool == other.config.staking_pool
        &&& self.config.prng_seed == other.config.prng_seed
        &&& self.config.min_staked == other.config.min_staked
        &&& self.config.reveal_com.same_as(&other.config.reveal_com)
    }

    /// The factory after `response` registered the poll at `address` ending at `end_time`.
    pub open spec fn registered(&self, other: &Factory, address: String, end_time: u64) -> bool {
        &&& self.same_settings(other)
        &&& self.config.id_counter == other.config.id_counter
        &&& self.challenge is None
        &&& self.active_polls@ == other.active_polls@.push(
            ActivePoll { address, hash: other.config.poll_contract.code_hash, end_time },
        )
    }

    /// Sets a factory up; `sender` becomes its admin.
    pub fn init(sender: &String, msg: InitMsg) -> (r: Factory)
        ensures
            r.admin == *sender,
            r.default_poll_config == msg.default_poll_config,
            r.config.poll_contract == msg.poll_contract,
            r.config.staking_pool == msg.staking_pool,
            r.config.id_counter == 0,
            r.config.prng_seed@ == sha256_of(msg.prng_seed@),
            r.config.min_staked == msg.min_staked,
            r.config.reveal_com == msg.reveal_com,
            r.challenge is None,
            r.active_polls@.len() == 0,
    {
        let prng_seed_hashed = sha_256(msg.prng_seed.as_slice());
        Factory {
            admin: sender.clone(),
            default_poll_config: msg.default_poll_config,
            config: Config {
                poll_contract: msg.poll_contract,
                staking_pool: msg.staking_pool,
                id_counter: 0,
                prng_seed: prng_seed_hashed,
                min_staked: msg.min_staked,
                reveal_com: msg.reveal_com,
            },
            challenge: None,
            active_polls: Vec::new(),
        }
    }

    /// Fails with `Unauthorized` unless `sender` is the admin.
    pub fn enforce_admin(&self, sender: &String) -> (r: Result<(), ContractError>)
        ensures
            r is Err <==> sender@ != self.admin@,
            r is Err ==> r == Err::<(), ContractError>(ContractError::Unauthorized),
    {
        if !(self.admin == *sender) {
            return Err(ContractError::Unauthorized);
        }
        Ok(())
    }

    /// The registered polls whose end time is not before `current_time`.
    pub fn get_active_polls(&self, current_time: u64) -> (r: Vec<ActivePoll>)
        ensures
            r@ == live_polls(self.active_polls@, current_time),
    {
        let mut out: Vec<ActivePoll> = Vec::new();
        let mut i: usize = 0;
        while i < self.active_polls.len()
            invariant
                0 <= i <= self.active_polls@.len(),
                out@ == live_polls(self.active_polls@.subrange(0, i as int), current_time),
            decreases self.active_polls@.len() - i,
        {
            let ghost before = out@;
            if self.active_polls[i].end_time >= current_time {
                out.push(self.active_polls[i].clone());
            }
            proof {
                let s1 = self.active_polls@.subrange(0, i + 1);
                assert(s1.drop_last() =~= self.active_polls@.subrange(0, i as int));
                assert(s1.last() == self.active_polls@[i as int]);
                reveal(Seq::filter);
                assert(out@ == live_polls(s1, current_time));
            }
            i = i + 1;
        }
        assert(self.active_polls@.subrange(0, i as int) =~= self.active_polls@);
        out
    }

    /// Drops the polls that ended before `now` from the registry and returns
    /// the rest.
    pub fn remove_inactive_polls(&mut self, now: u64) -> (r: Vec<ActivePoll>)
        ensures
            final(self).active_polls@ == live_polls(old(self).active_polls@, now),
            r@ == final(self).active_polls@,
            final(self).same_settings(old(self)),
            final(self).config.id_counter == old(self).config.id_counter,
            final(self).challenge == old(self).challenge,
    {
        let kept = self.get_active_polls(now);
        self.active_polls = self.get_active_polls(now);
        kept
    }
}



/// The poll settings in effect for a creation request.
pub open spec fn effective_config(requested: Option<PollConfig>, default: PollConfig) -> PollConfig {
    match requested {
        Some(c) => c,
        None => default,
    }
}

impl Factory {
    /// Why `new_poll` fails, if it does.
    pub open spec fn new_poll_error(&self, voting_power: u128) -> Option<ContractError> {
        if voting_power < self.config.min_staked {
            Some(ContractError::InsufficientStake)
        } else if self.config.id_counter == u128::MAX {
            Some(ContractError::Overflow)
        } else {
            None
        }
    }

    /// Starts a poll for `sender`, whose staked balance is `voting_power`, at
    /// block `height` and `time`. Issues a fresh challenge, replacing any
    /// outstanding one, and returns the request that instantiates the poll;
    /// the new poll calls back to `contract_address` with the challenge.
    pub fn new_poll(
        &mut self,
        sender: &String,
        height: u64,
        time: u64,
        contract_address: &String,
        contract_code_hash: &String,
        poll_metadata: PollMetadata,
        poll_config: Option<PollConfig>,
        poll_choices: Vec<String>,
        voting_power: u128,
    ) -> (r: Result<PollInstantiation, ContractError>)
        requires
            time + effective_config(poll_config, old(self).default_poll_config).duration <= u64::MAX,
        ensures
            match r {
                Ok(req) => {
                    let cfg = effective_config(poll_config, old(self).default_poll_config);
                    let c = final(self).challenge.unwrap();
                    &&& old(self).new_poll_error(voting_power) is None
                    &&& final(self).challenge is Some
                    &&& c.0@ == challenge_text(height, time, sender@, old(self).config.prng_seed@)
                    &&& final(self).config.id_counter == old(self).config.id_counter + 1
                    &&& final(self).same_settings(old(self))
                    &&& final(self).active_polls@ == old(self).active_polls@
                    &&& req.code_id == old(self).config.poll_contract.code_id
                    &&& req.code_hash == old(self).config.poll_contract.code_hash
                    &&& req.id == old(self).config.id_counter
                    &&& req.msg.metadata == (PollMetadata {
                        author_addr: Some(*sender),
                        ..poll_metadata
                    })
                    &&& req.msg.config == cfg
                    &&& req.msg.reveal_com.same_as(&old(self).config.reveal_com)
                    &&& req.msg.choices == poll_choices
                    &&& req.msg.staking_pool == old(self).config.staking_pool
                    &&& req.msg.init_hook == Some(
                        InitHook {
                            contract_addr: *contract_address,
                            code_hash: *contract_code_hash,
                            msg: PollFactoryHandleMsg::RegisterForUpdates {
                                challenge: c.0,
                                end_time: (time + cfg.duration) as u64,
                            },
                        },
                    )
                },
                Err(e) => old(self).new_poll_error(voting_power) == Some(e) && *final(self)
                    == *old(self),
            },
    {
        if voting_power < self.config.min_staked {
            return Err(ContractError::InsufficientStake);
        }
        if self.config.id_counter == u128::MAX {
            return Err(ContractError::Overflow);
        }
        let cfg = match poll_config {
            Some(c) => c,
            None => self.default_poll_config,
        };
        let key = Challenge::new(height, time, sender.as_str(), self.config.prng_seed.as_slice());
        let init_msg = PollInitMsg {
            metadata: PollMetadata {
                title: poll_metadata.title,
                description: poll_metadata.description,
                vote_type: poll_metadata.vote_type,
                author_addr: Some(sender.clone()),
                author_alias: poll_metadata.author_alias,
            },
            config: cfg,
            reveal_com: self.config.reveal_com.clone(),
            choices: poll_choices,
            staking_pool: self.config.staking_pool.clone(),
            init_hook: Some(
                InitHook {
                    contract_addr: contract_address.clone(),
                    code_hash: contract_code_hash.clone(),
                    msg: PollFactoryHandleMsg::RegisterForUpdates {
                        challenge: key.0.clone(),
                        end_time: time + cfg.duration,
                    },
                },
            ),
        };
        let id = self.config.id_counter;
        self.challenge = Some(key);
        self.config.id_counter = id + 1;
        Ok(
            PollInstantiation {
                code_id: self.config.poll_contract.code_id,
                code_hash: self.config.poll_contract.code_hash.clone(),
                msg: init_msg,
                id,
            },
        )
    }

    /// Admits the calling poll into the registry if `response` answers the
    /// outstanding challenge, which is then consumed.
    pub fn register_for_updates(&mut self, sender: &String, response: Challenge, end_time: u64) -> (r:
        Result<ResponseStatus, ContractError>)
        ensures
            r is Ok <==> old(self).accepts(response.0@),
            match r {
                Ok(s) => s == ResponseStatus::Success && final(self).registered(
                    old(self),
                    *sender,
                    end_time,
                ),
                Err(e) => e == ContractError::ChallengeMismatch && *final(self) == *old(self),
            },
    {
        let matched = match &self.challenge {
            Some(c) => response.check_challenge(&c.to_hashed()),
            None => false,
        };
        if !matched {
            return Err(ContractError::ChallengeMismatch);
        }
        self.challenge = None;
        self.active_polls.push(
            ActivePoll {
                address: sender.clone(),
                hash: self.config.poll_contract.code_hash.clone(),
                end_time,
            },
        );
        Ok(ResponseStatus::Success)
    }

    /// From the staking pool: prunes the registry as of `now` and returns one
    /// power-update message for each poll still in it.
    pub fn update_voting_power(&mut self, sender: &String, now: u64, voter: &String, new_power: u128) -> (r:
        Result<Vec<PollExecution>, ContractError>)
        ensures
            r is Err <==> sender@ != old(self).config.staking_pool.address@,
            match r {
                Ok(msgs) => {
                    &&& final(self).active_polls@ == live_polls(old(self).active_polls@, now)
                    &&& final(self).same_settings(old(self))
                    &&& final(self).config.id_counter == old(self).config.id_counter
                    &&& final(self).challenge == old(self).challenge
                    &&& msgs@.len() == final(self).active_polls@.len()
                    &&& forall|i: int|
                        0 <= i < msgs@.len() ==> #[trigger] msgs@[i] == (PollExecution {
                            contract_addr: final(self).active_polls@[i].address,
                            code_hash: final(self).active_polls@[i].hash,
                            msg: PollHandleMsg::UpdateVotingPower { voter: *voter, new_power },
                        })
                },
                Err(e) => e == ContractError::Unauthorized && *final(self) == *old(self),
            },
    {
        if !(*sender == self.config.staking_pool.address) {
            return Err(ContractError::Unauthorized);
        }
        let active_polls = self.remove_inactive_polls(now);
        let mut messages: Vec<PollExecution> = Vec::new();
        let mut i: usize = 0;
        while i < active_polls.len()
            invariant
                0 <= i <= active_polls@.len(),
                messages@.len() == i,
                forall|j: int|
                    0 <= j < i ==> #[trigger] messages@[j] == (PollExecution {
                        contract_addr: active_polls@[j].address,
                        code_hash: active_polls@[j].hash,
                        msg: PollHandleMsg::UpdateVotingPower { voter: *voter, new_power },
                    }),
            decreases active_polls@.len() - i,
        {
            messages.push(
                PollExecution {
                    contract_addr: active_polls[i].address.clone(),
                    code_hash: active_polls[i].hash.clone(),
                    msg: PollHandleMsg::UpdateVotingPower { voter: voter.clone(), new_power },
                },
            );
            i = i + 1;
        }
        Ok(messages)
    }

    /// Admin only: replaces the fields of the default poll settings that are given.
    pub fn update_default_poll_config(
        &mut self,
        sender: &String,
        duration: Option<u64>,
        quorum: Option<u8>,
        min_threshold: Option<u8>,
    ) -> (r: Result<ResponseStatus, ContractError>)
        ensures
            r is Err <==> sender@ != old(self).admin@,
            match r {
                Ok(s) => {
                    let d = old(self).default_poll_config;
                    &&& s == ResponseStatus::Success
                    &&& final(self).default_poll_config == PollConfig {
                        duration: match duration {
                            Some(v) => v,
                            None => d.duration,
                        },
                        quorum: match quorum {
                            Some(v) => v,
                            None => d.quorum,
                        },
                        min_threshold: match min_threshold {
                            Some(v) => v,
                            None => d.min_threshold,
                        },
                    }
                    &&& final(self).admin == old(self).admin
                    &&& final(self).config == old(self).config
                    &&& final(self).challenge == old(self).challenge
                    &&& final(self).active_polls == old(self).active_polls
                },
                Err(e) => e == ContractError::Unauthorized && *final(self) == *old(self),
            },
    {
        match self.enforce_admin(sender) {
            Err(e) => {
                return Err(e);
            },
            Ok(()) => {},
        }
        if let Some(new_duration) = duration {
            self.default_poll_config.duration = new_duration;
        }
        if let Some(new_quorum) = quorum {
            self.default_poll_config.quorum = new_quorum;
        }
        if let Some(new_threshold) = min_threshold {
            self.default_poll_config.min_threshold = new_threshold;
        }
        Ok(ResponseStatus::Success)
    }

    /// Admin only: hands the admin role to `address`.
    pub fn change_admin(&mut self, sender: &String, address: String) -> (r: Result<ResponseStatus, ContractError>)
        ensures
            r is Err <==> sender@ != old(self).admin@,
            match r {
                Ok(s) => {
                    &&& s == ResponseStatus::Success
                    &&& final(self).admin == address
                    &&& final(self).default_poll_config == old(self).default_poll_config
                    &&& final(self).config == old(self).config
                    &&& final(self).challenge == old(self).challenge
                    &&& final(self).active_polls == old(self).active_polls
                },
                Err(e) => e == ContractError::Unauthorized && *final(self) == *old(self),
            },
    {
        match self.enforce_admin(sender) {
            Err(e) => {
                return Err(e);
            },
            Ok(()) => {},
        }
        self.admin = address;
        Ok(ResponseStatus::Success)
    }

    /// Admin only: replaces the fields of the configuration that are given.
    pub fn update_config(
        &mut self,
        sender: &String,
        new_poll_code: Option<PollContract>,
        new_staking_pool: Option<SecretContract>,
        new_min_stake_amount: Option<u128>,
        new_reveal_com: Option<RevealCommittee>,
    ) -> (r: Result<ResponseStatus, ContractError>)
        ensures
            r is Err <==> sender@ != old(self).admin@,
            match r {
                Ok(s) => {
                    let c = old(self).config;
                    &&& s == ResponseStatus::Success
                    &&& final(self).config == Config {
                        poll_contract: match new_poll_code {
                            Some(v) => v,
                            None => c.poll_contract,
                        },
                        staking_pool: match new_staking_pool {
                            Some(v) => v,
                            None => c.staking_pool,
                        },
                        min_staked: match new_min_stake_amount {
                            Some(v) => v,
                            None => c.min_staked,
                        },
                        reveal_com: match new_reveal_com {
                            Some(v) => v,
                            None => c.reveal_com,
                        },
                        ..c
                    }
                    &&& final(self).admin == old(self).admin
                    &&& final(self).default_poll_config == old(self).default_poll_config
                    &&& final(self).challenge == old(self).challenge
                    &&& final(self).active_polls == old(self).active_polls
                },
                Err(e) => e == ContractError::Unauthorized && *final(self) == *old(self),
            },
    {
        match self.enforce_admin(sender) {
            Err(e) => {
                return Err(e);
            },
            Ok(()) => {},
        }
        if let Some(new_poll) = new_poll_code {
            self.config.poll_contract = new_poll;
        }
        if let Some(new_pool) = new_staking_pool {
            self.config.staking_pool = new_pool;
        }
        if let Some(new_amount) = new_min_stake_amount {
            self.config.min_staked = new_amount;
        }
        if let Some(new_committee) = new_reveal_com {
            self.config.reveal_com = new_committee;
        }
        Ok(ResponseStatus::Success)
    }
}



impl Factory {
    /// The registered polls active as of `current_time`; the registry itself
    /// is left as it is.
    pub fn query_active_polls(&self, current_time: u64) -> (r: Vec<ActivePoll>)
        ensures
            r@ == live_polls(self.active_polls@, current_time),
    {
        self.get_active_polls(current_time)
    }

    /// The settings new polls get unless they ask for others.
    pub fn query_default_poll_config(&self) -> (r: PollConfig)
        ensures
            r == self.default_poll_config,
    {
        self.default_poll_config
    }

    /// The staking pool.
    pub fn query_staking_pool(&self) -> (r: SecretContract)
        ensures
            r == self.config.staking_pool,
    {
        self.config.staking_pool.clone()
    }

    /// The poll code.
    pub fn query_poll_code(&self) -> (r: PollContract)
        ensures
            r == self.config.poll_contract,
    {
        self.config.poll_contract.clone()
    }

    /// The admin.
    pub fn query_admin(&self) -> (r: String)
        ensures
            r == self.admin,
    {
        self.admin.clone()
    }

    /// The reveal committee new polls get.
    pub fn query_reveal_com(&self) -> (r: RevealCommittee)
        ensures
            r.same_as(&self.config.reveal_com),
    {
        self.config.reveal_com.clone()
    }

    /// The least stake that may create a poll.
    pub fn query_min_stake(&self) -> (r: u128)
        ensures
            r == self.config.min_staked,
    {
        self.config.min_staked
    }

    /// Answers `msg`.
    pub fn query(&self, msg: &QueryMsg) -> (r: QueryAnswer)
        ensures
            match *msg {
                QueryMsg::ActivePolls { current_time } => r matches QueryAnswer::ActivePolls {
                    active_polls,
                } && active_polls@ == live_polls(self.active_polls@, current_time),
                QueryMsg::DefaultPollConfig => r == QueryAnswer::DefaultPollConfig {
                    poll_config: self.default_poll_config,
                },
                QueryMsg::StakingPool => r == QueryAnswer::StakingPool {
                    contract: self.config.staking_pool,
                },
                QueryMsg::PollCode => r == QueryAnswer::PollCode {
                    contract: self.config.poll_contract,
                },
                QueryMsg::Admin => r == QueryAnswer::Admin { address: self.admin },
                QueryMsg::RevealCommittee => r matches QueryAnswer::RevealCommittee { committee }
                    && committee.same_as(&self.config.reveal_com),
                QueryMsg::MinimumStake => r == QueryAnswer::MinimumStake {
                    amount: self.config.min_staked,
                },
            },
    {
        match msg {
            QueryMsg::ActivePolls { current_time } => QueryAnswer::ActivePolls {
                active_polls: self.query_active_polls(*current_time),
            },
            QueryMsg::DefaultPollConfig => QueryAnswer::DefaultPollConfig {
                poll_config: self.query_default_poll_config(),
            },
            QueryMsg::StakingPool => QueryAnswer::StakingPool { contract: self.query_staking_pool() },
            QueryMsg::PollCode => QueryAnswer::PollCode { contract: self.query_poll_code() },
            QueryMsg::Admin => QueryAnswer::Admin { address: self.query_admin() },
            QueryMsg::RevealCommittee => QueryAnswer::RevealCommittee {
                committee: self.query_reveal_com(),
            },
            QueryMsg::MinimumStake => QueryAnswer::MinimumStake { amount: self.query_min_stake() },
        }
    }
}

/// A challenge is single-use: once a response has been accepted and its poll
/// registered, the factory accepts no response at all (a replay included)
/// until a new poll is created, so `register_for_updates` fails with
/// `ChallengeMismatch`, an integrity failure.
pub proof fn lemma_challenge_single_use(
    before: &Factory,
    after: &Factory,
    address: String,
    end_time: u64,
    replay: Seq<char>,
)
    requires
        after.registered(before, address, end_time),
    ensures
        !after.accepts(replay),
        ContractError::ChallengeMismatch.spec_class() == crate::error::ErrorClass::IntegrityFailure,
{
}

} // verus!
