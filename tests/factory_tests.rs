use rand_chacha::ChaChaRng;
use rand_core::{RngCore, SeedableRng};
use secret_vote::challenge::{create_hashed_password, ct_slice_compare, Challenge};
use secret_vote::crypto::{sha_256, Prng};
use secret_vote::error::{ContractError, ErrorClass};
use secret_vote::factory::{ActivePoll, Factory, InitMsg, PollExecution, QueryAnswer, QueryMsg};
use secret_vote::types::{
    InitHook, PollConfig, PollContract, PollFactoryHandleMsg, PollHandleMsg, PollMetadata,
    ResponseStatus, RevealCommittee, SecretContract,
};
use sha2::{Digest, Sha256};

fn s(x: &str) -> String {
    x.to_string()
}

fn factory() -> Factory {
    Factory::init(
        &s("admin"),
        InitMsg {
            prng_seed: b"seed".to_vec(),
            poll_contract: PollContract { code_id: 7, code_hash: s("pollhash") },
            staking_pool: SecretContract { address: s("pool"), contract_hash: s("poolhash") },
            default_poll_config: PollConfig { duration: 100, quorum: 33, min_threshold: 0 },
            min_staked: 1_000_000,
            reveal_com: RevealCommittee { n: 2, revealers: vec![s("rev1"), s("rev2")] },
        },
    )
}

fn metadata() -> PollMetadata {
    PollMetadata {
        title: s("title"),
        description: s("a long enough description"),
        vote_type: s("type"),
        author_addr: None,
        author_alias: s("alias"),
    }
}

fn expected_challenge(height: u64, time: u64, sender: &str, seed: &[u8]) -> String {
    let mut entropy = Vec::new();
    entropy.extend_from_slice(&height.to_be_bytes());
    entropy.extend_from_slice(&time.to_be_bytes());
    entropy.extend_from_slice(sender.as_bytes());
    let mut hasher = Sha256::new();
    hasher.update(seed);
    hasher.update(&entropy);
    let key: [u8; 32] = hasher.finalize().into();
    let mut rng = ChaChaRng::from_seed(key);
    let mut bytes = [0u8; 32];
    rng.fill_bytes(&mut bytes);
    let ch: [u8; 32] = Sha256::digest(&bytes).into();
    base64::encode(ch)
}

#[test]
fn test() {
    let f = factory();
    assert_eq!(f.config.id_counter, 0);
    let seed_digest: [u8; 32] = Sha256::digest(b"seed").into();
    assert_eq!(f.config.prng_seed, seed_digest);
    assert_eq!(f.query(&QueryMsg::Admin), QueryAnswer::Admin { address: s("admin") });
    assert_eq!(f.query(&QueryMsg::MinimumStake), QueryAnswer::MinimumStake { amount: 1_000_000 });
    assert_eq!(
        f.query(&QueryMsg::DefaultPollConfig),
        QueryAnswer::DefaultPollConfig {
            poll_config: PollConfig { duration: 100, quorum: 33, min_threshold: 0 }
        }
    );
    assert_eq!(
        f.query(&QueryMsg::StakingPool),
        QueryAnswer::StakingPool {
            contract: SecretContract { address: s("pool"), contract_hash: s("poolhash") }
        }
    );
    assert_eq!(
        f.query(&QueryMsg::PollCode),
        QueryAnswer::PollCode { contract: PollContract { code_id: 7, code_hash: s("pollhash") } }
    );
    assert_eq!(
        f.query(&QueryMsg::RevealCommittee),
        QueryAnswer::RevealCommittee {
            committee: RevealCommittee { n: 2, revealers: vec![s("rev1"), s("rev2")] }
        }
    );
    assert_eq!(f.query(&QueryMsg::ActivePolls { current_time: 0 }), QueryAnswer::ActivePolls { active_polls: vec![] });
}

#[test]
fn sha_256_matches_sha2() {
    let expected: [u8; 32] = Sha256::digest(b"abc").into();
    assert_eq!(sha_256(b"abc"), expected);
    assert_eq!(
        hex::encode(sha_256(b"")),
        "e3b0c44298fc1c149afbf4c8996fb92427ae41e4649b934ca495991b7852b855"
    );
}

#[test]
fn challenge_is_drawn_from_block_data_and_seed() {
    let ch = Challenge::new(12, 34, "creator", b"seed");
    assert_eq!(ch.0, expected_challenge(12, 34, "creator", b"seed"));
    assert_eq!(ch.0.len(), 44);
    assert_ne!(ch, Challenge::new(13, 34, "creator", b"seed"));
    assert_ne!(ch, Challenge::new(12, 35, "creator", b"seed"));
    assert_ne!(ch, Challenge::new(12, 34, "other", b"seed"));
    assert_eq!(ch, Challenge::new(12, 34, "creator", b"seed"));
    assert_eq!(ch.to_string(), ch.0);
    assert_eq!(ch.as_bytes(), ch.0.as_bytes());
}

#[test]
fn prng_draws_consecutive_chunks() {
    let mut prng = Prng::new(b"se", b"ed");
    let key: [u8; 32] = Sha256::digest(b"seed").into();
    let mut rng = ChaChaRng::from_seed(key);
    let mut first = [0u8; 32];
    let mut second = [0u8; 32];
    rng.fill_bytes(&mut first);
    rng.fill_bytes(&mut second);
    assert_eq!(prng.rand_bytes(), first);
    assert_eq!(prng.rand_bytes(), second);
}

#[test]
fn challenge_checks_against_its_hash() {
    let ch = Challenge(s("secret challenge"));
    let hashed = ch.to_hashed();
    let expected: [u8; 32] = Sha256::digest(b"secret challenge").into();
    assert_eq!(hashed, expected);
    assert_eq!(create_hashed_password("secret challenge"), expected);
    assert!(ch.check_challenge(&hashed));
    assert!(!Challenge(s("secret challengf")).check_challenge(&hashed));
    assert!(!ch.check_challenge(&hashed[..31]));
}

#[test]
fn constant_time_compare_results() {
    let a = [7u8; 32];
    let mut first = a;
    first[0] ^= 1;
    let mut last = a;
    last[31] ^= 1;
    assert!(ct_slice_compare(&a, &a));
    assert!(!ct_slice_compare(&a, &first));
    assert!(!ct_slice_compare(&a, &last));
    assert!(!ct_slice_compare(&a, &a[..31]));
    assert!(ct_slice_compare(&[], &[]));
}

#[test]
fn new_poll_requires_minimum_stake() {
    let mut f = factory();
    let err = f
        .new_poll(&s("creator"), 1, 10, &s("factory"), &s("fhash"), metadata(), None, vec![s("a"), s("b")], 999_999)
        .unwrap_err();
    assert_eq!(err, ContractError::InsufficientStake);
    assert_eq!(err.class(), ErrorClass::InsufficientStake);
    assert_eq!(f.config.id_counter, 0);
    assert!(f.challenge.is_none());
}

#[test]
fn new_poll_builds_the_instantiation() {
    let mut f = factory();
    let req = f
        .new_poll(&s("creator"), 1, 10, &s("factory"), &s("fhash"), metadata(), None, vec![s("a"), s("b")], 1_000_000)
        .unwrap();
    let challenge = expected_challenge(1, 10, "creator", &f.config.prng_seed);
    assert_eq!(f.challenge, Some(Challenge(challenge.clone())));
    assert_eq!(f.config.id_counter, 1);
    assert_eq!(req.id, 0);
    assert_eq!(req.code_id, 7);
    assert_eq!(req.code_hash, s("pollhash"));
    assert_eq!(req.msg.metadata.author_addr, Some(s("creator")));
    assert_eq!(req.msg.metadata.title, s("title"));
    assert_eq!(req.msg.config, PollConfig { duration: 100, quorum: 33, min_threshold: 0 });
    assert_eq!(req.msg.choices, vec![s("a"), s("b")]);
    assert_eq!(req.msg.reveal_com, RevealCommittee { n: 2, revealers: vec![s("rev1"), s("rev2")] });
    assert_eq!(
        req.msg.init_hook,
        Some(InitHook {
            contract_addr: s("factory"),
            code_hash: s("fhash"),
            msg: PollFactoryHandleMsg::RegisterForUpdates { challenge, end_time: 110 },
        })
    );

    let custom = PollConfig { duration: 5, quorum: 50, min_threshold: 1 };
    let req = f
        .new_poll(&s("creator"), 2, 20, &s("factory"), &s("fhash"), metadata(), Some(custom), vec![s("a"), s("b")], 2_000_000)
        .unwrap();
    assert_eq!(req.id, 1);
    assert_eq!(req.msg.config, custom);
}

#[test]
fn challenge_is_single_use() {
    let mut f = factory();
    f.new_poll(&s("creator"), 1, 10, &s("factory"), &s("fhash"), metadata(), None, vec![s("a"), s("b")], 1_000_000)
        .unwrap();
    let ch = f.challenge.clone().unwrap();

    let wrong = f.register_for_updates(&s("poll_x"), Challenge(s("guess")), 110).unwrap_err();
    assert_eq!(wrong, ContractError::ChallengeMismatch);
    assert!(f.active_polls.is_empty());

    assert_eq!(f.register_for_updates(&s("poll_x"), ch.clone(), 110), Ok(ResponseStatus::Success));
    assert_eq!(
        f.active_polls,
        vec![ActivePoll { address: s("poll_x"), hash: s("pollhash"), end_time: 110 }]
    );
    assert!(f.challenge.is_none());

    let replay = f.register_for_updates(&s("poll_y"), ch, 110).unwrap_err();
    assert_eq!(replay, ContractError::ChallengeMismatch);
    assert_eq!(replay.class(), ErrorClass::IntegrityFailure);
    assert_eq!(f.active_polls.len(), 1);
}

#[test]
fn later_poll_overwrites_the_challenge() {
    let mut f = factory();
    f.new_poll(&s("creator"), 1, 10, &s("factory"), &s("fhash"), metadata(), None, vec![s("a"), s("b")], 1_000_000)
        .unwrap();
    let first = f.challenge.clone().unwrap();
    f.new_poll(&s("creator"), 2, 11, &s("factory"), &s("fhash"), metadata(), None, vec![s("a"), s("b")], 1_000_000)
        .unwrap();
    let second = f.challenge.clone().unwrap();
    assert_ne!(first, second);
    assert_eq!(f.register_for_updates(&s("poll_a"), first, 110), Err(ContractError::ChallengeMismatch));
    assert_eq!(f.register_for_updates(&s("poll_b"), second, 111), Ok(ResponseStatus::Success));
}

fn register(f: &mut Factory, address: &str, end_time: u64) {
    f.new_poll(&s("creator"), end_time, 0, &s("factory"), &s("fhash"), metadata(), None, vec![s("a"), s("b")], 1_000_000)
        .unwrap();
    let ch = f.challenge.clone().unwrap();
    f.register_for_updates(&s(address), ch, end_time).unwrap();
}

#[test]
fn power_updates_fan_out_to_active_polls() {
    let mut f = factory();
    register(&mut f, "poll_a", 50);
    register(&mut f, "poll_b", 150);
    register(&mut f, "poll_c", 100);

    assert_eq!(
        f.update_voting_power(&s("intruder"), 100, &s("voter"), 5).unwrap_err(),
        ContractError::Unauthorized
    );
    assert_eq!(f.active_polls.len(), 3);

    // The query prunes only the view.
    assert_eq!(
        f.query_active_polls(100),
        vec![
            ActivePoll { address: s("poll_b"), hash: s("pollhash"), end_time: 150 },
            ActivePoll { address: s("poll_c"), hash: s("pollhash"), end_time: 100 },
        ]
    );
    assert_eq!(f.active_polls.len(), 3);

    let msgs = f.update_voting_power(&s("pool"), 100, &s("voter"), 5).unwrap();
    assert_eq!(
        msgs,
        vec![
            PollExecution {
                contract_addr: s("poll_b"),
                code_hash: s("pollhash"),
                msg: PollHandleMsg::UpdateVotingPower { voter: s("voter"), new_power: 5 },
            },
            PollExecution {
                contract_addr: s("poll_c"),
                code_hash: s("pollhash"),
                msg: PollHandleMsg::UpdateVotingPower { voter: s("voter"), new_power: 5 },
            },
        ]
    );
    assert_eq!(f.active_polls.len(), 2);
}

#[test]
fn admin_operations_are_gated() {
    let mut f = factory();
    assert_eq!(f.update_default_poll_config(&s("x"), Some(1), None, None), Err(ContractError::Unauthorized));
    assert_eq!(f.change_admin(&s("x"), s("y")), Err(ContractError::Unauthorized));
    assert_eq!(f.update_config(&s("x"), None, None, Some(5), None), Err(ContractError::Unauthorized));
    assert_eq!(f.admin, s("admin"));

    assert_eq!(f.update_default_poll_config(&s("admin"), None, Some(40), None), Ok(ResponseStatus::Success));
    assert_eq!(f.default_poll_config, PollConfig { duration: 100, quorum: 40, min_threshold: 0 });

    assert_eq!(f.update_config(&s("admin"), None, None, Some(5), None), Ok(ResponseStatus::Success));
    assert_eq!(f.config.min_staked, 5);
    assert_eq!(f.config.poll_contract, PollContract { code_id: 7, code_hash: s("pollhash") });

    assert_eq!(f.change_admin(&s("admin"), s("new")), Ok(ResponseStatus::Success));
    assert_eq!(f.admin, s("new"));
    assert_eq!(f.change_admin(&s("admin"), s("again")), Err(ContractError::Unauthorized));
}
