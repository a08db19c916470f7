use secret_vote::error::{ContractError, ErrorClass};
use secret_vote::poll::{FinalizeAnswer, Phase, Poll, QueryAnswer, QueryMsg, StoredPollConfig};
use secret_vote::tally::Vote;
use secret_vote::types::{PollConfig, PollInitMsg, PollMetadata, ResponseStatus, RevealCommittee, SecretContract};
use sha2::{Digest, Sha256};

fn init_msg(title: &str, description: &str) -> PollInitMsg {
    PollInitMsg {
        metadata: PollMetadata {
            title: title.to_string(),
            description: description.to_string(),
            vote_type: "cool type".to_string(),
            author_addr: Some("proposer".to_string()),
            author_alias: "proposer".into(),
        },
        config: PollConfig { duration: 1000, quorum: 33, min_threshold: 0 },
        reveal_com: RevealCommittee { n: 2, revealers: vec!["rev1".into(), "rev2".into()] },
        choices: vec!["Yes".into(), "No".into()],
        staking_pool: SecretContract {
            address: "staking pool".to_string(),
            contract_hash: "".to_string(),
        },
        init_hook: None,
    }
}

fn init_helper() -> Poll {
    let (poll, hook) =
        Poll::init(&"factory".to_string(), 0, init_msg("test vote", "hey hey this is a test vote")).unwrap();
    assert!(hook.is_none());
    poll
}

fn s(x: &str) -> String {
    x.to_string()
}

/// Finalizes with both committee members; returns the second answer.
fn finalize_both(poll: &mut Poll, total_locked: u128) -> FinalizeAnswer {
    let hash = poll.query_rolling_hash();
    let first = poll.finalize(&s("rev1"), 1000, &hash, total_locked).unwrap();
    assert!(!first.finalized);
    assert_eq!(first.valid, None);
    assert_eq!(first.choices, None);
    assert_eq!(first.tally, None);
    poll.finalize(&s("rev2"), 1000, &hash, total_locked).unwrap()
}

#[test]
fn test_vote_info() {
    let (poll, _) =
        Poll::init(&s("factory"), 0, init_msg("test_vote_info", "test_vote_info")).unwrap();
    let res = poll.query(&QueryMsg::VoteInfo).unwrap();
    assert_eq!(
        res,
        QueryAnswer::VoteInfo {
            metadata: PollMetadata {
                title: "test_vote_info".to_string(),
                description: "test_vote_info".to_string(),
                vote_type: "cool type".to_string(),
                author_addr: Some("proposer".to_string()),
                author_alias: "proposer".into(),
            },
            config: StoredPollConfig {
                end_timestamp: 1000,
                quorum: 33,
                min_threshold: 0,
                choices: vec!["Yes".into(), "No".into()],
                finalized: false,
                valid: false,
                rolling_hash: [0u8; 32],
            },
            reveal_com: RevealCommittee { n: 2, revealers: vec!["rev1".into(), "rev2".into()] },
        }
    );
}

#[test]
fn test_tally() {
    let mut poll = init_helper();
    poll.vote(&s("user"), 0, 0, 100, &s("salt")).unwrap();

    let err = poll.query_tally().unwrap_err();
    assert_eq!(err, ContractError::NotFinalized);
    assert_eq!(err.message(), "vote hasn't been finalized yet");

    // Finalize: participation 100% of the 100 locked, winning slot 100 > 0.
    let answer = finalize_both(&mut poll, 100);
    assert!(answer.finalized);
    assert_eq!(answer.valid, Some(true));

    let res = poll.query(&QueryMsg::Tally).unwrap();
    assert_eq!(
        res,
        QueryAnswer::Tally { choices: vec!["Yes".into(), "No".into()], tally: vec![100, 0] }
    );
}

#[test]
fn test_tally_before_ended() {
    let mut poll = init_helper();
    poll.vote(&s("user"), 10, 1, 500, &s("salt")).unwrap();
    assert_eq!(poll.query_tally(), Err(ContractError::NotFinalized));
    let hash = poll.query_rolling_hash();
    assert_eq!(poll.finalize(&s("rev1"), 999, &hash, 1000).unwrap_err(), ContractError::VoteStillOpen);
    assert_eq!(poll.query_tally(), Err(ContractError::NotFinalized));
}

#[test]
fn test_tally_below_quorum() {
    let mut poll = init_helper();
    poll.vote(&s("user"), 0, 0, 400, &s("salt")).unwrap();
    let answer = finalize_both(&mut poll, 2000);
    assert!(answer.finalized);
    assert_eq!(answer.valid, Some(false));
    let err = poll.query(&QueryMsg::Tally).unwrap_err();
    assert_eq!(err, ContractError::NotValid);
    assert_eq!(err.class(), ErrorClass::ValidationFailure);
    assert_eq!(err.message(), "vote hasn't passed quorum");
}

#[test]
fn test_minimum_deposit() {
    let mut msg = init_msg("test vote", "hey hey this is a test vote");
    msg.choices = vec!["Only".into()];
    assert_eq!(Poll::init(&s("factory"), 0, msg).unwrap_err(), ContractError::TooFewChoices);

    let msg = init_msg("t", "hey hey this is a test vote");
    assert_eq!(Poll::init(&s("factory"), 0, msg).unwrap_err(), ContractError::TitleTooShort);

    let msg = init_msg("test vote", "too short");
    assert_eq!(Poll::init(&s("factory"), 0, msg).unwrap_err(), ContractError::DescriptionTooShort);

    let mut msg = init_msg("test vote", "hey hey this is a test vote");
    msg.metadata.author_alias = "ab".into();
    assert_eq!(Poll::init(&s("factory"), 0, msg).unwrap_err(), ContractError::AliasTooShort);

    let mut msg = init_msg("tv", "0123456789");
    msg.metadata.author_alias = "abc".into();
    assert!(Poll::init(&s("factory"), 0, msg).is_ok());

    let mut msg = init_msg("test vote", "hey hey this is a test vote");
    msg.config.duration = u64::MAX;
    assert_eq!(Poll::init(&s("factory"), 1, msg).unwrap_err(), ContractError::Overflow);
}

#[test]
fn test_has_voted() {
    let mut poll = init_helper();
    assert!(!poll.query_has_voted(&s("user")));
    poll.vote(&s("user"), 0, 1, 7, &s("salt")).unwrap();
    assert!(poll.query_has_voted(&s("user")));
    assert!(!poll.query_has_voted(&s("other")));
    assert_eq!(
        poll.query(&QueryMsg::HasVoted { voter: s("user") }).unwrap(),
        QueryAnswer::HasVoted { has_voted: true }
    );
}

#[test]
fn test_num_of_voters() {
    let mut poll = init_helper();
    assert_eq!(poll.query_num_of_voters(), 0);
    poll.vote(&s("a"), 0, 0, 10, &s("x")).unwrap();
    assert_eq!(poll.query_num_of_voters(), 1);
    poll.vote(&s("b"), 0, 1, 20, &s("x")).unwrap();
    assert_eq!(poll.query_num_of_voters(), 2);
    // Changing a vote does not count a new voter.
    poll.vote(&s("a"), 0, 1, 10, &s("y")).unwrap();
    assert_eq!(poll.query_num_of_voters(), 2);
    assert_eq!(
        poll.query(&QueryMsg::NumberOfVoters).unwrap(),
        QueryAnswer::NumberOfVoters { count: 2 }
    );
}

#[test]
fn test_query_vote() {
    let mut poll = init_helper();
    assert_eq!(poll.query_vote(&s("user")), Err(ContractError::VoteNotFound));
    poll.vote(&s("user"), 0, 1, 42, &s("salt")).unwrap();
    assert_eq!(poll.query_vote(&s("user")), Ok(Vote { choice: 1, voting_power: 42 }));
    assert_eq!(
        poll.query(&QueryMsg::Vote { voter: s("user"), key: s("key") }).unwrap(),
        QueryAnswer::Vote { choice: 1, voting_power: 42 }
    );
}

#[test]
fn test_update_voting_power() {
    let mut poll = init_helper();
    poll.vote(&s("user"), 0, 1, 42, &s("salt")).unwrap();
    let hash = poll.query_rolling_hash();

    assert_eq!(
        poll.update_voting_power(&s("intruder"), 0, &s("user"), 5).unwrap_err(),
        ContractError::Unauthorized
    );
    assert_eq!(
        poll.update_voting_power(&s("factory"), 0, &s("user"), 5),
        Ok(ResponseStatus::Success)
    );
    assert_eq!(poll.query_vote(&s("user")), Ok(Vote { choice: 1, voting_power: 5 }));
    assert_eq!(poll.tally, vec![0, 5]);
    // The rolling hash commits to the transcript, not to later corrections.
    assert_eq!(poll.query_rolling_hash(), hash);

    // A voter without a vote is left alone.
    assert_eq!(
        poll.update_voting_power(&s("factory"), 0, &s("nobody"), 9),
        Ok(ResponseStatus::Success)
    );
    assert_eq!(poll.tally, vec![0, 5]);
    assert_eq!(poll.query_num_of_voters(), 1);

    assert_eq!(
        poll.update_voting_power(&s("factory"), 1001, &s("user"), 9).unwrap_err(),
        ContractError::VoteClosed
    );
}

#[test]
fn test_vote_after_ended() {
    let mut poll = init_helper();
    assert!(poll.vote(&s("user"), 1000, 0, 1, &s("salt")).is_ok());
    let err = poll.vote(&s("late"), 1001, 0, 1, &s("salt")).unwrap_err();
    assert_eq!(err, ContractError::VoteClosed);
    assert_eq!(err.class(), ErrorClass::InvalidState);
    assert_eq!(poll.query_num_of_voters(), 1);
}

#[test]
fn test_finalize_before_ended() {
    let mut poll = init_helper();
    poll.vote(&s("user"), 0, 0, 400, &s("salt")).unwrap();
    let hash = poll.query_rolling_hash();
    for sender in ["rev1", "rev2", "stranger"] {
        let err = poll.finalize(&s(sender), 999, &hash, 1000).unwrap_err();
        assert_eq!(err, ContractError::VoteStillOpen);
        assert_eq!(err.class(), ErrorClass::InvalidState);
    }
    assert_eq!(poll.reveal.num_revealed, 0);
}

#[test]
fn tally_holds_power_of_current_votes() {
    let mut poll = init_helper();
    poll.vote(&s("a"), 0, 0, 10, &s("x")).unwrap();
    poll.vote(&s("b"), 0, 1, 20, &s("x")).unwrap();
    poll.vote(&s("c"), 0, 1, 30, &s("x")).unwrap();
    poll.update_voting_power(&s("factory"), 0, &s("b"), 25).unwrap();
    poll.vote(&s("a"), 0, 1, 11, &s("x")).unwrap();
    poll.update_voting_power(&s("factory"), 0, &s("c"), 0).unwrap();
    assert_eq!(poll.tally, vec![0, 36]);
    let total: u128 = poll.votes.iter().map(|v| v.voting_power).sum();
    assert_eq!(poll.tally.iter().sum::<u128>(), total);
}

#[test]
fn changed_vote_moves_its_power() {
    let mut poll = init_helper();
    poll.vote(&s("a"), 0, 0, 10, &s("x")).unwrap();
    poll.vote(&s("b"), 0, 0, 5, &s("x")).unwrap();
    assert_eq!(poll.tally, vec![15, 0]);
    assert_eq!(poll.query_num_of_voters(), 2);
    poll.vote(&s("a"), 0, 1, 10, &s("y")).unwrap();
    assert_eq!(poll.tally, vec![5, 10]);
    assert_eq!(poll.query_num_of_voters(), 2);
}

#[test]
fn unknown_choice_is_rejected() {
    let mut poll = init_helper();
    let err = poll.vote(&s("a"), 0, 2, 10, &s("x")).unwrap_err();
    assert_eq!(err, ContractError::UnknownChoice);
    assert_eq!(err.class(), ErrorClass::ValidationFailure);
    assert_eq!(poll.query_num_of_voters(), 0);
    assert_eq!(poll.tally, vec![0, 0]);
}

#[test]
fn tally_overflow_is_rejected() {
    let mut poll = init_helper();
    poll.vote(&s("a"), 0, 0, u128::MAX, &s("x")).unwrap();
    assert_eq!(poll.vote(&s("b"), 0, 0, 1, &s("x")).unwrap_err(), ContractError::Overflow);
    // Moving the same power to the other slot is fine.
    poll.vote(&s("a"), 0, 1, u128::MAX, &s("x")).unwrap();
    assert_eq!(poll.tally, vec![0, u128::MAX]);
}

#[test]
fn rolling_hash_chains_each_vote() {
    let mut poll = init_helper();
    poll.vote(&s("user"), 0, 1, 0x0102, &s("pepper")).unwrap();
    let mut input = vec![0u8; 32];
    input.extend_from_slice(b"user");
    input.push(1);
    input.extend_from_slice(&[0x02, 0x01, 0, 0, 0, 0, 0, 0]);
    input.extend_from_slice(b"pepper");
    let first: [u8; 32] = Sha256::digest(&input).into();
    assert_eq!(poll.config.rolling_hash, first);
    assert_eq!(poll.query_rolling_hash(), hex::encode(first));

    poll.vote(&s("user"), 0, 0, 3, &s("salt")).unwrap();
    let mut input = first.to_vec();
    input.extend_from_slice(b"user");
    input.push(0);
    input.extend_from_slice(&[3, 0, 0, 0, 0, 0, 0, 0]);
    input.extend_from_slice(b"salt");
    let second: [u8; 32] = Sha256::digest(&input).into();
    assert_eq!(poll.query_rolling_hash(), hex::encode(second));
}

#[test]
fn finalize_with_wrong_hash_fails() {
    let mut poll = init_helper();
    poll.vote(&s("user"), 0, 0, 400, &s("salt")).unwrap();
    let wrong = hex::encode([0u8; 32]);
    let err = poll.finalize(&s("rev1"), 1000, &wrong, 1000).unwrap_err();
    assert_eq!(err, ContractError::HashMismatch);
    assert_eq!(err.class(), ErrorClass::IntegrityFailure);
    let upper = poll.query_rolling_hash().to_uppercase();
    assert_eq!(poll.finalize(&s("rev1"), 1000, &upper, 1000).unwrap_err(), ContractError::HashMismatch);
    assert_eq!(poll.reveal.num_revealed, 0);
}

#[test]
fn finalize_checks_the_committee() {
    let mut poll = init_helper();
    let hash = poll.query_rolling_hash();
    assert_eq!(poll.finalize(&s("stranger"), 1000, &hash, 1000).unwrap_err(), ContractError::Unauthorized);
    poll.finalize(&s("rev1"), 1000, &hash, 1000).unwrap();
    assert_eq!(poll.finalize(&s("rev1"), 1000, &hash, 1000).unwrap_err(), ContractError::AlreadyRevealed);
    assert_eq!(
        poll.query(&QueryMsg::Revealed).unwrap(),
        QueryAnswer::Revealed { required: 2, num_revealed: 1, revealed: vec![s("rev1")] }
    );
}

#[test]
fn quorum_scenario_valid() {
    let mut poll = init_helper();
    poll.vote(&s("A"), 0, 0, 400, &s("salt")).unwrap();
    let answer = finalize_both(&mut poll, 1000);
    assert_eq!(
        answer,
        FinalizeAnswer {
            finalized: true,
            valid: Some(true),
            choices: Some(vec![s("Yes"), s("No")]),
            tally: Some(vec![400, 0]),
        }
    );
    assert_eq!(poll.query_tally(), Ok((vec![s("Yes"), s("No")], vec![400, 0])));
}

#[test]
fn quorum_scenario_not_reached() {
    let mut poll = init_helper();
    poll.vote(&s("A"), 0, 0, 400, &s("salt")).unwrap();
    let answer = finalize_both(&mut poll, 2000);
    assert_eq!(answer.valid, Some(false));
    assert_eq!(poll.query_tally(), Err(ContractError::NotValid));
}

#[test]
fn quorum_is_strict() {
    // Participation of exactly 33% does not exceed a quorum of 33.
    let mut poll = init_helper();
    poll.vote(&s("A"), 0, 0, 33, &s("salt")).unwrap();
    assert_eq!(finalize_both(&mut poll, 100).valid, Some(false));
}

#[test]
fn winning_slot_must_exceed_threshold() {
    let mut msg = init_msg("test vote", "hey hey this is a test vote");
    msg.config.min_threshold = 50;
    let (mut poll, _) = Poll::init(&s("factory"), 0, msg).unwrap();
    poll.vote(&s("A"), 0, 0, 50, &s("salt")).unwrap();
    assert_eq!(finalize_both(&mut poll, 100).valid, Some(false));
}

#[test]
fn committee_threshold_scenario() {
    let mut poll = init_helper();
    poll.vote(&s("A"), 0, 1, 400, &s("salt")).unwrap();
    let hash = poll.query_rolling_hash();
    let first = poll.finalize(&s("rev2"), 2000, &hash, 1000).unwrap();
    assert_eq!(first, FinalizeAnswer { finalized: false, valid: None, choices: None, tally: None });
    assert!(!poll.config.finalized);
    let second = poll.finalize(&s("rev1"), 2000, &hash, 1000).unwrap();
    assert_eq!(
        second,
        FinalizeAnswer {
            finalized: true,
            valid: Some(true),
            choices: Some(vec![s("Yes"), s("No")]),
            tally: Some(vec![0, 400]),
        }
    );
    assert!(poll.config.finalized && poll.config.valid);
}

#[test]
fn finalize_past_threshold_rereads_outcome() {
    let (mut poll, _) = {
        let mut msg = init_msg("test vote", "hey hey this is a test vote");
        msg.reveal_com = RevealCommittee { n: 1, revealers: vec![s("rev1"), s("rev2")] };
        Poll::init(&s("factory"), 0, msg).unwrap()
    };
    poll.vote(&s("A"), 0, 0, 400, &s("salt")).unwrap();
    let hash = poll.query_rolling_hash();
    let first = poll.finalize(&s("rev1"), 1000, &hash, 1000).unwrap();
    assert_eq!(first.valid, Some(true));
    // The locked total given now no longer matters.
    let again = poll.finalize(&s("rev2"), 1000, &hash, 0).unwrap();
    assert_eq!(again, first);
}

#[test]
fn finalize_with_nothing_locked_fails() {
    let mut poll = init_helper();
    let hash = poll.query_rolling_hash();
    poll.finalize(&s("rev1"), 1000, &hash, 0).unwrap();
    assert_eq!(poll.finalize(&s("rev2"), 1000, &hash, 0).unwrap_err(), ContractError::NothingLocked);
    assert_eq!(poll.reveal.num_revealed, 1);
}

#[test]
fn poll_queries() {
    let poll = init_helper();
    assert_eq!(poll.query(&QueryMsg::Choices).unwrap(), QueryAnswer::Choices { choices: vec![s("Yes"), s("No")] });
    assert_eq!(
        poll.query(&QueryMsg::RevealCommittee).unwrap(),
        QueryAnswer::RevealCommittee {
            committee: RevealCommittee { n: 2, revealers: vec![s("rev1"), s("rev2")] }
        }
    );
    assert_eq!(
        poll.query(&QueryMsg::RollingHash).unwrap(),
        QueryAnswer::RollingHash { hash: "0".repeat(64) }
    );
    assert_eq!(poll.query(&QueryMsg::Tally).unwrap_err(), ContractError::NotFinalized);
}

#[test]
fn lifecycle_phases() {
    let mut poll = init_helper();
    assert_eq!(poll.phase(1000), Phase::Open);
    poll.vote(&s("A"), 0, 0, 400, &s("salt")).unwrap();
    assert_eq!(poll.phase(1001), Phase::Closed);
    let hash = poll.query_rolling_hash();
    poll.finalize(&s("rev1"), 1001, &hash, 1000).unwrap();
    assert_eq!(poll.phase(1001), Phase::Revealing);
    poll.finalize(&s("rev2"), 1001, &hash, 1000).unwrap();
    assert_eq!(poll.phase(1001), Phase::Finalized { valid: true });
}

#[test]
fn stored_state_is_checked() {
    let mut poll = init_helper();
    poll.vote(&s("A"), 0, 0, 400, &s("salt")).unwrap();
    assert!(poll.is_well_formed());
    poll.tally[0] = 399;
    assert!(!poll.is_well_formed());
    poll.tally[0] = 400;
    poll.voters.push(s("A"));
    poll.votes.push(Vote { choice: 0, voting_power: 0 });
    poll.num_voters = 2;
    assert!(!poll.is_well_formed());
}

#[test]
fn lengths_count_characters() {
    let mut msg = init_msg("test vote", "hey hey this is a test vote");
    msg.metadata.author_alias = "éé".into();
    assert_eq!(Poll::init(&s("factory"), 0, msg).unwrap_err(), ContractError::AliasTooShort);
    let mut msg = init_msg("é", "hey hey this is a test vote");
    msg.metadata.author_alias = "ééé".into();
    assert_eq!(Poll::init(&s("factory"), 0, msg).unwrap_err(), ContractError::TitleTooShort);
    let mut msg = init_msg("éé", "hey hey this is a test vote");
    msg.metadata.author_alias = "ééé".into();
    assert!(Poll::init(&s("factory"), 0, msg).is_ok());
}
