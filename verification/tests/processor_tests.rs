use earthmind_client::args::ArgValue;
use earthmind_client::cli::{Modes, Networks};
use earthmind_client::constants::{ACCOUNT_TO_LISTEN, NEAR_RPC_TESTNET};
use earthmind_client::event::{EventRecord, GovernanceEvent};
use earthmind_client::nonce::NonceSequencer;
use earthmind_client::orchestrator::Directive;
use earthmind_client::processors::{
    generate_validator_answer, obtain_top_ten, poll_from_response, stage_query, Aggregator,
    Miner, TransactionProcessor, Validator, MINER_MESSAGE, VALIDATOR_MESSAGE,
};
use earthmind_client::orchestrator::PollResult;
use earthmind_client::stage::Stage;
use earthmind_client::tx::{
    prepare_transaction, IdentityError, SigningIdentity, TransactionFactory,
};

fn test_event(request_id: &str, start_time: u64) -> GovernanceEvent {
    GovernanceEvent {
        standard: "emip001".to_string(),
        version: "1.0.0".to_string(),
        event: "register_protocol".to_string(),
        data: vec![EventRecord {
            request_id: Some(request_id.to_string()),
            start_time: Some(start_time),
        }],
    }
}

fn test_factory() -> TransactionFactory {
    let identity =
        SigningIdentity::new("alice.testnet".to_string(), "ed25519:testkeymaterial".to_string())
            .unwrap();
    TransactionFactory::new(identity)
}

fn ready_sequencer(start: u64) -> NonceSequencer {
    let mut s = NonceSequencer::new();
    s.refresh(start, vec![9u8; 32], 50);
    s
}

#[test]
fn identity_requires_account_and_key() {
    assert_eq!(
        SigningIdentity::new(String::new(), "k".to_string()).err(),
        Some(IdentityError::MissingAccount)
    );
    assert_eq!(
        SigningIdentity::new("a".to_string(), String::new()).err(),
        Some(IdentityError::MissingKey)
    );
    assert!(SigningIdentity::new("a".to_string(), "k".to_string()).is_ok());
}

#[test]
fn prepare_transaction_consumes_exactly_one_sequence_number() {
    let factory = test_factory();
    let mut sequencer = ready_sequencer(41);
    let args = earthmind_client::args::arg_obj1("x", ArgValue::Bool(true));
    let tx = prepare_transaction(&factory, &mut sequencer, "c.testnet", "m", args);
    assert_eq!(tx.action.sequence, 42);
    assert_eq!(sequencer.sequence, 42);
    assert_eq!(tx.action.reference_hash, vec![9u8; 32]);
    assert_eq!(tx.signer, "alice.testnet");
}

#[test]
fn stage_query_is_keyed_by_start_time() {
    let event = test_event("req-1", 777);
    let q = stage_query(&"alice.testnet".to_string(), &event);
    assert_eq!(q.contract, ACCOUNT_TO_LISTEN);
    assert_eq!(q.method, "get_stage");
    assert_eq!(q.sender, Some("alice.testnet".to_string()));
    assert_eq!(q.args.fields, vec![("start_time".to_string(), ArgValue::UInt(777))]);
}

#[test]
fn poll_classification_covers_all_cases() {
    assert_eq!(poll_from_response(None), PollResult::QueryFailed);
    assert_eq!(
        poll_from_response(Some("\"CommitMiners\"")),
        PollResult::Observed(Stage::CommitMiners)
    );
    assert_eq!(poll_from_response(Some("Whatever")), PollResult::Unrecognized);
}

#[test]
fn miner_commit_pipeline_builds_the_expected_requests() {
    let miner = Miner::new(
        "alice.testnet".to_string(),
        "ed25519:testkeymaterial".to_string(),
        NEAR_RPC_TESTNET.to_string(),
    );
    let event = test_event("req-9", 5);
    let hash_query = miner.commit_hash_query(&event);
    assert_eq!(hash_query.method, "hash_miner_answer");
    assert_eq!(
        hash_query.args.fields,
        vec![
            ("miner".to_string(), ArgValue::Str("alice.testnet".to_string())),
            ("request_id".to_string(), ArgValue::Str("req-9".to_string())),
            ("answer".to_string(), ArgValue::Bool(true)),
            ("message".to_string(), ArgValue::Str(MINER_MESSAGE.to_string())),
        ]
    );

    let factory = test_factory();
    let mut sequencer = ready_sequencer(0);
    let commit = miner.commit(&event, "\"0xabc\"", &factory, &mut sequencer);
    assert_eq!(commit.action.method, "commit_by_miner");
    assert_eq!(
        commit.action.args.fields,
        vec![
            ("request_id".to_string(), ArgValue::Str("req-9".to_string())),
            ("answer".to_string(), ArgValue::Str("0xabc".to_string())),
        ]
    );
    assert_eq!(commit.action.sequence, 1);

    let reveal_tx = miner.reveal_transaction(&event, &factory, &mut sequencer);
    assert_eq!(reveal_tx.action.method, "reveal_by_miner");
    assert_eq!(
        reveal_tx.action.args.fields,
        vec![
            ("request_id".to_string(), ArgValue::Str("req-9".to_string())),
            ("answer".to_string(), ArgValue::Bool(true)),
            ("message".to_string(), ArgValue::Str(MINER_MESSAGE.to_string())),
        ]
    );
    assert_eq!(reveal_tx.action.sequence, 2);
}

#[test]
fn validator_commit_keeps_the_hash_result_verbatim() {
    let validator = Validator::new(
        "val.testnet".to_string(),
        "ed25519:testkeymaterial".to_string(),
        NEAR_RPC_TESTNET.to_string(),
    );
    let event = test_event("req-2", 0);
    let participants = validator.participants_query(&event);
    assert_eq!(participants.method, "get_list_miners_that_commit_and_reveal");

    let hash_query = validator.answer_hash_query(&event);
    assert_eq!(hash_query.method, "hash_validator_answer");
    assert_eq!(
        hash_query.args.fields[2],
        ("answer".to_string(), ArgValue::StrArray(generate_validator_answer()))
    );
    assert_eq!(
        hash_query.args.fields[3],
        ("message".to_string(), ArgValue::Str(VALIDATOR_MESSAGE.to_string()))
    );

    let factory = test_factory();
    let mut sequencer = ready_sequencer(7);
    let commit = validator.commit(&event, "\"0xdef\"", &factory, &mut sequencer);
    // The validator, unlike the miner, forwards the hash-query result as is.
    assert_eq!(
        commit.action.args.fields[1],
        ("answer".to_string(), ArgValue::Str("\"0xdef\"".to_string()))
    );

    let reveal_tx = validator.reveal_transaction(&event, &factory, &mut sequencer);
    assert_eq!(reveal_tx.action.method, "reveal_by_validator");
    assert_eq!(
        reveal_tx.action.args.fields[1],
        ("answer".to_string(), ArgValue::StrArray(generate_validator_answer()))
    );
}

#[test]
fn validator_answer_is_the_fixed_ten_accounts() {
    let answer = generate_validator_answer();
    assert_eq!(answer.len(), 10);
    assert_eq!(answer[0], "hasserualcala.testnet");
    assert_eq!(answer[1], "miner2.near");
    assert_eq!(answer[9], "miner10.near");
}

#[test]
fn aggregator_fetch_targets_the_top_voters() {
    let aggregator = Aggregator::new(
        "agg.testnet".to_string(),
        "ed25519:testkeymaterial".to_string(),
        NEAR_RPC_TESTNET.to_string(),
    );
    let event = test_event("req-3", 0);
    let q = obtain_top_ten(&aggregator, &event);
    assert_eq!(q.method, "get_top_10_voters");
    assert_eq!(q.contract, ACCOUNT_TO_LISTEN);
    assert_eq!(q.sender, Some("agg.testnet".to_string()));
    assert_eq!(
        q.args.fields,
        vec![("request_id".to_string(), ArgValue::Str("req-3".to_string()))]
    );
}

#[test]
fn events_without_payload_fields_fall_back_to_defaults() {
    let empty = GovernanceEvent {
        standard: String::new(),
        version: String::new(),
        event: String::new(),
        data: vec![],
    };
    assert_eq!(empty.request_id(), "");
    assert_eq!(empty.start_time(), 0);

    let bare = GovernanceEvent {
        standard: String::new(),
        version: String::new(),
        event: String::new(),
        data: vec![EventRecord { request_id: None, start_time: None }],
    };
    assert_eq!(bare.request_id(), "");
    assert_eq!(bare.start_time(), 0);
}

#[test]
fn processors_expose_their_role_and_a_fresh_loop() {
    let miner = Miner::new("a".to_string(), "k".to_string(), "u".to_string());
    let validator = Validator::new("a".to_string(), "k".to_string(), "u".to_string());
    let aggregator = Aggregator::new("a".to_string(), "k".to_string(), "u".to_string());
    assert_eq!(miner.role(), Modes::Miner);
    assert_eq!(validator.role(), Modes::Validator);
    assert_eq!(aggregator.role(), Modes::Aggregator);
    assert_eq!(miner.account_id().as_str(), "a");
    assert_eq!(miner.begin().next_directive(), Directive::Poll);
    assert_eq!(aggregator.begin().next_directive(), Directive::Poll);
}

#[test]
fn network_selector_maps_to_its_endpoint() {
    assert_eq!(Networks::Testnet.rpc_url(), NEAR_RPC_TESTNET);
    assert_eq!(Networks::Mainnet.rpc_url(), earthmind_client::constants::NEAR_RPC_MAINNET);
}
