//! The validator role: commits a hashed account-list answer while
//! `CommitValidators` is open, then reveals it while `RevealValidators`
//! is open. Its commit is preceded by two read-only queries: the miners
//! that committed and revealed, and the contract-side hash of the
//! validator's own answer.

use vstd::prelude::*;

use super::transaction_processor::TransactionProcessor;
use super::utils::{generate_validator_answer, spec_validator_answer};
use crate::args::{arg_obj1, arg_obj2, arg_obj3, arg_obj4, arg_str, arg_string, ArgSpec,
    ArgValue};
use crate::cli::Modes;
use crate::constants::ACCOUNT_TO_LISTEN;
use crate::event::GovernanceEvent;
use crate::nonce::{allocate_step, NonceSequencer};
use crate::orchestrator::Orchestrator;
use crate::tx::{build_query, prepare_transaction, QueryRequest, SignedTransaction,
    TransactionFactory};

verus! {

/// The message accompanying the validator's answer.
pub const VALIDATOR_MESSAGE: &'static str = "This are the best miners";

/// A validator's configuration: the identity it acts as and the endpoint
/// its driver talks to.
pub struct Validator {
    pub account_id: String,
    pub private_key: String,
    pub rpc_url: String,
}

impl Validator {
    pub fn new(account_id: String, private_key: String, rpc_url: String) -> (r: Validator)
        ensures
            r.account_id == account_id,
            r.private_key == private_key,
            r.rpc_url == rpc_url,
    {
        Validator { account_id, private_key, rpc_url }
    }
}

impl TransactionProcessor for Validator {
    open spec fn spec_role(&self) -> Modes {
        Modes::Validator
    }

    open spec fn spec_account_id(&self) -> Seq<char> {
        self.account_id@
    }

    fn role(&self) -> Modes {
        Modes::Validator
    }

    fn account_id(&self) -> &String {
        &self.account_id
    }

    fn begin(&self) -> Orchestrator {
        Orchestrator::new(Modes::Validator)
    }
}

/// The arguments of the `get_list_miners_that_commit_and_reveal` query.
pub open spec fn spec_participants_args(request_id: Seq<char>) -> Seq<(Seq<char>, ArgSpec)> {
    seq![("request_id"@, ArgSpec::Str(request_id))]
}

/// The arguments of the `hash_validator_answer` query.
pub open spec fn spec_validator_hash_args(validator: Seq<char>, request_id: Seq<char>) -> Seq<
    (Seq<char>, ArgSpec),
> {
    seq![
        ("validator"@, ArgSpec::Str(validator)),
        ("request_id"@, ArgSpec::Str(request_id)),
        ("answer"@, ArgSpec::StrArray(spec_validator_answer())),
        ("message"@, ArgSpec::Str(VALIDATOR_MESSAGE@)),
    ]
}

/// The arguments of the `commit_by_validator` transaction: the request
/// and the hash-query result exactly as the contract returned it.
pub open spec fn spec_validator_commit_args(request_id: Seq<char>, answer_hash: Seq<char>) -> Seq<
    (Seq<char>, ArgSpec),
> {
    seq![("request_id"@, ArgSpec::Str(request_id)), ("answer"@, ArgSpec::Str(answer_hash))]
}

/// The arguments of the `reveal_by_validator` transaction: the plaintext
/// account-list answer and its message.
pub open spec fn spec_validator_reveal_args(request_id: Seq<char>) -> Seq<(Seq<char>, ArgSpec)> {
    seq![
        ("request_id"@, ArgSpec::Str(request_id)),
        ("answer"@, ArgSpec::StrArray(spec_validator_answer())),
        ("message"@, ArgSpec::Str(VALIDATOR_MESSAGE@)),
    ]
}

impl Validator {
    /// The read-only query for the miners that both committed and
    /// revealed; its result informs the (pluggable) scoring and is
    /// reported, not otherwise consumed here.
    pub fn participants_query(&self, event: &GovernanceEvent) -> (r: QueryRequest)
        ensures
            r.contract@ == ACCOUNT_TO_LISTEN@,
            r.method@ == "get_list_miners_that_commit_and_reveal"@,
            r.args@ == spec_participants_args(event.spec_request_id()),
            r.sender is None,
    {
        let args = arg_obj1("request_id", arg_string(event.request_id()));
        build_query(ACCOUNT_TO_LISTEN, "get_list_miners_that_commit_and_reveal", args, None)
    }

    /// The read-only query that asks the contract to hash this
    /// validator's answer before the commit is submitted.
    pub fn answer_hash_query(&self, event: &GovernanceEvent) -> (r: QueryRequest)
        ensures
            r.contract@ == ACCOUNT_TO_LISTEN@,
            r.method@ == "hash_validator_answer"@,
            r.args@ == spec_validator_hash_args(self.account_id@, event.spec_request_id()),
            r.sender is None,
    {
        let args = arg_obj4(
            "validator",
            arg_string(self.account_id.clone()),
            "request_id",
            arg_string(event.request_id()),
            "answer",
            ArgValue::StrArray(generate_validator_answer()),
            "message",
            arg_str(VALIDATOR_MESSAGE),
        );
        build_query(ACCOUNT_TO_LISTEN, "hash_validator_answer", args, None)
    }

    /// The commit transaction, built from the raw result of
    /// [`Validator::answer_hash_query`], consuming one sequence number.
    pub fn commit(
        &self,
        event: &GovernanceEvent,
        answer_hash_raw: &str,
        factory: &TransactionFactory,
        sequencer: &mut NonceSequencer,
    ) -> (r: SignedTransaction)
        requires
            old(sequencer).initialized,
            old(sequencer).sequence < u64::MAX,
        ensures
            allocate_step(*old(sequencer), *final(sequencer), r.action.sequence),
            r.action.reference_hash@ == old(sequencer).reference_hash@,
            r.signer@ == factory.identity.account_id@,
            r.action.contract@ == ACCOUNT_TO_LISTEN@,
            r.action.method@ == "commit_by_validator"@,
            r.action.args@ == spec_validator_commit_args(
                event.spec_request_id(),
                answer_hash_raw@,
            ),
    {
        let args = arg_obj2(
            "request_id",
            arg_string(event.request_id()),
            "answer",
            arg_str(answer_hash_raw),
        );
        prepare_transaction(factory, sequencer, ACCOUNT_TO_LISTEN, "commit_by_validator", args)
    }

    /// The reveal transaction: the plaintext account-list answer,
    /// consuming one sequence number.
    pub fn reveal_transaction(
        &self,
        event: &GovernanceEvent,
        factory: &TransactionFactory,
        sequencer: &mut NonceSequencer,
    ) -> (r: SignedTransaction)
        requires
            old(sequencer).initialized,
            old(sequencer).sequence < u64::MAX,
        ensures
            allocate_step(*old(sequencer), *final(sequencer), r.action.sequence),
            r.action.reference_hash@ == old(sequencer).reference_hash@,
            r.signer@ == factory.identity.account_id@,
            r.action.contract@ == ACCOUNT_TO_LISTEN@,
            r.action.method@ == "reveal_by_validator"@,
            r.action.args@ == spec_validator_reveal_args(event.spec_request_id()),
    {
        let args = arg_obj3(
            "request_id",
            arg_string(event.request_id()),
            "answer",
            ArgValue::StrArray(generate_validator_answer()),
            "message",
            arg_str(VALIDATOR_MESSAGE),
        );
        prepare_transaction(factory, sequencer, ACCOUNT_TO_LISTEN, "reveal_by_validator", args)
    }
}

} // verus!
