//! The miner role: commits a hashed answer while `CommitMiners` is open,
//! then reveals the plaintext answer while `RevealMiners` is open.

use vstd::prelude::*;

use super::transaction_processor::TransactionProcessor;
use crate::args::{arg_obj2, arg_obj3, arg_obj4, arg_str, arg_string, ArgSpec, ArgValue};
use crate::cli::Modes;
use crate::constants::ACCOUNT_TO_LISTEN;
use crate::event::GovernanceEvent;
use crate::nonce::{allocate_step, NonceSequencer};
use crate::orchestrator::Orchestrator;
use crate::stage::{strip_quotes, trim_quotes};
use crate::tx::{build_query, prepare_transaction, QueryRequest, SignedTransaction,
    TransactionFactory};

verus! {

/// The plaintext answer this miner contributes: a deterministic value of
/// the request and identity, so repeated builds before the commit lands
/// submit the same thing.
pub const MINER_ANSWER: bool = true;

/// The message accompanying the miner's answer.
pub const MINER_MESSAGE: &'static str = "It's the best option";

/// A miner's configuration: the identity it acts as and the endpoint its
/// driver talks to.
pub struct Miner {
    pub account_id: String,
    pub private_key: String,
    pub rpc_url: String,
}

impl Miner {
    pub fn new(account_id: String, private_key: String, rpc_url: String) -> (r: Miner)
        ensures
            r.account_id == account_id,
            r.private_key == private_key,
            r.rpc_url == rpc_url,
    {
        Miner { account_id, private_key, rpc_url }
    }
}

impl TransactionProcessor for Miner {
    open spec fn spec_role(&self) -> Modes {
        Modes::Miner
    }

    open spec fn spec_account_id(&self) -> Seq<char> {
        self.account_id@
    }

    fn role(&self) -> Modes {
        Modes::Miner
    }

    fn account_id(&self) -> &String {
        &self.account_id
    }

    fn begin(&self) -> Orchestrator {
        Orchestrator::new(Modes::Miner)
    }
}

/// The arguments of the `hash_miner_answer` query.
pub open spec fn spec_miner_hash_args(miner: Seq<char>, request_id: Seq<char>) -> Seq<
    (Seq<char>, ArgSpec),
> {
    seq![
        ("miner"@, ArgSpec::Str(miner)),
        ("request_id"@, ArgSpec::Str(request_id)),
        ("answer"@, ArgSpec::Bool(MINER_ANSWER)),
        ("message"@, ArgSpec::Str(MINER_MESSAGE@)),
    ]
}

/// The arguments of the `commit_by_miner` transaction: the request and
/// the quote-stripped answer hash the contract returned.
pub open spec fn spec_miner_commit_args(request_id: Seq<char>, answer_hash: Seq<char>) -> Seq<
    (Seq<char>, ArgSpec),
> {
    seq![("request_id"@, ArgSpec::Str(request_id)), ("answer"@, ArgSpec::Str(answer_hash))]
}

/// The arguments of the `reveal_by_miner` transaction: the plaintext
/// answer and its message.
pub open spec fn spec_miner_reveal_args(request_id: Seq<char>) -> Seq<(Seq<char>, ArgSpec)> {
    seq![
        ("request_id"@, ArgSpec::Str(request_id)),
        ("answer"@, ArgSpec::Bool(MINER_ANSWER)),
        ("message"@, ArgSpec::Str(MINER_MESSAGE@)),
    ]
}

impl Miner {
    /// The read-only query that asks the contract to hash this miner's
    /// answer before the commit is submitted.
    pub fn commit_hash_query(&self, event: &GovernanceEvent) -> (r: QueryRequest)
        ensures
            r.contract@ == ACCOUNT_TO_LISTEN@,
            r.method@ == "hash_miner_answer"@,
            r.args@ == spec_miner_hash_args(self.account_id@, event.spec_request_id()),
            r.sender is None,
    {
        let args = arg_obj4(
            "miner",
            arg_string(self.account_id.clone()),
            "request_id",
            arg_string(event.request_id()),
            "answer",
            ArgValue::Bool(MINER_ANSWER),
            "message",
            arg_str(MINER_MESSAGE),
        );
        build_query(ACCOUNT_TO_LISTEN, "hash_miner_answer", args, None)
    }

    /// The commit transaction, built from the raw result of
    /// [`Miner::commit_hash_query`]: quote characters are stripped from
    /// the returned hash, and one sequence number is consumed.
    pub fn commit(
        &self,
        event: &GovernanceEvent,
        answer_hash_raw: &str,
        factory: &TransactionFactory,
        sequencer: &mut NonceSequencer,
    ) -> (r: SignedTransaction)
        requires
            old(sequencer).initialized,
            old(sequencer).sequence < u64::MAX,
        ensures
            allocate_step(*old(sequencer), *final(sequencer), r.action.sequence),
            r.action.reference_hash@ == old(sequencer).reference_hash@,
            r.signer@ == factory.identity.account_id@,
            r.action.contract@ == ACCOUNT_TO_LISTEN@,
            r.action.method@ == "commit_by_miner"@,
            r.action.args@ == spec_miner_commit_args(
                event.spec_request_id(),
                trim_quotes(answer_hash_raw@),
            ),
    {
        let answer_hash = strip_quotes(answer_hash_raw);
        let args = arg_obj2(
            "request_id",
            arg_string(event.request_id()),
            "answer",
            arg_string(answer_hash),
        );
        prepare_transaction(factory, sequencer, ACCOUNT_TO_LISTEN, "commit_by_miner", args)
    }

    /// The reveal transaction: the plaintext answer, consuming one
    /// sequence number.
    pub fn reveal_transaction(
        &self,
        event: &GovernanceEvent,
        factory: &TransactionFactory,
        sequencer: &mut NonceSequencer,
    ) -> (r: SignedTransaction)
        requires
            old(sequencer).initialized,
            old(sequencer).sequence < u64::MAX,
        ensures
            allocate_step(*old(sequencer), *final(sequencer), r.action.sequence),
            r.action.reference_hash@ == old(sequencer).reference_hash@,
            r.signer@ == factory.identity.account_id@,
            r.action.contract@ == ACCOUNT_TO_LISTEN@,
            r.action.method@ == "reveal_by_miner"@,
            r.action.args@ == spec_miner_reveal_args(event.spec_request_id()),
    {
        let args = arg_obj3(
            "request_id",
            arg_string(event.request_id()),
            "answer",
            ArgValue::Bool(MINER_ANSWER),
            "message",
            arg_str(MINER_MESSAGE),
        );
        prepare_transaction(factory, sequencer, ACCOUNT_TO_LISTEN, "reveal_by_miner", args)
    }
}

} // verus!
