//! The aggregator role: waits for a request to reach `Ended`, then
//! fetches its top-ranked voters. It submits no commit and no reveal;
//! its single phase never emits those actions, so the shared loop treats
//! it uniformly with the two-phase roles.

use vstd::prelude::*;

use super::transaction_processor::TransactionProcessor;
use crate::args::{arg_obj1, arg_string, ArgSpec};
use crate::cli::Modes;
use crate::constants::ACCOUNT_TO_LISTEN;
use crate::event::GovernanceEvent;
use crate::orchestrator::Orchestrator;
use crate::tx::{build_query, QueryRequest};

verus! {

/// An aggregator's configuration: the identity it acts as and the
/// endpoint its driver talks to.
pub struct Aggregator {
    pub account_id: String,
    pub private_key: String,
    pub rpc_url: String,
}

impl Aggregator {
    pub fn new(account_id: String, private_key: String, rpc_url: String) -> (r: Aggregator)
        ensures
            r.account_id == account_id,
            r.private_key == private_key,
            r.rpc_url == rpc_url,
    {
        Aggregator { account_id, private_key, rpc_url }
    }
}

impl TransactionProcessor for Aggregator {
    open spec fn spec_role(&self) -> Modes {
        Modes::Aggregator
    }

    open spec fn spec_account_id(&self) -> Seq<char> {
        self.account_id@
    }

    fn role(&self) -> Modes {
        Modes::Aggregator
    }

    fn account_id(&self) -> &String {
        &self.account_id
    }

    fn begin(&self) -> Orchestrator {
        Orchestrator::new(Modes::Aggregator)
    }
}

/// The arguments of the `get_top_10_voters` fetch.
pub open spec fn spec_top_ten_args(request_id: Seq<char>) -> Seq<(Seq<char>, ArgSpec)> {
    seq![("request_id"@, ArgSpec::Str(request_id))]
}

/// The single fetch the aggregator performs once a request has `Ended`:
/// the top-ranked voters for the request, read as the aggregator's
/// account.
pub fn obtain_top_ten(aggregator: &Aggregator, event: &GovernanceEvent) -> (r: QueryRequest)
    ensures
        r.contract@ == ACCOUNT_TO_LISTEN@,
        r.method@ == "get_top_10_voters"@,
        r.args@ == spec_top_ten_args(event.spec_request_id()),
        r.sender matches Some(s) && s@ == aggregator.account_id@,
{
    let args = arg_obj1("request_id", arg_string(event.request_id()));
    build_query(ACCOUNT_TO_LISTEN, "get_top_10_voters", args, Some(aggregator.account_id.clone()))
}

} // verus!
