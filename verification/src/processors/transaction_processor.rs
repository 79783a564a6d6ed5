//! The capability set shared by the three role processors, and the stage
//! polling they all perform.

use vstd::prelude::*;

use crate::cli::Modes;
use crate::constants::ACCOUNT_TO_LISTEN;
use crate::event::GovernanceEvent;
use crate::orchestrator::{initial_state, Orchestrator, PollResult};
use crate::stage::{interpret_stage, spec_parse_stage, trim_quotes};
use crate::args::{arg_obj1, ArgSpec, ArgValue};
use crate::tx::{build_query, QueryRequest};

verus! {

/// What every role processor offers: its role (which fixes the stages
/// gating its actions), the account it acts as, and a fresh
/// stage-synchronization loop per incoming event. The loop itself treats
/// all roles uniformly; roles that submit nothing in some capacity simply
/// have no phase that would reach it.
pub trait TransactionProcessor: Sized {
    /// The role this processor plays.
    spec fn spec_role(&self) -> Modes;

    /// The account this processor signs and queries as.
    spec fn spec_account_id(&self) -> Seq<char>;

    /// Executable form of [`TransactionProcessor::spec_role`].
    fn role(&self) -> (r: Modes)
        ensures
            r == self.spec_role(),
    ;

    /// The account this processor acts as.
    fn account_id(&self) -> (r: &String)
        ensures
            r@ == self.spec_account_id(),
    ;

    /// A fresh per-event loop: the `process` capability. The driver
    /// feeds it poll and action results until it reports `Done`.
    fn begin(&self) -> (r: Orchestrator)
        ensures
            r.state == initial_state(self.spec_role()),
    ;
}

/// The arguments of the stage query.
pub open spec fn spec_stage_query_args(start_time: u64) -> Seq<(Seq<char>, ArgSpec)> {
    seq![("start_time"@, ArgSpec::UInt(start_time))]
}

/// The stage query every role polls with: `get_stage` on the watched
/// contract, keyed by the event's `start_time`, sent as the processor's
/// account. Its result is never cached: each wait attempt builds and
/// sends it anew.
pub fn stage_query(account_id: &String, event: &GovernanceEvent) -> (r: QueryRequest)
    ensures
        r.contract@ == ACCOUNT_TO_LISTEN@,
        r.method@ == "get_stage"@,
        r.args@ == spec_stage_query_args(event.spec_start_time()),
        r.sender matches Some(s) && s@ == account_id@,
{
    let args = arg_obj1("start_time", ArgValue::UInt(event.start_time()));
    build_query(ACCOUNT_TO_LISTEN, "get_stage", args, Some(account_id.clone()))
}

/// Turns the stage oracle's raw answer — or its transport failure,
/// passed as `None` — into the loop's poll result: quote-stripping
/// normalization, then the closed-enumeration match, with an
/// unrecognized string kept distinct from waiting.
pub fn poll_from_response(raw: Option<&str>) -> (r: PollResult)
    ensures
        raw is None ==> r == PollResult::QueryFailed,
        raw matches Some(s) ==> r == match spec_parse_stage(trim_quotes(s@)) {
            Some(st) => PollResult::Observed(st),
            None => PollResult::Unrecognized,
        },
{
    match raw {
        None => PollResult::QueryFailed,
        Some(s) => match interpret_stage(s) {
            Some(st) => PollResult::Observed(st),
            None => PollResult::Unrecognized,
        },
    }
}

} // verus!
