//! The stage-synchronization loop, one instance per incoming governance
//! event.
//!
//! The loop is a state machine. A wait phase polls the contract's stage;
//! on the target stage it performs the phase's action, on a later stage it
//! skips the event (the window is closed), otherwise it sleeps and retries
//! up to a bounded attempt count. Two-phase roles chain a commit phase and
//! a reveal phase; the aggregator runs a single fetch phase. The driver
//! that performs the network calls owns an [`Orchestrator`] and feeds it
//! one poll result or action result at a time; every decision is taken
//! here.

use vstd::prelude::*;

use crate::cli::Modes;
use crate::constants::MAX_ATTEMPTS;
use crate::stage::{spec_stage_is_later, stage_is_later, Stage};

verus! {

/// One wait phase of one role: which stage it waits for and what it
/// submits when that stage arrives.
#[derive(Copy, Clone, Debug, PartialEq, Eq, Structural)]
pub enum PhaseKind {
    MinerCommit,
    MinerReveal,
    ValidatorCommit,
    ValidatorReveal,
    AggregatorFetch,
}

/// The action a phase submits when its target stage is observed.
#[derive(Copy, Clone, Debug, PartialEq, Eq, Structural)]
pub enum Action {
    Commit,
    Reveal,
    FetchTopVoters,
}

/// The stage a phase waits for.
pub open spec fn phase_target(p: PhaseKind) -> Stage {
    match p {
        PhaseKind::MinerCommit => Stage::CommitMiners,
        PhaseKind::MinerReveal => Stage::RevealMiners,
        PhaseKind::ValidatorCommit => Stage::CommitValidators,
        PhaseKind::ValidatorReveal => Stage::RevealValidators,
        PhaseKind::AggregatorFetch => Stage::Ended,
    }
}

/// Executable form of [`phase_target`].
pub fn phase_target_exec(p: PhaseKind) -> (r: Stage)
    ensures
        r == phase_target(p),
{
    match p {
        PhaseKind::MinerCommit => Stage::CommitMiners,
        PhaseKind::MinerReveal => Stage::RevealMiners,
        PhaseKind::ValidatorCommit => Stage::CommitValidators,
        PhaseKind::ValidatorReveal => Stage::RevealValidators,
        PhaseKind::AggregatorFetch => Stage::Ended,
    }
}

/// The action performed when a phase's target stage is reached.
pub open spec fn phase_action(p: PhaseKind) -> Action {
    match p {
        PhaseKind::MinerCommit => Action::Commit,
        PhaseKind::ValidatorCommit => Action::Commit,
        PhaseKind::MinerReveal => Action::Reveal,
        PhaseKind::ValidatorReveal => Action::Reveal,
        PhaseKind::AggregatorFetch => Action::FetchTopVoters,
    }
}

/// Executable form of [`phase_action`].
pub fn phase_action_exec(p: PhaseKind) -> (r: Action)
    ensures
        r == phase_action(p),
{
    match p {
        PhaseKind::MinerCommit => Action::Commit,
        PhaseKind::ValidatorCommit => Action::Commit,
        PhaseKind::MinerReveal => Action::Reveal,
        PhaseKind::ValidatorReveal => Action::Reveal,
        PhaseKind::AggregatorFetch => Action::FetchTopVoters,
    }
}

/// The phase entered after this phase's action succeeds, if any.
pub open spec fn next_phase(p: PhaseKind) -> Option<PhaseKind> {
    match p {
        PhaseKind::MinerCommit => Some(PhaseKind::MinerReveal),
        PhaseKind::ValidatorCommit => Some(PhaseKind::ValidatorReveal),
        PhaseKind::MinerReveal => None,
        PhaseKind::ValidatorReveal => None,
        PhaseKind::AggregatorFetch => None,
    }
}

/// Stages are monotonic, so a stage past the phase's target means the
/// window this phase waits for is permanently closed.
pub open spec fn spec_window_closed(p: PhaseKind, s: Stage) -> bool {
    spec_stage_is_later(s, phase_target(p))
}

/// Executable form of [`spec_window_closed`].
pub fn window_closed(p: PhaseKind, s: Stage) -> (r: bool)
    ensures
        r == spec_window_closed(p, s),
{
    stage_is_later(s, phase_target_exec(p))
}

/// The first wait phase a role enters.
pub open spec fn first_phase(role: Modes) -> PhaseKind {
    match role {
        Modes::Miner => PhaseKind::MinerCommit,
        Modes::Validator => PhaseKind::ValidatorCommit,
        Modes::Aggregator => PhaseKind::AggregatorFetch,
    }
}

/// Executable form of [`first_phase`].
pub fn first_phase_exec(role: Modes) -> (r: PhaseKind)
    ensures
        r == first_phase(role),
{
    match role {
        Modes::Miner => PhaseKind::MinerCommit,
        Modes::Validator => PhaseKind::ValidatorCommit,
        Modes::Aggregator => PhaseKind::AggregatorFetch,
    }
}

/// What one poll of the stage oracle produced, as the loop sees it.
#[derive(Copy, Clone, Debug, PartialEq, Eq, Structural)]
pub enum PollResult {
    /// The oracle answered with a recognized stage.
    Observed(Stage),
    /// The stage query failed in transport; retried, against the budget.
    QueryFailed,
    /// The oracle answered with a string outside the closed enumeration.
    Unrecognized,
}

/// Why a loop ended without completing.
#[derive(Copy, Clone, Debug, PartialEq, Eq, Structural)]
pub enum LoopFailure {
    /// The oracle reported a stage outside the closed enumeration: a
    /// protocol or version mismatch, surfaced distinctly from waiting.
    UnrecognizedStage,
    /// A commit, reveal or fetch action failed; the error propagates to
    /// the event's driver and the loop performs nothing further.
    ActionFailed,
}

/// Terminal result of processing one event.
#[derive(Copy, Clone, Debug, PartialEq, Eq, Structural)]
pub enum ProcessOutcome {
    /// Every phase of the role reached its target stage and acted.
    Completed,
    /// A wait window had already closed; the event is skipped, not an error.
    Skipped,
    /// The attempt budget ran out while waiting; a non-completion, not an
    /// error.
    Exhausted,
    /// The loop ended on an error condition.
    Failed(LoopFailure),
}

/// The loop's state between two steps.
#[derive(Copy, Clone, Debug, PartialEq, Eq, Structural)]
pub enum LoopState {
    /// About to poll the stage for this phase; `attempts_left` polls remain
    /// in the budget.
    Waiting { phase: PhaseKind, attempts_left: u32 },
    /// The target stage was observed; the phase's action is in flight.
    AwaitingAction { phase: PhaseKind },
    /// The loop is over.
    Finished { outcome: ProcessOutcome },
}

/// What the driver should do next for a given state.
#[derive(Copy, Clone, Debug, PartialEq, Eq, Structural)]
pub enum Directive {
    /// Query the stage oracle and report the result via `on_poll`.
    Poll,
    /// Perform the action and report success or failure via
    /// `on_action_result`.
    Perform(Action),
    /// Stop; the outcome is final.
    Done(ProcessOutcome),
}

/// The state a role's loop starts in.
pub open spec fn initial_state(role: Modes) -> LoopState {
    LoopState::Waiting { phase: first_phase(role), attempts_left: MAX_ATTEMPTS }
}

/// True when this poll result keeps the phase waiting: a recognized stage
/// that neither matches the target nor closes the window, or a transport
/// failure of the query itself. The loop sleeps once for every such poll.
pub open spec fn is_waiting_poll(p: PhaseKind, r: PollResult) -> bool {
    match r {
        PollResult::Observed(s) => s != phase_target(p) && !spec_window_closed(p, s),
        PollResult::QueryFailed => true,
        PollResult::Unrecognized => false,
    }
}

/// Executable form of [`is_waiting_poll`].
pub fn is_waiting_poll_exec(p: PhaseKind, r: PollResult) -> (b: bool)
    ensures
        b == is_waiting_poll(p, r),
{
    match r {
        PollResult::Observed(s) => s != phase_target_exec(p) && !window_closed(p, s),
        PollResult::QueryFailed => true,
        PollResult::Unrecognized => false,
    }
}

/// The state after one poll of the stage oracle while waiting.
pub open spec fn spec_on_poll(st: LoopState, r: PollResult) -> LoopState {
    match st {
        LoopState::Waiting { phase, attempts_left } => match r {
            PollResult::Observed(s) => if s == phase_target(phase) {
                LoopState::AwaitingAction { phase }
            } else if spec_window_closed(phase, s) {
                LoopState::Finished { outcome: ProcessOutcome::Skipped }
            } else if attempts_left <= 1 {
                LoopState::Finished { outcome: ProcessOutcome::Exhausted }
            } else {
                LoopState::Waiting { phase, attempts_left: (attempts_left - 1) as u32 }
            },
            PollResult::QueryFailed => if attempts_left <= 1 {
                LoopState::Finished { outcome: ProcessOutcome::Exhausted }
            } else {
                LoopState::Waiting { phase, attempts_left: (attempts_left - 1) as u32 }
            },
            PollResult::Unrecognized => LoopState::Finished {
                outcome: ProcessOutcome::Failed(LoopFailure::UnrecognizedStage),
            },
        },
        _ => st,
    }
}

/// The state after the in-flight action reports success or failure. A
/// failed action ends the loop at once: only waiting is retried, never a
/// failed mutation.
pub open spec fn spec_on_action(st: LoopState, ok: bool) -> LoopState {
    match st {
        LoopState::AwaitingAction { phase } => if !ok {
            LoopState::Finished { outcome: ProcessOutcome::Failed(LoopFailure::ActionFailed) }
        } else {
            match next_phase(phase) {
                Some(p2) => LoopState::Waiting { phase: p2, attempts_left: MAX_ATTEMPTS },
                None => LoopState::Finished { outcome: ProcessOutcome::Completed },
            }
        },
        _ => st,
    }
}

/// The driver's next step in a given state.
pub open spec fn spec_directive(st: LoopState) -> Directive {
    match st {
        LoopState::Waiting { .. } => Directive::Poll,
        LoopState::AwaitingAction { phase } => Directive::Perform(phase_action(phase)),
        LoopState::Finished { outcome } => Directive::Done(outcome),
    }
}

/// How many actions of each kind a run performed, and how often it slept.
pub struct RunTally {
    pub commits: nat,
    pub reveals: nat,
    pub fetches: nat,
    pub sleeps: nat,
}

pub open spec fn tally_zero() -> RunTally {
    RunTally { commits: 0, reveals: 0, fetches: 0, sleeps: 0 }
}

pub open spec fn tally_plus_action(t: RunTally, a: Action) -> RunTally {
    match a {
        Action::Commit => RunTally { commits: t.commits + 1, ..t },
        Action::Reveal => RunTally { reveals: t.reveals + 1, ..t },
        Action::FetchTopVoters => RunTally { fetches: t.fetches + 1, ..t },
    }
}

pub open spec fn tally_plus_sleeps(t: RunTally, k: nat) -> RunTally {
    RunTally { sleeps: t.sleeps + k, ..t }
}

/// A whole run of the loop over a trace: `polls` are the successive stage
/// oracle results, `acts` the successive action results. The run stops at
/// a finished state, or when the side of the trace it needs next is empty.
pub open spec fn spec_run(st: LoopState, polls: Seq<PollResult>, acts: Seq<bool>) -> (
    LoopState,
    RunTally,
)
    decreases polls.len() + acts.len(),
{
    match st {
        LoopState::Waiting { phase, attempts_left } => {
            if polls.len() == 0 {
                (st, tally_zero())
            } else {
                let rest = spec_run(spec_on_poll(st, polls[0]), polls.drop_first(), acts);
                if is_waiting_poll(phase, polls[0]) {
                    (rest.0, tally_plus_sleeps(rest.1, 1))
                } else {
                    rest
                }
            }
        },
        LoopState::AwaitingAction { phase } => {
            if acts.len() == 0 {
                (st, tally_zero())
            } else {
                let rest = spec_run(spec_on_action(st, acts[0]), polls, acts.drop_first());
                (rest.0, tally_plus_action(rest.1, phase_action(phase)))
            }
        },
        LoopState::Finished { .. } => (st, tally_zero()),
    }
}

/// While the first `k` polls of the trace keep the phase waiting and do
/// not exhaust the budget, the loop only sleeps: the run continues from
/// the same phase with `k` fewer attempts and `k` more sleeps.
pub proof fn lemma_run_wait_prefix(
    phase: PhaseKind,
    attempts_left: u32,
    polls: Seq<PollResult>,
    acts: Seq<bool>,
    k: int,
)
    requires
        0 <= k <= polls.len(),
        k < attempts_left,
        forall|t: int| 0 <= t < k ==> is_waiting_poll(phase, #[trigger] polls[t]),
    ensures
        spec_run(LoopState::Waiting { phase, attempts_left }, polls, acts).0 == spec_run(
            LoopState::Waiting { phase, attempts_left: (attempts_left - k) as u32 },
            polls.skip(k),
            acts,
        ).0,
        spec_run(LoopState::Waiting { phase, attempts_left }, polls, acts).1 == tally_plus_sleeps(
            spec_run(
                LoopState::Waiting { phase, attempts_left: (attempts_left - k) as u32 },
                polls.skip(k),
                acts,
            ).1,
            k as nat,
        ),
    decreases k,
{
    if k == 0 {
        assert(polls.skip(0) =~= polls);
        let r = spec_run(LoopState::Waiting { phase, attempts_left }, polls, acts);
        assert(tally_plus_sleeps(r.1, 0) == r.1);
    } else {
        assert(is_waiting_poll(phase, polls[0]));
        let st2 = spec_on_poll(LoopState::Waiting { phase, attempts_left }, polls[0]);
        assert(st2 == LoopState::Waiting {
            phase,
            attempts_left: (attempts_left - 1) as u32,
        });
        let tail = polls.drop_first();
        assert forall|t: int| 0 <= t < k - 1 implies is_waiting_poll(
            phase,
            #[trigger] tail[t],
        ) by {
            assert(tail[t] == polls[t + 1]);
        }
        lemma_run_wait_prefix(phase, (attempts_left - 1) as u32, tail, acts, k - 1);
        assert(tail.skip(k - 1) =~= polls.skip(k));
    }
}

/// A wait phase whose whole attempt budget is consumed by waiting polls
/// ends `Exhausted`, sleeping once per poll and acting not at all.
pub proof fn lemma_run_exhaustion(
    phase: PhaseKind,
    attempts_left: u32,
    polls: Seq<PollResult>,
    acts: Seq<bool>,
)
    requires
        1 <= attempts_left,
        attempts_left <= polls.len(),
        forall|t: int| 0 <= t < attempts_left ==> is_waiting_poll(phase, #[trigger] polls[t]),
    ensures
        spec_run(LoopState::Waiting { phase, attempts_left }, polls, acts).0 == (
        LoopState::Finished { outcome: ProcessOutcome::Exhausted }),
        spec_run(LoopState::Waiting { phase, attempts_left }, polls, acts).1 == tally_plus_sleeps(
            tally_zero(),
            attempts_left as nat,
        ),
{
    let k = attempts_left - 1;
    lemma_run_wait_prefix(phase, attempts_left, polls, acts, k);
    let rem = polls.skip(k);
    assert(rem.len() >= 1);
    assert(rem[0] == polls[k]);
    assert(is_waiting_poll(phase, polls[k]));
    let st1 = LoopState::Waiting { phase, attempts_left: 1u32 };
    let st2 = spec_on_poll(st1, rem[0]);
    assert(st2 == (LoopState::Finished { outcome: ProcessOutcome::Exhausted }));
    assert(spec_run(st2, rem.drop_first(), acts) == (st2, tally_zero()));
    assert(spec_run(st1, rem, acts).0 == st2);
    assert(spec_run(st1, rem, acts).1 == tally_plus_sleeps(tally_zero(), 1));
    assert((attempts_left - k) as u32 == 1u32);
}

/// For any role: a whole budget of polls that all keep the role's first
/// phase waiting — a stage that never matches and never closes the window,
/// or failing queries — exhausts the loop without error and without any
/// action, sleeping once per poll.
pub proof fn lemma_exhausted_after_max_attempts(
    role: Modes,
    polls: Seq<PollResult>,
    acts: Seq<bool>,
)
    requires
        polls.len() >= MAX_ATTEMPTS,
        forall|t: int|
            0 <= t < MAX_ATTEMPTS ==> is_waiting_poll(first_phase(role), #[trigger] polls[t]),
    ensures
        spec_run(initial_state(role), polls, acts).0 == (LoopState::Finished {
            outcome: ProcessOutcome::Exhausted,
        }),
        spec_run(initial_state(role), polls, acts).1.commits == 0,
        spec_run(initial_state(role), polls, acts).1.reveals == 0,
        spec_run(initial_state(role), polls, acts).1.fetches == 0,
        spec_run(initial_state(role), polls, acts).1.sleeps == MAX_ATTEMPTS,
{
    lemma_run_exhaustion(first_phase(role), MAX_ATTEMPTS, polls, acts);
}

/// A role whose very first poll observes a stage past its first phase's
/// target skips the event at once: no action is performed and nothing is
/// slept. For a miner this says a commit window that has already passed
/// yields `Skipped` with zero commits and zero reveals.
pub proof fn lemma_closed_window_skips(
    role: Modes,
    polls: Seq<PollResult>,
    acts: Seq<bool>,
    s: Stage,
)
    requires
        polls.len() >= 1,
        polls[0] == PollResult::Observed(s),
        spec_window_closed(first_phase(role), s),
    ensures
        spec_run(initial_state(role), polls, acts).0 == (LoopState::Finished {
            outcome: ProcessOutcome::Skipped,
        }),
        spec_run(initial_state(role), polls, acts).1 == tally_zero(),
{
    let st2 = spec_on_poll(initial_state(role), polls[0]);
    assert(st2 == (LoopState::Finished { outcome: ProcessOutcome::Skipped }));
    assert(spec_run(st2, polls.drop_first(), acts) == (st2, tally_zero()));
    assert(!is_waiting_poll(first_phase(role), polls[0]));
    assert(spec_run(initial_state(role), polls, acts) == spec_run(st2, polls.drop_first(), acts));
}

/// A miner that observes the commit window after some waiting, commits
/// successfully, then observes the reveal window after some more waiting
/// and reveals successfully, completes with exactly one commit and exactly
/// one reveal, whatever the oracle would have answered afterwards.
pub proof fn lemma_miner_commit_reveal_completes(
    polls: Seq<PollResult>,
    w1: Seq<PollResult>,
    w2: Seq<PollResult>,
    rest: Seq<PollResult>,
    acts: Seq<bool>,
)
    requires
        polls == w1 + seq![PollResult::Observed(Stage::CommitMiners)] + w2 + seq![
            PollResult::Observed(Stage::RevealMiners),
        ] + rest,
        w1.len() < MAX_ATTEMPTS,
        w2.len() < MAX_ATTEMPTS,
        forall|t: int|
            0 <= t < w1.len() ==> is_waiting_poll(PhaseKind::MinerCommit, #[trigger] w1[t]),
        forall|t: int|
            0 <= t < w2.len() ==> is_waiting_poll(PhaseKind::MinerReveal, #[trigger] w2[t]),
        acts.len() >= 2,
        acts[0] == true,
        acts[1] == true,
    ensures
        spec_run(initial_state(Modes::Miner), polls, acts).0 == (LoopState::Finished {
            outcome: ProcessOutcome::Completed,
        }),
        spec_run(initial_state(Modes::Miner), polls, acts).1.commits == 1,
        spec_run(initial_state(Modes::Miner), polls, acts).1.reveals == 1,
        spec_run(initial_state(Modes::Miner), polls, acts).1.fetches == 0,
        spec_run(initial_state(Modes::Miner), polls, acts).1.sleeps == w1.len() + w2.len(),
{
    let n1 = w1.len() as int;
    let n2 = w2.len() as int;
    assert forall|t: int| 0 <= t < n1 implies is_waiting_poll(
        PhaseKind::MinerCommit,
        #[trigger] polls[t],
    ) by {
        assert(polls[t] == w1[t]);
    }
    lemma_run_wait_prefix(PhaseKind::MinerCommit, MAX_ATTEMPTS, polls, acts, n1);
    let rem1 = polls.skip(n1);
    assert(rem1[0] == polls[n1]);
    assert(polls[n1] == PollResult::Observed(Stage::CommitMiners));
    let a1 = (MAX_ATTEMPTS - n1) as u32;
    let w_commit = LoopState::Waiting { phase: PhaseKind::MinerCommit, attempts_left: a1 };
    let st_commit = spec_on_poll(w_commit, rem1[0]);
    assert(st_commit == (LoopState::AwaitingAction { phase: PhaseKind::MinerCommit }));
    let st_reveal_wait = spec_on_action(st_commit, acts[0]);
    assert(st_reveal_wait == LoopState::Waiting {
        phase: PhaseKind::MinerReveal,
        attempts_left: MAX_ATTEMPTS,
    });
    let rem2 = rem1.drop_first();
    let acts2 = acts.drop_first();
    assert(rem1.len() >= 1);
    assert(!is_waiting_poll(PhaseKind::MinerCommit, rem1[0]));
    assert(spec_run(w_commit, rem1, acts) == spec_run(st_commit, rem2, acts));
    assert(spec_run(st_commit, rem2, acts).0 == spec_run(st_reveal_wait, rem2, acts2).0);
    assert(spec_run(st_commit, rem2, acts).1 == tally_plus_action(
        spec_run(st_reveal_wait, rem2, acts2).1,
        Action::Commit,
    ));
    assert(rem2 =~= w2 + seq![PollResult::Observed(Stage::RevealMiners)] + rest);
    assert forall|t: int| 0 <= t < n2 implies is_waiting_poll(
        PhaseKind::MinerReveal,
        #[trigger] rem2[t],
    ) by {
        assert(rem2[t] == w2[t]);
    }
    lemma_run_wait_prefix(PhaseKind::MinerReveal, MAX_ATTEMPTS, rem2, acts2, n2);
    let rem3 = rem2.skip(n2);
    assert(rem3.len() >= 1);
    assert(rem3[0] == rem2[n2]);
    assert(rem2[n2] == PollResult::Observed(Stage::RevealMiners));
    let a2 = (MAX_ATTEMPTS - n2) as u32;
    let w_reveal = LoopState::Waiting { phase: PhaseKind::MinerReveal, attempts_left: a2 };
    let st_reveal = spec_on_poll(w_reveal, rem3[0]);
    assert(st_reveal == (LoopState::AwaitingAction { phase: PhaseKind::MinerReveal }));
    assert(acts2.len() >= 1);
    assert(acts2[0] == acts[1]);
    let st_done = spec_on_action(st_reveal, acts2[0]);
    assert(st_done == (LoopState::Finished { outcome: ProcessOutcome::Completed }));
    let rem4 = rem3.drop_first();
    let acts3 = acts2.drop_first();
    assert(!is_waiting_poll(PhaseKind::MinerReveal, rem3[0]));
    assert(spec_run(w_reveal, rem3, acts2) == spec_run(st_reveal, rem4, acts2));
    assert(spec_run(st_done, rem4, acts3) == (st_done, tally_zero()));
    assert(spec_run(st_reveal, rem4, acts2).0 == st_done);
    assert(spec_run(st_reveal, rem4, acts2).1 == tally_plus_action(
        tally_zero(),
        Action::Reveal,
    ));
}

/// An aggregator that watches the stage progress through every phase to
/// `Ended` performs exactly one top-voters fetch and completes, having
/// slept once per poll that preceded `Ended`.
pub proof fn lemma_aggregator_full_progression(polls: Seq<PollResult>, acts: Seq<bool>)
    requires
        polls == seq![
            PollResult::Observed(Stage::CommitMiners),
            PollResult::Observed(Stage::RevealMiners),
            PollResult::Observed(Stage::CommitValidators),
            PollResult::Observed(Stage::RevealValidators),
            PollResult::Observed(Stage::Ended),
        ],
        acts.len() >= 1,
        acts[0] == true,
    ensures
        spec_run(initial_state(Modes::Aggregator), polls, acts).0 == (LoopState::Finished {
            outcome: ProcessOutcome::Completed,
        }),
        spec_run(initial_state(Modes::Aggregator), polls, acts).1.commits == 0,
        spec_run(initial_state(Modes::Aggregator), polls, acts).1.reveals == 0,
        spec_run(initial_state(Modes::Aggregator), polls, acts).1.fetches == 1,
        spec_run(initial_state(Modes::Aggregator), polls, acts).1.sleeps == 4,
{
    assert forall|t: int| 0 <= t < 4 implies is_waiting_poll(
        PhaseKind::AggregatorFetch,
        #[trigger] polls[t],
    ) by {
        assert(polls[0] == PollResult::Observed(Stage::CommitMiners));
        assert(polls[1] == PollResult::Observed(Stage::RevealMiners));
        assert(polls[2] == PollResult::Observed(Stage::CommitValidators));
        assert(polls[3] == PollResult::Observed(Stage::RevealValidators));
    }
    lemma_run_wait_prefix(PhaseKind::AggregatorFetch, MAX_ATTEMPTS, polls, acts, 4);
    let rem = polls.skip(4);
    assert(rem.len() >= 1);
    assert(rem[0] == polls[4]);
    assert(polls[4] == PollResult::Observed(Stage::Ended));
    let a1 = (MAX_ATTEMPTS - 4) as u32;
    let w_fetch = LoopState::Waiting { phase: PhaseKind::AggregatorFetch, attempts_left: a1 };
    let st_fetch = spec_on_poll(w_fetch, rem[0]);
    assert(st_fetch == (LoopState::AwaitingAction { phase: PhaseKind::AggregatorFetch }));
    let st_done = spec_on_action(st_fetch, acts[0]);
    assert(st_done == (LoopState::Finished { outcome: ProcessOutcome::Completed }));
    let rem2 = rem.drop_first();
    let acts2 = acts.drop_first();
    assert(!is_waiting_poll(PhaseKind::AggregatorFetch, rem[0]));
    assert(spec_run(w_fetch, rem, acts) == spec_run(st_fetch, rem2, acts));
    assert(spec_run(st_done, rem2, acts2) == (st_done, tally_zero()));
    assert(spec_run(st_fetch, rem2, acts).0 == st_done);
    assert(spec_run(st_fetch, rem2, acts).1 == tally_plus_action(
        tally_zero(),
        Action::FetchTopVoters,
    ));
}

/// How many commits a run continuing from this state can still perform.
pub open spec fn commit_capacity(st: LoopState) -> nat {
    match st {
        LoopState::Waiting { phase, .. } => match phase {
            PhaseKind::MinerCommit | PhaseKind::ValidatorCommit => 1,
            _ => 0,
        },
        LoopState::AwaitingAction { phase } => match phase {
            PhaseKind::MinerCommit | PhaseKind::ValidatorCommit => 1,
            _ => 0,
        },
        LoopState::Finished { .. } => 0,
    }
}

/// How many reveals a run continuing from this state can still perform.
pub open spec fn reveal_capacity(st: LoopState) -> nat {
    match st {
        LoopState::Waiting { phase, .. } => match phase {
            PhaseKind::AggregatorFetch => 0,
            _ => 1,
        },
        LoopState::AwaitingAction { phase } => match phase {
            PhaseKind::AggregatorFetch => 0,
            _ => 1,
        },
        LoopState::Finished { .. } => 0,
    }
}

/// How many fetches a run continuing from this state can still perform.
pub open spec fn fetch_capacity(st: LoopState) -> nat {
    match st {
        LoopState::Waiting { phase, .. } => match phase {
            PhaseKind::AggregatorFetch => 1,
            _ => 0,
        },
        LoopState::AwaitingAction { phase } => match phase {
            PhaseKind::AggregatorFetch => 1,
            _ => 0,
        },
        LoopState::Finished { .. } => 0,
    }
}

/// Whatever trace the oracle and the network produce, a run performs each
/// phase's action at most once, and from a commit phase a reveal is only
/// ever performed after the commit was: a transaction is built at most
/// once per phase window.
pub proof fn lemma_actions_at_most_once(st: LoopState, polls: Seq<PollResult>, acts: Seq<bool>)
    ensures
        spec_run(st, polls, acts).1.commits <= commit_capacity(st),
        spec_run(st, polls, acts).1.reveals <= reveal_capacity(st),
        spec_run(st, polls, acts).1.fetches <= fetch_capacity(st),
        commit_capacity(st) == 1 ==> spec_run(st, polls, acts).1.reveals <= spec_run(
            st,
            polls,
            acts,
        ).1.commits,
    decreases polls.len() + acts.len(),
{
    match st {
        LoopState::Waiting { .. } => {
            if polls.len() > 0 {
                lemma_actions_at_most_once(spec_on_poll(st, polls[0]), polls.drop_first(), acts);
            }
        },
        LoopState::AwaitingAction { .. } => {
            if acts.len() > 0 {
                lemma_actions_at_most_once(spec_on_action(st, acts[0]), polls, acts.drop_first());
            }
        },
        LoopState::Finished { .. } => {},
    }
}

/// The whole-run corollary for each role, from its initial state: a
/// two-phase role commits at most once and reveals at most once, never
/// before its commit, and never fetches; the aggregator only ever
/// fetches, at most once.
pub proof fn lemma_role_actions_at_most_once(role: Modes, polls: Seq<PollResult>, acts: Seq<bool>)
    ensures
        spec_run(initial_state(role), polls, acts).1.commits <= 1,
        spec_run(initial_state(role), polls, acts).1.reveals <= 1,
        spec_run(initial_state(role), polls, acts).1.fetches <= 1,
        role != Modes::Aggregator ==> spec_run(initial_state(role), polls, acts).1.reveals
            <= spec_run(initial_state(role), polls, acts).1.commits,
        role != Modes::Aggregator ==> spec_run(initial_state(role), polls, acts).1.fetches == 0,
        role == Modes::Aggregator ==> spec_run(initial_state(role), polls, acts).1.commits == 0
            && spec_run(initial_state(role), polls, acts).1.reveals == 0,
{
    lemma_actions_at_most_once(initial_state(role), polls, acts);
}

/// The per-event stage-synchronization state machine. The driver performs
/// the network calls and sleeps; this machine takes every decision.
pub struct Orchestrator {
    pub state: LoopState,
}

impl Orchestrator {
    /// A fresh loop for one incoming event, for the given role.
    pub fn new(role: Modes) -> (r: Orchestrator)
        ensures
            r.state == initial_state(role),
    {
        Orchestrator {
            state: LoopState::Waiting {
                phase: first_phase_exec(role),
                attempts_left: MAX_ATTEMPTS,
            },
        }
    }

    /// What the driver should do next.
    pub fn next_directive(&self) -> (d: Directive)
        ensures
            d == spec_directive(self.state),
    {
        match self.state {
            LoopState::Waiting { .. } => Directive::Poll,
            LoopState::AwaitingAction { phase } => Directive::Perform(phase_action_exec(phase)),
            LoopState::Finished { outcome } => Directive::Done(outcome),
        }
    }

    /// Feed the result of one stage poll.
    pub fn on_poll(&mut self, r: PollResult)
        requires
            old(self).state is Waiting,
        ensures
            final(self).state == spec_on_poll(old(self).state, r),
    {
        let (phase, attempts_left) = match self.state {
            LoopState::Waiting { phase, attempts_left } => (phase, attempts_left),
            _ => { return ; },
        };
        match r {
            PollResult::Observed(s) => {
                if s == phase_target_exec(phase) {
                    self.state = LoopState::AwaitingAction { phase };
                } else if window_closed(phase, s) {
                    self.state = LoopState::Finished { outcome: ProcessOutcome::Skipped };
                } else if attempts_left <= 1 {
                    self.state = LoopState::Finished { outcome: ProcessOutcome::Exhausted };
                } else {
                    self.state = LoopState::Waiting { phase, attempts_left: attempts_left - 1 };
                }
            },
            PollResult::QueryFailed => {
                if attempts_left <= 1 {
                    self.state = LoopState::Finished { outcome: ProcessOutcome::Exhausted };
                } else {
                    self.state = LoopState::Waiting { phase, attempts_left: attempts_left - 1 };
                }
            },
            PollResult::Unrecognized => {
                self.state = LoopState::Finished {
                    outcome: ProcessOutcome::Failed(LoopFailure::UnrecognizedStage),
                };
            },
        }
    }

    /// Feed the result of the in-flight commit, reveal or fetch action.
    pub fn on_action_result(&mut self, ok: bool)
        requires
            old(self).state is AwaitingAction,
        ensures
            final(self).state == spec_on_action(old(self).state, ok),
    {
        let phase = match self.state {
            LoopState::AwaitingAction { phase } => phase,
            _ => { return ; },
        };
        if !ok {
            self.state = LoopState::Finished {
                outcome: ProcessOutcome::Failed(LoopFailure::ActionFailed),
            };
        } else {
            match phase {
                PhaseKind::MinerCommit => {
                    self.state = LoopState::Waiting {
                        phase: PhaseKind::MinerReveal,
                        attempts_left: MAX_ATTEMPTS,
                    };
                },
                PhaseKind::ValidatorCommit => {
                    self.state = LoopState::Waiting {
                        phase: PhaseKind::ValidatorReveal,
                        attempts_left: MAX_ATTEMPTS,
                    };
                },
                _ => {
                    self.state = LoopState::Finished { outcome: ProcessOutcome::Completed };
                },
            }
        }
    }
}

/// Counts observed over one executed run of the loop.
#[derive(Copy, Clone, Debug, PartialEq, Eq, Structural)]
pub struct RunStats {
    pub commits: usize,
    pub reveals: usize,
    pub fetches: usize,
    pub sleeps: usize,
}

/// Runs a role's whole loop over a recorded trace of poll results and
/// action results, and reports the final state together with how many
/// actions of each kind were performed and how often the loop slept.
pub fn run_trace(role: Modes, polls: &Vec<PollResult>, acts: &Vec<bool>) -> (r: (
    LoopState,
    RunStats,
))
    ensures
        r.0 == spec_run(initial_state(role), polls@, acts@).0,
        r.1.commits as nat == spec_run(initial_state(role), polls@, acts@).1.commits,
        r.1.reveals as nat == spec_run(initial_state(role), polls@, acts@).1.reveals,
        r.1.fetches as nat == spec_run(initial_state(role), polls@, acts@).1.fetches,
        r.1.sleeps as nat == spec_run(initial_state(role), polls@, acts@).1.sleeps,
{
    let mut m = Orchestrator::new(role);
    let mut pi: usize = 0;
    let mut ai: usize = 0;
    let mut commits: usize = 0;
    let mut reveals: usize = 0;
    let mut fetches: usize = 0;
    let mut sleeps: usize = 0;
    let ghost goal = spec_run(initial_state(role), polls@, acts@);
    proof {
        assert(polls@.skip(0) =~= polls@);
        assert(acts@.skip(0) =~= acts@);
    }
    loop
        invariant
            pi <= polls@.len(),
            ai <= acts@.len(),
            sleeps <= pi,
            commits + reveals + fetches <= ai,
            goal == spec_run(initial_state(role), polls@, acts@),
            goal.0 == spec_run(m.state, polls@.skip(pi as int), acts@.skip(ai as int)).0,
            goal.1.commits == commits + spec_run(
                m.state,
                polls@.skip(pi as int),
                acts@.skip(ai as int),
            ).1.commits,
            goal.1.reveals == reveals + spec_run(
                m.state,
                polls@.skip(pi as int),
                acts@.skip(ai as int),
            ).1.reveals,
            goal.1.fetches == fetches + spec_run(
                m.state,
                polls@.skip(pi as int),
                acts@.skip(ai as int),
            ).1.fetches,
            goal.1.sleeps == sleeps + spec_run(
                m.state,
                polls@.skip(pi as int),
                acts@.skip(ai as int),
            ).1.sleeps,
        ensures
            spec_run(m.state, polls@.skip(pi as int), acts@.skip(ai as int)) == (
                m.state,
                tally_zero(),
            ),
        decreases polls@.len() - pi + acts@.len() - ai,
    {
        match m.next_directive() {
            Directive::Poll => {
                if pi < polls.len() {
                    let p = polls[pi];
                    let phase = match m.state {
                        LoopState::Waiting { phase, .. } => phase,
                        _ => PhaseKind::MinerCommit,
                    };
                    proof {
                        assert(polls@.skip(pi as int).drop_first() =~= polls@.skip(pi as int + 1));
                        assert(polls@.skip(pi as int)[0] == polls@[pi as int]);
                    }
                    let w = is_waiting_poll_exec(phase, p);
                    m.on_poll(p);
                    pi = pi + 1;
                    if w {
                        sleeps = sleeps + 1;
                    }
                } else {
                    break ;
                }
            },
            Directive::Perform(a) => {
                if ai < acts.len() {
                    proof {
                        assert(acts@.skip(ai as int).drop_first() =~= acts@.skip(ai as int + 1));
                        assert(acts@.skip(ai as int)[0] == acts@[ai as int]);
                    }
                    match a {
                        Action::Commit => {
                            commits = commits + 1;
                        },
                        Action::Reveal => {
                            reveals = reveals + 1;
                        },
                        Action::FetchTopVoters => {
                            fetches = fetches + 1;
                        },
                    }
                    let ok = acts[ai];
                    m.on_action_result(ok);
                    ai = ai + 1;
                } else {
                    break ;
                }
            },
            Directive::Done(_) => {
                break ;
            },
        }
    }
    (
        m.state,
        RunStats { commits, reveals, fetches, sleeps },
    )
}

} // verus!
