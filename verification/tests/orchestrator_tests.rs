use earthmind_client::cli::Modes;
use earthmind_client::orchestrator::{
    run_trace, Action, Directive, LoopFailure, LoopState, Orchestrator, PollResult,
    ProcessOutcome,
};
use earthmind_client::stage::Stage;

fn observed(s: Stage) -> PollResult {
    PollResult::Observed(s)
}

#[test]
fn miner_commits_then_reveals_then_completes() {
    let polls = vec![
        observed(Stage::CommitMiners),
        observed(Stage::RevealMiners),
        observed(Stage::CommitValidators),
    ];
    let acts = vec![true, true];
    let (state, stats) = run_trace(Modes::Miner, &polls, &acts);
    assert_eq!(state, LoopState::Finished { outcome: ProcessOutcome::Completed });
    assert_eq!(stats.commits, 1);
    assert_eq!(stats.reveals, 1);
    assert_eq!(stats.fetches, 0);
    assert_eq!(stats.sleeps, 0);
}

#[test]
fn miner_with_waiting_polls_still_completes_once() {
    let polls = vec![
        observed(Stage::NonStarted),
        observed(Stage::NonStarted),
        observed(Stage::CommitMiners),
        observed(Stage::CommitMiners),
        observed(Stage::RevealMiners),
    ];
    let acts = vec![true, true];
    let (state, stats) = run_trace(Modes::Miner, &polls, &acts);
    assert_eq!(state, LoopState::Finished { outcome: ProcessOutcome::Completed });
    assert_eq!(stats.commits, 1);
    assert_eq!(stats.reveals, 1);
    assert_eq!(stats.sleeps, 3);
}

#[test]
fn miner_skips_when_commit_window_already_passed() {
    let polls = vec![observed(Stage::RevealMiners)];
    let acts: Vec<bool> = vec![];
    let (state, stats) = run_trace(Modes::Miner, &polls, &acts);
    assert_eq!(state, LoopState::Finished { outcome: ProcessOutcome::Skipped });
    assert_eq!(stats.commits, 0);
    assert_eq!(stats.reveals, 0);
    assert_eq!(stats.sleeps, 0);
}

#[test]
fn every_role_exhausts_after_thirty_nonmatching_polls() {
    for role in [Modes::Miner, Modes::Validator, Modes::Aggregator] {
        let polls = vec![observed(Stage::NonStarted); 30];
        let acts: Vec<bool> = vec![];
        let (state, stats) = run_trace(role, &polls, &acts);
        assert_eq!(state, LoopState::Finished { outcome: ProcessOutcome::Exhausted });
        assert_eq!(stats.commits, 0);
        assert_eq!(stats.reveals, 0);
        assert_eq!(stats.fetches, 0);
        assert_eq!(stats.sleeps, 30);
    }
}

#[test]
fn failed_queries_count_toward_the_attempt_budget() {
    let polls = vec![PollResult::QueryFailed; 30];
    let acts: Vec<bool> = vec![];
    let (state, stats) = run_trace(Modes::Miner, &polls, &acts);
    assert_eq!(state, LoopState::Finished { outcome: ProcessOutcome::Exhausted });
    assert_eq!(stats.sleeps, 30);
}

#[test]
fn aggregator_fetches_exactly_once_over_full_progression() {
    let polls = vec![
        observed(Stage::CommitMiners),
        observed(Stage::RevealMiners),
        observed(Stage::CommitValidators),
        observed(Stage::RevealValidators),
        observed(Stage::Ended),
    ];
    let acts = vec![true];
    let (state, stats) = run_trace(Modes::Aggregator, &polls, &acts);
    assert_eq!(state, LoopState::Finished { outcome: ProcessOutcome::Completed });
    assert_eq!(stats.fetches, 1);
    assert_eq!(stats.commits, 0);
    assert_eq!(stats.reveals, 0);
    assert_eq!(stats.sleeps, 4);
}

#[test]
fn validator_gates_on_validator_stages() {
    let polls = vec![
        observed(Stage::RevealMiners),
        observed(Stage::CommitValidators),
        observed(Stage::RevealValidators),
    ];
    let acts = vec![true, true];
    let (state, stats) = run_trace(Modes::Validator, &polls, &acts);
    assert_eq!(state, LoopState::Finished { outcome: ProcessOutcome::Completed });
    assert_eq!(stats.commits, 1);
    assert_eq!(stats.reveals, 1);
    assert_eq!(stats.sleeps, 1);
}

#[test]
fn validator_skips_when_its_windows_are_gone() {
    let polls = vec![observed(Stage::Ended)];
    let acts: Vec<bool> = vec![];
    let (state, stats) = run_trace(Modes::Validator, &polls, &acts);
    assert_eq!(state, LoopState::Finished { outcome: ProcessOutcome::Skipped });
    assert_eq!(stats.commits, 0);
}

#[test]
fn unrecognized_stage_fails_distinctly() {
    let polls = vec![PollResult::Unrecognized];
    let acts: Vec<bool> = vec![];
    let (state, stats) = run_trace(Modes::Miner, &polls, &acts);
    assert_eq!(
        state,
        LoopState::Finished { outcome: ProcessOutcome::Failed(LoopFailure::UnrecognizedStage) }
    );
    assert_eq!(stats.sleeps, 0);
}

#[test]
fn failed_action_ends_the_loop_without_retry() {
    let polls = vec![observed(Stage::CommitMiners), observed(Stage::RevealMiners)];
    let acts = vec![false];
    let (state, stats) = run_trace(Modes::Miner, &polls, &acts);
    assert_eq!(
        state,
        LoopState::Finished { outcome: ProcessOutcome::Failed(LoopFailure::ActionFailed) }
    );
    assert_eq!(stats.commits, 1);
    assert_eq!(stats.reveals, 0);
}

#[test]
fn machine_directives_drive_a_miner_step_by_step() {
    let mut m = Orchestrator::new(Modes::Miner);
    assert_eq!(m.next_directive(), Directive::Poll);
    m.on_poll(PollResult::Observed(Stage::CommitMiners));
    assert_eq!(m.next_directive(), Directive::Perform(Action::Commit));
    m.on_action_result(true);
    assert_eq!(m.next_directive(), Directive::Poll);
    m.on_poll(PollResult::Observed(Stage::RevealMiners));
    assert_eq!(m.next_directive(), Directive::Perform(Action::Reveal));
    m.on_action_result(true);
    assert_eq!(m.next_directive(), Directive::Done(ProcessOutcome::Completed));
}

#[test]
fn twenty_nine_waiting_polls_do_not_exhaust() {
    let polls = vec![observed(Stage::NonStarted); 29];
    let acts: Vec<bool> = vec![];
    let (state, stats) = run_trace(Modes::Miner, &polls, &acts);
    assert!(matches!(state, LoopState::Waiting { .. }));
    assert_eq!(stats.sleeps, 29);
}

#[test]
fn commit_on_the_final_attempt_still_counts() {
    let mut polls = vec![observed(Stage::NonStarted); 29];
    polls.push(observed(Stage::CommitMiners));
    polls.push(observed(Stage::RevealMiners));
    let acts = vec![true, true];
    let (state, stats) = run_trace(Modes::Miner, &polls, &acts);
    assert_eq!(state, LoopState::Finished { outcome: ProcessOutcome::Completed });
    assert_eq!(stats.commits, 1);
    assert_eq!(stats.reveals, 1);
    assert_eq!(stats.sleeps, 29);
}
