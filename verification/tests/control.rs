use kingdom_viewer::control::{
    advance, code_of, is_running, pending, quits, Action, Ending, Input, LoopFault, Phase, Reply,
    POLL_TIMEOUT_MS, QUIT_KEY, STARTUP_GRACE_MS,
};
use kingdom_viewer::dashboard::Dashboard;

fn drive(start: Phase, replies: &[Reply]) -> (Phase, Vec<Action>) {
    let mut phase = start;
    let mut actions = Vec::new();
    for reply in replies {
        actions.push(pending(phase));
        phase = advance(phase, *reply);
    }
    (phase, actions)
}

#[test]
fn constants_of_the_loop() {
    assert_eq!(POLL_TIMEOUT_MS, 100);
    assert_eq!(STARTUP_GRACE_MS, 500);
    assert_eq!(QUIT_KEY, 'q');
}

#[test]
fn only_the_quit_key_quits() {
    assert!(quits(Input::Key('q')));
    assert!(!quits(Input::Key('Q')));
    assert!(!quits(Input::Key('x')));
    assert!(!quits(Input::OtherKey));
    assert!(!quits(Input::Other));
    assert!(!quits(Input::Nothing));
}

#[test]
fn startup_runs_to_the_first_frame() {
    let (phase, actions) = drive(Phase::Entering, &[Reply::Done, Reply::Done, Reply::Done]);
    assert_eq!(phase, Phase::Drawing);
    assert_eq!(actions, vec![Action::EnterTerminal, Action::LaunchRunners, Action::Sleep(500)]);
    assert_eq!(pending(phase), Action::Draw);
}

#[test]
fn loop_draws_and_polls_in_turn() {
    let (phase, actions) = drive(
        Phase::Drawing,
        &[
            Reply::Done,
            Reply::Polled(Input::Nothing),
            Reply::Done,
            Reply::Polled(Input::Key('x')),
            Reply::Done,
            Reply::Polled(Input::Other),
            Reply::Done,
            Reply::Polled(Input::OtherKey),
        ],
    );
    assert_eq!(phase, Phase::Drawing);
    assert_eq!(
        actions,
        vec![
            Action::Draw,
            Action::Poll(100),
            Action::Draw,
            Action::Poll(100),
            Action::Draw,
            Action::Poll(100),
            Action::Draw,
            Action::Poll(100),
        ]
    );
}

#[test]
fn quit_key_restores_once_and_exits_zero() {
    let (phase, actions) = drive(
        Phase::Entering,
        &[
            Reply::Done,
            Reply::Done,
            Reply::Done,
            Reply::Done,
            Reply::Polled(Input::Key('q')),
            Reply::Done,
            Reply::Done,
            Reply::Done,
        ],
    );
    assert_eq!(phase, Phase::Finished(Ending::Quit));
    assert_eq!(
        actions[5..],
        [Action::RestoreTerminal, Action::Exit(Ending::Quit, 0), Action::Exit(Ending::Quit, 0)]
    );
    assert_eq!(actions.iter().filter(|a| **a == Action::RestoreTerminal).count(), 1);
    assert_eq!(pending(phase), Action::Exit(Ending::Quit, 0));
}

#[test]
fn quit_key_is_followed_by_no_further_frame() {
    let phase = advance(Phase::Polling, Reply::Polled(Input::Key('q')));
    assert_eq!(phase, Phase::Restoring(Ending::Quit));
    assert!(!is_running(phase));
    assert_eq!(pending(phase), Action::RestoreTerminal);
}

#[test]
fn failed_terminal_setup_restores_before_leaving() {
    let (phase, actions) = drive(Phase::Entering, &[Reply::Failed, Reply::Done]);
    assert_eq!(phase, Phase::Finished(Ending::InitFailed));
    assert_eq!(actions, vec![Action::EnterTerminal, Action::RestoreTerminal]);
    assert_eq!(pending(phase), Action::Exit(Ending::InitFailed, 1));
}

#[test]
fn failed_draw_restores_before_leaving() {
    let (phase, actions) = drive(Phase::Drawing, &[Reply::Failed, Reply::Done]);
    assert_eq!(phase, Phase::Finished(Ending::LoopFailed(LoopFault::Draw)));
    assert_eq!(actions, vec![Action::Draw, Action::RestoreTerminal]);
    assert_eq!(pending(phase), Action::Exit(Ending::LoopFailed(LoopFault::Draw), 0));
}

#[test]
fn failed_poll_restores_before_leaving() {
    let (phase, actions) = drive(Phase::Polling, &[Reply::Failed, Reply::Done]);
    assert_eq!(phase, Phase::Finished(Ending::LoopFailed(LoopFault::Input)));
    assert_eq!(actions, vec![Action::Poll(100), Action::RestoreTerminal]);
}

#[test]
fn failed_restore_is_what_is_reported() {
    let (phase, _) = drive(Phase::Restoring(Ending::Quit), &[Reply::Failed]);
    assert_eq!(phase, Phase::Finished(Ending::RestoreFailed));
    assert_eq!(pending(phase), Action::Exit(Ending::RestoreFailed, 1));
}

#[test]
fn exit_codes_of_the_endings() {
    assert_eq!(code_of(Ending::Quit), 0);
    assert_eq!(code_of(Ending::LoopFailed(LoopFault::Draw)), 0);
    assert_eq!(code_of(Ending::LoopFailed(LoopFault::Input)), 0);
    assert_eq!(code_of(Ending::InitFailed), 1);
    assert_eq!(code_of(Ending::RestoreFailed), 1);
}

#[test]
fn finished_loop_stays_finished() {
    let ended = Phase::Finished(Ending::Quit);
    for reply in [Reply::Done, Reply::Failed, Reply::Polled(Input::Key('q'))] {
        assert_eq!(advance(ended, reply), ended);
    }
}

#[test]
fn running_ends_with_restoring() {
    for phase in [Phase::Entering, Phase::Launching, Phase::Settling, Phase::Drawing, Phase::Polling]
    {
        assert!(is_running(phase));
    }
    assert!(!is_running(Phase::Restoring(Ending::Quit)));
    assert!(!is_running(Phase::Finished(Ending::Quit)));
}

#[test]
fn every_run_restores_the_terminal_at_most_once() {
    let replies = [Reply::Done, Reply::Failed, Reply::Polled(Input::Key('q')), Reply::Polled(Input::Nothing)];
    let mut runs: Vec<Vec<Reply>> = vec![Vec::new()];
    for _ in 0..6 {
        runs = runs
            .into_iter()
            .flat_map(|run| {
                replies.iter().map(move |reply| {
                    let mut longer = run.clone();
                    longer.push(*reply);
                    longer
                })
            })
            .collect();
    }
    for run in runs {
        let (phase, actions) = drive(Phase::Entering, &run);
        let restored = actions.iter().filter(|a| **a == Action::RestoreTerminal).count();
        assert!(restored <= 1);
        assert_eq!(matches!(phase, Phase::Finished(_)), restored == 1);
    }
}

#[test]
fn dashboard_moves_through_its_loop() {
    let mut dashboard = Dashboard::new();
    assert_eq!(dashboard.pending(), Action::EnterTerminal);
    for reply in [Reply::Done, Reply::Done, Reply::Done, Reply::Done] {
        dashboard.advance(reply);
    }
    assert_eq!(dashboard.pending(), Action::Poll(100));
    assert!(dashboard.is_running());
    dashboard.advance(Reply::Polled(Input::Key('q')));
    assert!(!dashboard.is_running());
    assert_eq!(dashboard.pending(), Action::RestoreTerminal);
    dashboard.advance(Reply::Done);
    assert_eq!(dashboard.pending(), Action::Exit(Ending::Quit, 0));
    assert_eq!(dashboard.registry.len(), 4);
}
