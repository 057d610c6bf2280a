use kingdom_viewer::control::{Action, Ending, Input, Reply};
use kingdom_viewer::dashboard::{standard_panel, Dashboard};
use kingdom_viewer::frame::{compose, render};
use kingdom_viewer::layout::Area;
use kingdom_viewer::observer::{DashboardState, ObserverPanel, Tone};
use kingdom_viewer::runner::{Outcome, RunnerFault, RunnerReply, RunnerState};
use kingdom_viewer::session::{Accent, SessionRegistry, SessionSpec};

fn numbered(from: u32, to: u32) -> Vec<String> {
    (from..=to).map(|n| n.to_string()).collect()
}

fn two_sessions() -> Vec<SessionSpec> {
    vec![
        SessionSpec { name: "A".to_string(), accent: Accent { red: 1, green: 2, blue: 3 } },
        SessionSpec { name: "B".to_string(), accent: Accent { red: 4, green: 5, blue: 6 } },
    ]
}

fn screen() -> Area {
    Area { x: 0, y: 0, width: 80, height: 24 }
}

#[test]
fn compose_needs_one_snapshot_for_each_session() {
    let registry = SessionRegistry::build(&two_sessions(), 100).unwrap();
    let panel = standard_panel();
    assert!(compose(screen(), &registry, &vec![Vec::new()], &panel).is_none());
    assert!(compose(screen(), &registry, &vec![Vec::new(); 3], &panel).is_none());
    assert!(compose(screen(), &registry, &vec![Vec::new(); 2], &panel).is_some());
}

#[test]
fn compose_lays_out_panes_with_their_newest_lines() {
    let registry = SessionRegistry::build(&two_sessions(), 100).unwrap();
    let panel = ObserverPanel { status: "watching".to_string(), notes: vec!["note".to_string()] };
    let snapshots = vec![numbered(1, 30), Vec::new()];
    let frame = compose(screen(), &registry, &snapshots, &panel).unwrap();
    assert_eq!(frame.state, DashboardState { active: 1, total: 2 });
    assert_eq!(frame.observer_area, Area { x: 0, y: 0, width: 80, height: 12 });
    let texts: Vec<&str> = frame.observer_lines.iter().map(|l| l.text.as_str()).collect();
    assert_eq!(
        texts,
        vec!["watching", "Active Agents: 1/2", "", "note", "", "Press 'q' to quit"]
    );
    assert_eq!(frame.observer_lines[1].tone, Tone::Count);
    assert_eq!(frame.panes.len(), 2);
    assert_eq!(frame.panes[0].area, Area { x: 0, y: 12, width: 40, height: 12 });
    assert_eq!(frame.panes[1].area, Area { x: 40, y: 12, width: 40, height: 12 });
    assert_eq!(frame.panes[0].title, " A ");
    assert_eq!(frame.panes[1].title, " B ");
    assert_eq!(frame.panes[0].accent, Accent { red: 1, green: 2, blue: 3 });
    assert_eq!(frame.panes[1].accent, Accent { red: 4, green: 5, blue: 6 });
    assert_eq!(frame.panes[0].lines, numbered(21, 30));
    assert!(frame.panes[1].lines.is_empty());
}

#[test]
fn compose_without_sessions_shows_only_the_status_panel() {
    let registry = SessionRegistry::build(&Vec::new(), 100).unwrap();
    let frame = compose(screen(), &registry, &Vec::new(), &standard_panel()).unwrap();
    assert_eq!(frame.state, DashboardState { active: 0, total: 0 });
    assert!(frame.panes.is_empty());
    assert_eq!(frame.observer_lines[1].text, "Active Agents: 0/0");
}

#[test]
fn render_samples_the_buffers_of_the_registry() {
    let registry = SessionRegistry::build(&two_sessions(), 3).unwrap();
    let panel = standard_panel();
    let before = render(screen(), &registry, &panel);
    assert_eq!(before.state, DashboardState { active: 0, total: 2 });
    let handle = registry.buffer_for(2).unwrap();
    for line in numbered(1, 5) {
        handle.append(line);
    }
    let after = render(screen(), &registry, &panel);
    assert_eq!(after.state, DashboardState { active: 1, total: 2 });
    assert!(after.panes[0].lines.is_empty());
    assert_eq!(after.panes[1].lines, numbered(3, 5));
}

#[test]
fn standard_dashboard_on_a_standard_screen() {
    let dashboard = Dashboard::new();
    let frame = dashboard.frame(screen());
    assert_eq!(frame.state, DashboardState { active: 0, total: 4 });
    assert_eq!(frame.observer_lines.len(), 13);
    assert_eq!(frame.observer_lines[0].text, "Love daemon: Observing");
    assert_eq!(frame.observer_lines[1].text, "Active Agents: 0/4");
    let areas: Vec<(u16, u16, u16, u16)> =
        frame.panes.iter().map(|p| (p.area.x, p.area.y, p.area.width, p.area.height)).collect();
    assert_eq!(areas, vec![(0, 12, 40, 6), (40, 12, 40, 6), (0, 18, 40, 6), (40, 18, 40, 6)]);
    let titles: Vec<&str> = frame.panes.iter().map(|p| p.title.as_str()).collect();
    assert_eq!(
        titles,
        vec![" Agent 1 (Rust) ", " Agent 2 (C/C++) ", " Agent 3 (COBOL) ", " Agent 4 (Emergent) "]
    );
}

#[test]
fn two_sessions_one_prints_five_lines_the_other_none() {
    let mut dashboard = Dashboard::with_sessions(&two_sessions(), standard_panel(), 100).unwrap();
    let mut actions = vec![dashboard.pending()];
    for reply in [Reply::Done, Reply::Done, Reply::Done] {
        dashboard.advance(reply);
        actions.push(dashboard.pending());
    }
    assert_eq!(dashboard.pending(), Action::Draw);

    let mut a = dashboard.runner(1, "root".to_string());
    let mut b = dashboard.runner(2, "root".to_string());
    for _ in 0..4 {
        a.advance(RunnerReply::Done);
    }
    for line in numbered(1, 5) {
        a.advance(RunnerReply::Line(line));
    }
    a.advance(RunnerReply::EndOfStream);
    a.advance(RunnerReply::Done);
    assert_eq!(a.state, RunnerState::Finished(Outcome::Completed));
    b.advance(RunnerReply::Done);
    b.advance(RunnerReply::Failed);
    assert_eq!(b.state, RunnerState::Finished(Outcome::Failed(RunnerFault::SpawnFailed)));

    let frame = dashboard.frame(Area { x: 0, y: 0, width: 80, height: 24 });
    assert_eq!(frame.state, DashboardState { active: 1, total: 2 });
    assert_eq!(frame.observer_lines[1].text, "Active Agents: 1/2");
    assert_eq!(frame.panes[0].lines, numbered(1, 5));
    assert_eq!(frame.panes[1].lines.len(), 0);

    for reply in [Reply::Done, Reply::Polled(Input::Nothing), Reply::Done] {
        dashboard.advance(reply);
        actions.push(dashboard.pending());
    }
    let again = dashboard.frame(Area { x: 0, y: 0, width: 80, height: 24 });
    assert_eq!(again.state, DashboardState { active: 1, total: 2 });
    assert_eq!(again.panes[0].lines, numbered(1, 5));

    for reply in [Reply::Polled(Input::Key('q')), Reply::Done] {
        dashboard.advance(reply);
        actions.push(dashboard.pending());
    }
    assert_eq!(dashboard.pending(), Action::Exit(Ending::Quit, 0));
    assert_eq!(actions.iter().filter(|a| **a == Action::RestoreTerminal).count(), 1);
    assert_eq!(
        actions[actions.len() - 2..],
        [Action::RestoreTerminal, Action::Exit(Ending::Quit, 0)]
    );
}
