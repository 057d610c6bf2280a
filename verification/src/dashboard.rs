//! The dashboard as a whole: its sessions, the text of its status panel, and
//! where its loop stands.

use crate::buffer::DEFAULT_LINE_LIMIT;
use crate::control::{advance, is_running, next_phase, pending, pending_action, Action, Phase, Reply};
use crate::frame::{is_frame_of, render, FrameView};
use crate::layout::Area;
use crate::observer::ObserverPanel;
use crate::runner::{RunnerState, SessionRunner};
use crate::session::{Accent, SessionRegistry, SessionSpec, MAX_SESSIONS};
use vstd::prelude::*;

verus! {

/// The names of the sessions of the standard dashboard.
pub open spec fn standard_names() -> Seq<Seq<char>> {
    seq!["Agent 1 (Rust)"@, "Agent 2 (C/C++)"@, "Agent 3 (COBOL)"@, "Agent 4 (Emergent)"@]
}

/// The colours of the sessions of the standard dashboard.
pub open spec fn standard_accents() -> Seq<Accent> {
    seq![
        Accent { red: 255, green: 153, blue: 0 },
        Accent { red: 196, green: 55, blue: 55 },
        Accent { red: 34, green: 139, blue: 34 },
        Accent { red: 0, green: 135, blue: 255 },
    ]
}

/// The headline of the standard status panel.
pub open spec fn standard_status() -> Seq<char> {
    "Love daemon: Observing"@
}

/// The notes of the standard status panel.
pub open spec fn standard_notes() -> Seq<Seq<char>> {
    seq![
        "Kingdom Viewer v0.1"@,
        "Agents are isolated in their terminals"@,
        "They believe they are alone"@,
        ""@,
        "Love manifests as:"@,
        "  - Wind: Unexpected changes"@,
        "  - Rain: Resource fluctuations"@,
        "  - Bad Luck: Random failures"@,
    ]
}

/// The sessions of the standard dashboard.
pub fn standard_sessions() -> (specs: Vec<SessionSpec>)
    ensures
        specs.len() == 4,
        forall|i: int|
            0 <= i < 4 ==> (#[trigger] specs[i]).name@ == standard_names()[i] && specs[i].accent
                == standard_accents()[i],
{
    let mut specs: Vec<SessionSpec> = Vec::new();
    specs.push(
        SessionSpec {
            name: String::from_str("Agent 1 (Rust)"),
            accent: Accent { red: 255, green: 153, blue: 0 },
        },
    );
    specs.push(
        SessionSpec {
            name: String::from_str("Agent 2 (C/C++)"),
            accent: Accent { red: 196, green: 55, blue: 55 },
        },
    );
    specs.push(
        SessionSpec {
            name: String::from_str("Agent 3 (COBOL)"),
            accent: Accent { red: 34, green: 139, blue: 34 },
        },
    );
    specs.push(
        SessionSpec {
            name: String::from_str("Agent 4 (Emergent)"),
            accent: Accent { red: 0, green: 135, blue: 255 },
        },
    );
    specs
}

/// The text of the standard status panel.
pub fn standard_panel() -> (panel: ObserverPanel)
    ensures
        panel.status@ == standard_status(),
        panel.notes.deep_view() == standard_notes(),
{
    let mut notes: Vec<String> = Vec::new();
    notes.push(String::from_str("Kingdom Viewer v0.1"));
    notes.push(String::from_str("Agents are isolated in their terminals"));
    notes.push(String::from_str("They believe they are alone"));
    notes.push(String::from_str(""));
    notes.push(String::from_str("Love manifests as:"));
    notes.push(String::from_str("  - Wind: Unexpected changes"));
    notes.push(String::from_str("  - Rain: Resource fluctuations"));
    notes.push(String::from_str("  - Bad Luck: Random failures"));
    assert(notes.deep_view() =~= standard_notes());
    ObserverPanel { status: String::from_str("Love daemon: Observing"), notes }
}

/// A dashboard: the registry of its sessions, the text of its status panel,
/// and the phase of its loop.
pub struct Dashboard {
    /// The sessions, made once and never resized.
    pub registry: SessionRegistry,
    /// The text of the status panel.
    pub observer: ObserverPanel,
    /// Where the loop stands.
    pub phase: Phase,
}

impl Dashboard {
    /// The standard dashboard: four sessions with empty buffers of the
    /// default limit, the standard notes, and a loop that has yet to enter
    /// the terminal.
    pub fn new() -> (dashboard: Dashboard)
        ensures
            dashboard.phase == Phase::Entering,
            dashboard.registry@.len() == 4,
            forall|i: int|
                0 <= i < 4 ==> {
                    &&& (#[trigger] dashboard.registry@[i]).id == i + 1
                    &&& dashboard.registry@[i].name@ == standard_names()[i]
                    &&& dashboard.registry@[i].accent == standard_accents()[i]
                    &&& dashboard.registry@[i].buffer.spec_limit() == DEFAULT_LINE_LIMIT
                },
            dashboard.observer.status@ == standard_status(),
            dashboard.observer.notes.deep_view() == standard_notes(),
    {
        let specs = standard_sessions();
        let registry = SessionRegistry::build(&specs, DEFAULT_LINE_LIMIT);
        Dashboard { registry: registry.unwrap(), observer: standard_panel(), phase: Phase::Entering }
    }

    /// A dashboard for the configured sessions, each with an empty buffer of
    /// `line_limit` lines. `None` if there are more sessions than
    /// identities.
    pub fn with_sessions(specs: &Vec<SessionSpec>, observer: ObserverPanel, line_limit: usize) -> (made:
        Option<Dashboard>)
        ensures
            made is Some <==> specs.len() <= MAX_SESSIONS,
            made matches Some(dashboard) ==> {
                &&& dashboard.phase == Phase::Entering
                &&& dashboard.observer == observer
                &&& dashboard.registry@.len() == specs.len()
                &&& forall|i: int|
                    0 <= i < specs.len() ==> {
                        &&& (#[trigger] dashboard.registry@[i]).id == i + 1
                        &&& dashboard.registry@[i].name@ == specs[i].name@
                        &&& dashboard.registry@[i].accent == specs[i].accent
                        &&& dashboard.registry@[i].buffer.spec_limit() == line_limit
                    }
            },
    {
        match SessionRegistry::build(specs, line_limit) {
            Some(registry) => Some(Dashboard { registry, observer, phase: Phase::Entering }),
            None => None,
        }
    }

    /// The action the loop is waiting on.
    pub fn pending(&self) -> (action: Action)
        ensures
            action == pending_action(self.phase),
    {
        pending(self.phase)
    }

    /// Takes the reply to the pending action and moves the loop on.
    pub fn advance(&mut self, reply: Reply)
        ensures
            final(self).phase == next_phase(old(self).phase, reply),
            final(self).registry == old(self).registry,
            final(self).observer == old(self).observer,
    {
        self.phase = advance(self.phase, reply);
    }

    /// Whether the loop still draws and polls, or is on its way there.
    pub fn is_running(&self) -> (running: bool)
        ensures
            running == !(self.phase is Restoring || self.phase is Finished),
    {
        is_running(self.phase)
    }

    /// The runner for the session with identity `id`, ready to open its
    /// terminal, with a handle to that session's buffer. The registry must
    /// hold a session with that identity: identities run from one to the
    /// number of sessions.
    pub fn runner(&self, id: u8, root: String) -> (runner: SessionRunner)
        requires
            1 <= id <= self.registry@.len(),
        ensures
            runner.id == id,
            runner.root == root,
            runner.buffer == self.registry@[id - 1].buffer,
            runner.state == RunnerState::OpeningPty,
    {
        let buffer = self.registry.buffer_for(id);
        SessionRunner::new(id, root, buffer.unwrap())
    }

    /// Samples the buffers and lays out the frame of this tick.
    pub fn frame(&self, area: Area) -> (frame: FrameView)
        ensures
            exists|snapshots: Seq<Seq<Seq<char>>>|
                {
                    &&& snapshots.len() == self.registry@.len()
                    &&& forall|i: int|
                        0 <= i < snapshots.len() ==> (#[trigger] snapshots[i]).len()
                            <= self.registry@[i].buffer.spec_limit()
                    &&& is_frame_of(frame, area, self.registry@, snapshots, self.observer)
                },
    {
        render(area, &self.registry, &self.observer)
    }
}

} // verus!
