//! The status panel: how many sessions are active, and the notes shown with
//! that count.

use crate::buffer::{after_appends, lemma_output_is_never_lost};
use crate::text::{decimal, decimal_text};
use vstd::prelude::*;

verus! {

/// Whether a session with this snapshot counts as active: it is active if
/// and only if its buffer holds a line.
pub open spec fn is_active<T>(snapshot: Seq<T>) -> bool {
    snapshot.len() > 0
}

/// How many of the snapshots belong to active sessions.
pub open spec fn active_count<T>(snapshots: Seq<Seq<T>>) -> nat
    decreases snapshots.len(),
{
    if snapshots.len() == 0 {
        0
    } else {
        active_count(snapshots.drop_last()) + if is_active(snapshots.last()) {
            1nat
        } else {
            0nat
        }
    }
}

/// No more sessions are active than there are sessions.
pub proof fn lemma_active_count_bound<T>(snapshots: Seq<Seq<T>>)
    ensures
        active_count(snapshots) <= snapshots.len(),
    decreases snapshots.len(),
{
    if snapshots.len() > 0 {
        lemma_active_count_bound(snapshots.drop_last());
    }
}

/// A session whose buffer keeps at least one line is active if and only if
/// a line has ever been appended: without output it is never active, and
/// after the first line it stays active whatever is evicted later.
pub proof fn lemma_active_iff_output<T>(lines: Seq<T>, limit: nat)
    requires
        limit > 0,
    ensures
        is_active(after_appends(Seq::<T>::empty(), lines, limit)) <==> lines.len() > 0,
{
    if lines.len() > 0 {
        lemma_output_is_never_lost(Seq::<T>::empty(), lines, limit);
    }
}

/// The view of the sessions that is worked out anew at every tick.
#[derive(Clone, Copy, Debug, PartialEq, Eq, Structural)]
pub struct DashboardState {
    /// Sessions whose buffer holds a line.
    pub active: usize,
    /// All sessions.
    pub total: usize,
}

/// Whether a session with this snapshot counts as active.
pub fn has_output(snapshot: &Vec<String>) -> (active: bool)
    ensures
        active == is_active(snapshot.deep_view()),
{
    snapshot.len() > 0
}

/// Counts the active sessions among the snapshots of one tick.
pub fn dashboard_state(snapshots: &Vec<Vec<String>>) -> (state: DashboardState)
    ensures
        state.total == snapshots.len(),
        state.active == active_count(snapshots.deep_view()),
        state.active <= state.total,
{
    let mut active: usize = 0;
    let mut i: usize = 0;
    while i < snapshots.len()
        invariant
            i <= snapshots.len(),
            active <= i,
            active == active_count(snapshots.deep_view().take(i as int)),
        decreases snapshots.len() - i,
    {
        assert(snapshots.deep_view().take(i + 1).drop_last() =~= snapshots.deep_view().take(
            i as int,
        ));
        if has_output(&snapshots[i]) {
            active = active + 1;
        }
        i = i + 1;
    }
    assert(snapshots.deep_view().take(i as int) =~= snapshots.deep_view());
    DashboardState { active, total: snapshots.len() }
}

/// How a line of the status panel is to be set off from the others.
#[derive(Clone, Copy, Debug, PartialEq, Eq, Structural)]
pub enum Tone {
    /// The headline.
    Status,
    /// The count of active sessions.
    Count,
    /// Ordinary text.
    Plain,
    /// The hint on how to leave.
    Hint,
}

/// One line of the status panel.
#[derive(Clone, Debug)]
pub struct StatusLine {
    pub text: String,
    pub tone: Tone,
}

impl StatusLine {
    /// The characters of the line and its tone.
    pub open spec fn view(&self) -> (Seq<char>, Tone) {
        (self.text@, self.tone)
    }
}

/// The text that does not change while the dashboard runs.
#[derive(Clone, Debug)]
pub struct ObserverPanel {
    /// The headline.
    pub status: String,
    /// The notes shown under the count.
    pub notes: Vec<String>,
}

/// The line that reports `active` sessions out of `total`.
pub open spec fn count_text(active: nat, total: nat) -> Seq<char> {
    "Active Agents: "@ + decimal(active) + "/"@ + decimal(total)
}

/// The lines of the status panel, top to bottom: the headline, the count, a
/// blank line, the notes, a blank line, and the hint on how to leave.
pub open spec fn panel_lines(
    status: Seq<char>,
    notes: Seq<Seq<char>>,
    state: DashboardState,
) -> Seq<(Seq<char>, Tone)> {
    seq![
        (status, Tone::Status),
        (count_text(state.active as nat, state.total as nat), Tone::Count),
        (Seq::<char>::empty(), Tone::Plain),
    ] + Seq::new(notes.len(), |i: int| (notes[i], Tone::Plain)) + seq![
        (Seq::<char>::empty(), Tone::Plain),
        ("Press 'q' to quit"@, Tone::Hint),
    ]
}

/// The views of a run of lines.
pub open spec fn line_views(lines: Seq<StatusLine>) -> Seq<(Seq<char>, Tone)> {
    Seq::new(lines.len(), |i: int| lines[i]@)
}

/// The line that reports the count of active sessions.
pub fn count_line(state: DashboardState) -> (line: StatusLine)
    ensures
        line@ == (count_text(state.active as nat, state.total as nat), Tone::Count),
{
    let mut text = String::from_str("Active Agents: ");
    let active = decimal_text(state.active);
    text.append(active.as_str());
    text.append("/");
    let total = decimal_text(state.total);
    text.append(total.as_str());
    StatusLine { text, tone: Tone::Count }
}

/// The lines of the status panel for the state of this tick.
pub fn observer_lines(panel: &ObserverPanel, state: DashboardState) -> (lines: Vec<StatusLine>)
    ensures
        line_views(lines@) == panel_lines(panel.status@, panel.notes.deep_view(), state),
{
    let mut lines: Vec<StatusLine> = Vec::new();
    lines.push(StatusLine { text: panel.status.clone(), tone: Tone::Status });
    lines.push(count_line(state));
    lines.push(StatusLine { text: String::new(), tone: Tone::Plain });
    let ghost head = line_views(lines@);
    let mut i: usize = 0;
    while i < panel.notes.len()
        invariant
            i <= panel.notes.len(),
            lines.len() == 3 + i,
            line_views(lines@) == head + Seq::new(
                i as nat,
                |k: int| (panel.notes.deep_view()[k], Tone::Plain),
            ),
            head.len() == 3,
        decreases panel.notes.len() - i,
    {
        let ghost before = line_views(lines@);
        lines.push(StatusLine { text: panel.notes[i].clone(), tone: Tone::Plain });
        i = i + 1;
        assert(line_views(lines@) =~= head + Seq::new(
            i as nat,
            |k: int| (panel.notes.deep_view()[k], Tone::Plain),
        )) by {
            assert(line_views(lines@) =~= before.push((panel.notes.deep_view()[i - 1], Tone::Plain)));
        }
    }
    let ghost middle = line_views(lines@);
    lines.push(StatusLine { text: String::new(), tone: Tone::Plain });
    lines.push(StatusLine { text: String::from_str("Press 'q' to quit"), tone: Tone::Hint });
    assert(line_views(lines@) =~= middle + seq![
        (Seq::<char>::empty(), Tone::Plain),
        ("Press 'q' to quit"@, Tone::Hint),
    ]);
    assert(line_views(lines@) =~= panel_lines(panel.status@, panel.notes.deep_view(), state));
    lines
}

} // verus!
