//! One frame of the dashboard: the status panel at the top and one pane for
//! each session below it, ready for a painter.

use crate::layout::{frame_layout, observer_area, pane_areas, body_area, Area};
use crate::observer::{
    active_count, dashboard_state, line_views, observer_lines, panel_lines, DashboardState,
    ObserverPanel, StatusLine,
};
use crate::pane::{pane_title, pane_view, visible, PaneView};
use crate::session::{Session, SessionRegistry};
use vstd::prelude::*;

verus! {

/// Everything a painter needs to draw one frame.
#[derive(Clone, Debug)]
pub struct FrameView {
    /// The counts shown in the status panel.
    pub state: DashboardState,
    /// Where the status panel goes.
    pub observer_area: Area,
    /// The lines of the status panel, top to bottom.
    pub observer_lines: Vec<StatusLine>,
    /// The panes, in the order of the registry.
    pub panes: Vec<PaneView>,
}

/// Whether `pane` is the pane of `session` in `area`, showing `snapshot`.
pub open spec fn is_pane_of(
    pane: PaneView,
    session: Session,
    snapshot: Seq<Seq<char>>,
    area: Area,
) -> bool {
    &&& pane.area == area
    &&& pane.title@ == pane_title(session.name@)
    &&& pane.accent == session.accent
    &&& pane.lines.deep_view() == visible(snapshot, area.height as nat)
}

/// Whether `frame` is the frame for these sessions and these snapshots of
/// their buffers on a screen of `area`.
pub open spec fn is_frame_of(
    frame: FrameView,
    area: Area,
    sessions: Seq<Session>,
    snapshots: Seq<Seq<Seq<char>>>,
    panel: ObserverPanel,
) -> bool {
    &&& frame.state.total == sessions.len()
    &&& frame.state.active == active_count(snapshots)
    &&& frame.observer_area == observer_area(area)
    &&& line_views(frame.observer_lines@) == panel_lines(
        panel.status@,
        panel.notes.deep_view(),
        frame.state,
    )
    &&& frame.panes.len() == sessions.len()
    &&& forall|i: int|
        0 <= i < sessions.len() ==> is_pane_of(
            #[trigger] frame.panes[i],
            sessions[i],
            snapshots[i],
            pane_areas(body_area(area), sessions.len())[i],
        )
}

/// Lays out one frame from the snapshots of one tick: counts the active
/// sessions, divides the screen, and gives each pane the newest lines of its
/// session that fit. `None` if there is not exactly one snapshot for each
/// session.
pub fn compose(
    area: Area,
    registry: &SessionRegistry,
    snapshots: &Vec<Vec<String>>,
    panel: &ObserverPanel,
) -> (frame: Option<FrameView>)
    ensures
        frame is Some <==> snapshots.len() == registry@.len(),
        frame matches Some(made) ==> is_frame_of(
            made,
            area,
            registry@,
            snapshots.deep_view(),
            *panel,
        ),
{
    let sessions = registry.sessions();
    if snapshots.len() != sessions.len() {
        return None;
    }
    let state = dashboard_state(snapshots);
    let layout = frame_layout(area, registry.len());
    let mut panes: Vec<PaneView> = Vec::new();
    let mut i: usize = 0;
    while i < sessions.len()
        invariant
            i <= sessions.len(),
            sessions@ == registry@,
            snapshots.len() == sessions.len(),
            layout.panes@ == pane_areas(body_area(area), sessions.len() as nat),
            panes.len() == i,
            forall|k: int|
                0 <= k < i ==> is_pane_of(
                    #[trigger] panes[k],
                    sessions[k],
                    snapshots.deep_view()[k],
                    pane_areas(body_area(area), sessions.len() as nat)[k],
                ),
        decreases sessions.len() - i,
    {
        panes.push(pane_view(&sessions[i], &snapshots[i], layout.panes[i]));
        i = i + 1;
    }
    Some(
        FrameView {
            state,
            observer_area: layout.observer,
            observer_lines: observer_lines(panel, state),
            panes,
        },
    )
}

/// Samples every session's buffer and lays out the frame for what was found.
/// Buffers are filled while this runs, so the frame is the frame of some
/// snapshots, each a state that its buffer was in when it was read.
pub fn render(area: Area, registry: &SessionRegistry, panel: &ObserverPanel) -> (frame: FrameView)
    ensures
        exists|snapshots: Seq<Seq<Seq<char>>>|
            {
                &&& snapshots.len() == registry@.len()
                &&& forall|i: int|
                    0 <= i < snapshots.len() ==> (#[trigger] snapshots[i]).len()
                        <= registry@[i].buffer.spec_limit()
                &&& is_frame_of(frame, area, registry@, snapshots, *panel)
            },
{
    let snapshots = registry.snapshots();
    let frame = compose(area, registry, &snapshots, panel);
    proof {
        let views = snapshots.deep_view();
        assert forall|i: int| 0 <= i < views.len() implies (#[trigger] views[i]).len()
            <= registry@[i].buffer.spec_limit() by {
            assert(views[i].len() == snapshots[i].len());
        }
    }
    frame.unwrap()
}

} // verus!
