//! What one pane shows of its session: a title, and the newest lines that
//! fit inside its border.

use crate::buffer::tail;
use crate::layout::Area;
use crate::session::{Accent, Session};
use vstd::prelude::*;

verus! {

/// Rows of a pane that its border takes: one at the top, one at the bottom.
pub const BORDER_ROWS: u16 = 2;

/// The rows inside the border of a pane that is `height` rows tall.
pub open spec fn interior_height(height: nat) -> nat {
    if height >= BORDER_ROWS {
        (height - BORDER_ROWS) as nat
    } else {
        0
    }
}

/// The lines of `snapshot` that a pane `height` rows tall shows: the newest
/// that fit inside its border, oldest first.
pub open spec fn visible<T>(snapshot: Seq<T>, height: nat) -> Seq<T> {
    tail(snapshot, interior_height(height))
}

/// The title of the pane of a session called `name`.
pub open spec fn pane_title(name: Seq<char>) -> Seq<char> {
    seq![' '] + name + seq![' ']
}

/// With more lines than fit, a pane shows exactly as many lines as it has
/// rows inside its border, and they are the newest, in their order. Older
/// lines leave the view, not the buffer.
pub proof fn lemma_visible_window<T>(snapshot: Seq<T>, height: nat)
    requires
        snapshot.len() > interior_height(height),
    ensures
        visible(snapshot, height).len() == interior_height(height),
        visible(snapshot, height) == snapshot.subrange(
            snapshot.len() - interior_height(height),
            snapshot.len() as int,
        ),
{
}

/// With no more lines than fit, a pane shows them all.
pub proof fn lemma_visible_all<T>(snapshot: Seq<T>, height: nat)
    requires
        snapshot.len() <= interior_height(height),
    ensures
        visible(snapshot, height) == snapshot,
{
}

/// The rows inside the border of a pane that is `height` rows tall.
pub fn interior_rows(height: u16) -> (rows: u16)
    ensures
        rows == interior_height(height as nat),
{
    if height >= BORDER_ROWS {
        height - BORDER_ROWS
    } else {
        0
    }
}

/// The lines of `snapshot` that a pane `height` rows tall shows.
pub fn visible_lines(snapshot: &Vec<String>, height: u16) -> (lines: Vec<String>)
    ensures
        lines.deep_view() == visible(snapshot.deep_view(), height as nat),
{
    let rows = interior_rows(height) as usize;
    let start = if snapshot.len() > rows {
        snapshot.len() - rows
    } else {
        0
    };
    let mut lines: Vec<String> = Vec::new();
    let mut i: usize = start;
    while i < snapshot.len()
        invariant
            start <= i <= snapshot.len(),
            lines.len() == i - start,
            forall|k: int| 0 <= k < lines.len() ==> lines[k]@ == snapshot[start + k]@,
        decreases snapshot.len() - i,
    {
        lines.push(snapshot[i].clone());
        i = i + 1;
    }
    assert(lines.deep_view() =~= visible(snapshot.deep_view(), height as nat));
    lines
}

/// The title of the pane of a session called `name`.
pub fn make_title(name: &str) -> (title: String)
    ensures
        title@ == pane_title(name@),
{
    proof {
        reveal_strlit(" ");
    }
    let mut title = String::from_str(" ");
    title.append(name);
    title.append(" ");
    assert(title@ =~= pane_title(name@));
    title
}

/// Everything a painter needs to draw one pane.
#[derive(Clone, Debug)]
pub struct PaneView {
    /// Where the pane goes, border included.
    pub area: Area,
    /// The text set into the top border.
    pub title: String,
    /// The colour of the border.
    pub accent: Accent,
    /// The lines shown inside the border, oldest first.
    pub lines: Vec<String>,
}

/// The pane of `session` in `area`, showing `snapshot`.
pub fn pane_view(session: &Session, snapshot: &Vec<String>, area: Area) -> (pane: PaneView)
    ensures
        pane.area == area,
        pane.title@ == pane_title(session.name@),
        pane.accent == session.accent,
        pane.lines.deep_view() == visible(snapshot.deep_view(), area.height as nat),
{
    PaneView {
        area,
        title: make_title(session.name.as_str()),
        accent: session.accent,
        lines: visible_lines(snapshot, area.height),
    }
}

} // verus!
