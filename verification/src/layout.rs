//! How the screen is divided: a status region of fixed height at the top and,
//! below it, an even grid with one pane for each session.

use ratatui::layout::{Constraint, Direction, Layout, Rect};
use vstd::prelude::*;

verus! {

/// Rows of the screen that the status region asks for.
pub const OBSERVER_HEIGHT: u16 = 12;

/// The most rows, and the most columns, that a grid of panes has: enough for
/// as many panes as there are session identities.
pub const MAX_GRID_SIDE: u8 = 16;

/// A rectangle of screen cells.
#[derive(Clone, Copy, Debug, PartialEq, Eq, Structural)]
pub struct Area {
    pub x: u16,
    pub y: u16,
    pub width: u16,
    pub height: u16,
}

/// The direction along which an area is cut into cells.
#[derive(Clone, Copy, Debug, PartialEq, Eq, Structural)]
pub enum Axis {
    /// Cells stacked from top to bottom.
    Vertical,
    /// Cells side by side from left to right.
    Horizontal,
}

/// What one cell of a split asks for along the axis.
#[derive(Clone, Copy, Debug, PartialEq, Eq, Structural)]
pub enum Span {
    /// Exactly this many rows or columns.
    Length(u16),
    /// At least this many, and whatever is left over.
    Min(u16),
    /// This fraction of the whole: numerator, then denominator.
    Ratio(u32, u32),
}

/// The cells that the layout solver of `ratatui` cuts `area` into along
/// `axis`, one for each of `spans`, in order.
pub uninterp spec fn split_cells(axis: Axis, spans: Seq<Span>, area: Area) -> Seq<Area>;

/// Whether `spans` is one of the two splits that the dashboard makes: the
/// status region cut off the top, or equal shares, as many as a grid has
/// rows or columns at most. Both leave the solver a single best answer,
/// whatever order it works in, and with so few shares no border between two
/// cells lies where the rounding to whole cells could fall either way.
pub open spec fn is_settled(spans: Seq<Span>) -> bool {
    ||| spans == header_spans()
    ||| spans.len() <= MAX_GRID_SIDE && spans == even_spans(spans.len())
}

/// `Layout::split` of `ratatui`, on a layout with the default margin, spacing
/// and flex.
/// Two things are taken on trust, and only for the splits that the dashboard
/// makes. The cells depend on the axis, the constraints and the area alone,
/// as `ratatui` itself assumes when it keeps results by layout and area. And
/// there is one cell for each constraint. Where the cells lie is the
/// solver's business and is not stated here.
#[verifier::external_body]
fn split(axis: Axis, spans: &Vec<Span>, area: Area) -> (cells: Vec<Area>)
    requires
        spans.len() > 0,
        is_settled(spans@),
    ensures
        cells@ == split_cells(axis, spans@, area),
        cells.len() == spans.len(),
{
    let direction = match axis {
        Axis::Vertical => Direction::Vertical,
        Axis::Horizontal => Direction::Horizontal,
    };
    let constraints = spans.iter().map(|span| match *span {
        Span::Length(n) => Constraint::Length(n),
        Span::Min(n) => Constraint::Min(n),
        Span::Ratio(n, d) => Constraint::Ratio(n, d),
    });
    let rect = Rect { x: area.x, y: area.y, width: area.width, height: area.height };
    let cells = Layout::new(direction, constraints).split(rect);
    cells.iter().map(|c| Area { x: c.x, y: c.y, width: c.width, height: c.height }).collect()
}

/// The constraints that cut off the status region: a fixed number of rows,
/// then everything else.
pub open spec fn header_spans() -> Seq<Span> {
    seq![Span::Length(OBSERVER_HEIGHT), Span::Min(0)]
}

/// The region of `area` that the status panel is drawn in.
pub open spec fn observer_area(area: Area) -> Area {
    split_cells(Axis::Vertical, header_spans(), area)[0]
}

/// The region of `area` below the status panel, which the panes share.
pub open spec fn body_area(area: Area) -> Area {
    split_cells(Axis::Vertical, header_spans(), area)[1]
}

/// Cuts the screen into the status region and the region for the panes.
pub fn split_header(area: Area) -> (regions: (Area, Area))
    ensures
        regions.0 == observer_area(area),
        regions.1 == body_area(area),
{
    let mut spans: Vec<Span> = Vec::new();
    spans.push(Span::Length(OBSERVER_HEIGHT));
    spans.push(Span::Min(0));
    assert(spans@ =~= header_spans());
    let cells = split(Axis::Vertical, &spans, area);
    (cells[0], cells[1])
}

/// Whether `side` is the smallest number whose square is at least `count`.
pub open spec fn is_grid_side(count: nat, side: nat) -> bool {
    &&& side * side >= count
    &&& side == 0 || (side - 1) * (side - 1) < count
}

/// Columns of the grid for `count` panes: the side of the smallest square
/// that has room for all of them.
pub open spec fn grid_columns(count: nat) -> nat {
    choose|side: nat| is_grid_side(count, side)
}

/// Rows of the grid for `count` panes: as many rows of `grid_columns(count)`
/// panes as it takes to place them all.
pub open spec fn grid_rows(count: nat) -> nat {
    if count == 0 {
        0
    } else {
        (count + grid_columns(count) - 1) as nat / grid_columns(count)
    }
}

/// Only one number is the side of the smallest square with room for `count`.
pub proof fn lemma_grid_side_is_unique(count: nat, side: nat)
    requires
        is_grid_side(count, side),
    ensures
        grid_columns(count) == side,
{
    let other = grid_columns(count);
    assert(is_grid_side(count, other));
    if other < side {
        assert(other * other <= (side - 1) * (side - 1)) by (nonlinear_arith)
            requires
                0 <= other <= side - 1,
        ;
    }
    if side < other {
        assert(side * side <= (other - 1) * (other - 1)) by (nonlinear_arith)
            requires
                0 <= side <= other - 1,
        ;
    }
}

/// The grid has a cell for every pane, and no row or column to spare: with
/// one column less, or one row less, some pane would have no cell.
pub proof fn lemma_grid_fits(count: nat)
    ensures
        grid_rows(count) * grid_columns(count) >= count,
        is_grid_side(count, grid_columns(count)),
        count > 0 ==> grid_columns(count) > 0 && grid_rows(count) > 0,
        count > 0 ==> (grid_rows(count) - 1) * grid_columns(count) < count,
        grid_rows(count) <= grid_columns(count),
{
    lemma_grid_side_exists(count, 0);
    let cols = grid_columns(count);
    let rows = grid_rows(count);
    if count > 0 {
        assert(cols > 0) by (nonlinear_arith)
            requires
                cols * cols >= count,
                count > 0,
        ;
        vstd::arithmetic::div_mod::lemma_fundamental_div_mod((count + cols - 1) as int, cols as int);
        vstd::arithmetic::div_mod::lemma_mod_bound((count + cols - 1) as int, cols as int);
        assert(rows * cols == cols * rows) by (nonlinear_arith);
        assert((rows - 1) * cols == rows * cols - cols) by (nonlinear_arith);
        if rows > cols {
            assert(rows * cols >= (cols + 1) * cols) by (nonlinear_arith)
                requires
                    rows >= cols + 1,
                    cols > 0,
            ;
            assert((cols + 1) * cols == cols * cols + cols) by (nonlinear_arith);
        }
    }
}

/// Some number is the side of the smallest square with room for `count`.
proof fn lemma_grid_side_exists(count: nat, from: nat)
    requires
        from == 0 || (from - 1) * (from - 1) < count,
    ensures
        exists|side: nat| is_grid_side(count, side),
    decreases count + 1 - from,
{
    if from * from >= count {
        assert(is_grid_side(count, from));
    } else {
        assert(from < count) by (nonlinear_arith)
            requires
                from * from < count,
        ;
        lemma_grid_side_exists(count, from + 1);
    }
}

/// The shape of the grid for `count` panes, rows first. Neither side is
/// longer than `MAX_GRID_SIDE`.
pub fn grid_shape(count: u8) -> (shape: (u8, u8))
    ensures
        shape.0 == grid_rows(count as nat),
        shape.1 == grid_columns(count as nat),
        shape.0 <= MAX_GRID_SIDE,
        shape.1 <= MAX_GRID_SIDE,
{
    if count == 0 {
        proof {
            assert(is_grid_side(0, 0));
            lemma_grid_side_is_unique(0, 0);
        }
        return (0, 0);
    }
    let mut cols: u8 = 1;
    let mut square: u16 = 1;
    while square < count as u16
        invariant
            1 <= cols <= 16,
            square == cols * cols,
            (cols - 1) * (cols - 1) < count,
        decreases 16 - cols,
    {
        assert(cols < 16 && (cols + 1) * (cols + 1) <= 256) by (nonlinear_arith)
            requires
                1 <= cols <= 16,
                cols * cols < 256,
        ;
        cols = cols + 1;
        square = (cols as u16) * (cols as u16);
    }
    proof {
        assert(is_grid_side(count as nat, cols as nat));
        lemma_grid_side_is_unique(count as nat, cols as nat);
        lemma_grid_fits(count as nat);
    }
    let rows: u8 = ((count as u16 + cols as u16 - 1) / cols as u16) as u8;
    (rows, cols)
}

/// The constraints that cut an area into `parts` cells of equal share.
pub open spec fn even_spans(parts: nat) -> Seq<Span> {
    Seq::new(parts, |i: int| Span::Ratio(1, parts as u32))
}

/// The constraints that cut an area into `parts` cells of equal share.
pub fn make_even_spans(parts: u8) -> (spans: Vec<Span>)
    ensures
        spans@ == even_spans(parts as nat),
{
    let mut spans: Vec<Span> = Vec::new();
    let mut i: u8 = 0;
    while i < parts
        invariant
            i <= parts,
            spans@ == Seq::new(i as nat, |k: int| Span::Ratio(1, parts as u32)),
        decreases parts - i,
    {
        spans.push(Span::Ratio(1, parts as u32));
        i = i + 1;
        assert(spans@ =~= Seq::new(i as nat, |k: int| Span::Ratio(1, parts as u32)));
    }
    spans
}

/// Whether a grid given row by row has a cell for the pane at `index`, when
/// panes are placed row by row, `cols` to a row.
pub open spec fn has_cell(grid: Seq<Seq<Area>>, cols: nat, index: int) -> bool {
    &&& cols > 0
    &&& 0 <= index / (cols as int) < grid.len()
    &&& 0 <= index % (cols as int) < grid[index / (cols as int)].len()
}

/// The cell of the pane at `index`, when panes are placed row by row, `cols`
/// to a row.
pub open spec fn cell_at(grid: Seq<Seq<Area>>, cols: nat, index: int) -> Area {
    grid[index / (cols as int)][index % (cols as int)]
}

/// The rows of a grid as sequences of cells.
pub open spec fn rows_of(grid: Seq<Vec<Area>>) -> Seq<Seq<Area>> {
    Seq::new(grid.len(), |r: int| grid[r]@)
}

/// Hands out the cells of a grid to `count` panes, row by row and `cols` to a
/// row: pane 0 gets the first cell of the first row. `None` if some pane
/// would be left without a cell.
pub fn row_major(grid: &Vec<Vec<Area>>, cols: usize, count: usize) -> (panes: Option<Vec<Area>>)
    ensures
        panes is Some <==> forall|i: int| 0 <= i < count ==> has_cell(rows_of(grid@), cols as nat, i),
        panes matches Some(cells) ==> cells@ == Seq::new(
            count as nat,
            |i: int| cell_at(rows_of(grid@), cols as nat, i),
        ),
{
    let mut cells: Vec<Area> = Vec::new();
    let mut i: usize = 0;
    while i < count
        invariant
            i <= count,
            forall|k: int| 0 <= k < i ==> has_cell(rows_of(grid@), cols as nat, k),
            cells@ == Seq::new(i as nat, |k: int| cell_at(rows_of(grid@), cols as nat, k)),
        decreases count - i,
    {
        if cols == 0 {
            assert(!has_cell(rows_of(grid@), cols as nat, i as int));
            return None;
        }
        let r = i / cols;
        let c = i % cols;
        if r >= grid.len() || c >= grid[r].len() {
            assert(!has_cell(rows_of(grid@), cols as nat, i as int));
            return None;
        }
        cells.push(grid[r][c]);
        i = i + 1;
        assert(cells@ =~= Seq::new(i as nat, |k: int| cell_at(rows_of(grid@), cols as nat, k)));
    }
    Some(cells)
}

/// The grid for `count` panes within `body`, row by row: `body` is cut from
/// top to bottom into rows of equal share, and each row from left to right
/// into columns of equal share.
pub open spec fn grid_cells(body: Area, count: nat) -> Seq<Seq<Area>> {
    let rows = split_cells(Axis::Vertical, even_spans(grid_rows(count)), body);
    Seq::new(
        grid_rows(count),
        |r: int| split_cells(Axis::Horizontal, even_spans(grid_columns(count)), rows[r]),
    )
}

/// The cell of pane `index` among `count` panes that share `body`.
pub open spec fn pane_area(body: Area, count: nat, index: int) -> Area {
    cell_at(grid_cells(body, count), grid_columns(count), index)
}

/// The cells of `count` panes that share `body`, in the order of the panes.
pub open spec fn pane_areas(body: Area, count: nat) -> Seq<Area> {
    Seq::new(count, |i: int| pane_area(body, count, i))
}

/// Cuts `body` into an even grid and gives each of `count` panes its cell.
pub fn pane_grid(body: Area, count: u8) -> (panes: Vec<Area>)
    ensures
        panes@ == pane_areas(body, count as nat),
{
    if count == 0 {
        let panes: Vec<Area> = Vec::new();
        assert(panes@ =~= pane_areas(body, 0));
        return panes;
    }
    let (rows, cols) = grid_shape(count);
    proof {
        lemma_grid_fits(count as nat);
    }
    let row_spans = make_even_spans(rows);
    let col_spans = make_even_spans(cols);
    let row_areas = split(Axis::Vertical, &row_spans, body);
    let mut grid: Vec<Vec<Area>> = Vec::new();
    let mut r: usize = 0;
    while r < rows as usize
        invariant
            r <= rows,
            rows == grid_rows(count as nat),
            cols == grid_columns(count as nat),
            0 < cols <= MAX_GRID_SIDE,
            col_spans@ == even_spans(cols as nat),
            row_areas@ == split_cells(Axis::Vertical, even_spans(rows as nat), body),
            row_areas.len() == rows,
            grid.len() == r,
            forall|k: int| 0 <= k < r ==> (#[trigger] grid[k])@ == grid_cells(body, count as nat)[k],
            forall|k: int| 0 <= k < r ==> (#[trigger] grid[k]).len() == cols,
        decreases rows - r,
    {
        let cells = split(Axis::Horizontal, &col_spans, row_areas[r]);
        grid.push(cells);
        r = r + 1;
    }
    assert(rows_of(grid@) =~= grid_cells(body, count as nat));
    assert forall|i: int| 0 <= i < count implies has_cell(
        rows_of(grid@),
        cols as nat,
        i,
    ) by {
        lemma_cell_in_grid(count as nat, rows as nat, cols as nat, i);
    }
    let panes = row_major(&grid, cols as usize, count as usize);
    panes.unwrap()
}

/// In a grid of `rows` by `cols` that fits `count` panes, every pane's row
/// and column exist.
proof fn lemma_cell_in_grid(count: nat, rows: nat, cols: nat, index: int)
    requires
        cols > 0,
        rows * cols >= count,
        0 <= index < count,
    ensures
        0 <= index / (cols as int) < rows,
        0 <= index % (cols as int) < cols,
{
    let c = cols as int;
    vstd::arithmetic::div_mod::lemma_fundamental_div_mod(index, c);
    vstd::arithmetic::div_mod::lemma_mod_bound(index, c);
    vstd::arithmetic::div_mod::lemma_div_pos_is_pos(index, c);
    if index / c >= rows {
        assert(c * (index / c) >= c * rows) by (nonlinear_arith)
            requires
                index / c >= rows,
                c > 0,
        ;
        assert(c * rows == rows * cols) by (nonlinear_arith)
            requires
                c == cols,
        ;
    }
}

/// Where everything on the screen goes.
#[derive(Clone, Debug)]
pub struct FrameLayout {
    /// The status region at the top.
    pub observer: Area,
    /// One cell for each session, in the order of the registry.
    pub panes: Vec<Area>,
}

/// Divides the screen for `count` sessions: the status region at the top, and
/// below it the even grid of their panes.
pub fn frame_layout(area: Area, count: u8) -> (layout: FrameLayout)
    ensures
        layout.observer == observer_area(area),
        layout.panes@ == pane_areas(body_area(area), count as nat),
{
    let (observer, body) = split_header(area);
    FrameLayout { observer, panes: pane_grid(body, count) }
}

} // verus!
