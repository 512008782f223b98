//! Where each layout action puts a window, as a cell of the visible screen.
//!
//! A cell is given by four fractions of the screen: the left edge and the
//! width as fractions of the screen width, the top edge and the height as
//! fractions of the screen height. The caller turns the cell into a frame by
//! `origin + length * num / den` on each axis.

use vstd::prelude::*;
use crate::layout::action::LayoutAction;

verus! {

/// A fraction `num / den` of a screen length.
#[derive(Debug, Clone, Copy, PartialEq, Eq, Structural)]
pub struct Fraction {
    pub num: u32,
    pub den: u32,
}

/// A rectangle given as fractions of the screen it lies on.
#[derive(Debug, Clone, Copy, PartialEq, Eq, Structural)]
pub struct GridCell {
    pub x: Fraction,
    pub y: Fraction,
    pub width: Fraction,
    pub height: Fraction,
}

/// Where a layout action puts the window.
#[derive(Debug, Clone, Copy, PartialEq, Eq, Structural)]
pub enum Placement {
    /// The window fills this cell of the screen's visible frame.
    Cell(GridCell),
    /// The window keeps its size and is centred in the visible frame.
    Centered,
    /// The window frame is left as it is (monitor moves are planned elsewhere).
    Unchanged,
}

/// The fraction `num / den`.
pub open spec fn frac(num: u32, den: u32) -> Fraction {
    Fraction { num, den }
}

/// Columns `first .. first + span` of a screen split into `of` equal columns,
/// over the full height.
pub open spec fn columns(first: u32, span: u32, of: u32) -> GridCell {
    GridCell { x: frac(first, of), y: frac(0, 1), width: frac(span, of), height: frac(1, 1) }
}

/// Rows `first .. first + span` of a screen split into `of` equal rows, over
/// the full width.
pub open spec fn rows(first: u32, span: u32, of: u32) -> GridCell {
    GridCell { x: frac(0, 1), y: frac(first, of), width: frac(1, 1), height: frac(span, of) }
}

/// The quarter in column `col` and row `row` of a two-by-two split.
pub open spec fn quarter(col: u32, row: u32) -> GridCell {
    GridCell { x: frac(col, 2), y: frac(row, 2), width: frac(1, 2), height: frac(1, 2) }
}

/// The placement each action stands for.
pub open spec fn placement_of(a: LayoutAction) -> Placement {
    match a {
        LayoutAction::SnapLeftHalf => Placement::Cell(columns(0, 1, 2)),
        LayoutAction::SnapRightHalf => Placement::Cell(columns(1, 1, 2)),
        LayoutAction::SnapTopHalf => Placement::Cell(rows(0, 1, 2)),
        LayoutAction::SnapBottomHalf => Placement::Cell(rows(1, 1, 2)),
        LayoutAction::SnapLeftThird => Placement::Cell(columns(0, 1, 3)),
        LayoutAction::SnapCenterThird => Placement::Cell(columns(1, 1, 3)),
        LayoutAction::SnapRightThird => Placement::Cell(columns(2, 1, 3)),
        LayoutAction::SnapLeftTwoThirds => Placement::Cell(columns(0, 2, 3)),
        LayoutAction::SnapRightTwoThirds => Placement::Cell(columns(1, 2, 3)),
        LayoutAction::SnapTopLeft => Placement::Cell(quarter(0, 0)),
        LayoutAction::SnapTopRight => Placement::Cell(quarter(1, 0)),
        LayoutAction::SnapBottomLeft => Placement::Cell(quarter(0, 1)),
        LayoutAction::SnapBottomRight => Placement::Cell(quarter(1, 1)),
        LayoutAction::Maximize => Placement::Cell(columns(0, 1, 1)),
        LayoutAction::Center => Placement::Centered,
        LayoutAction::MoveToNextMonitor => Placement::Unchanged,
        LayoutAction::MoveToPreviousMonitor => Placement::Unchanged,
    }
}

fn column_cell(first: u32, span: u32, of: u32) -> (c: GridCell)
    ensures
        c == columns(first, span, of),
{
    GridCell {
        x: Fraction { num: first, den: of },
        y: Fraction { num: 0, den: 1 },
        width: Fraction { num: span, den: of },
        height: Fraction { num: 1, den: 1 },
    }
}

fn row_cell(first: u32, span: u32, of: u32) -> (c: GridCell)
    ensures
        c == rows(first, span, of),
{
    GridCell {
        x: Fraction { num: 0, den: 1 },
        y: Fraction { num: first, den: of },
        width: Fraction { num: 1, den: 1 },
        height: Fraction { num: span, den: of },
    }
}

fn quarter_cell(col: u32, row: u32) -> (c: GridCell)
    ensures
        c == quarter(col, row),
{
    GridCell {
        x: Fraction { num: col, den: 2 },
        y: Fraction { num: row, den: 2 },
        width: Fraction { num: 1, den: 2 },
        height: Fraction { num: 1, den: 2 },
    }
}

/// The placement for a layout action: the grid cell of the visible frame the
/// window is snapped to, or how it is moved otherwise.
pub fn placement(action: LayoutAction) -> (p: Placement)
    ensures
        p == placement_of(action),
{
    match action {
        LayoutAction::SnapLeftHalf => Placement::Cell(column_cell(0, 1, 2)),
        LayoutAction::SnapRightHalf => Placement::Cell(column_cell(1, 1, 2)),
        LayoutAction::SnapTopHalf => Placement::Cell(row_cell(0, 1, 2)),
        LayoutAction::SnapBottomHalf => Placement::Cell(row_cell(1, 1, 2)),
        LayoutAction::SnapLeftThird => Placement::Cell(column_cell(0, 1, 3)),
        LayoutAction::SnapCenterThird => Placement::Cell(column_cell(1, 1, 3)),
        LayoutAction::SnapRightThird => Placement::Cell(column_cell(2, 1, 3)),
        LayoutAction::SnapLeftTwoThirds => Placement::Cell(column_cell(0, 2, 3)),
        LayoutAction::SnapRightTwoThirds => Placement::Cell(column_cell(1, 2, 3)),
        LayoutAction::SnapTopLeft => Placement::Cell(quarter_cell(0, 0)),
        LayoutAction::SnapTopRight => Placement::Cell(quarter_cell(1, 0)),
        LayoutAction::SnapBottomLeft => Placement::Cell(quarter_cell(0, 1)),
        LayoutAction::SnapBottomRight => Placement::Cell(quarter_cell(1, 1)),
        LayoutAction::Maximize => Placement::Cell(column_cell(0, 1, 1)),
        LayoutAction::Center => Placement::Centered,
        LayoutAction::MoveToNextMonitor | LayoutAction::MoveToPreviousMonitor => {
            Placement::Unchanged
        },
    }
}


/// `a` and `b` are the same rational number.
pub open spec fn same_value(a: Fraction, b: Fraction) -> bool {
    a.num * b.den == b.num * a.den
}

/// `a + b == c` as rational numbers.
pub open spec fn sums_to(a: Fraction, b: Fraction, c: Fraction) -> bool {
    (a.num * b.den + b.num * a.den) * c.den == c.num * (a.den * b.den)
}

/// A cell with positive denominators, a non-empty extent on both axes, and
/// lying inside the screen: `0 <= x`, `x + width <= 1`, and the same for
/// `y` and `height`.
pub open spec fn inside_screen(c: GridCell) -> bool {
    &&& c.x.den > 0 && c.y.den > 0 && c.width.den > 0 && c.height.den > 0
    &&& c.width.num > 0 && c.height.num > 0
    &&& c.x.num * c.width.den + c.width.num * c.x.den <= c.x.den * c.width.den
    &&& c.y.num * c.height.den + c.height.num * c.y.den <= c.y.den * c.height.den
}

/// `b` starts where `a` ends on the horizontal axis, and both span the same
/// rows.
pub open spec fn side_by_side(a: GridCell, b: GridCell) -> bool {
    &&& sums_to(a.x, a.width, b.x)
    &&& same_value(a.y, b.y)
    &&& same_value(a.height, b.height)
}

/// `b` starts where `a` ends on the vertical axis, and both span the same
/// columns.
pub open spec fn stacked(a: GridCell, b: GridCell) -> bool {
    &&& sums_to(a.y, a.height, b.y)
    &&& same_value(a.x, b.x)
    &&& same_value(a.width, b.width)
}

/// `c` spans exactly the columns of `cols` and the rows of `rws`.
pub open spec fn intersection_of(c: GridCell, cols: GridCell, rws: GridCell) -> bool {
    &&& same_value(c.x, cols.x) && same_value(c.width, cols.width)
    &&& same_value(c.y, rws.y) && same_value(c.height, rws.height)
}

/// `c` covers what `a` and the cell to its right `b` cover together.
pub open spec fn union_of(c: GridCell, a: GridCell, b: GridCell) -> bool {
    &&& side_by_side(a, b)
    &&& same_value(c.x, a.x)
    &&& sums_to(a.width, b.width, c.width)
    &&& same_value(c.y, a.y) && same_value(c.height, a.height)
}

/// The left edge of `c` is the screen's left edge.
pub open spec fn at_left_edge(c: GridCell) -> bool {
    c.x.num == 0
}

/// The right edge of `c` is the screen's right edge.
pub open spec fn at_right_edge(c: GridCell) -> bool {
    c.x.num * c.width.den + c.width.num * c.x.den == c.x.den * c.width.den
}

/// The top edge of `c` is the screen's top edge.
pub open spec fn at_top_edge(c: GridCell) -> bool {
    c.y.num == 0
}

/// The bottom edge of `c` is the screen's bottom edge.
pub open spec fn at_bottom_edge(c: GridCell) -> bool {
    c.y.num * c.height.den + c.height.num * c.y.den == c.y.den * c.height.den
}

/// The full height of the screen is covered by `c`.
pub open spec fn full_height(c: GridCell) -> bool {
    at_top_edge(c) && at_bottom_edge(c)
}

/// The full width of the screen is covered by `c`.
pub open spec fn full_width(c: GridCell) -> bool {
    at_left_edge(c) && at_right_edge(c)
}

/// The cell of a snapping action (maximize's for the others).
pub open spec fn cell_of(a: LayoutAction) -> GridCell {
    match placement_of(a) {
        Placement::Cell(c) => c,
        _ => columns(0, 1, 1),
    }
}

/// Every snapping action puts the window in a non-empty cell inside the
/// visible frame; only centring and the monitor moves are no cells.
pub proof fn lemma_cells_inside_screen(a: LayoutAction)
    ensures
        placement_of(a) is Cell <==> !(a == LayoutAction::Center
            || a == LayoutAction::MoveToNextMonitor || a == LayoutAction::MoveToPreviousMonitor),
        placement_of(a) is Cell ==> inside_screen(cell_of(a)),
{
}

/// The two halves of each split cover the screen edge to edge without
/// overlapping: left then right, top then bottom.
pub proof fn lemma_halves_tile_screen()
    ensures
        at_left_edge(cell_of(LayoutAction::SnapLeftHalf)),
        side_by_side(cell_of(LayoutAction::SnapLeftHalf), cell_of(LayoutAction::SnapRightHalf)),
        at_right_edge(cell_of(LayoutAction::SnapRightHalf)),
        full_height(cell_of(LayoutAction::SnapLeftHalf)),
        full_height(cell_of(LayoutAction::SnapRightHalf)),
        at_top_edge(cell_of(LayoutAction::SnapTopHalf)),
        stacked(cell_of(LayoutAction::SnapTopHalf), cell_of(LayoutAction::SnapBottomHalf)),
        at_bottom_edge(cell_of(LayoutAction::SnapBottomHalf)),
        full_width(cell_of(LayoutAction::SnapTopHalf)),
        full_width(cell_of(LayoutAction::SnapBottomHalf)),
{
    assert(cell_of(LayoutAction::SnapLeftHalf) == columns(0, 1, 2));
    assert(cell_of(LayoutAction::SnapRightHalf) == columns(1, 1, 2));
    assert(cell_of(LayoutAction::SnapTopHalf) == rows(0, 1, 2));
    assert(cell_of(LayoutAction::SnapBottomHalf) == rows(1, 1, 2));
}

/// The three thirds cover the screen left to right without overlapping, and
/// each two-thirds cell is the union of the two thirds it spans.
pub proof fn lemma_thirds_tile_screen()
    ensures
        at_left_edge(cell_of(LayoutAction::SnapLeftThird)),
        side_by_side(cell_of(LayoutAction::SnapLeftThird), cell_of(LayoutAction::SnapCenterThird)),
        side_by_side(cell_of(LayoutAction::SnapCenterThird), cell_of(LayoutAction::SnapRightThird)),
        at_right_edge(cell_of(LayoutAction::SnapRightThird)),
        full_height(cell_of(LayoutAction::SnapLeftThird)),
        full_height(cell_of(LayoutAction::SnapCenterThird)),
        full_height(cell_of(LayoutAction::SnapRightThird)),
        union_of(
            cell_of(LayoutAction::SnapLeftTwoThirds),
            cell_of(LayoutAction::SnapLeftThird),
            cell_of(LayoutAction::SnapCenterThird),
        ),
        union_of(
            cell_of(LayoutAction::SnapRightTwoThirds),
            cell_of(LayoutAction::SnapCenterThird),
            cell_of(LayoutAction::SnapRightThird),
        ),
{
    assert(cell_of(LayoutAction::SnapLeftThird) == columns(0, 1, 3));
    assert(cell_of(LayoutAction::SnapCenterThird) == columns(1, 1, 3));
    assert(cell_of(LayoutAction::SnapRightThird) == columns(2, 1, 3));
    assert(cell_of(LayoutAction::SnapLeftTwoThirds) == columns(0, 2, 3));
    assert(cell_of(LayoutAction::SnapRightTwoThirds) == columns(1, 2, 3));
    assert(sums_to(frac(0, 3), frac(1, 3), frac(1, 3)));
    assert(sums_to(frac(1, 3), frac(1, 3), frac(2, 3)));
    assert(sums_to(frac(1, 3), frac(2, 3), frac(3, 3)));
}

/// Each corner is where a vertical half meets a horizontal half, and
/// maximizing covers the whole visible frame.
pub proof fn lemma_corners_are_half_intersections()
    ensures
        intersection_of(
            cell_of(LayoutAction::SnapTopLeft),
            cell_of(LayoutAction::SnapLeftHalf),
            cell_of(LayoutAction::SnapTopHalf),
        ),
        intersection_of(
            cell_of(LayoutAction::SnapTopRight),
            cell_of(LayoutAction::SnapRightHalf),
            cell_of(LayoutAction::SnapTopHalf),
        ),
        intersection_of(
            cell_of(LayoutAction::SnapBottomLeft),
            cell_of(LayoutAction::SnapLeftHalf),
            cell_of(LayoutAction::SnapBottomHalf),
        ),
        intersection_of(
            cell_of(LayoutAction::SnapBottomRight),
            cell_of(LayoutAction::SnapRightHalf),
            cell_of(LayoutAction::SnapBottomHalf),
        ),
        full_width(cell_of(LayoutAction::Maximize)),
        full_height(cell_of(LayoutAction::Maximize)),
{
}

} // verus!
