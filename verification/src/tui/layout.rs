//! The areas of the screen, laid out by ratatui's constraint solver.

use ratatui::layout::{Constraint, Direction, Layout, Rect};
use vstd::prelude::*;

verus! {

/// A rectangle of the screen.
#[derive(Debug, Clone, Copy, PartialEq, Eq, Structural)]
pub struct Area {
    pub x: u16,
    pub y: u16,
    pub width: u16,
    pub height: u16,
}

/// How much of the split direction a part asks for.
#[derive(Debug, Clone, Copy, PartialEq, Eq, Structural)]
pub enum Size {
    Length(u16),
    Min(u16),
    Percentage(u16),
}

/// The parts that ratatui's `Layout::split` gives for `area` split into
/// rows (`vertical`) or columns by `sizes`, one part per size. ratatui
/// computes them from the area and the layout alone, and keeps them in a
/// cache keyed by exactly those.
pub uninterp spec fn layout_split(area: Area, vertical: bool, sizes: Seq<Size>) -> Seq<Area>;

/// `r` is as wide as `a` (split into rows) or as high (split into columns),
/// at the same place across the split direction.
pub open spec fn spans(r: Area, a: Area, vertical: bool) -> bool {
    if vertical {
        r.x == a.x && r.width == a.width
    } else {
        r.y == a.y && r.height == a.height
    }
}

/// `Layout::default().direction(..).constraints(..).split(area)`: one part
/// per size, each with the area's own place and extent across the split
/// direction; where each part falls along it is the named result.
#[verifier::external_body]
fn split(area: Area, vertical: bool, sizes: &Vec<Size>) -> (r: Vec<Area>)
    ensures
        r@ == layout_split(area, vertical, sizes@),
        r@.len() == sizes@.len(),
        forall|i: int| 0 <= i < r@.len() ==> spans(#[trigger] r@[i], area, vertical),
{
    let rect = Rect { x: area.x, y: area.y, width: area.width, height: area.height };
    let direction = if vertical { Direction::Vertical } else { Direction::Horizontal };
    let constraints: Vec<Constraint> = sizes.iter().map(|s| match s {
        Size::Length(n) => Constraint::Length(*n),
        Size::Min(n) => Constraint::Min(*n),
        Size::Percentage(n) => Constraint::Percentage(*n),
    }).collect();
    let parts = Layout::default().direction(direction).constraints(constraints).split(rect);
    parts.iter().map(|r| Area { x: r.x, y: r.y, width: r.width, height: r.height }).collect()
}

/// The status bar, the chat area and the input area, from top to bottom.
pub struct MainLayout {
    pub status: Area,
    pub chat: Area,
    pub input: Area,
}

/// The rows of the main screen.
pub open spec fn main_sizes() -> Seq<Size> {
    seq![Size::Length(3), Size::Min(3), Size::Length(3)]
}

/// The rows around the approval overlay.
pub open spec fn quarter_sizes() -> Seq<Size> {
    seq![Size::Percentage(25), Size::Percentage(50), Size::Percentage(25)]
}

/// The columns around the approval overlay.
pub open spec fn side_sizes() -> Seq<Size> {
    seq![Size::Percentage(15), Size::Percentage(70), Size::Percentage(15)]
}

/// Three rows: the status bar and the input area take three rows each,
/// the chat area the rest. Each row spans the whole width.
pub fn main_layout(area: Area) -> (r: MainLayout)
    ensures
        r.status == layout_split(area, true, main_sizes())[0],
        r.chat == layout_split(area, true, main_sizes())[1],
        r.input == layout_split(area, true, main_sizes())[2],
        spans(r.status, area, true),
        spans(r.chat, area, true),
        spans(r.input, area, true),
{
    let sizes = vec![Size::Length(3), Size::Min(3), Size::Length(3)];
    assert(sizes@ == main_sizes());
    let parts = split(area, true, &sizes);
    MainLayout { status: parts[0], chat: parts[1], input: parts[2] }
}

/// The approval overlay: the middle half of the rows, and of those the
/// middle 70% of the columns.
pub fn approval_overlay(area: Area) -> (r: Area)
    ensures
        r == layout_split(layout_split(area, true, quarter_sizes())[1], false, side_sizes())[1],
{
    let rows = vec![Size::Percentage(25), Size::Percentage(50), Size::Percentage(25)];
    assert(rows@ == quarter_sizes());
    let vertical = split(area, true, &rows);
    let cols = vec![Size::Percentage(15), Size::Percentage(70), Size::Percentage(15)];
    assert(cols@ == side_sizes());
    let horizontal = split(vertical[1], false, &cols);
    horizontal[1]
}

} // verus!
