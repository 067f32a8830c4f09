//! Screen geometry of the interface: rectangles, the split of the screen into
//! sidebar, header, content and footer, and centred dialogs. Splitting is
//! ratatui's layout solver.
use vstd::prelude::*;
use ratatui::layout::{Constraint, Direction, Layout};

verus! {

/// A rectangle of terminal cells.
#[derive(Clone, Copy, PartialEq, Eq, Structural, Debug)]
pub struct Rect {
    pub x: u16,
    pub y: u16,
    pub width: u16,
    pub height: u16,
}

impl Rect {
    pub fn new(x: u16, y: u16, width: u16, height: u16) -> (r: Rect)
        ensures
            r == (Rect { x, y, width, height }),
    {
        Rect { x, y, width, height }
    }
}

/// A size constraint of one part of a split.
#[derive(Clone, Copy, PartialEq, Eq, Structural, Debug)]
pub enum Span {
    Length(u16),
    Min(u16),
    Percentage(u16),
}

/// The name of the parts ratatui's `Layout::split` makes of `area`, less a
/// `margin` on every side, for the constraints, top to bottom when
/// `vertical`, left to right otherwise.
pub uninterp spec fn layout_of(vertical: bool, margin: u16, spans: Seq<Span>, area: Rect) -> Seq<Rect>;

/// `ratatui::layout::Layout::split`: one part per constraint. The contract
/// names the parts after the direction, the margin, the constraints and the
/// area, and states their number; their sizes are the solver's.
#[verifier::external_body]
pub(crate) fn split(vertical: bool, margin: u16, spans: &Vec<Span>, area: Rect) -> (r: Vec<Rect>)
    ensures
        r@ == layout_of(vertical, margin, spans@, area),
        r@.len() == spans@.len(),
{
    let dir = if vertical { Direction::Vertical } else { Direction::Horizontal };
    let cs = spans.iter().map(|s| match *s {
        Span::Length(n) => Constraint::Length(n),
        Span::Min(n) => Constraint::Min(n),
        Span::Percentage(n) => Constraint::Percentage(n),
    });
    let outer = ratatui::layout::Rect::new(area.x, area.y, area.width, area.height);
    let parts = Layout::default().direction(dir).margin(margin).constraints(cs).split(outer);
    parts.iter().map(|p| Rect { x: p.x, y: p.y, width: p.width, height: p.height }).collect()
}

/// The rectangle ratatui's `Rect::new` makes: the width and height are cut so
/// that the rectangle ends within the coordinate range.
pub open spec fn clamped_rect(x: u16, y: u16, width: u16, height: u16) -> Rect {
    Rect {
        x,
        y,
        width: if width > 0xffff - x { (0xffff - x) as u16 } else { width },
        height: if height > 0xffff - y { (0xffff - y) as u16 } else { height },
    }
}

/// Builds a rectangle as ratatui's `Rect::new` does (see `clamped_rect`).
pub fn clamped(x: u16, y: u16, width: u16, height: u16) -> (r: Rect)
    ensures
        r == clamped_rect(x, y, width, height),
{
    let max_w = 0xffff - x;
    let max_h = 0xffff - y;
    Rect { x, y, width: if width > max_w { max_w } else { width }, height: if height > max_h { max_h } else { height } }
}

/// Whether a cell lies inside a rectangle.
pub open spec fn contains(r: Rect, col: u16, row: u16) -> bool {
    r.x <= col < r.x + r.width && r.y <= row < r.y + r.height
}

/// Whether the cell (`col`, `row`) lies inside `r`.
pub fn rect_contains(r: Rect, col: u16, row: u16) -> (b: bool)
    ensures
        b == contains(r, col, row),
{
    (col as u32) >= (r.x as u32) && (col as u32) < (r.x as u32) + (r.width as u32) && (row as u32)
        >= (r.y as u32) && (row as u32) < (r.y as u32) + (r.height as u32)
}

pub(crate) fn three(a: Span, b: Span, c: Span) -> (r: Vec<Span>)
    ensures
        r@ == seq![a, b, c],
{
    let mut v: Vec<Span> = Vec::new();
    v.push(a);
    v.push(b);
    v.push(c);
    v
}

/// Constraints of a centred band covering `p` percent.
pub open spec fn band(p: u16) -> Seq<Span> {
    seq![
        Span::Percentage(((100 - p) / 2) as u16),
        Span::Percentage(p),
        Span::Percentage(((100 - p) / 2) as u16),
    ]
}

/// The centred part of `r` covering `px` percent of its width and `py`
/// percent of its height.
pub open spec fn centered(px: u16, py: u16, r: Rect) -> Rect {
    layout_of(false, 0, band(px), layout_of(true, 0, band(py), r)[1])[1]
}

/// A rectangle centred in `r`, `percent_x` percent wide and `percent_y`
/// percent high, as the dialogs use.
pub fn centered_rect(percent_x: u16, percent_y: u16, r: Rect) -> (c: Rect)
    requires
        percent_x <= 100,
        percent_y <= 100,
    ensures
        c == centered(percent_x, percent_y, r),
{
    let vy = (100 - percent_y) / 2;
    let rows = split(true, 0, &three(Span::Percentage(vy), Span::Percentage(percent_y), Span::Percentage(vy)), r);
    let vx = (100 - percent_x) / 2;
    let cols = split(
        false,
        0,
        &three(Span::Percentage(vx), Span::Percentage(percent_x), Span::Percentage(vx)),
        rows[1],
    );
    cols[1]
}

/// The zones of the screen the interface draws in.
#[derive(Clone, Copy, PartialEq, Eq, Structural, Debug)]
pub struct LayoutZones {
    pub area: Rect,
    pub sidebar: Rect,
    pub header: Rect,
    pub content: Rect,
    pub footer: Rect,
}

/// The sidebar and workspace columns of the screen.
pub open spec fn root_split(area: Rect) -> Seq<Rect> {
    layout_of(false, 0, seq![Span::Length(18), Span::Min(0)], area)
}

/// The header, content and footer rows of the workspace.
pub open spec fn workspace_split(area: Rect) -> Seq<Rect> {
    layout_of(true, 0, seq![Span::Length(3), Span::Min(0), Span::Length(1)], root_split(area)[1])
}

/// Splits the screen: an 18-column sidebar on the left; on the right a
/// 3-row header, the content, and a 1-row footer.
pub fn compute_layout_zones(area: Rect) -> (z: LayoutZones)
    ensures
        z.area == area,
        z.sidebar == root_split(area)[0],
        z.header == workspace_split(area)[0],
        z.content == workspace_split(area)[1],
        z.footer == workspace_split(area)[2],
{
    let mut cols: Vec<Span> = Vec::new();
    cols.push(Span::Length(18));
    cols.push(Span::Min(0));
    assert(cols@ =~= seq![Span::Length(18), Span::Min(0)]);
    let root = split(false, 0, &cols, area);
    let rows = split(true, 0, &three(Span::Length(3), Span::Min(0), Span::Length(1)), root[1]);
    LayoutZones { area, sidebar: root[0], header: rows[0], content: rows[1], footer: rows[2] }
}

} // verus!
