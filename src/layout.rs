//! Where the three panels of a frame go on the drawing surface.
use vstd::prelude::*;
use ratatui::layout::{Constraint, Direction, Layout, Rect};

verus! {

/// A rectangle of terminal cells.
#[derive(Clone, Copy, Debug, PartialEq, Eq, Structural)]
pub struct Area {
    pub x: u16,
    pub y: u16,
    pub width: u16,
    pub height: u16,
}

/// How much of the vertical extent a region asks for.
#[derive(Clone, Copy, Debug, PartialEq, Eq, Structural)]
pub enum Sizing {
    /// Exactly this many rows.
    Length(u16),
    /// At least this many rows, and whatever is left over.
    Min(u16),
}

/// The cells left around the whole surface before it is partitioned.
pub const FRAME_MARGIN: u16 = 1;

/// The rows of the header panel and of the footer panel.
pub const FIXED_PANEL_ROWS: u16 = 3;

impl Area {
    /// The area less `margin` cells on every side; empty, at the origin, when
    /// the area is too small for the margins.
    pub open spec fn inner(self, margin: u16) -> Area {
        if self.width < 2 * margin || self.height < 2 * margin {
            Area { x: 0, y: 0, width: 0, height: 0 }
        } else {
            Area {
                x: (self.x + margin) as u16,
                y: (self.y + margin) as u16,
                width: (self.width - 2 * margin) as u16,
                height: (self.height - 2 * margin) as u16,
            }
        }
    }

    /// Whether `self` is a horizontal band of `outer`: the same columns, and
    /// rows that lie within those of `outer`.
    pub open spec fn is_band_of(self, outer: Area) -> bool {
        &&& self.x == outer.x
        &&& self.width == outer.width
        &&& outer.y <= self.y
        &&& self.y + self.height <= outer.y + outer.height
    }
}

/// Whether `a` lies wholly above `b`.
pub open spec fn stacked(a: Area, b: Area) -> bool {
    a.y + a.height <= b.y
}

/// The rows that the panel plan gives inside `inner`. With room for both fixed
/// panels: a header of 3 rows at the top, a footer of 3 rows at the bottom, and
/// the body on every row between. Without: the body gets no row, and header
/// and footer at most 3 rows each.
pub open spec fn plan_rows(inner: Area, header: Area, body: Area, footer: Area) -> bool {
    if inner.height >= 2 * FIXED_PANEL_ROWS {
        &&& header.y == inner.y
        &&& header.height == FIXED_PANEL_ROWS
        &&& body.y == inner.y + FIXED_PANEL_ROWS
        &&& body.height == inner.height - 2 * FIXED_PANEL_ROWS
        &&& footer.y == body.y + body.height
        &&& footer.height == FIXED_PANEL_ROWS
    } else {
        &&& body.height == 0
        &&& header.height <= FIXED_PANEL_ROWS
        &&& footer.height <= FIXED_PANEL_ROWS
    }
}

/// Relies on ratatui's `Layout::split` with a vertical direction and a uniform
/// margin: it yields one rectangle per constraint, each spanning the columns of
/// the area shrunk by the margin (`Rect::inner`), with rows between that inner
/// area's top and bottom (the solver's required bounds on every segment edge),
/// in order from top to bottom (its required ascending order of the edges).
/// For the panel plan, the rows are those of `plan_rows`: the length
/// constraints are met while there is room for them, under the default
/// `Flex::Start`.
#[verifier::external_body]
fn split_vertical(area: Area, margin: u16, sizes: &Vec<Sizing>) -> (r: Vec<Area>)
    requires
        area.x + area.width <= u16::MAX,
        area.y + area.height <= u16::MAX,
        2 * margin <= u16::MAX,
    ensures
        r@.len() == sizes@.len(),
        forall|i: int| 0 <= i < r@.len() ==> #[trigger] r@[i].is_band_of(area.inner(margin)),
        forall|i: int, j: int| 0 <= i < j < r@.len() ==> #[trigger] stacked(r@[i], r@[j]),
        sizes@ == panel_plan() ==> plan_rows(area.inner(margin), r@[0], r@[1], r@[2]),
{
    let constraints = sizes.iter().map(|s| match *s {
        Sizing::Length(n) => Constraint::Length(n),
        Sizing::Min(n) => Constraint::Min(n),
    });
    let rect = Rect { x: area.x, y: area.y, width: area.width, height: area.height };
    let layout = Layout::default().direction(Direction::Vertical).margin(margin);
    let rects = layout.constraints(constraints).split(rect);
    rects.iter().map(|r| Area { x: r.x, y: r.y, width: r.width, height: r.height }).collect()
}

/// The three regions of a frame: a header, a body and a footer.
#[derive(Clone, Copy, Debug, PartialEq, Eq, Structural)]
pub struct PanelAreas {
    pub header: Area,
    pub body: Area,
    pub footer: Area,
}

/// The vertical plan of a frame: a fixed header, a body that takes what is
/// left (possibly nothing), and a fixed footer.
pub open spec fn panel_plan() -> Seq<Sizing> {
    seq![Sizing::Length(FIXED_PANEL_ROWS), Sizing::Min(0), Sizing::Length(FIXED_PANEL_ROWS)]
}

/// Builds the vertical plan of a frame.
pub fn panel_sizings() -> (r: Vec<Sizing>)
    ensures
        r@ == panel_plan(),
{
    let mut v: Vec<Sizing> = Vec::new();
    v.push(Sizing::Length(FIXED_PANEL_ROWS));
    v.push(Sizing::Min(0));
    v.push(Sizing::Length(FIXED_PANEL_ROWS));
    assert(v@ =~= panel_plan());
    v
}

/// Partitions a surface, after a one-cell margin, into header, body and
/// footer by the plan of [`panel_sizings`]. Each region spans the columns
/// inside the margin and lies within the rows inside it, so painting it never
/// reaches outside the surface; the regions come in order from top to bottom,
/// with the rows of `plan_rows`.
pub fn frame_layout(surface: Area) -> (r: PanelAreas)
    requires
        surface.x + surface.width <= u16::MAX,
        surface.y + surface.height <= u16::MAX,
    ensures
        r.header.is_band_of(surface.inner(FRAME_MARGIN)),
        r.body.is_band_of(surface.inner(FRAME_MARGIN)),
        r.footer.is_band_of(surface.inner(FRAME_MARGIN)),
        stacked(r.header, r.body),
        stacked(r.body, r.footer),
        plan_rows(surface.inner(FRAME_MARGIN), r.header, r.body, r.footer),
{
    let sizes = panel_sizings();
    let areas = split_vertical(surface, FRAME_MARGIN, &sizes);
    assert(areas@[0].is_band_of(surface.inner(FRAME_MARGIN)));
    assert(areas@[1].is_band_of(surface.inner(FRAME_MARGIN)));
    assert(areas@[2].is_band_of(surface.inner(FRAME_MARGIN)));
    assert(stacked(areas@[0], areas@[1]));
    assert(stacked(areas@[1], areas@[2]));
    PanelAreas { header: areas[0], body: areas[1], footer: areas[2] }
}

} // verus!
