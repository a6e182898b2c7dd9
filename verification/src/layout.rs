use vstd::prelude::*;

use ratatui::layout::Constraint;
use ratatui::layout::Layout;

verus! {

/// A rectangular screen region, in terminal cells.
#[derive(Clone, Copy, PartialEq, Eq, Structural, Debug)]
pub struct Rect {
    pub x: u16,
    pub y: u16,
    pub width: u16,
    pub height: u16,
}

/// How one of two stacked regions claims its share of the split axis.
#[derive(Clone, Copy, PartialEq, Eq, Structural, Debug)]
pub enum SplitConstraint {
    /// A fixed number of rows.
    Length(u16),
    /// At least this many rows, growing into what is left.
    Min(u16),
    /// A percentage of the whole area.
    Percentage(u16),
}

/// Splits the area into a top and a bottom region according to the two
/// constraints.
///
/// Relies on ratatui's `Layout::split` (vertical, two constraints): every
/// returned region keeps the area's horizontal extent, and the regions lie
/// in order, without overlap, inside the area's vertical range. How the
/// solver shares rows between the two constraints is not relied upon.
#[verifier::external_body]
pub fn split_vertical(area: Rect, top: SplitConstraint, bottom: SplitConstraint) -> (r: (
    Rect,
    Rect,
))
    requires
        area.y + area.height <= u16::MAX,
    ensures
        r.0.x == area.x && r.0.width == area.width,
        r.1.x == area.x && r.1.width == area.width,
        area.y <= r.0.y,
        r.0.y + r.0.height <= r.1.y,
        r.1.y + r.1.height <= area.y + area.height,
{
    let whole = ratatui::layout::Rect { x: area.x, y: area.y, width: area.width, height: area.height };
    let cs = [top, bottom].map(|c| match c {
        SplitConstraint::Length(n) => Constraint::Length(n),
        SplitConstraint::Min(n) => Constraint::Min(n),
        SplitConstraint::Percentage(n) => Constraint::Percentage(n),
    });
    let chunks = Layout::vertical(cs).split(whole);
    (
        Rect { x: chunks[0].x, y: chunks[0].y, width: chunks[0].width, height: chunks[0].height },
        Rect { x: chunks[1].x, y: chunks[1].y, width: chunks[1].width, height: chunks[1].height },
    )
}

} // verus!
