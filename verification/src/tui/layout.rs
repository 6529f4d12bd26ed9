//! Splitting an area into pieces by size constraints, which ratatui's
//! layout solver does.
use vstd::prelude::*;
use ratatui::layout as rl;
use crate::tui::session_view::Rect;

verus! {

/// The direction in which an area is split.
#[derive(Clone, Copy, Debug, PartialEq, Eq, Structural)]
pub enum LayoutDirection {
    Horizontal,
    Vertical,
}

/// A size asked of one piece of a split.
#[derive(Clone, Copy, Debug, PartialEq, Eq, Structural)]
pub enum LayoutConstraint {
    /// At least this many cells.
    Min(u16),
    /// This many cells.
    Length(u16),
}

/// The pieces that ratatui's `Layout::split` makes of an area, with the
/// default margin, flex and spacing.
pub uninterp spec fn ratatui_split(direction: LayoutDirection, constraints: Seq<LayoutConstraint>, area: Rect) -> Seq<Rect>;

/// Calls `ratatui::layout::Layout::split` (of ratatui-core) with this
/// direction and these constraints, and default margin, flex and spacing.
/// The solver makes one piece per constraint; the pieces themselves are
/// named by `ratatui_split`, a function of the arguments alone (the cache
/// that `split` keeps does not change what it returns). The split panics
/// only when the solver refuses a required constraint, which those it adds
/// for a plain split never conflict in.
#[verifier::external_body]
pub(crate) fn layout_split(direction: LayoutDirection, constraints: &Vec<LayoutConstraint>, area: Rect) -> (r: Vec<Rect>)
    ensures
        r@ == ratatui_split(direction, constraints@, area),
        r@.len() == constraints@.len(),
{
    let dir = match direction {
        LayoutDirection::Horizontal => rl::Direction::Horizontal,
        LayoutDirection::Vertical => rl::Direction::Vertical,
    };
    let cs = constraints.iter().map(|c| match c {
        LayoutConstraint::Min(v) => rl::Constraint::Min(*v),
        LayoutConstraint::Length(v) => rl::Constraint::Length(*v),
    });
    let a = rl::Rect { x: area.x, y: area.y, width: area.width, height: area.height };
    let pieces = rl::Layout::default().direction(dir).constraints(cs).split(a);
    pieces.iter().map(|p| Rect { x: p.x, y: p.y, width: p.width, height: p.height }).collect()
}

} // verus!
