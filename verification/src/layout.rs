//! Areas of the screen.

use ratatui::layout as tui;
use vstd::prelude::*;

verus! {

/// An area of the screen, in cells.
#[derive(Clone, Copy, Debug, PartialEq, Eq, Structural)]
pub struct Rect {
    pub x: u16,
    pub y: u16,
    pub width: u16,
    pub height: u16,
}

/// The way in which an area is split up.
#[derive(Clone, Copy, Debug, PartialEq, Eq, Structural)]
pub enum Direction {
    /// From left to right.
    Horizontal,
    /// From top to bottom.
    Vertical,
}

/// What is asked of the size of a part.
#[derive(Clone, Copy, Debug, PartialEq, Eq, Structural)]
pub enum Constraint {
    /// At least so many cells.
    Min(u16),
    /// So many cells.
    Length(u16),
    /// So many hundredths of the whole.
    Percentage(u16),
}

/// Whether ratatui's `Layout::split` can give these parts of the area for these
/// constraints. It need not give the same ones each time: its solver walks hash
/// maps that every process seeds anew.
pub uninterp spec fn layout_outcome(
    direction: Direction,
    constraints: Seq<Constraint>,
    area: Rect,
    parts: Seq<Rect>,
) -> bool;

/// Whether the part spans the area across the direction of the split and lies in
/// it along that direction.
pub open spec fn part_of(direction: Direction, area: Rect, part: Rect) -> bool {
    match direction {
        Direction::Horizontal => {
            &&& part.y == area.y
            &&& part.height == area.height
            &&& area.x <= part.x
            &&& part.x + part.width <= area.x + area.width
            &&& part.x + part.width <= u16::MAX
        },
        Direction::Vertical => {
            &&& part.x == area.x
            &&& part.width == area.width
            &&& area.y <= part.y
            &&& part.y + part.height <= area.y + area.height
            &&& part.y + part.height <= u16::MAX
        },
    }
}

/// ratatui's `Layout::split`, on a layout with that direction, those constraints
/// and no margin: one part for each constraint, each of them in the area. How
/// the parts share the area out is left to its solver and is not said here.
#[verifier::external_body]
pub(crate) fn split(direction: Direction, constraints: &Vec<Constraint>, area: Rect) -> (parts: Vec<
    Rect,
>)
    ensures
        layout_outcome(direction, constraints@, area, parts@),
        parts@.len() == constraints@.len(),
        forall|i: int| 0 <= i < parts@.len() ==> part_of(direction, area, #[trigger] parts@[i]),
{
    let direction = match direction {
        Direction::Horizontal => tui::Direction::Horizontal,
        Direction::Vertical => tui::Direction::Vertical,
    };
    let constraints = constraints.iter().map(|constraint| match *constraint {
        Constraint::Min(n) => tui::Constraint::Min(n),
        Constraint::Length(n) => tui::Constraint::Length(n),
        Constraint::Percentage(n) => tui::Constraint::Percentage(n),
    });
    let area = tui::Rect { x: area.x, y: area.y, width: area.width, height: area.height };
    let parts = tui::Layout::default().direction(direction).constraints(constraints).split(area);
    parts.iter().map(|p| Rect { x: p.x, y: p.y, width: p.width, height: p.height }).collect()
}

/// How far an extent of `size` stands off the start of `space` when it is in the
/// middle, nothing where it does not fit.
pub open spec fn offset_in(size: u16, space: u16) -> int {
    if size < space {
        (space - size) / 2
    } else {
        0
    }
}

/// An area of that size in the middle of another one, cut down to it.
pub open spec fn centered_in(width: u16, height: u16, area: Rect) -> Rect {
    Rect {
        x: (area.x + offset_in(width, area.width)) as u16,
        y: (area.y + offset_in(height, area.height)) as u16,
        width: vstd::math::min(width as int, area.width as int) as u16,
        height: vstd::math::min(height as int, area.height as int) as u16,
    }
}

/// Whether the middle of the area can be told in cells.
pub open spec fn can_center(width: u16, height: u16, area: Rect) -> bool {
    &&& area.x + offset_in(width, area.width) <= u16::MAX
    &&& area.y + offset_in(height, area.height) <= u16::MAX
}

fn offset(size: u16, space: u16) -> (cells: u16)
    ensures
        cells == offset_in(size, space),
{
    space.saturating_sub(size) / 2
}

/// Whether the middle of the area can be told in cells.
pub fn has_center(width: u16, height: u16, area: Rect) -> (center: bool)
    ensures
        center == can_center(width, height, area),
{
    offset(width, area.width) <= u16::MAX - area.x && offset(height, area.height) <= u16::MAX
        - area.y
}

/// An area of that size in the middle of another one, cut down to it.
pub fn centered(width: u16, height: u16, area: Rect) -> (inner: Rect)
    requires
        can_center(width, height, area),
    ensures
        inner == centered_in(width, height, area),
{
    Rect {
        x: area.x + offset(width, area.width),
        y: area.y + offset(height, area.height),
        width: if width < area.width {
            width
        } else {
            area.width
        },
        height: if height < area.height {
            height
        } else {
            area.height
        },
    }
}

} // verus!
