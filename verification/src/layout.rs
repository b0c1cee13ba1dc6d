//! Placement rules of the dashboard's panels.
use vstd::prelude::*;

verus! {

/// A rectangle of terminal cells.
#[derive(Clone, Copy, Debug, PartialEq, Eq, Structural)]
pub struct Rect {
    pub x: u16,
    pub y: u16,
    pub width: u16,
    pub height: u16,
}

/// Columns of the month grid (weekday header and week rows).
pub const MONTHLY_WIDTH: u16 = 23;

/// Rows of the month grid.
pub const MONTHLY_HEIGHT: u16 = 5;

/// Columns the greeting needs beside the month grid.
pub const GREETING_MIN_WIDTH: u16 = 26;

/// The calendar widget: today's month, today highlighted.
#[derive(Debug, Default)]
pub struct Calendar {}

impl Calendar {
    /// The calendar.
    pub fn new() -> (c: Calendar) {
        Calendar {}
    }
}

/// Where the month grid goes in `area`: its top-right corner, at most the
/// grid's size.
pub open spec fn monthly_grid_of(area: Rect) -> Rect {
    let w: int = if area.width >= MONTHLY_WIDTH {
        MONTHLY_WIDTH as int
    } else {
        area.width as int
    };
    let h: int = if area.height >= MONTHLY_HEIGHT {
        MONTHLY_HEIGHT as int
    } else {
        area.height as int
    };
    Rect {
        x: (area.x + (area.width - w)) as u16,
        y: area.y,
        width: w as u16,
        height: h as u16,
    }
}

/// Where the month grid goes in `area`.
pub fn monthly_grid(area: Rect) -> (grid: Rect)
    requires
        area.x + (area.width - (if area.width >= MONTHLY_WIDTH { MONTHLY_WIDTH } else { area.width }))
            <= u16::MAX,
    ensures
        grid == monthly_grid_of(area),
        grid.x + grid.width == area.x + area.width,
        grid.width <= MONTHLY_WIDTH,
        grid.height <= MONTHLY_HEIGHT,
{
    Rect {
        x: area.x + area.width.saturating_sub(MONTHLY_WIDTH),
        y: area.y,
        width: if area.width < MONTHLY_WIDTH { area.width } else { MONTHLY_WIDTH },
        height: if area.height < MONTHLY_HEIGHT { area.height } else { MONTHLY_HEIGHT },
    }
}

/// Whether the greeting goes beside the month grid (rather than above it)
/// in a calendar panel whose inside is `inner_width` columns wide.
pub fn greeting_beside_calendar(inner_width: u16) -> (beside: bool)
    ensures
        beside == (inner_width >= GREETING_MIN_WIDTH + MONTHLY_WIDTH),
{
    inner_width >= GREETING_MIN_WIDTH + MONTHLY_WIDTH
}

/// One line of `text_width` columns, centered in `area`.
pub fn centered_line(area: Rect, text_width: u16) -> (line: Rect)
    requires
        area.x + (if area.width >= text_width { (area.width - text_width) / 2 } else { 0 })
            <= u16::MAX,
        area.y + area.height / 2 <= u16::MAX,
    ensures
        line.x == area.x + (if area.width >= text_width {
            (area.width - text_width) / 2
        } else {
            0
        }),
        line.y == area.y + area.height / 2,
        line.width == text_width,
        line.height == 1,
{
    Rect {
        x: area.x + area.width.saturating_sub(text_width) / 2,
        y: area.y + area.height / 2,
        width: text_width,
        height: 1,
    }
}

} // verus!
