//! Rectangles on the terminal grid, and centering through the layout solver
//! of `ratatui`.

use ratatui::layout::{Constraint, Direction, Flex, Layout};
use vstd::prelude::*;

verus! {

/// A rectangle of terminal cells: its top left corner and its size.
#[derive(Clone, Copy, Debug, PartialEq, Eq, Structural)]
pub struct Rect {
    pub x: u16,
    pub y: u16,
    pub width: u16,
    pub height: u16,
}

/// The axis along which a layout divides an area.
#[derive(Clone, Copy, Debug, PartialEq, Eq, Structural)]
pub enum Axis {
    Horizontal,
    Vertical,
}

impl Rect {
    /// The rectangle keeps within the grid: its right and bottom ends are
    /// coordinates too.
    pub open spec fn fits(self) -> bool {
        self.x + self.width <= u16::MAX && self.y + self.height <= u16::MAX
    }

    /// The rectangle at `(x, y)` of the given size, cut where it would leave
    /// the grid.
    pub open spec fn clipped(x: u16, y: u16, width: u16, height: u16) -> Rect {
        Rect {
            x,
            y,
            width: if width > u16::MAX - x {
                (u16::MAX - x) as u16
            } else {
                width
            },
            height: if height > u16::MAX - y {
                (u16::MAX - y) as u16
            } else {
                height
            },
        }
    }

    /// The rectangle at `(x, y)` of the given size, cut where it would leave
    /// the grid.
    pub fn new(x: u16, y: u16, width: u16, height: u16) -> (r: Rect)
        ensures
            r == Rect::clipped(x, y, width, height),
            r.fits(),
    {
        let max_width: u16 = u16::MAX - x;
        let max_height: u16 = u16::MAX - y;
        Rect {
            x,
            y,
            width: if width > max_width {
                max_width
            } else {
                width
            },
            height: if height > max_height {
                max_height
            } else {
                height
            },
        }
    }

    /// The cell in column `column` and row `row` belongs to the rectangle.
    pub open spec fn contains(self, column: int, row: int) -> bool {
        &&& self.x <= column < self.x + self.width
        &&& self.y <= row < self.y + self.height
    }

    /// Every cell of `self` is a cell of `outer`.
    pub open spec fn within(self, outer: Rect) -> bool {
        &&& outer.x <= self.x
        &&& outer.y <= self.y
        &&& self.x + self.width <= outer.x + outer.width
        &&& self.y + self.height <= outer.y + outer.height
    }

    /// The rectangle as corner and size.
    pub open spec fn parts(self) -> (u16, u16, u16, u16) {
        (self.x, self.y, self.width, self.height)
    }

    /// The rectangle without a margin of `horizontal` columns on either side
    /// and `vertical` rows above and below; the empty rectangle at the origin
    /// where the margins leave nothing.
    pub open spec fn shrunk(self, horizontal: u16, vertical: u16) -> Rect {
        if self.width < 2 * horizontal || self.height < 2 * vertical {
            Rect { x: 0, y: 0, width: 0, height: 0 }
        } else {
            Rect {
                x: (self.x + horizontal) as u16,
                y: (self.y + vertical) as u16,
                width: (self.width - 2 * horizontal) as u16,
                height: (self.height - 2 * vertical) as u16,
            }
        }
    }

    /// The rectangle inside this one that a margin leaves.
    pub fn inner(self, horizontal: u16, vertical: u16) -> (r: Rect)
        requires
            self.fits(),
        ensures
            r == self.shrunk(horizontal, vertical),
            r.fits(),
    {
        let wide: u32 = 2 * (horizontal as u32);
        let high: u32 = 2 * (vertical as u32);
        if (self.width as u32) < wide || (self.height as u32) < high {
            Rect { x: 0, y: 0, width: 0, height: 0 }
        } else {
            Rect {
                x: self.x + horizontal,
                y: self.y + vertical,
                width: self.width - 2 * horizontal,
                height: self.height - 2 * vertical,
            }
        }
    }
}

/// The cells that an area of `len` cells from `start` on has on the grid.
pub open spec fn reach(start: u16, len: u16) -> int {
    if start + len > u16::MAX {
        u16::MAX - start
    } else {
        len as int
    }
}

/// A span of `size` cells from `at` on is centered in the area of `len`
/// cells from `start` on, for at most `max` cells: it is as long as asked, or
/// as long as the area where that is shorter, it lies in the area, and the
/// cells left before it and behind it differ by one at most.
pub open spec fn centered_span(start: u16, len: u16, max: u16, at: u16, size: u16) -> bool {
    let room = reach(start, len);
    let before = at - start;
    let behind = start + room - (at + size);
    &&& size == if max < room {
        max as int
    } else {
        room
    }
    &&& 0 <= before
    &&& 0 <= behind
    &&& -1 <= before - behind <= 1
}

/// The rectangle `(x, y, width, height)` that the layout solver of `ratatui`
/// gives to the one segment of a layout that divides the area
/// `(x, y, width, height)` along the vertical axis (`vertical`) or the
/// horizontal one, holds the one constraint `Max(max)` and centers its
/// segment. `ratatui` itself treats the result as a function of these
/// values: it keeps it in a cache under them.
pub uninterp spec fn centered_split(
    vertical: bool,
    x: u16,
    y: u16,
    width: u16,
    height: u16,
    max: u16,
) -> (u16, u16, u16, u16);

/// `Layout::areas` of `ratatui`, called on `area` for a layout along `axis`
/// with the single constraint `Constraint::Max(max)` and `Flex::Center`.
///
/// Believed of it:
/// - the result is a function of the arguments;
/// - it lies within `area`, since the solver keeps every coordinate between
///   the area's two ends, the far one cut at the grid's edge;
/// - across the axis it has the position and the size of `area`;
/// - along the axis it is `max` cells long, or as long as the area where that
///   is shorter: `Constraint::Max` asks for at most `max` and, less strongly,
///   for exactly `max`, and with one segment only the area's ends oppose;
/// - the room left before it and behind it is the same up to one cell:
///   `Flex::Center` asks for two spacers of one size, and each end is rounded
///   to a whole cell.
#[verifier::external_body]
fn split_centered(area: Rect, axis: Axis, max: u16) -> (r: Rect)
    ensures
        r.parts() == centered_split(
            axis == Axis::Vertical,
            area.x,
            area.y,
            area.width,
            area.height,
            max,
        ),
        r.within(area),
        axis == Axis::Vertical ==> r.x == area.x && r.width == area.width && centered_span(
            area.y,
            area.height,
            max,
            r.y,
            r.height,
        ),
        axis == Axis::Horizontal ==> r.y == area.y && r.height == area.height && centered_span(
            area.x,
            area.width,
            max,
            r.x,
            r.width,
        ),
{
    let direction = match axis {
        Axis::Horizontal => Direction::Horizontal,
        Axis::Vertical => Direction::Vertical,
    };
    let layout = Layout::default().direction(direction).constraints([Constraint::Max(max)]).flex(
        Flex::Center,
    );
    let outer =
        ratatui::layout::Rect { x: area.x, y: area.y, width: area.width, height: area.height };
    let [r] = layout.areas(outer);
    Rect { x: r.x, y: r.y, width: r.width, height: r.height }
}

/// The rectangle that `center` returns: `area` is first divided vertically
/// for at most `height` rows, then that band horizontally for at most `width`
/// columns.
pub open spec fn centered(area: Rect, width: u16, height: u16) -> Rect {
    let band = centered_split(true, area.x, area.y, area.width, area.height, height);
    let cell = centered_split(false, band.0, band.1, band.2, band.3, width);
    Rect { x: cell.0, y: cell.1, width: cell.2, height: cell.3 }
}

/// Centers a box of `width` columns and `height` rows in `area`. The box
/// never leaves `area`: along an axis on which `area` is smaller than asked,
/// the box fills it. The room left on two opposite sides differs by one cell
/// at most.
pub fn center(area: Rect, width: u16, height: u16) -> (r: Rect)
    ensures
        r == centered(area, width, height),
        r.within(area),
        centered_span(area.x, area.width, width, r.x, r.width),
        centered_span(area.y, area.height, height, r.y, r.height),
        r.width <= area.width,
        r.height <= area.height,
        r.width <= width,
        r.height <= height,
{
    let band: Rect = split_centered(area, Axis::Vertical, height);
    split_centered(band, Axis::Horizontal, width)
}

} // verus!
