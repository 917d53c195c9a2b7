//! Plain styling values that overlays carry to whoever draws them.

use vstd::prelude::*;

verus! {

/// A colour of the terminal: the default one, one of the sixteen named ones,
/// one by its red, green and blue parts, or one by its index in the
/// terminal's palette.
#[derive(Clone, Copy, Debug, PartialEq, Eq, Structural)]
pub enum Color {
    Reset,
    Black,
    Red,
    Green,
    Yellow,
    Blue,
    Magenta,
    Cyan,
    Gray,
    DarkGray,
    LightRed,
    LightGreen,
    LightYellow,
    LightBlue,
    LightMagenta,
    LightCyan,
    White,
    Rgb(u8, u8, u8),
    Indexed(u8),
}

/// Empty cells between a box's border and its content, per side.
#[derive(Clone, Copy, Debug, PartialEq, Eq, Structural)]
pub struct Padding {
    pub left: u16,
    pub right: u16,
    pub top: u16,
    pub bottom: u16,
}

impl Padding {
    /// The padding with the given cells per side.
    pub fn new(left: u16, right: u16, top: u16, bottom: u16) -> (p: Padding)
        ensures
            p == (Padding { left, right, top, bottom }),
    {
        Padding { left, right, top, bottom }
    }

    /// The same padding on all four sides.
    pub fn uniform(value: u16) -> (p: Padding)
        ensures
            p == (Padding { left: value, right: value, top: value, bottom: value }),
    {
        Padding { left: value, right: value, top: value, bottom: value }
    }

    /// Columns taken on both sides together.
    pub open spec fn horizontal(self) -> nat {
        (self.left + self.right) as nat
    }

    /// Rows taken above and below together.
    pub open spec fn vertical(self) -> nat {
        (self.top + self.bottom) as nat
    }
}

} // verus!
