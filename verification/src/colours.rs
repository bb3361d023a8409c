//! The small fixed palette of foreground colours used by the widgets.
use vstd::prelude::*;

verus! {

/// A 24-bit RGB foreground colour for one terminal cell.
#[derive(Clone, Copy, PartialEq, Eq, Structural, Debug)]
pub struct Colour {
    pub r: u8,
    pub g: u8,
    pub b: u8,
}

/// The default foreground colour of a blank cell.
pub open spec fn grey_spec() -> Colour {
    Colour { r: 100, g: 100, b: 100 }
}

pub open spec fn light_grey_spec() -> Colour {
    Colour { r: 200, g: 200, b: 200 }
}

/// The colour of an item being worked on.
pub open spec fn orange_spec() -> Colour {
    Colour { r: 245, g: 158, b: 66 }
}

pub open spec fn light_blue_spec() -> Colour {
    Colour { r: 66, g: 152, b: 245 }
}

/// The default foreground colour of a blank cell.
pub fn grey() -> (c: Colour)
    ensures
        c == grey_spec(),
{
    Colour { r: 100, g: 100, b: 100 }
}

pub fn light_grey() -> (c: Colour)
    ensures
        c == light_grey_spec(),
{
    Colour { r: 200, g: 200, b: 200 }
}

pub fn orange() -> (c: Colour)
    ensures
        c == orange_spec(),
{
    Colour { r: 245, g: 158, b: 66 }
}

pub fn light_blue() -> (c: Colour)
    ensures
        c == light_blue_spec(),
{
    Colour { r: 66, g: 152, b: 245 }
}

} // verus!
