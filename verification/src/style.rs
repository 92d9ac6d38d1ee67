//! Plain display-styling values. These never take part in the state machine;
//! a host toolkit maps them onto its own color and size types when drawing.

use vstd::prelude::*;

verus! {

/// An RGBA color, eight bits per channel.
#[derive(Clone, Copy, Debug, PartialEq, Eq, Structural)]
pub struct Color {
    pub r: u8,
    pub g: u8,
    pub b: u8,
    pub a: u8,
}

/// A chip's requested size, in whole pixels.
#[derive(Clone, Copy, Debug, PartialEq, Eq, Structural)]
pub struct ChipSize {
    pub width: u32,
    pub height: u32,
}

/// The size a chip gets when the caller asks for none.
pub fn default_chip_size() -> (s: ChipSize)
    ensures
        s.width == 40,
        s.height == 20,
{
    ChipSize { width: 40, height: 20 }
}

} // verus!
