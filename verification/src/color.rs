//! Colours as the window system takes them.

use vstd::prelude::*;

verus! {

/// A colour in one number: red in the lowest byte, then green, then blue.
#[derive(Clone, Copy, Debug, PartialEq, Eq, Structural)]
pub struct Color {
    value: u32,
}

impl View for Color {
    type V = u32;

    closed spec fn view(&self) -> u32 {
        self.value
    }
}

/// The number of a colour with the given parts.
pub open spec fn packed(r: u8, g: u8, b: u8) -> u32 {
    (r + 256 * g + 65536 * b) as u32
}

impl Color {
    pub fn rgb(r: u8, g: u8, b: u8) -> (color: Color)
        ensures
            color@ == packed(r, g, b),
    {
        let value = (r as u32) | ((g as u32) << 8) | ((b as u32) << 16);
        assert(value == packed(r, g, b)) by {
            let (x, y, z) = (r as u32, g as u32, b as u32);
            assert((x | (y << 8) | (z << 16)) == x + 256 * y + 65536 * z) by (bit_vector)
                requires
                    x < 256,
                    y < 256,
                    z < 256,
            ;
        }
        Color { value }
    }

    /// The colour as one number.
    pub fn value(self) -> (value: u32)
        ensures
            value == self@,
    {
        self.value
    }
}

impl From<Color> for u32 {
    fn from(color: Color) -> (value: u32) {
        color.value
    }
}

impl vstd::std_specs::convert::FromSpecImpl<Color> for u32 {
    open spec fn obeys_from_spec() -> bool {
        true
    }

    open spec fn from_spec(color: Color) -> u32 {
        color@
    }
}

} // verus!
