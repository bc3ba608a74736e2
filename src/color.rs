use vstd::prelude::*;

verus! {

/// An opaque RGB color.
#[derive(Clone, Copy, Debug, PartialEq, Eq, Structural)]
pub struct Color {
    pub r: u8,
    pub g: u8,
    pub b: u8,
}

/// Sum of the three channels.
pub open spec fn channel_sum(c: Color) -> int {
    c.r as int + c.g as int + c.b as int
}

/// A color is dark when its channels sum to less than half of the maximum
/// (`3 * 255 / 2`). The maximum sum is odd, so no color sits on the boundary.
pub open spec fn spec_is_dark(c: Color) -> bool {
    2 * channel_sum(c) < 765
}

/// The channel-wise complement of a color.
pub open spec fn spec_invert(c: Color) -> Color {
    Color { r: (255 - c.r) as u8, g: (255 - c.g) as u8, b: (255 - c.b) as u8 }
}

impl Color {
    pub fn new(r: u8, g: u8, b: u8) -> (c: Color)
        ensures
            c == (Color { r, g, b }),
    {
        Color { r, g, b }
    }

    pub fn is_dark(&self) -> (d: bool)
        ensures
            d == spec_is_dark(*self),
    {
        let sum: u32 = self.r as u32 + self.g as u32 + self.b as u32;
        2 * sum < 765
    }

    pub fn invert(&self) -> (c: Color)
        ensures
            c == spec_invert(*self),
    {
        Color { r: 255 - self.r, g: 255 - self.g, b: 255 - self.b }
    }
}

/// Inverting twice gives back the original color.
pub proof fn lemma_invert_involutive(c: Color)
    ensures
        spec_invert(spec_invert(c)) == c,
{
}

/// Inverting a color always changes whether it is dark.
pub proof fn lemma_invert_flips_darkness(c: Color)
    ensures
        spec_is_dark(spec_invert(c)) == !spec_is_dark(c),
{
}

} // verus!
