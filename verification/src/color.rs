use vstd::prelude::*;

verus! {

/// An sRGBA colour, one byte per channel (premultiplied alpha).
#[derive(Clone, Copy, Debug, PartialEq, Eq, Structural)]
pub struct Color {
    pub r: u8,
    pub g: u8,
    pub b: u8,
    pub a: u8,
}

/// `x + by`, capped at 255.
pub open spec fn brighten(x: u8, by: u8) -> u8 {
    if x + by > 255 {
        255u8
    } else {
        (x + by) as u8
    }
}

impl Color {
    /// The fully opaque colour with the given channels.
    pub open spec fn opaque(r: u8, g: u8, b: u8) -> Color {
        Color { r, g, b, a: 255 }
    }

    /// An opaque colour from its red, green and blue channels.
    pub fn from_rgb(r: u8, g: u8, b: u8) -> (c: Color)
        ensures
            c == Color::opaque(r, g, b),
    {
        Color { r, g, b, a: 255 }
    }

    /// The colour drawn for a selected block: each of red, green and blue
    /// raised by 40, saturating at 255; the result is opaque.
    pub fn highlighted(self) -> (c: Color)
        ensures
            c == Color::opaque(brighten(self.r, 40), brighten(self.g, 40), brighten(self.b, 40)),
    {
        Color::from_rgb(self.r.saturating_add(40), self.g.saturating_add(40), self.b.saturating_add(40))
    }
}

/// Brightening adds to a channel as far as 255 and stops there.
pub proof fn lemma_brighten(x: u8, by: u8)
    ensures
        x + by <= 255 ==> brighten(x, by) == x + by,
        x + by > 255 ==> brighten(x, by) == 255,
        brighten(x, by) >= x,
{
}

} // verus!
