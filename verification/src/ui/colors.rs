use vstd::prelude::*;

verus! {

/// An RGBA colour with one byte per channel.
#[derive(Clone, Copy, Debug, PartialEq, Eq, Structural)]
pub struct Color {
    pub r: u8,
    pub g: u8,
    pub b: u8,
    pub a: u8,
}

impl Color {
    /// Builds a colour from its four channels.
    pub fn _new(red: u8, green: u8, blue: u8, alpha: u8) -> (c: Color)
        ensures
            c == (Color { r: red, g: green, b: blue, a: alpha }),
    {
        Color { r: red, g: green, b: blue, a: alpha }
    }

    /// The channels in the order a vertex carries them: red, green, blue, alpha.
    pub fn channels(&self) -> (c: [u8; 4])
        ensures
            c@ == seq![self.r, self.g, self.b, self.a],
    {
        [self.r, self.g, self.b, self.a]
    }
}

/// Opaque white.
pub fn white() -> (c: Color)
    ensures
        c == (Color { r: 255, g: 255, b: 255, a: 255 }),
{
    Color { r: 255, g: 255, b: 255, a: 255 }
}

/// Black, as the palette defines it: all colour channels zero, alpha one.
pub fn black() -> (c: Color)
    ensures
        c == (Color { r: 0, g: 0, b: 0, a: 1 }),
{
    Color { r: 0, g: 0, b: 0, a: 1 }
}

/// Red, as the palette defines it: red channel one, alpha one.
pub fn red() -> (c: Color)
    ensures
        c == (Color { r: 1, g: 0, b: 0, a: 1 }),
{
    Color { r: 1, g: 0, b: 0, a: 1 }
}

/// Green, as the palette defines it: green channel one, alpha zero.
pub fn green() -> (c: Color)
    ensures
        c == (Color { r: 0, g: 1, b: 0, a: 0 }),
{
    Color { r: 0, g: 1, b: 0, a: 0 }
}

/// Blue, as the palette defines it: blue channel one, alpha zero.
pub fn blue() -> (c: Color)
    ensures
        c == (Color { r: 0, g: 0, b: 1, a: 0 }),
{
    Color { r: 0, g: 0, b: 1, a: 0 }
}

} // verus!
