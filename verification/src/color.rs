use vstd::prelude::*;

verus! {

/// An opaque colour in four bytes: red, green, blue, and a last byte that
/// `new` always writes as 255.
#[derive(Copy, Clone, Debug)]
pub struct Color {
    pub r: u8,
    pub g: u8,
    pub b: u8,
    pad: u8,
}

impl View for Color {
    type V = Seq<u8>;

    /// The colour as it lies in memory: red, green, blue, then the last byte.
    closed spec fn view(&self) -> Seq<u8> {
        seq![self.r, self.g, self.b, self.pad]
    }
}

impl Color {
    pub fn new(r: u8, g: u8, b: u8) -> (color: Color)
        ensures
            color@ == seq![r, g, b, 255u8],
    {
        Color { r, g, b, pad: 255 }
    }

    /// The colour with every byte zero, the last one too.
    pub fn zeroed() -> (color: Color)
        ensures
            color@ == seq![0u8, 0u8, 0u8, 0u8],
    {
        Color { r: 0, g: 0, b: 0, pad: 0 }
    }

    /// The colour that four bytes in memory order spell.
    pub fn from_bytes(bytes: [u8; 4]) -> (color: Color)
        ensures
            color@ == bytes@,
    {
        let color = Color { r: bytes[0], g: bytes[1], b: bytes[2], pad: bytes[3] };
        assert(color@ =~= bytes@);
        color
    }

    pub fn red(&self) -> (r: u8)
        ensures
            r == self@[0],
    {
        self.r
    }

    pub fn green(&self) -> (g: u8)
        ensures
            g == self@[1],
    {
        self.g
    }

    pub fn blue(&self) -> (b: u8)
        ensures
            b == self@[2],
    {
        self.b
    }

    pub fn pad(&self) -> (pad: u8)
        ensures
            pad == self@[3],
    {
        self.pad
    }

    /// The four bytes of the colour in memory order.
    pub fn to_bytes(&self) -> (bytes: [u8; 4])
        ensures
            bytes@ == self@,
    {
        let bytes: [u8; 4] = [self.r, self.g, self.b, self.pad];
        assert(bytes@ =~= self@);
        bytes
    }
}

impl Default for Color {
    /// The colour with every byte zero, the last one too.
    fn default() -> (color: Color)
        ensures
            color@ == seq![0u8, 0u8, 0u8, 0u8],
    {
        Color::zeroed()
    }
}

} // verus!
