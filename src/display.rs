use vstd::prelude::*;

verus! {

/// Bytes per pixel of the host frame (32-bit RGB888, little-endian).
pub const BYTES_PER_PIXEL: usize = 4;

#[derive(Clone, Copy, Debug, PartialEq, Eq, Structural)]
pub struct Colour {
    pub r: u8,
    pub g: u8,
    pub b: u8,
}

impl Colour {
    pub fn new(r: u8, g: u8, b: u8) -> (c: Colour)
        ensures
            c == (Colour { r, g, b }),
    {
        Colour { r, g, b }
    }

    /// The four bytes of the pixel, blue first.
    pub open spec fn rgb888(self) -> Seq<u8> {
        seq![self.b, self.g, self.r, 0u8]
    }

    /// Writes the pixel at `index` of a frame buffer.
    pub fn convert_rgb888(&self, buffer: &mut Vec<u8>, index: usize)
        requires
            index + BYTES_PER_PIXEL <= old(buffer)@.len(),
        ensures
            final(buffer)@.len() == old(buffer)@.len(),
            forall|i: int|
                0 <= i < final(buffer)@.len() ==> final(buffer)@[i] == if index <= i < index + 4 {
                    self.rgb888()[i - index]
                } else {
                    old(buffer)@[i]
                },
    {
        let _n = buffer.len();
        buffer.set(index, self.b);
        buffer.set(index + 1, self.g);
        buffer.set(index + 2, self.r);
        buffer.set(index + 3, 0);
    }
}

/// The 128-entry colour table that a TIA colour register indexes (by its
/// upper seven bits).
pub struct Colours {
    pub colours: Vec<Colour>,
}

impl Colours {
    pub const NUM_COLOURS: u8 = 128;

    pub open spec fn wf(&self) -> bool {
        self.colours@.len() == 128
    }

    pub fn new() -> (r: Self)
        ensures
            r.wf(),
            forall|i: int| 0 <= i < 128 ==> r.colours@[i] == (Colour { r: 0, g: 0, b: 0 }),
    {
        let mut colours: Vec<Colour> = Vec::new();
        let mut i: u8 = 0;
        while i < 128
            invariant
                i <= 128,
                colours@.len() == i,
                forall|j: int| 0 <= j < i ==> colours@[j] == (Colour { r: 0, g: 0, b: 0 }),
            decreases 128 - i,
        {
            colours.push(Colour::new(0, 0, 0));
            i += 1;
        }
        Colours { colours }
    }

    /// Colour of a colour-register value.
    pub fn get_colour(&self, colour: u8) -> (r: Colour)
        requires
            self.wf(),
        ensures
            r == self.colours@[(colour / 2) as int],
    {
        self.colours[(colour / 2) as usize]
    }

    /// Entry `index` of the table.
    pub fn get_entry(&self, index: u8) -> (r: Colour)
        requires
            self.wf(),
            index < 128,
        ensures
            r == self.colours@[index as int],
    {
        self.colours[index as usize]
    }
}

} // verus!
