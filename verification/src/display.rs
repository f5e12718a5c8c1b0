use vstd::prelude::*;

verus! {

/// Pixels per row.
pub const DISPLAY_WIDTH: usize = 64;

/// Number of rows.
pub const DISPLAY_HEIGHT: usize = 32;

/// Pixels on the whole screen.
pub const DISPLAY_SIZE: usize = 2048;

/// Bytes that one pixel takes in a rendered frame.
pub const BYTES_PER_PIXEL: usize = 4;

/// Bytes in a rendered frame.
pub const FRAME_SIZE: usize = 8192;

/// The monochrome screen, with a flag that says whether it was written to
/// since it was last rendered.
pub struct Display {
    buffer: [u8; DISPLAY_SIZE],
    changed: bool,
}

/// What a display holds: the pixels row by row, and the change flag.
pub struct Screen {
    pub pixels: Seq<u8>,
    pub changed: bool,
}

/// Position of the pixel in column `x` of row `y`.
pub open spec fn pixel_index(x: int, y: int) -> int {
    y * DISPLAY_WIDTH + x
}

/// Every pixel of `pixels` is 0 or 1, and there are `DISPLAY_SIZE` of them.
pub open spec fn valid_pixels(pixels: Seq<u8>) -> bool {
    &&& pixels.len() == DISPLAY_SIZE
    &&& forall|i: int| 0 <= i < pixels.len() ==> #[trigger] pixels[i] <= 1
}

/// The frame that shows `pixels`: four bytes per pixel, all `0xff` where the
/// pixel is lit and all zero where it is not.
pub open spec fn frame(pixels: Seq<u8>) -> Seq<u8> {
    Seq::new(
        FRAME_SIZE as nat,
        |i: int|
            if pixels[i / (BYTES_PER_PIXEL as int)] == 1 {
                0xffu8
            } else {
                0u8
            },
    )
}

impl Display {
    /// The pixels and the change flag.
    pub closed spec fn view(&self) -> Screen {
        Screen { pixels: self.buffer@, changed: self.changed }
    }

    /// Every pixel is 0 or 1.
    pub open spec fn wf(&self) -> bool {
        valid_pixels(self@.pixels)
    }

    pub fn new() -> (d: Self)
        ensures
            d.wf(),
            d@.pixels == Seq::new(DISPLAY_SIZE as nat, |i: int| 0u8),
            !d@.changed,
    {
        let d = Display { buffer: [0; DISPLAY_SIZE], changed: false };
        assert(d@.pixels =~= Seq::new(DISPLAY_SIZE as nat, |i: int| 0u8));
        d
    }

    /// Turns every pixel off.
    pub fn clear(&mut self)
        ensures
            final(self).wf(),
            final(self)@.pixels == Seq::new(DISPLAY_SIZE as nat, |i: int| 0u8),
            final(self)@.changed,
    {
        self.buffer = [0; DISPLAY_SIZE];
        self.changed = true;
        assert(self@.pixels =~= Seq::new(DISPLAY_SIZE as nat, |i: int| 0u8));
    }

    pub fn width(&self) -> (w: usize)
        ensures
            w == DISPLAY_WIDTH,
    {
        DISPLAY_WIDTH
    }

    pub fn height(&self) -> (h: usize)
        ensures
            h == DISPLAY_HEIGHT,
    {
        DISPLAY_HEIGHT
    }

    /// The pixel in column `x` of row `y`.
    pub fn peek(&self, x: usize, y: usize) -> (pixel: u8)
        requires
            x < DISPLAY_WIDTH,
            y < DISPLAY_HEIGHT,
        ensures
            pixel == self@.pixels[pixel_index(x as int, y as int)],
    {
        self.buffer[y * DISPLAY_WIDTH + x]
    }

    /// Sets the pixel in column `x` of row `y`.
    pub fn poke(&mut self, x: usize, y: usize, data: u8)
        requires
            old(self).wf(),
            x < DISPLAY_WIDTH,
            y < DISPLAY_HEIGHT,
            data <= 1,
        ensures
            final(self).wf(),
            final(self)@.pixels == old(self)@.pixels.update(pixel_index(x as int, y as int), data),
            final(self)@.changed,
    {
        self.buffer[y * DISPLAY_WIDTH + x] = data;
        self.changed = true;
    }

    /// Whether the screen was written to since it was last rendered.
    pub fn changed(&self) -> (c: bool)
        ensures
            c == self@.changed,
    {
        self.changed
    }

    /// Renders the screen into the first `FRAME_SIZE` bytes of `buf` and
    /// takes the change flag down.
    pub fn draw(&mut self, buf: &mut [u8])
        requires
            old(buf)@.len() >= FRAME_SIZE,
        ensures
            final(buf)@ == frame(old(self)@.pixels) + old(buf)@.subrange(
                FRAME_SIZE as int,
                old(buf)@.len() as int,
            ),
            final(self)@.pixels == old(self)@.pixels,
            !final(self)@.changed,
    {
        let mut i: usize = 0;
        while i < DISPLAY_SIZE
            invariant
                i <= DISPLAY_SIZE,
                buf@.len() == old(buf)@.len(),
                buf@.len() >= FRAME_SIZE,
                self@ == old(self)@,
                forall|j: int| 0 <= j < 4 * i ==> buf@[j] == frame(self@.pixels)[j],
                forall|j: int| 4 * i <= j < buf@.len() ==> buf@[j] == old(buf)@[j],
            decreases DISPLAY_SIZE - i,
        {
            let value: u8 = if self.buffer[i] == 1 {
                0xff
            } else {
                0
            };
            buf[i * 4] = value;
            buf[i * 4 + 1] = value;
            buf[i * 4 + 2] = value;
            buf[i * 4 + 3] = value;
            i += 1;
        }
        self.changed = false;
        assert(buf@ =~= frame(old(self)@.pixels) + old(buf)@.subrange(
            FRAME_SIZE as int,
            old(buf)@.len() as int,
        ));
    }
}

} // verus!
