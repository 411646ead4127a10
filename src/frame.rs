use vstd::prelude::*;

verus! {

/// An 8-bit RGB image being filled pixel by pixel, held in the image crate's buffer.
#[verifier::external_body]
pub struct Frame {
    buffer: image::RgbImage,
}

/// The pixels of a frame, by `(x, y)` position; `y` grows downwards.
pub uninterp spec fn frame_pixels(f: Frame) -> Map<(u32, u32), [u8; 3]>;

/// The `(width, height)` that a frame was made with.
pub uninterp spec fn frame_dimensions(f: Frame) -> (u32, u32);

/// Whether `(x, y)` lies inside an image of the given dimensions.
pub open spec fn in_bounds(dims: (u32, u32), x: u32, y: u32) -> bool {
    x < dims.0 && y < dims.1
}

/// The position of byte `c` of pixel `(x, y)` in a row-major buffer of three channels per pixel.
pub open spec fn channel_index(width: u32, x: u32, y: u32, c: int) -> int {
    3 * (y * width + x) + c
}

proof fn lemma_le_third(a: int, m: int)
    requires
        0 <= a,
        0 <= m,
    ensures
        (a <= m / 3) == (3 * a <= m),
{
    assert((a <= m / 3) == (3 * a <= m)) by (nonlinear_arith)
        requires
            0 <= a,
            0 <= m,
    ;
}

impl Frame {
    /// Relies on `ImageBuffer::new`: an image of the given size whose every channel is zero.
    /// It panics when the buffer length `3 * width * height` overflows, and a `Vec`
    /// cannot hold more than `isize::MAX` bytes.
    #[verifier::external_body]
    fn black(width: u32, height: u32) -> (r: Frame)
        requires
            3 * width * height <= isize::MAX,
        ensures
            frame_dimensions(r) == (width, height),
            frame_pixels(r) == Map::new(
                |p: (u32, u32)| in_bounds((width, height), p.0, p.1),
                |p: (u32, u32)| [0u8, 0u8, 0u8],
            ),
    {
        Frame { buffer: image::RgbImage::new(width, height) }
    }

    /// Relies on `ImageBuffer::put_pixel`: sets one pixel; it panics outside the image.
    #[verifier::external_body]
    fn put_pixel(&mut self, x: u32, y: u32, rgb: [u8; 3])
        requires
            in_bounds(frame_dimensions(*old(self)), x, y),
        ensures
            frame_dimensions(*final(self)) == frame_dimensions(*old(self)),
            frame_pixels(*final(self)) == frame_pixels(*old(self)).insert((x, y), rgb),
    {
        self.buffer.put_pixel(x, y, image::Rgb(rgb))
    }

    /// Relies on `imageops::flip_vertical_in_place`: row `y` and row `height - 1 - y` trade places.
    #[verifier::external_body]
    fn flip_vertical(&mut self)
        ensures
            frame_dimensions(*final(self)) == frame_dimensions(*old(self)),
            frame_pixels(*final(self)) == Map::new(
                |p: (u32, u32)| in_bounds(frame_dimensions(*old(self)), p.0, p.1),
                |p: (u32, u32)|
                    frame_pixels(*old(self))[(p.0, (frame_dimensions(*old(self)).1 - 1 - p.1) as u32)],
            ),
    {
        image::imageops::flip_vertical_in_place(&mut self.buffer)
    }

    /// Relies on `ImageBuffer::into_raw`: the channels of every pixel, row by row from the top.
    #[verifier::external_body]
    fn into_raw(self) -> (r: Vec<u8>)
        ensures
            r@.len() == 3 * frame_dimensions(self).0 * frame_dimensions(self).1,
            forall|x: u32, y: u32, c: int|
                in_bounds(frame_dimensions(self), x, y) && 0 <= c < 3 ==> r@[channel_index(
                    frame_dimensions(self).0,
                    x,
                    y,
                    c,
                )] == frame_pixels(self)[(x, y)][c],
    {
        self.buffer.into_raw()
    }
}

impl Frame {
    /// Whether a frame of the given size can be made: its buffer of `3 * width * height`
    /// bytes must fit in memory's address range.
    pub fn fits(width: u32, height: u32) -> (r: bool)
        ensures
            r == (3 * width * height <= isize::MAX),
    {
        let (w, h) = (width as u64, height as u64);
        assert(w * h <= 0xffff_ffffu64 * 0xffff_ffffu64) by (nonlinear_arith)
            requires
                w <= 0xffff_ffffu64,
                h <= 0xffff_ffffu64,
        ;
        let area: u64 = w * h;
        let limit: u64 = isize::MAX as u64;
        assert(limit == isize::MAX);
        assert(3 * area == 3 * width * height) by (nonlinear_arith)
            requires
                area == w * h,
                w == width,
                h == height,
        ;
        proof {
            lemma_le_third(area as int, limit as int);
        }
        area <= limit / 3
    }

    /// A black frame of the given size, for an image buffer of `3 * width * height` bytes.
    pub fn new(width: u32, height: u32) -> (r: Frame)
        requires
            3 * width * height <= isize::MAX,
        ensures
            frame_dimensions(r) == (width, height),
            forall|x: u32, y: u32|
                #![trigger frame_pixels(r)[(x, y)]]
                in_bounds((width, height), x, y) ==> frame_pixels(r).contains_key((x, y))
                    && frame_pixels(r)[(x, y)] == [0u8, 0u8, 0u8],
    {
        Frame::black(width, height)
    }

    /// The finished image as bytes, row by row from the top, three channels per pixel.
    /// Rays are cast from the bottom-left corner of the viewport, so the frame is flipped
    /// vertically: the pixel written at `(x, y)` lands on row `height - 1 - y`.
    pub fn finish(self) -> (r: Vec<u8>)
        ensures
            r@.len() == 3 * frame_dimensions(self).0 * frame_dimensions(self).1,
            forall|x: u32, y: u32, c: int|
                in_bounds(frame_dimensions(self), x, y) && 0 <= c < 3 ==> r@[channel_index(
                    frame_dimensions(self).0,
                    x,
                    (frame_dimensions(self).1 - 1 - y) as u32,
                    c,
                )] == frame_pixels(self)[(x, y)][c],
    {
        let ghost before = self;
        let mut flipped = self;
        flipped.flip_vertical();
        let r = flipped.into_raw();
        let ghost dims = frame_dimensions(before);
        assert forall|x: u32, y: u32, c: int|
            in_bounds(dims, x, y) && 0 <= c < 3 implies r@[channel_index(
                dims.0,
                x,
                (dims.1 - 1 - y) as u32,
                c,
            )] == frame_pixels(before)[(x, y)][c] by {
            let row = (dims.1 - 1 - y) as u32;
            assert(in_bounds(dims, x, row));
            assert((dims.1 - 1 - row) as u32 == y);
        }
        r
    }
}

/// Writes the 8-bit colour of pixel `(x, y)` into the frame.
pub fn write_pixel(buffer: &mut Frame, x: u32, y: u32, rgb: [u8; 3])
    requires
        in_bounds(frame_dimensions(*old(buffer)), x, y),
    ensures
        frame_dimensions(*final(buffer)) == frame_dimensions(*old(buffer)),
        frame_pixels(*final(buffer)) == frame_pixels(*old(buffer)).insert((x, y), rgb),
{
    buffer.put_pixel(x, y, rgb);
}

} // verus!
