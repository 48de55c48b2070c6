use vstd::prelude::*;

verus! {

/// An 8-bit RGB triple.
pub type Pixel = (u8, u8, u8);

/// The black pixel every buffer starts with.
pub open spec fn black() -> Pixel {
    (0u8, 0u8, 0u8)
}

/// Row-major position of pixel `(x, y)` in a buffer `width` pixels wide.
pub open spec fn pixel_offset(width: int, x: int, y: int) -> int {
    y * width + x
}

/// A row-major image of `width * height` RGB triples.
pub struct Screen {
    pub width: u32,
    pub height: u32,
    pub buffer: Vec<Pixel>,
}

impl Screen {
    /// The buffer holds exactly one triple per pixel, and every offset fits
    /// in a `u32`.
    pub open spec fn wf(&self) -> bool {
        &&& self.width as int * self.height as int <= u32::MAX as int
        &&& self.buffer@.len() == self.width as int * self.height as int
    }

    /// A black image of the given size.
    pub fn new(width: u32, height: u32) -> (r: Screen)
        requires
            width as int * height as int <= u32::MAX as int,
        ensures
            r.wf(),
            r.width == width,
            r.height == height,
            forall|i: int| 0 <= i < r.buffer@.len() ==> r.buffer@[i] == black(),
    {
        let n: u32 = width * height;
        let mut buffer: Vec<Pixel> = Vec::with_capacity(n as usize);
        let mut i: u32 = 0;
        while i < n
            invariant
                i <= n,
                buffer@.len() == i,
                forall|j: int| 0 <= j < i ==> buffer@[j] == black(),
            decreases n - i,
        {
            buffer.push((0u8, 0u8, 0u8));
            i = i + 1;
        }
        Screen { width, height, buffer }
    }

    /// Sets the pixel at column `x` of row `y`; every other pixel is kept.
    pub fn write_pixel(&mut self, x: u32, y: u32, pixel: Pixel)
        requires
            old(self).wf(),
            x < old(self).width,
            y < old(self).height,
        ensures
            final(self).wf(),
            final(self).width == old(self).width,
            final(self).height == old(self).height,
            final(self).buffer@ == old(self).buffer@.update(
                pixel_offset(old(self).width as int, x as int, y as int),
                pixel,
            ),
    {
        proof {
            lemma_offset_in_bounds(self.width as int, self.height as int, x as int, y as int);
            assert(0 <= y * self.width <= y * self.width + x);
        }
        let i: u32 = y * self.width + x;
        self.buffer.set(i as usize, pixel);
    }
}

/// Every pixel of a `width` by `height` image has an offset below
/// `width * height`.
pub proof fn lemma_offset_in_bounds(width: int, height: int, x: int, y: int)
    requires
        0 <= x < width,
        0 <= y < height,
    ensures
        0 <= pixel_offset(width, x, y) < width * height,
{
    assert(y * width + x < width * height) by (nonlinear_arith)
        requires
            0 <= x < width,
            0 <= y < height,
    ;
    assert(0 <= y * width) by (nonlinear_arith)
        requires
            0 <= y,
            0 <= width,
    ;
}

} // verus!
