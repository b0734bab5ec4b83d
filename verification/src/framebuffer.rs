use vstd::prelude::*;
use crate::grid::channel_index;
use crate::grid::grid_data;
use crate::grid::grid_dims;
use crate::grid::grid_get;
use crate::grid::grid_into_bytes;
use crate::grid::grid_new;
use crate::grid::grid_put;
use crate::grid::grid_wf;
use crate::grid::quantized;
use crate::grid::quantized_saturates;
use crate::grid::PixelGrid;
use crate::grid::Texel;

verus! {

/// The picture being rendered: one accumulated colour per pixel.
pub struct FrameBuffer {
    buffer: PixelGrid,
    width: u32,
    height: u32,
}

/// The pixel whose channels start at `4 * i` in `data`.
pub open spec fn pixel_of(data: Seq<u32>, i: int) -> Texel {
    Texel { red: data[4 * i], green: data[4 * i + 1], blue: data[4 * i + 2], alpha: data[4 * i + 3] }
}

/// The channel `c` of a pixel: 0 is red, 3 is alpha.
pub open spec fn channel(t: Texel, c: int) -> u32 {
    if c == 0 {
        t.red
    } else if c == 1 {
        t.green
    } else if c == 2 {
        t.blue
    } else {
        t.alpha
    }
}

/// The black, fully transparent pixel that a new buffer is filled with.
pub open spec fn blank() -> Texel {
    Texel { red: 0, green: 0, blue: 0, alpha: 0 }
}

/// The place of pixel `(x, y)` among the pixels of a picture `w` wide.
pub open spec fn cell(w: u32, x: u32, y: u32) -> int {
    y * w + x
}

impl View for FrameBuffer {
    type V = Seq<Texel>;

    /// The pixels in row-major order: pixel `(x, y)` is at `y * width + x`.
    closed spec fn view(&self) -> Seq<Texel> {
        Seq::new((self.width * self.height) as nat, |i: int| pixel_of(grid_data(self.buffer), i))
    }
}

impl FrameBuffer {
    /// The buffer holds exactly the pixels of its size.
    pub closed spec fn wf(&self) -> bool {
        &&& grid_dims(self.buffer) == (self.width, self.height)
        &&& grid_wf(self.buffer)
    }

    pub closed spec fn spec_width(&self) -> u32 {
        self.width
    }

    pub closed spec fn spec_height(&self) -> u32 {
        self.height
    }

    /// The pixel at `(x, y)`.
    pub open spec fn at(&self, x: u32, y: u32) -> Texel {
        self@[cell(self.spec_width(), x, y)]
    }

    /// The view has one entry for each pixel.
    pub proof fn lemma_view_len(&self)
        ensures
            self@.len() == self.spec_width() * self.spec_height(),
    {
    }

    /// Create a new buffer of `width` by `height` blank pixels. The pixels
    /// must fit the address space.
    pub fn new(width: u32, height: u32) -> (r: Self)
        requires
            16 * (width * height) <= isize::MAX,
        ensures
            r.wf(),
            r.spec_width() == width,
            r.spec_height() == height,
            r@ == Seq::new((width * height) as nat, |i: int| blank()),
    {
        let r = FrameBuffer { buffer: grid_new(width, height), width, height };
        assert(r@ =~= Seq::new((width * height) as nat, |i: int| blank()));
        r
    }

    /// Gives the buffer a new size. Whatever was accumulated is dropped:
    /// every pixel of the new size is blank. The pixels must fit the address
    /// space.
    pub fn resize(&mut self, width: u32, height: u32)
        requires
            16 * (width * height) <= isize::MAX,
        ensures
            final(self).wf(),
            final(self).spec_width() == width,
            final(self).spec_height() == height,
            final(self)@ == Seq::new((width * height) as nat, |i: int| blank()),
    {
        *self = FrameBuffer::new(width, height);
    }

    /// Width of the buffer.
    #[verifier::when_used_as_spec(spec_width)]
    pub fn width(&self) -> (r: u32)
        ensures
            r == self.spec_width(),
    {
        self.width
    }

    /// Height of the buffer.
    #[verifier::when_used_as_spec(spec_height)]
    pub fn height(&self) -> (r: u32)
        ensures
            r == self.spec_height(),
    {
        self.height
    }

    /// The pixel at `(x, y)`, which must lie inside the buffer.
    pub fn get(&self, x: u32, y: u32) -> (t: Texel)
        requires
            self.wf(),
            x < self.width(),
            y < self.height(),
        ensures
            t == self.at(x, y),
    {
        proof {
            lemma_cell_in_range(self.width, self.height, x, y);
        }
        grid_get(&self.buffer, x, y)
    }

    /// Replaces the pixel at `(x, y)`, which must lie inside the buffer.
    pub fn put(&mut self, x: u32, y: u32, t: Texel)
        requires
            old(self).wf(),
            x < old(self).width(),
            y < old(self).height(),
        ensures
            final(self).wf(),
            final(self).width() == old(self).width(),
            final(self).height() == old(self).height(),
            final(self)@ == old(self)@.update(cell(old(self).width(), x, y), t),
    {
        proof {
            lemma_cell_in_range(self.width, self.height, x, y);
        }
        grid_put(&mut self.buffer, x, y, t);
        assert(self@ =~= old(self)@.update(cell(old(self).width, x, y), t));
    }

    /// Iterates through each pixel of the buffer, row after row. For each
    /// pixel it calls `f` with the coordinates and the colour, and stores
    /// the colour that `f` returns.
    pub fn for_each<F: Fn(u32, u32, Texel) -> Texel>(&mut self, f: F)
        requires
            old(self).wf(),
            forall|x: u32, y: u32|
                x < old(self).width() && y < old(self).height() ==> f.requires(
                    (x, y, #[trigger] old(self).at(x, y)),
                ),
        ensures
            final(self).wf(),
            final(self).width() == old(self).width(),
            final(self).height() == old(self).height(),
            final(self)@.len() == old(self)@.len(),
            forall|x: u32, y: u32|
                x < old(self).width() && y < old(self).height() ==> f.ensures(
                    (x, y, old(self).at(x, y)),
                    #[trigger] final(self).at(x, y),
                ),
    {
        let w = self.width;
        let h = self.height;
        let ghost start = *self;
        let mut y: u32 = 0;
        while y < h
            invariant
                self.wf(),
                self.width == w,
                self.height == h,
                start.width == w,
                start.height == h,
                start == *old(self),
                y <= h,
                self@.len() == start@.len(),
                forall|a: u32, b: u32|
                    a < w && y <= b < h ==> #[trigger] self.at(a, b) == start.at(a, b),
                forall|a: u32, b: u32|
                    a < w && b < y ==> f.ensures((a, b, start.at(a, b)), #[trigger] self.at(a, b)),
                forall|a: u32, b: u32|
                    a < w && b < h ==> f.requires((a, b, #[trigger] start.at(a, b))),
            decreases h - y,
        {
            let mut x: u32 = 0;
            while x < w
                invariant
                    self.wf(),
                    self.width == w,
                    self.height == h,
                    start.width == w,
                    start.height == h,
                    y < h,
                    x <= w,
                    self@.len() == start@.len(),
                    forall|a: u32, b: u32|
                        a < w && (y < b < h || (b == y && x <= a)) ==> #[trigger] self.at(a, b)
                            == start.at(a, b),
                    forall|a: u32, b: u32|
                        a < w && (b < y || (b == y && a < x)) ==> f.ensures(
                            (a, b, start.at(a, b)),
                            #[trigger] self.at(a, b),
                        ),
                    forall|a: u32, b: u32|
                        a < w && b < h ==> f.requires((a, b, #[trigger] start.at(a, b))),
                decreases w - x,
            {
                let ghost mid = *self;
                let t = self.get(x, y);
                assert(t == start.at(x, y));
                let c = f(x, y, t);
                self.put(x, y, c);
                proof {
                    lemma_cell_in_range(w, h, x, y);
                    assert(self.at(x, y) == c);
                    assert forall|a: u32, b: u32|
                        a < w && b < h && !(a == x && b == y) implies #[trigger] self.at(a, b)
                        == mid.at(a, b) by {
                        lemma_cell_in_range(w, h, a, b);
                        lemma_cells_differ(w, a, b, x, y);
                    }
                }
                x = x + 1;
            }
            y = y + 1;
        }
    }

    /// Converts this buffer into an array of bytes `[r, g, b, a]`, one
    /// quadruple per pixel, row after row. Each channel is narrowed to one
    /// byte as the `image` crate does it.
    pub fn into_vec(self) -> (r: Vec<u8>)
        requires
            self.wf(),
        ensures
            r@.len() == 4 * self@.len(),
            forall|i: int, c: int|
                0 <= i < self@.len() && 0 <= c < 4 ==> #[trigger] r@[4 * i + c] == quantized(
                    channel(self@[i], c),
                ) && quantized_saturates(channel(self@[i], c), r@[4 * i + c]),
    {
        let ghost data = grid_data(self.buffer);
        let r = grid_into_bytes(self.buffer);
        proof {
            assert forall|i: int, c: int| 0 <= i < self@.len() && 0 <= c < 4 implies #[trigger] r@[4
                * i + c] == quantized(channel(self@[i], c)) && quantized_saturates(
                channel(self@[i], c),
                r@[4 * i + c],
            ) by {
                assert(data[4 * i + c] == channel(self@[i], c));
            }
        }
        r
    }
}

/// Pixel `(x, y)` of a `w` by `h` picture has a place among its `w * h` pixels.
pub proof fn lemma_cell_in_range(w: u32, h: u32, x: u32, y: u32)
    requires
        x < w,
        y < h,
    ensures
        0 <= cell(w, x, y) < w * h,
        channel_index(w, x, y) == 4 * cell(w, x, y),
{
    assert(y * w + x < w * h) by (nonlinear_arith)
        requires
            x < w,
            y < h,
    ;
    assert(0 <= y * w) by (nonlinear_arith);
}

/// Two different pixels of one picture have different places.
pub proof fn lemma_cells_differ(w: u32, x1: u32, y1: u32, x2: u32, y2: u32)
    requires
        x1 < w,
        x2 < w,
        !(x1 == x2 && y1 == y2),
    ensures
        cell(w, x1, y1) != cell(w, x2, y2),
{
    if y1 < y2 {
        assert(y1 * w + w <= y2 * w) by (nonlinear_arith)
            requires
                y1 < y2,
        ;
    } else if y2 < y1 {
        assert(y2 * w + w <= y1 * w) by (nonlinear_arith)
            requires
                y2 < y1,
        ;
    }
}

} // verus!
