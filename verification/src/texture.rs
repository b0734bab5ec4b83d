use vstd::prelude::*;
use crate::grid::channel_index;
use crate::grid::grid_data;
use crate::grid::grid_decode;
use crate::grid::grid_dimensions;
use crate::grid::grid_dims;
use crate::grid::grid_get;
use crate::grid::grid_wf;
use crate::grid::PixelGrid;
use crate::grid::Texel;

verus! {

/// A picture that is only read: the star map, or a colour ramp. `DIM` says
/// how many coordinates address it, one or two.
pub struct Texture<const DIM: u32> {
    img: PixelGrid,
}

/// A texture addressed by one coordinate: the first row of its picture.
pub type Texture1D = Texture<1>;

/// A texture addressed by two coordinates.
pub type Texture2D = Texture<2>;

/// How a sampler turns a position between pixels into a colour.
#[derive(Clone, Copy, Debug, PartialEq, Eq, Structural)]
pub enum Filter {
    /// The pixel nearest to the position.
    Nearest,
    /// A blend of the four pixels around the position.
    Linear,
}

/// What a sampler does with coordinates outside the texture.
#[derive(Clone, Copy, Debug, PartialEq, Eq, Structural)]
pub enum EdgeMode {
    /// The texture repeats in both directions.
    Wrap,
}

/// A way of reading a texture.
#[derive(Clone, Copy, Debug, PartialEq, Eq, Structural)]
pub struct Sampler {
    /// What filter is applied to each point.
    pub filter_mode: Filter,
    /// What the sampler does at the edge of a texture.
    pub edge_mode: EdgeMode,
}

/// The four pixels around a position, named by column then row: `q12` is
/// the pixel in the first column and the second row.
#[derive(Clone, Copy, Debug, PartialEq, Eq, Structural)]
pub struct Corners {
    pub q11: Texel,
    pub q12: Texel,
    pub q21: Texel,
    pub q22: Texel,
}

/// Why a texture could not be made.
#[derive(Clone, Copy, Debug, PartialEq, Eq, Structural)]
pub enum TextureError {
    /// The bytes are no picture that can be decoded.
    Undecodable,
}

/// The coordinates that `(x, y)` stands for in a texture of the given size
/// under an edge mode.
pub open spec fn wrapped(mode: EdgeMode, size: (u32, u32), x: u32, y: u32) -> (u32, u32) {
    match mode {
        EdgeMode::Wrap => ((x % size.0) as u32, (y % size.1) as u32),
    }
}

impl<const DIM: u32> Texture<DIM> {
    /// Width and height of the picture.
    pub closed spec fn dims(&self) -> (u32, u32) {
        grid_dims(self.img)
    }

    /// The channels of the picture, row after row.
    pub closed spec fn data(&self) -> Seq<u32> {
        grid_data(self.img)
    }

    /// The pixel at `(x, y)`: four channels of the data, found row after
    /// row, pixel after pixel.
    pub open spec fn texel(&self, x: u32, y: u32) -> Texel {
        let i = channel_index(self.dims().0, x, y);
        Texel {
            red: self.data()[i],
            green: self.data()[i + 1],
            blue: self.data()[i + 2],
            alpha: self.data()[i + 3],
        }
    }

    /// The picture holds four channels for each pixel.
    pub open spec fn wf(&self) -> bool {
        self.data().len() == 4 * (self.dims().0 * self.dims().1)
    }

    /// Makes a texture of what a decoder gave: of a picture the texture
    /// with its size and channels, of an error the refusal.
    pub fn from_decoded(outcome: Result<PixelGrid, image::ImageError>) -> (r: Result<
        Self,
        TextureError,
    >)
        requires
            0 < DIM <= 2,
            outcome is Ok ==> grid_wf(outcome->Ok_0),
        ensures
            r is Ok <==> outcome is Ok,
            r is Ok ==> r->Ok_0.wf() && r->Ok_0.dims() == grid_dims(outcome->Ok_0)
                && r->Ok_0.data() == grid_data(outcome->Ok_0),
            r is Err ==> r->Err_0 == TextureError::Undecodable,
    {
        match outcome {
            Ok(img) => Ok(Texture { img }),
            Err(_) => Err(TextureError::Undecodable),
        }
    }

    /// Decodes a picture held in memory. The decoder decides whether the
    /// bytes are a picture; a texture that comes back is well-formed, and a
    /// refusal is always `Undecodable`.
    pub fn from_bytes(bytes: &[u8]) -> (r: Result<Self, TextureError>)
        requires
            0 < DIM <= 2,
        ensures
            r is Ok ==> r->Ok_0.wf(),
            r is Err ==> r->Err_0 == TextureError::Undecodable,
    {
        Self::from_decoded(grid_decode(bytes))
    }
}

impl Texture<1> {
    /// The number of pixels along the one coordinate.
    pub fn size(&self) -> (r: u32)
        ensures
            r == self.dims().0,
    {
        grid_dimensions(&self.img).0
    }

    /// The pixel at `x`, which must exist.
    pub fn get(&self, x: u32) -> (t: Texel)
        requires
            x < self.dims().0,
            0 < self.dims().1,
        ensures
            t == self.texel(x, 0),
    {
        grid_get(&self.img, x, 0)
    }

    /// The pixel at `x`, if there is one.
    pub fn get_checked(&self, x: u32) -> (r: Option<Texel>)
        ensures
            r == (if x < self.dims().0 && 0 < self.dims().1 {
                Some(self.texel(x, 0))
            } else {
                None
            }),
    {
        let (w, h) = grid_dimensions(&self.img);
        if x < w && 0 < h {
            Some(grid_get(&self.img, x, 0))
        } else {
            None
        }
    }
}

impl Texture<2> {
    /// Width and height in pixels.
    pub fn size(&self) -> (r: (u32, u32))
        ensures
            r == self.dims(),
    {
        grid_dimensions(&self.img)
    }

    /// The pixel at `(x, y)`, which must exist.
    pub fn get(&self, x: u32, y: u32) -> (t: Texel)
        requires
            x < self.dims().0,
            y < self.dims().1,
        ensures
            t == self.texel(x, y),
    {
        grid_get(&self.img, x, y)
    }

    /// The pixel at `(x, y)`, if there is one.
    pub fn get_checked(&self, x: u32, y: u32) -> (r: Option<Texel>)
        ensures
            r == (if x < self.dims().0 && y < self.dims().1 {
                Some(self.texel(x, y))
            } else {
                None
            }),
    {
        let (w, h) = grid_dimensions(&self.img);
        if x < w && y < h {
            Some(grid_get(&self.img, x, y))
        } else {
            None
        }
    }
}

impl EdgeMode {
    /// Brings `(x, y)` into the texture. The texture must not be empty.
    pub fn apply2d(&self, tex: &Texture2D, x: u32, y: u32) -> (r: (u32, u32))
        requires
            tex.dims().0 > 0,
            tex.dims().1 > 0,
        ensures
            r == wrapped(*self, tex.dims(), x, y),
            r.0 < tex.dims().0,
            r.1 < tex.dims().1,
    {
        let size = tex.size();
        match self {
            EdgeMode::Wrap => (x % size.0, y % size.1),
        }
    }
}

impl Sampler {
    /// The pixel that nearest filtering reads for a position already rounded
    /// to whole pixels.
    pub fn sample_nearest(&self, tex: &Texture2D, x: u32, y: u32) -> (t: Texel)
        requires
            tex.dims().0 > 0,
            tex.dims().1 > 0,
        ensures
            t == tex.texel(
                wrapped(self.edge_mode, tex.dims(), x, y).0,
                wrapped(self.edge_mode, tex.dims(), x, y).1,
            ),
    {
        let (x, y) = self.edge_mode.apply2d(tex, x, y);
        tex.get(x, y)
    }

    /// The four pixels that linear filtering blends: `(x1, y1)` is the
    /// position rounded down, `(x2, y2)` the position rounded up.
    pub fn sample_corners(&self, tex: &Texture2D, x1: u32, y1: u32, x2: u32, y2: u32) -> (c:
        Corners)
        requires
            tex.dims().0 > 0,
            tex.dims().1 > 0,
        ensures
            ({
                let a = wrapped(self.edge_mode, tex.dims(), x1, y1);
                let b = wrapped(self.edge_mode, tex.dims(), x2, y2);
                c == (Corners {
                    q11: tex.texel(a.0, a.1),
                    q12: tex.texel(a.0, b.1),
                    q21: tex.texel(b.0, a.1),
                    q22: tex.texel(b.0, b.1),
                })
            }),
    {
        let (x1, y1) = self.edge_mode.apply2d(tex, x1, y1);
        let (x2, y2) = self.edge_mode.apply2d(tex, x2, y2);
        Corners {
            q11: tex.get(x1, y1),
            q12: tex.get(x1, y2),
            q21: tex.get(x2, y1),
            q22: tex.get(x2, y2),
        }
    }
}

} // verus!
