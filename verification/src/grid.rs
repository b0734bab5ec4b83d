use vstd::prelude::*;
use crate::binary32::is_nan;
use crate::binary32::magnitude;
use crate::binary32::sign_set;
use crate::binary32::ONE_BITS;

verus! {

/// One pixel: the bit patterns of its four single-precision channels.
#[derive(Clone, Copy, Debug, PartialEq, Eq, Structural)]
pub struct Texel {
    pub red: u32,
    pub green: u32,
    pub blue: u32,
    pub alpha: u32,
}

/// A rectangle of four-channel single-precision pixels, kept by the `image`
/// crate. Nothing inside is visible to the verifier; `grid_dims` and
/// `grid_data` say what it holds.
#[verifier::external_body]
pub struct PixelGrid {
    inner: image::Rgba32FImage,
}

/// Width and height of a grid.
pub uninterp spec fn grid_dims(g: PixelGrid) -> (u32, u32);

/// The channels of a grid as bit patterns: row after row, pixel after pixel,
/// red, green, blue, alpha.
pub uninterp spec fn grid_data(g: PixelGrid) -> Seq<u32>;

/// The byte that the `image` crate stores for a channel with the given bits
/// when it narrows a picture to eight bits per channel.
pub uninterp spec fn quantized(bits: u32) -> u8;

/// The error that the `image` crate reports for a picture it cannot decode.
#[verifier::external_type_specification]
#[verifier::external_body]
pub struct ExImageError(image::ImageError);

/// Where the first channel of pixel `(x, y)` stands in the data of a grid
/// that is `width` wide.
pub open spec fn channel_index(width: u32, x: u32, y: u32) -> int {
    4 * (y * width + x)
}

/// A grid holds four channels for each of its pixels.
pub open spec fn grid_wf(g: PixelGrid) -> bool {
    grid_data(g).len() == 4 * (grid_dims(g).0 * grid_dims(g).1)
}

/// The pixel of a grid at `(x, y)`.
pub open spec fn texel_at(g: PixelGrid, x: u32, y: u32) -> Texel {
    let i = channel_index(grid_dims(g).0, x, y);
    Texel {
        red: grid_data(g)[i],
        green: grid_data(g)[i + 1],
        blue: grid_data(g)[i + 2],
        alpha: grid_data(g)[i + 3],
    }
}

/// The data of a grid after pixel `(x, y)` was replaced by `t`.
pub open spec fn data_with(data: Seq<u32>, width: u32, x: u32, y: u32, t: Texel) -> Seq<u32> {
    let i = channel_index(width, x, y);
    data.update(i, t.red).update(i + 1, t.green).update(i + 2, t.blue).update(i + 3, t.alpha)
}

/// What is known of `quantized` without doing arithmetic: one and above,
/// and what is not a number, become 255; zero and below become 0.
pub open spec fn quantized_saturates(bits: u32, byte: u8) -> bool {
    &&& is_nan(bits) || (!sign_set(bits) && bits >= ONE_BITS) ==> byte == 255
    &&& !is_nan(bits) && (sign_set(bits) || magnitude(bits) == 0) ==> byte == 0
}

/// `image::ImageBuffer::new`: a grid of the given size with every channel
/// zero. The buffer must fit the address space, else the call panics.
#[verifier::external_body]
pub(crate) fn grid_new(width: u32, height: u32) -> (g: PixelGrid)
    requires
        16 * (width * height) <= isize::MAX,
    ensures
        grid_dims(g) == (width, height),
        grid_data(g) == Seq::new((4 * (width * height)) as nat, |i: int| 0u32),
{
    PixelGrid { inner: image::ImageBuffer::new(width, height) }
}

/// `image::ImageBuffer::dimensions`: width and height.
#[verifier::external_body]
pub(crate) fn grid_dimensions(g: &PixelGrid) -> (r: (u32, u32))
    ensures
        r == grid_dims(*g),
{
    g.inner.dimensions()
}

/// `image::ImageBuffer::get_pixel`: the pixel at `(x, y)`, which must lie
/// inside the grid, else the call panics.
#[verifier::external_body]
pub(crate) fn grid_get(g: &PixelGrid, x: u32, y: u32) -> (t: Texel)
    requires
        x < grid_dims(*g).0,
        y < grid_dims(*g).1,
    ensures
        t == texel_at(*g, x, y),
{
    let p = g.inner.get_pixel(x, y).0;
    Texel { red: p[0].to_bits(), green: p[1].to_bits(), blue: p[2].to_bits(), alpha: p[3].to_bits() }
}

/// `image::ImageBuffer::put_pixel`: replaces the pixel at `(x, y)`, which
/// must lie inside the grid, else the call panics; all else stays.
#[verifier::external_body]
pub(crate) fn grid_put(g: &mut PixelGrid, x: u32, y: u32, t: Texel)
    requires
        x < grid_dims(*old(g)).0,
        y < grid_dims(*old(g)).1,
    ensures
        grid_dims(*final(g)) == grid_dims(*old(g)),
        grid_data(*final(g)) == data_with(grid_data(*old(g)), grid_dims(*old(g)).0, x, y, t),
{
    let p = image::Rgba(
        [bytemuck::cast(t.red), bytemuck::cast(t.green), bytemuck::cast(t.blue), bytemuck::cast(t.alpha)],
    );
    g.inner.put_pixel(x, y, p);
}

/// `image::buffer::ConvertBuffer::convert` to eight bits per channel, then
/// `into_vec`: one byte per channel, in the order of the data.
#[verifier::external_body]
pub(crate) fn grid_into_bytes(g: PixelGrid) -> (r: Vec<u8>)
    requires
        grid_wf(g),
    ensures
        r@.len() == grid_data(g).len(),
        forall|i: int|
            0 <= i < r@.len() ==> r@[i] == quantized(#[trigger] grid_data(g)[i])
                && quantized_saturates(grid_data(g)[i], r@[i]),
{
    let narrow: image::RgbaImage = image::buffer::ConvertBuffer::convert(&g.inner);
    narrow.into_vec()
}

/// `image::load_from_memory`, with the picture it gives turned into four
/// single-precision channels by `into_rgba32f`: the picture that the crate
/// makes of the bytes, or the crate's error. Which bytes it can decode is
/// the crate's matter, and may change while a program runs; a picture that
/// comes back holds four channels for each of its pixels.
#[verifier::external_body]
pub(crate) fn grid_decode(bytes: &[u8]) -> (r: Result<PixelGrid, image::ImageError>)
    ensures
        r is Ok ==> grid_wf(r->Ok_0),
{
    match image::load_from_memory(bytes) {
        Ok(picture) => Ok(PixelGrid { inner: picture.into_rgba32f() }),
        Err(e) => Err(e),
    }
}

} // verus!
