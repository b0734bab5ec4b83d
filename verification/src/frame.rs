use vstd::prelude::*;
use vstd::arithmetic::div_mod::lemma_fundamental_div_mod_converse;
use vstd::arithmetic::div_mod::lemma_fundamental_div_mod;

verus! {

/// Rows of a picture copied from the graphics device start at multiples of
/// this many bytes.
pub const COPY_BYTES_PER_ROW_ALIGNMENT: u32 = 256;

/// How the rows of a picture lie in a buffer read back from the device.
#[derive(Clone, Copy, Debug, PartialEq, Eq, Structural)]
pub struct RowLayout {
    /// Bytes of picture in each row.
    pub row: u32,
    /// Bytes from the start of one row to the start of the next.
    pub aligned_row: u32,
    /// Bytes of the whole buffer.
    pub size: u64,
}

/// The least multiple of `y` that is not below `x`.
pub open spec fn padded(x: int, y: int) -> int {
    ((x + y - 1) / y) * y
}

/// Rounds `x` up to a multiple of `y`.
pub fn pad_to(x: u32, y: u32) -> (r: u32)
    requires
        y > 0,
        x + y - 1 <= u32::MAX,
    ensures
        r == padded(x as int, y as int),
        x <= r < x + y,
        r % y == 0,
{
    proof {
        lemma_padded(x as int, y as int);
        let q = (x + y - 1) / (y as int);
        lemma_fundamental_div_mod(x + y - 1, y as int);
        assert(y * q == q * y) by (nonlinear_arith);
    }
    ((x + (y - 1)) / y) * y
}

/// `padded(x, y)` is a multiple of `y`, at least `x` and less than `x + y`.
pub proof fn lemma_padded(x: int, y: int)
    requires
        0 <= x,
        0 < y,
    ensures
        x <= padded(x, y) < x + y,
        padded(x, y) % y == 0,
        x % y == 0 ==> padded(x, y) == x,
{
    let n = x + y - 1;
    let q = n / y;
    lemma_fundamental_div_mod(n, y);
    assert(n == y * q + n % y);
    assert(y * q == q * y) by (nonlinear_arith);
    lemma_fundamental_div_mod_converse(q * y, y, q, 0);
    if x % y == 0 {
        let k = x / y;
        lemma_fundamental_div_mod(x, y);
        assert(y * k == k * y) by (nonlinear_arith);
        lemma_fundamental_div_mod_converse(n, y, k, y - 1);
    }
}

/// The layout of a picture `width` by `height` pixels of `block_size` bytes
/// each in a read-back buffer: rows are padded to the copy alignment.
pub fn row_layout(width: u32, height: u32, block_size: u32) -> (r: RowLayout)
    requires
        width * block_size + COPY_BYTES_PER_ROW_ALIGNMENT - 1 <= u32::MAX,
    ensures
        r.row == width * block_size,
        r.aligned_row == padded(r.row as int, COPY_BYTES_PER_ROW_ALIGNMENT as int),
        r.size == r.aligned_row * height,
{
    assert(0 <= width * block_size) by (nonlinear_arith);
    let row: u32 = width * block_size;
    let aligned_row: u32 = pad_to(row, COPY_BYTES_PER_ROW_ALIGNMENT);
    assert(aligned_row * height <= u32::MAX * u32::MAX) by (nonlinear_arith)
        requires
            aligned_row <= u32::MAX,
            height <= u32::MAX,
    ;
    assert(0 <= aligned_row * height) by (nonlinear_arith);
    let size: u64 = (aligned_row as u64) * (height as u64);
    RowLayout { row, aligned_row, size }
}

/// The number of bytes of a picture whose rows are not padded.
pub fn packed_size(width: u32, height: u32, block_size: u32) -> (r: Option<u64>)
    ensures
        r is Some <==> width * height * block_size <= u64::MAX,
        r is Some ==> r->0 == width * height * block_size,
{
    assert(0 <= width * height <= u32::MAX * u32::MAX) by (nonlinear_arith)
        requires
            width <= u32::MAX,
            height <= u32::MAX,
    ;
    let area: u64 = (width as u64) * (height as u64);
    area.checked_mul(block_size as u64)
}

/// The picture bytes of a padded buffer: of every whole row of `aligned_row`
/// bytes the first `row`, one row after the other.
pub open spec fn trimmed(data: Seq<u8>, row: int, aligned_row: int) -> Seq<u8> {
    Seq::new(
        ((data.len() / (aligned_row as nat)) * row) as nat,
        |i: int| data[(i / row) * aligned_row + i % row],
    )
}

/// Cuts the padding off the rows of a buffer read back from the device.
/// A last row that is not whole is dropped.
pub fn trim_rows(data: &[u8], row: u32, aligned_row: u32) -> (r: Vec<u8>)
    requires
        0 < aligned_row,
        row <= aligned_row,
    ensures
        r@ == trimmed(data@, row as int, aligned_row as int),
{
    let rows: usize = data.len() / (aligned_row as usize);
    let mut out: Vec<u8> = Vec::new();
    let mut k: usize = 0;
    proof {
        lemma_fundamental_div_mod(data@.len() as int, aligned_row as int);
        assert(aligned_row * rows == rows * aligned_row) by (nonlinear_arith);
        assert(0 * row == 0) by (nonlinear_arith);
    }
    while k < rows
        invariant
            0 < aligned_row,
            row <= aligned_row,
            k <= rows,
            rows == data@.len() / (aligned_row as nat),
            rows * aligned_row <= data@.len(),
            data@.len() <= usize::MAX,
            out@.len() == k * row,
            forall|i: int|
                0 <= i < out@.len() ==> out@[i] == data@[(i / (row as int)) * aligned_row + i % (
                row as int)],
        decreases rows - k,
    {
        proof {
            assert(k * aligned_row + aligned_row <= rows * aligned_row) by (nonlinear_arith)
                requires
                    k < rows,
            ;
            assert(0 <= k * aligned_row) by (nonlinear_arith);
            assert(0 <= k * row) by (nonlinear_arith);
        }
        let base: usize = k * (aligned_row as usize);
        let mut j: usize = 0;
        while j < row as usize
            invariant
                0 < aligned_row,
                row <= aligned_row,
                j <= row,
                k < rows,
                base == k * aligned_row,
                base + aligned_row <= data@.len(),
                data@.len() <= usize::MAX,
                out@.len() == k * row + j,
                forall|i: int|
                    0 <= i < out@.len() ==> out@[i] == data@[(i / (row as int)) * aligned_row + i
                        % (row as int)],
            decreases row - j,
        {
            proof {
                lemma_fundamental_div_mod_converse(
                    k * row + j,
                    row as int,
                    k as int,
                    j as int,
                );
            }
            out.push(data[base + j]);
            j = j + 1;
        }
        proof {
            assert((k + 1) * row == k * row + row) by (nonlinear_arith);
        }
        k = k + 1;
    }
    proof {
        assert(out@ =~= trimmed(data@, row as int, aligned_row as int));
    }
    out
}

} // verus!
