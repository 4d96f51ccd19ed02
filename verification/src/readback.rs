use vstd::prelude::*;

verus! {

/// Bytes per row of a BGRA texture `width` pixels wide when copied to a
/// GPU buffer: four bytes per pixel, rounded up to a multiple of 256 (the
/// row alignment of texture-to-buffer copies).
pub fn padded_bytes_per_row(width: u32) -> (res: u32)
    requires
        4 * width + 255 <= u32::MAX,
    ensures
        res % 256 == 0,
        4 * width <= res < 4 * width + 256,
{
    let x: u32 = 4 * width + 255;
    let res = x & !255u32;
    assert(x & !255u32 == x - x % 256) by (bit_vector);
    res
}

/// The pixel data of an image whose rows are `row_bytes` long, read from
/// `data` whose rows are `stride` long: the first `row_bytes` bytes of each
/// complete stride of `data`; an incomplete last stride is dropped.
pub open spec fn unpadded(data: Seq<u8>, row_bytes: nat, stride: nat) -> Seq<u8>
    recommends
        0 < stride,
        row_bytes <= stride,
{
    Seq::new(
        (data.len() / stride) * row_bytes,
        |i: int| data[(i / row_bytes as int) * stride + i % row_bytes as int],
    )
}

proof fn lemma_row_position(r: int, j: int, row_bytes: int, stride: int)
    by (nonlinear_arith)
    requires
        0 <= j < row_bytes,
        row_bytes <= stride,
        0 <= r,
    ensures
        (r * row_bytes + j) / row_bytes == r,
        (r * row_bytes + j) % row_bytes == j,
        r * stride + j < (r + 1) * stride,
{
}

/// Copies the first `row_bytes` bytes of every complete `stride`-byte row
/// of `data`.
pub fn strip_row_padding(data: &[u8], row_bytes: usize, stride: usize) -> (res: Vec<u8>)
    requires
        0 < stride,
        row_bytes <= stride,
    ensures
        res@ == unpadded(data@, row_bytes as nat, stride as nat),
{
    let rows = data.len() / stride;
    let mut res: Vec<u8> = Vec::new();
    let mut r: usize = 0;
    while r < rows
        invariant
            rows == data.len() / stride,
            0 < stride,
            row_bytes <= stride,
            r <= rows,
            res.len() == r * row_bytes,
            forall|i: int| 0 <= i < res.len() ==> #[trigger] res@[i]
                == data@[(i / row_bytes as int) * stride + i % row_bytes as int],
        decreases rows - r,
    {
        proof {
            assert((r + 1) * stride <= rows * stride) by (nonlinear_arith)
                requires r < rows;
            assert(rows * stride <= data.len()) by (nonlinear_arith)
                requires rows == data.len() / stride, 0 < stride;
            assert(r * stride + stride == (r + 1) * stride) by (nonlinear_arith);
        }
        let start = r * stride;
        let mut j: usize = 0;
        while j < row_bytes
            invariant
                rows == data.len() / stride,
                0 < stride,
                row_bytes <= stride,
                r < rows,
                start == r * stride,
                (r + 1) * stride <= data.len(),
                j <= row_bytes,
                res.len() == r * row_bytes + j,
                forall|i: int| 0 <= i < res.len() ==> #[trigger] res@[i]
                    == data@[(i / row_bytes as int) * stride + i % row_bytes as int],
            decreases row_bytes - j,
        {
            proof {
                lemma_row_position(r as int, j as int, row_bytes as int, stride as int);
            }
            res.push(data[start + j]);
            j = j + 1;
        }
        assert((r + 1) * row_bytes == r * row_bytes + row_bytes) by (nonlinear_arith);
        r = r + 1;
    }
    assert(res@ =~= unpadded(data@, row_bytes as nat, stride as nat));
    res
}

} // verus!
