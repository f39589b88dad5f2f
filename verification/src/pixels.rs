//! Rows of pixels in memory.
use vstd::prelude::*;
use vstd::slice::*;

verus! {

/// `n` rows of `row` bytes each, one behind the other, out of data in which a row begins every
/// `stride` bytes, the first one at `start`.
pub open spec fn packed_rows(data: Seq<u8>, start: int, stride: int, row: int, n: int) -> Seq<u8>
    decreases n,
{
    if n <= 0 {
        Seq::empty()
    } else {
        packed_rows(data, start, stride, row, n - 1) + data.subrange(
            start + (n - 1) * stride,
            start + (n - 1) * stride + row,
        )
    }
}

/// The bytes of the packed rows: byte `k` of row `i` is byte `k` of the row in the data.
pub proof fn law_packed_bytes(
    data: Seq<u8>,
    start: int,
    stride: int,
    row: int,
    n: int,
    i: int,
    k: int,
)
    requires
        0 <= start,
        0 <= stride,
        0 <= row,
        n > 0 ==> start + (n - 1) * stride + row <= data.len(),
        0 <= i < n,
        0 <= k < row,
    ensures
        packed_rows(data, start, stride, row, n).len() == n * row,
        0 <= i * row + k < n * row,
        packed_rows(data, start, stride, row, n)[i * row + k] == data[start + i * stride + k],
    decreases n,
{
    lemma_packed_len(data, start, stride, row, n);
    assert(0 <= i * row + k < n * row) by (nonlinear_arith)
        requires
            0 <= i < n,
            0 <= k < row,
    ;
    if n > 0 {
        assert(start + (n - 2) * stride + row <= start + (n - 1) * stride + row)
            by (nonlinear_arith)
            requires
                0 <= stride,
        ;
        assert((n - 1) * stride >= 0) by (nonlinear_arith)
            requires
                n > 0,
                stride >= 0,
        ;
        lemma_packed_len(data, start, stride, row, n - 1);
        if i < n - 1 {
            law_packed_bytes(data, start, stride, row, n - 1, i, k);
        } else {
            assert(i * row + k == (n - 1) * row + k);
        }
    }
}

/// The length of the packed rows.
pub proof fn lemma_packed_len(data: Seq<u8>, start: int, stride: int, row: int, n: int)
    requires
        0 <= start,
        0 <= stride,
        0 <= row,
        n > 0 ==> start + (n - 1) * stride + row <= data.len(),
    ensures
        n >= 0 ==> packed_rows(data, start, stride, row, n).len() == n * row,
    decreases n,
{
    if n > 0 {
        assert(start + (n - 2) * stride + row <= start + (n - 1) * stride + row)
            by (nonlinear_arith)
            requires
                0 <= stride,
        ;
        assert((n - 1) * stride >= 0) by (nonlinear_arith)
            requires
                n > 0,
                stride >= 0,
        ;
        lemma_packed_len(data, start, stride, row, n - 1);
        assert((n - 1) * row + row == n * row) by (nonlinear_arith);
    } else if n == 0 {
        assert(0 * row == 0);
    }
}

/// Rows without padding are packed already.
pub proof fn law_tight_rows(data: Seq<u8>, row: int, n: int)
    requires
        0 <= row,
        0 <= n,
        n * row <= data.len(),
    ensures
        packed_rows(data, 0, row, row, n) == data.take(n * row),
    decreases n,
{
    if n > 0 {
        assert((n - 1) * row + row == n * row) by (nonlinear_arith);
        assert((n - 1) * row >= 0) by (nonlinear_arith)
            requires
                n > 0,
                row >= 0,
        ;
        law_tight_rows(data, row, n - 1);
        assert(packed_rows(data, 0, row, row, n) =~= data.take(n * row));
    } else {
        assert(0 * row == 0);
        assert(data.take(0) =~= Seq::empty());
    }
}

/// Packing undoes padding: where data holds rows of pixels, one beginning every `stride` bytes, the
/// packed rows are the pixels.
pub proof fn law_packing_undoes_padding(
    pixels: Seq<u8>,
    data: Seq<u8>,
    start: int,
    stride: int,
    row: int,
    n: int,
)
    requires
        0 <= start,
        0 <= stride,
        0 < row,
        0 <= n,
        pixels.len() == n * row,
        n > 0 ==> start + (n - 1) * stride + row <= data.len(),
        forall|i: int, k: int|
            #![trigger pixels[i * row + k]]
            0 <= i < n && 0 <= k < row ==> data[start + i * stride + k] == pixels[i * row + k],
    ensures
        packed_rows(data, start, stride, row, n) == pixels,
{
    let packed = packed_rows(data, start, stride, row, n);
    lemma_packed_len(data, start, stride, row, n);
    assert forall|j: int| 0 <= j < pixels.len() implies packed[j] == pixels[j] by {
        let i = j / row;
        let k = j % row;
        assert(0 <= i < n && 0 <= k < row && j == i * row + k) by (nonlinear_arith)
            requires
                0 <= j < n * row,
                0 < row,
                i == j / row,
                k == j % row,
        ;
        law_packed_bytes(data, start, stride, row, n, i, k);
        assert(pixels[i * row + k] == pixels[j]);
    }
    assert(packed =~= pixels);
}

/// Copy rows of pixels out of data with padding.
pub fn pack_rows(data: &[u8], start: usize, stride: usize, row: usize, n: usize) -> (r: Vec<u8>)
    requires
        n > 0 ==> start + (n - 1) * stride + row <= data@.len(),
    ensures
        r@ == packed_rows(data@, start as int, stride as int, row as int, n as int),
{
    let mut packed: Vec<u8> = Vec::new();
    let mut i: usize = 0;
    let mut begin: usize = start;
    while i < n
        invariant
            i <= n,
            i < n ==> begin == start + i * stride,
            n > 0 ==> start + (n - 1) * stride + row <= data@.len(),
            packed@ == packed_rows(data@, start as int, stride as int, row as int, i as int),
        decreases n - i,
    {
        assert(start + i * stride + row <= start + (n - 1) * stride + row) by (nonlinear_arith)
            requires
                i <= n - 1,
                0 <= stride,
        ;
        assert(data@.len() <= usize::MAX) by {
            assert(data.len() <= usize::MAX);
        }
        let line = slice_subrange(data, begin, begin + row);
        packed.extend_from_slice(line);
        assert(packed@ =~= packed_rows(
            data@,
            start as int,
            stride as int,
            row as int,
            i + 1,
        ));
        if i + 1 < n {
            assert(start + (i + 1) * stride <= start + (n - 1) * stride) by (nonlinear_arith)
                requires
                    i + 1 <= n - 1,
                    0 <= stride,
            ;
            assert((i + 1) * stride == i * stride + stride) by (nonlinear_arith);
            begin = begin + stride;
        }
        i = i + 1;
    }
    packed
}

} // verus!
