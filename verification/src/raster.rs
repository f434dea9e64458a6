//! Pixel buffers: row strides, dropping row padding, and swapping the
//! painted and unpainted regions of an RGBA raster.

use vstd::prelude::*;

verus! {

/// `row_len` rounded up to the next multiple of `align`.
pub open spec fn round_up(row_len: nat, align: nat) -> nat {
    ((row_len + align - 1) / align as int * align) as nat
}

/// The stride of a row of `row_len` bytes whose rows start on multiples of
/// `align` bytes: the next multiple of `align` at or above `row_len`.
pub fn padded_row_len(row_len: usize, align: usize) -> (stride: usize)
    requires
        align > 0,
        row_len + align - 1 <= usize::MAX,
    ensures
        stride == round_up(row_len as nat, align as nat),
        stride % align == 0,
        row_len <= stride < row_len + align,
{
    let n: usize = row_len + (align - 1);
    let q: usize = n / align;
    proof {
        vstd::arithmetic::div_mod::lemma_fundamental_div_mod(n as int, align as int);
        vstd::arithmetic::div_mod::lemma_mod_multiples_basic(q as int, align as int);
        assert(align * q == q * align) by (nonlinear_arith);
    }
    q * align
}

/// Rows `0..rows` of `data`, each `row_len` bytes taken at the start of
/// its `stride`-byte slot, laid end to end.
pub open spec fn rows_unpadded(data: Seq<u8>, row_len: nat, stride: nat, rows: nat) -> Seq<u8>
    decreases rows,
{
    if rows == 0 {
        Seq::empty()
    } else {
        let y = (rows - 1) as nat;
        rows_unpadded(data, row_len, stride, y) + data.subrange(
            (y * stride) as int,
            (y * stride + row_len) as int,
        )
    }
}

/// The rows of a buffer whose last row ends within `data`.
pub open spec fn rows_fit(len: nat, row_len: nat, stride: nat, rows: nat) -> bool {
    rows == 0 || (rows - 1) * stride + row_len <= len
}

/// Byte `x` of row `y` of the tightly packed rows is byte `x` of slot `y`.
pub proof fn lemma_rows_unpadded_index(data: Seq<u8>, row_len: nat, stride: nat, rows: nat)
    requires
        row_len <= stride,
        rows_fit(data.len(), row_len, stride, rows),
    ensures
        rows_unpadded(data, row_len, stride, rows).len() == rows * row_len,
        forall|y: int, x: int|
            0 <= y < rows && 0 <= x < row_len ==> #[trigger] rows_unpadded(
                data,
                row_len,
                stride,
                rows,
            )[y * row_len + x] == data[y * stride + x],
    decreases rows,
{
    if rows > 0 {
        let r1 = (rows - 1) as nat;
        if r1 > 0 {
            assert((r1 - 1) * stride + row_len <= (rows - 1) * stride + row_len) by (nonlinear_arith)
                requires
                    r1 == rows - 1,
                    r1 > 0,
                    stride >= 0,
            ;
        }
        lemma_rows_unpadded_index(data, row_len, stride, r1);
        let prev = rows_unpadded(data, row_len, stride, r1);
        let whole = rows_unpadded(data, row_len, stride, rows);
        assert(r1 * row_len + row_len == rows * row_len) by (nonlinear_arith)
            requires
                r1 == rows - 1,
        ;
        assert forall|y: int, x: int| 0 <= y < rows && 0 <= x < row_len implies #[trigger] whole[y
            * row_len + x] == data[y * stride + x] by {
            if y < r1 {
                assert(y * row_len + x < r1 * row_len) by (nonlinear_arith)
                    requires
                        0 <= y < r1,
                        0 <= x < row_len,
                ;
                assert(whole[y * row_len + x] == prev[y * row_len + x]);
            } else {
                assert(y == r1);
            }
        }
    }
}

/// Drops the padding at the end of each row: `rows` rows of `row_len`
/// bytes that start every `stride` bytes in `data`, copied tightly packed,
/// row-major.
pub fn strip_row_padding(data: &[u8], row_len: usize, stride: usize, rows: usize) -> (out: Vec<u8>)
    requires
        row_len <= stride,
        rows_fit(data@.len(), row_len as nat, stride as nat, rows as nat),
    ensures
        out@ == rows_unpadded(data@, row_len as nat, stride as nat, rows as nat),
        out@.len() == rows * row_len,
        forall|y: int, x: int|
            0 <= y < rows && 0 <= x < row_len ==> #[trigger] out@[y * row_len + x] == data@[y
                * stride + x],
{
    let len = data.len();
    let mut out: Vec<u8> = Vec::new();
    let mut y: usize = 0;
    while y < rows
        invariant
            y <= rows,
            len == data@.len(),
            row_len <= stride,
            rows_fit(data@.len(), row_len as nat, stride as nat, rows as nat),
            out@ == rows_unpadded(data@, row_len as nat, stride as nat, y as nat),
        decreases rows - y,
    {
        assert(y * stride + row_len <= data@.len()) by (nonlinear_arith)
            requires
                y < rows,
                (rows - 1) * stride + row_len <= len,
                len == data@.len(),
                stride >= 0,
        ;
        let base: usize = y * stride;
        let mut x: usize = 0;
        while x < row_len
            invariant
                y < rows,
                x <= row_len,
                base == y * stride,
                base + row_len <= data@.len(),
                len == data@.len(),
                out@ == rows_unpadded(data@, row_len as nat, stride as nat, y as nat)
                    + data@.subrange(base as int, base + x),
            decreases row_len - x,
        {
            out.push(data[base + x]);
            assert(data@.subrange(base as int, base + x + 1) =~= data@.subrange(
                base as int,
                base + x,
            ).push(data@[base + x]));
            x = x + 1;
        }
        y = y + 1;
    }
    proof {
        lemma_rows_unpadded_index(data@, row_len as nat, stride as nat, rows as nat);
    }
    out
}

/// Rows without padding come out as they went in.
pub proof fn lemma_unpadded_rows_unchanged(data: Seq<u8>, row_len: nat, rows: nat)
    requires
        data.len() == rows * row_len,
    ensures
        rows_unpadded(data, row_len, row_len, rows) == data,
{
    if rows > 0 {
        assert((rows - 1) * row_len + row_len == rows * row_len) by (nonlinear_arith);
    }
    lemma_rows_unpadded_index(data, row_len, row_len, rows);
    let out = rows_unpadded(data, row_len, row_len, rows);
    assert forall|k: int| 0 <= k < data.len() implies out[k] == data[k] by {
        let y = k / row_len as int;
        let x = k % row_len as int;
        assert(row_len > 0) by (nonlinear_arith)
            requires
                0 <= k < rows * row_len,
        ;
        vstd::arithmetic::div_mod::lemma_fundamental_div_mod(k, row_len as int);
        assert(y * row_len == row_len * y) by (nonlinear_arith);
        assert(0 <= x < row_len);
        assert(0 <= y < rows) by (nonlinear_arith)
            requires
                k == row_len * y + x,
                0 <= x < row_len,
                0 <= k < rows * row_len,
        ;
        assert(out[y * row_len + x] == data[y * row_len + x]);
    }
    assert(out =~= data);
}

/// Whether pixel `k` of an RGBA buffer is painted (alpha not zero).
pub open spec fn painted(p: Seq<u8>, k: int) -> bool {
    p[4 * k + 3] != 0
}

/// Byte `i` after swapping painted and unpainted pixels: an unpainted
/// pixel becomes `(r, g, b, 255)`, a painted one `(0, 0, 0, 0)`; bytes
/// after the last whole pixel stay as they were.
pub open spec fn inverted_byte(p: Seq<u8>, i: int, r: u8, g: u8, b: u8) -> u8 {
    if i >= 4 * (p.len() / 4) {
        p[i]
    } else if p[i - i % 4 + 3] == 0 {
        if i % 4 == 0 {
            r
        } else if i % 4 == 1 {
            g
        } else if i % 4 == 2 {
            b
        } else {
            255
        }
    } else {
        0
    }
}

/// A buffer with painted and unpainted pixels swapped.
pub open spec fn inverted(p: Seq<u8>, r: u8, g: u8, b: u8) -> Seq<u8> {
    Seq::new(p.len(), |i: int| inverted_byte(p, i, r, g, b))
}

/// Swaps the painted and unpainted regions of an RGBA buffer: opaque
/// `(r, g, b)` where the shape was absent, fully transparent where it was
/// present.
pub fn invert_coverage(pixels: &mut Vec<u8>, r: u8, g: u8, b: u8)
    ensures
        final(pixels)@ == inverted(old(pixels)@, r, g, b),
        forall|k: int|
            0 <= k < old(pixels)@.len() / 4 ==> (#[trigger] painted(final(pixels)@, k) <==> !painted(
                old(pixels)@,
                k,
            )),
{
    let ghost orig = pixels@;
    let n = pixels.len() / 4;
    let mut k: usize = 0;
    while k < n
        invariant
            k <= n,
            n == orig.len() / 4,
            orig.len() <= usize::MAX,
            pixels@.len() == orig.len(),
            forall|i: int| 0 <= i < 4 * k ==> #[trigger] pixels@[i] == inverted_byte(orig, i, r, g, b),
            forall|i: int| 4 * k <= i < orig.len() ==> #[trigger] pixels@[i] == orig[i],
        decreases n - k,
    {
        let base: usize = 4 * k;
        if pixels[base + 3] == 0 {
            pixels[base] = r;
            pixels[base + 1] = g;
            pixels[base + 2] = b;
            pixels[base + 3] = 255;
        } else {
            pixels[base] = 0;
            pixels[base + 1] = 0;
            pixels[base + 2] = 0;
            pixels[base + 3] = 0;
        }
        assert forall|i: int| 0 <= i < 4 * (k + 1) implies #[trigger] pixels@[i] == inverted_byte(
            orig,
            i,
            r,
            g,
            b,
        ) by {
            if i >= 4 * k {
                assert(i - i % 4 == 4 * k);
            }
        }
        k = k + 1;
    }
    assert(pixels@ =~= inverted(orig, r, g, b));
    assert forall|k: int| 0 <= k < orig.len() / 4 implies (#[trigger] painted(pixels@, k)
        <==> !painted(orig, k)) by {
        assert((4 * k + 3) - (4 * k + 3) % 4 == 4 * k);
        assert(pixels@[4 * k + 3] == inverted_byte(orig, 4 * k + 3, r, g, b));
    }
}

/// Swapping twice gives back which pixels are painted.
pub proof fn lemma_invert_twice_restores_coverage(p: Seq<u8>, r: u8, g: u8, b: u8)
    ensures
        inverted(inverted(p, r, g, b), r, g, b).len() == p.len(),
        forall|k: int|
            0 <= k < p.len() / 4 ==> (#[trigger] painted(inverted(inverted(p, r, g, b), r, g, b), k)
                <==> painted(p, k)),
{
    let once = inverted(p, r, g, b);
    let twice = inverted(once, r, g, b);
    assert forall|k: int| 0 <= k < p.len() / 4 implies (#[trigger] painted(twice, k) <==> painted(
        p,
        k,
    )) by {
        assert((4 * k + 3) - (4 * k + 3) % 4 == 4 * k);
        assert(once[4 * k + 3] == inverted_byte(p, 4 * k + 3, r, g, b));
        assert(twice[4 * k + 3] == inverted_byte(once, 4 * k + 3, r, g, b));
    }
}

} // verus!
