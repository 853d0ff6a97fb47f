//! The little-endian field codec: the byte-level semantics that every
//! generated accessor implements. A scalar field of width `8*w` bits at
//! bit offset `8*o` is stored as the `w` little-endian bytes of its value
//! at byte offset `o`; an array field stores its elements' encodings
//! contiguously, in element order.

use vstd::prelude::*;

use vstd::arithmetic::div_mod::lemma_div_denominator;

verus! {

/// `256^n` (1 for `n <= 0`).
pub open spec fn spec_pow256(n: int) -> int
    decreases n,
{
    if n <= 0 {
        1
    } else {
        256 * spec_pow256(n - 1)
    }
}

/// The `w` little-endian bytes of `v`, least significant first.
pub open spec fn spec_le_bytes(v: int, w: int) -> Seq<u8>
    decreases w,
{
    if w <= 0 {
        Seq::empty()
    } else {
        seq![(v % 256) as u8] + spec_le_bytes(v / 256, w - 1)
    }
}

/// The value a little-endian byte sequence denotes.
pub open spec fn spec_le_val(bytes: Seq<u8>) -> int
    decreases bytes.len(),
{
    if bytes.len() == 0 {
        0
    } else {
        bytes[0] + 256 * spec_le_val(bytes.drop_first())
    }
}

/// Powers of 256 are positive and nondecreasing.
pub proof fn lemma_pow256_mono(a: int, b: int)
    requires
        a <= b,
    ensures
        1 <= spec_pow256(a) <= spec_pow256(b),
    decreases b,
{
    if b > 0 && a < b {
        lemma_pow256_mono(a, b - 1);
    } else if b > 0 {
        lemma_pow256_mono(a - 1, b - 1);
    }
}

/// An encoding has exactly the asked-for width.
pub proof fn lemma_le_bytes_len(v: int, w: int)
    requires
        w >= 0,
    ensures
        spec_le_bytes(v, w).len() == w,
    decreases w,
{
    if w > 0 {
        lemma_le_bytes_len(v / 256, w - 1);
    }
}

/// Byte `j` of an encoding of a nonnegative value is digit `j` in base
/// 256.
pub proof fn lemma_le_byte_at(v: int, w: int, j: int)
    requires
        0 <= v,
        0 <= j < w,
    ensures
        spec_le_bytes(v, w).len() == w,
        spec_le_bytes(v, w)[j] == (v / spec_pow256(j)) % 256,
    decreases j,
{
    lemma_le_bytes_len(v, w);
    if j == 0 {
        assert(spec_pow256(0) == 1);
    } else {
        lemma_le_byte_at(v / 256, w - 1, j - 1);
        assert(spec_le_bytes(v, w)[j] == spec_le_bytes(v / 256, w - 1)[j - 1]);
        lemma_pow256_mono(0, j - 1);
        lemma_div_denominator(v, 256, spec_pow256(j - 1));
        assert(256 * spec_pow256(j - 1) == spec_pow256(j));
    }
}

/// A little-endian byte sequence denotes a value below `256^len`.
pub proof fn lemma_le_val_bound(bytes: Seq<u8>)
    ensures
        0 <= spec_le_val(bytes) < spec_pow256(bytes.len() as int),
    decreases bytes.len(),
{
    if bytes.len() == 0 {
    } else {
        lemma_le_val_bound(bytes.drop_first());
    }
}

/// Round trip of the codec: decoding the `w`-byte little-endian encoding
/// of any in-range value gives the value back.
pub proof fn lemma_le_round_trip(v: int, w: int)
    requires
        0 <= w,
        0 <= v < spec_pow256(w),
    ensures
        spec_le_val(spec_le_bytes(v, w)) == v,
    decreases w,
{
    if w == 0 {
    } else {
        lemma_le_bytes_len(v / 256, w - 1);
        assert(v / 256 < spec_pow256(w - 1)) by {
            if v / 256 >= spec_pow256(w - 1) {
                assert(v >= 256 * spec_pow256(w - 1));
            }
        }
        lemma_le_round_trip(v / 256, w - 1);
        let enc = spec_le_bytes(v, w);
        assert(enc.drop_first() =~= spec_le_bytes(v / 256, w - 1));
        assert(enc[0] == (v % 256) as u8);
        assert(v % 256 + 256 * (v / 256) == v);
    }
}

/// Writes the `width`-byte little-endian encoding of `v` at byte offset
/// `off`, leaving every other byte unchanged. This is what a generated
/// scalar setter does to its field's byte range.
pub fn set_field_le(buf: &mut Vec<u8>, off: usize, width: usize, v: u64)
    requires
        off + width <= old(buf)@.len(),
        width <= 8,
        (v as int) < spec_pow256(width as int),
    ensures
        final(buf)@.len() == old(buf)@.len(),
        final(buf)@.subrange(off as int, off as int + width as int) == spec_le_bytes(
            v as int,
            width as int,
        ),
        forall|j: int|
            0 <= j < old(buf)@.len() && !(off <= j < off + width) ==> final(buf)@[j] == old(
                buf,
            )@[j],
{
    let n = buf.len();
    let mut cur: u64 = v;
    let mut i: usize = 0;
    while i < width
        invariant
            off + width <= n,
            n == buf@.len(),
            buf@.len() == old(buf)@.len(),
            i <= width,
            cur as int == v as int / spec_pow256(i as int),
            forall|j: int|
                0 <= j < i ==> buf@[off + j] as int == (v as int / spec_pow256(j)) % 256,
            forall|j: int|
                0 <= j < old(buf)@.len() && !(off <= j < off + i) ==> buf@[j] == old(buf)@[j],
        decreases width - i,
    {
        let b = (cur % 256) as u8;
        buf.set(off + i, b);
        proof {
            assert(spec_pow256(0) == 1);
            lemma_pow256_mono(0, i as int);
            lemma_div_denominator(v as int, spec_pow256(i as int), 256);
            assert(spec_pow256(i as int) * 256 == 256 * spec_pow256(i as int));
            assert(256 * spec_pow256(i as int) == spec_pow256(i as int + 1));
            assert(buf@[off + i as int] as int == (v as int / spec_pow256(i as int)) % 256);
        }
        cur = cur / 256;
        i += 1;
    }
    proof {
        lemma_le_bytes_len(v as int, width as int);
        assert(final(buf)@.subrange(off as int, off as int + width as int) =~= spec_le_bytes(
            v as int,
            width as int,
        )) by {
            assert forall|j: int| 0 <= j < width implies final(buf)@.subrange(
                off as int,
                off as int + width as int,
            )[j] == spec_le_bytes(v as int, width as int)[j] by {
                lemma_le_byte_at(v as int, width as int, j);
                assert(final(buf)@[off + j] as int == (v as int / spec_pow256(j)) % 256);
            }
        }
    }
}

/// Reads the `width`-byte little-endian value at byte offset `off`. This
/// is what a generated scalar getter does with its field's byte range.
pub fn get_field_le(buf: &Vec<u8>, off: usize, width: usize) -> (r: u64)
    requires
        off + width <= buf@.len(),
        width <= 8,
    ensures
        r as int == spec_le_val(buf@.subrange(off as int, off as int + width as int)),
        (r as int) < spec_pow256(width as int),
{
    let n = buf.len();
    let mut r: u64 = 0;
    let mut i: usize = width;
    while i > 0
        invariant
            off + width <= n,
            n == buf@.len(),
            width <= 8,
            i <= width,
            r as int == spec_le_val(buf@.subrange(off as int + i as int, off as int
                + width as int)),
            (r as int) < spec_pow256(width as int - i as int),
        decreases i,
    {
        i -= 1;
        let b = buf[off + i];
        proof {
            lemma_pow256_mono(width as int - i as int - 1, 7);
            assert(spec_pow256(8) == 0x1_0000_0000_0000_0000) by {
                reveal_with_fuel(spec_pow256, 9);
            }
            lemma_pow256_mono(width as int - i as int, 8);
            let s = buf@.subrange(off as int + i as int, off as int + width as int);
            assert(s[0] == buf@[off + i as int]);
            assert(s.drop_first() =~= buf@.subrange(off as int + i as int + 1, off as int
                + width as int));
        }
        r = r * 256 + b as u64;
    }
    proof {
        lemma_le_val_bound(buf@.subrange(off as int, off as int + width as int));
        lemma_pow256_mono(width as int, width as int);
    }
    r
}


/// Writes `vals.len()` little-endian encodings of `width` bytes each,
/// contiguously from byte offset `off`, in element order. This is what a
/// generated batch setter does to an array field's byte range.
pub fn set_array_le(buf: &mut Vec<u8>, off: usize, width: usize, vals: &Vec<u64>)
    requires
        width <= 8,
        off + vals@.len() * width <= old(buf)@.len(),
        forall|k: int|
            0 <= k < vals@.len() ==> (vals@[k] as int) < spec_pow256(width as int),
    ensures
        final(buf)@.len() == old(buf)@.len(),
        forall|k: int|
            0 <= k < vals@.len() ==> final(buf)@.subrange(
                off + k * width,
                off + k * width + width,
            ) == spec_le_bytes(vals@[k] as int, width as int),
        forall|j: int|
            0 <= j < old(buf)@.len() && !(off <= j < off + vals@.len() * width)
                ==> final(buf)@[j] == old(buf)@[j],
{
    let n = buf.len();
    let count = vals.len();
    let mut k: usize = 0;
    while k < count
        invariant
            width <= 8,
            count == vals@.len(),
            off + count * width <= n,
            n == buf@.len(),
            buf@.len() == old(buf)@.len(),
            k <= count,
            forall|kk: int|
                0 <= kk < vals@.len() ==> (vals@[kk] as int) < spec_pow256(width as int),
            forall|kk: int|
                0 <= kk < k ==> buf@.subrange(off + kk * width, off + kk * width + width)
                    == spec_le_bytes(vals@[kk] as int, width as int),
            forall|j: int|
                0 <= j < old(buf)@.len() && !(off <= j < off + k * width) ==> buf@[j] == old(
                    buf,
                )@[j],
        decreases count - k,
    {
        proof {
            assert(k * width + width <= count * width) by (nonlinear_arith)
                requires
                    0 <= k,
                    k + 1 <= count,
                    0 <= width,
            ;
            assert(k * width >= 0) by (nonlinear_arith)
                requires
                    0 <= k,
                    0 <= width,
            ;
        }
        let ghost pre = buf@;
        set_field_le(buf, off + k * width, width, vals[k]);
        proof {
            assert forall|kk: int|
                0 <= kk < k + 1 implies buf@.subrange(
                off + kk * width,
                off + kk * width + width,
            ) == spec_le_bytes(vals@[kk] as int, width as int) by {
                if kk < k {
                    assert(kk * width + width <= k * width) by (nonlinear_arith)
                        requires
                            0 <= kk,
                            kk + 1 <= k,
                            0 <= width,
                    ;
                    assert(kk * width >= 0) by (nonlinear_arith)
                        requires
                            0 <= kk,
                            0 <= width,
                    ;
                    assert(buf@.subrange(off + kk * width, off + kk * width + width)
                        =~= pre.subrange(off + kk * width, off + kk * width + width));
                }
            }
            assert forall|j: int|
                0 <= j < old(buf)@.len() && !(off <= j < off + (k + 1) * width)
                    implies buf@[j] == old(buf)@[j] by {
                assert((k + 1) * width == k * width + width) by (nonlinear_arith);
                assert(k * width >= 0) by (nonlinear_arith)
                    requires
                        0 <= k,
                        0 <= width,
                ;
            }
        }
        k += 1;
    }
}

/// Reads `count` little-endian values of `width` bytes each, contiguously
/// from byte offset `off`, in element order. This is what a generated
/// batch getter does with an array field's byte range.
pub fn get_array_le(buf: &Vec<u8>, off: usize, width: usize, count: usize) -> (r: Vec<u64>)
    requires
        width <= 8,
        off + count * width <= buf@.len(),
    ensures
        r@.len() == count,
        forall|k: int|
            0 <= k < count ==> r@[k] as int == spec_le_val(buf@.subrange(
                off + k * width,
                off + k * width + width,
            )),
{
    let n = buf.len();
    let mut r: Vec<u64> = Vec::new();
    let mut k: usize = 0;
    while k < count
        invariant
            width <= 8,
            off + count * width <= n,
            n == buf@.len(),
            k <= count,
            r@.len() == k,
            forall|kk: int|
                0 <= kk < k ==> r@[kk] as int == spec_le_val(buf@.subrange(
                    off + kk * width,
                    off + kk * width + width,
                )),
        decreases count - k,
    {
        proof {
            assert(k * width + width <= count * width) by (nonlinear_arith)
                requires
                    0 <= k,
                    k + 1 <= count,
                    0 <= width,
            ;
            assert(k * width >= 0) by (nonlinear_arith)
                requires
                    0 <= k,
                    0 <= width,
            ;
        }
        let v = get_field_le(buf, off + k * width, width);
        r.push(v);
        k += 1;
    }
    r
}

/// Round trip of the batch codec: decoding each of the `count` chunks a
/// batch write produced gives the written elements back, in order.
pub proof fn lemma_le_array_round_trip(vals: Seq<u64>, w: int)
    requires
        0 <= w,
        forall|k: int| 0 <= k < vals.len() ==> (vals[k] as int) < spec_pow256(w),
    ensures
        forall|k: int|
            0 <= k < vals.len() ==> spec_le_val(spec_le_bytes(vals[k] as int, w)) == vals[k],
{
    assert forall|k: int|
        0 <= k < vals.len() implies spec_le_val(spec_le_bytes(vals[k] as int, w))
        == vals[k] by {
        lemma_le_round_trip(vals[k] as int, w);
    }
}

} // verus!
