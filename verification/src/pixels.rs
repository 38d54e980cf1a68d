//! Pixel packing: re-encodes a 1-bit monochrome bitmap into the controller's
//! 4-bit-per-pixel grayscale wire format.
//!
//! One monochrome byte holds 8 pixels, most-significant bit first. Each pixel
//! becomes a 4-bit intensity nibble (`0xF` for a set bit, `0x0` for a clear
//! bit), and two adjacent pixels share one output byte, so one input byte
//! yields four output bytes.

use vstd::prelude::*;

verus! {

/// The grayscale nibble for one monochrome pixel: full intensity for a set
/// bit, off for a clear bit.
pub open spec fn nibble_of(set: bool) -> u8 {
    if set {
        0xF
    } else {
        0x0
    }
}

/// Whether bit `i` of `b` is set, where bit 0 is the least significant.
pub open spec fn bit_of(b: u8, i: u8) -> bool {
    (b >> i) & 1 == 1
}

/// The output byte holding pixel pair `i` of the monochrome byte `b`: the
/// high nibble comes from bit `7 - 2i` (the earlier pixel), the low nibble
/// from bit `6 - 2i`.
pub open spec fn pixel_pair_byte(b: u8, i: int) -> u8
    recommends
        0 <= i < 4,
{
    (nibble_of(bit_of(b, (7 - 2 * i) as u8)) << 4) | nibble_of(bit_of(b, (6 - 2 * i) as u8))
}

/// The four grayscale bytes for one monochrome byte, in input-bit order.
pub open spec fn spec_unpack_byte(b: u8) -> Seq<u8> {
    Seq::new(4, |i: int| pixel_pair_byte(b, i))
}

/// The grayscale payload for a whole monochrome row: the four-byte groups of
/// each input byte, concatenated in input order.
pub open spec fn spec_unpack_line(s: Seq<u8>) -> Seq<u8>
    decreases s.len(),
{
    if s.len() == 0 {
        Seq::empty()
    } else {
        spec_unpack_byte(s[0]) + spec_unpack_line(s.drop_first())
    }
}

/// A packed row always expands to exactly four output bytes per input byte.
pub proof fn lemma_unpack_line_len(s: Seq<u8>)
    ensures
        spec_unpack_line(s).len() == 4 * s.len(),
    decreases s.len(),
{
    if s.len() != 0 {
        lemma_unpack_line_len(s.drop_first());
    }
}

proof fn lemma_unpack_line_push(s: Seq<u8>, b: u8)
    ensures
        spec_unpack_line(s.push(b)) == spec_unpack_line(s) + spec_unpack_byte(b),
    decreases s.len(),
{
    if s.len() == 0 {
        assert(s.push(b)[0] == b);
        assert(s.push(b).drop_first() =~= Seq::<u8>::empty());
        assert(spec_unpack_line(Seq::<u8>::empty()) == Seq::<u8>::empty());
        assert(spec_unpack_line(s) == Seq::<u8>::empty());
        assert(spec_unpack_line(s.push(b)) =~= spec_unpack_line(s) + spec_unpack_byte(b));
    } else {
        lemma_unpack_line_push(s.drop_first(), b);
        assert(s.push(b).drop_first() =~= s.drop_first().push(b));
        assert(spec_unpack_line(s.push(b)) =~= spec_unpack_line(s) + spec_unpack_byte(b));
    }
}

/// One output byte, built from the pixels at bit positions `hi` and `lo`.
fn pack_pair(b: u8, hi: u8, lo: u8) -> (r: u8)
    requires
        hi < 8,
        lo < 8,
    ensures
        r == ((nibble_of(bit_of(b, hi)) << 4) | nibble_of(bit_of(b, lo))),
{
    let h: u8 = if (b >> hi) & 1 == 1 {
        0xF0
    } else {
        0x00
    };
    let l: u8 = if (b >> lo) & 1 == 1 {
        0x0F
    } else {
        0x00
    };
    proof {
        assert((0xFu8 << 4) == 0xF0u8) by (bit_vector);
        assert((0x0u8 << 4) == 0x00u8) by (bit_vector);
    }
    h | l
}

/// Converts a `0bABCDEFGH` packed monochrome byte into a group of four
/// grayscale display bytes `[0xAAAABBBB, 0xCCCCDDDD, 0xEEEEFFFF, 0xGGGGHHHH]`
/// (each letter standing for the nibble of one pixel), earliest bits first.
pub fn unpack_pixels_for_display(packed: u8) -> (r: Vec<u8>)
    ensures
        r@ == spec_unpack_byte(packed),
        r@.len() == 4,
        forall|i: int| 0 <= i < 4 ==> r@[i] == pixel_pair_byte(packed, i),
{
    let mut r: Vec<u8> = Vec::new();
    r.push(pack_pair(packed, 7, 6));
    r.push(pack_pair(packed, 5, 4));
    r.push(pack_pair(packed, 3, 2));
    r.push(pack_pair(packed, 1, 0));
    proof {
        assert(r@ =~= spec_unpack_byte(packed));
    }
    r
}

/// Unpacks an entire 16-byte monochrome line into its 64-byte grayscale wire
/// payload.
pub fn unpack_line_for_display(line: &[u8; 16]) -> (r: Vec<u8>)
    ensures
        r@ == spec_unpack_line(line@),
        r@.len() == 64,
{
    let mut r: Vec<u8> = Vec::new();
    for i in 0..16
        invariant
            r@ == spec_unpack_line(line@.take(i as int)),
    {
        let mut group = unpack_pixels_for_display(line[i]);
        proof {
            lemma_unpack_line_push(line@.take(i as int), line@[i as int]);
            assert(line@.take(i as int).push(line@[i as int]) =~= line@.take(i + 1 as int));
        }
        r.append(&mut group);
    }
    proof {
        assert(line@.take(16) =~= line@);
        lemma_unpack_line_len(line@);
    }
    r
}

} // verus!
