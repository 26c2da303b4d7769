//! Bit-level access to integers, delegated to the `bit_field` crate.
//!
//! The first group of functions in this file is the only place where
//! `bit_field` is called. Their contracts restate what the crate's
//! implementation for the primitive integers computes; they are taken on
//! trust. The lemmas that follow rewrite those statements into mask-and-shift
//! form, and the second group of functions offers them in that form to the
//! rest of the library.

use vstd::prelude::*;
use bit_field::{BitArray, BitField};

verus! {

/// Bit `bit` of `val` (`u8`).
pub open spec fn bit8(val: u8, bit: u8) -> bool {
    val & (1u8 << bit) != 0
}

/// Bit `bit` of `val` (`u32`).
pub open spec fn bit32(val: u32, bit: u32) -> bool {
    val & (1u32 << bit) != 0
}

/// `val` with bit `bit` forced to `on` (`u8`).
pub open spec fn with_bit8(val: u8, bit: u8, on: bool) -> u8 {
    if on {
        val | (1u8 << bit)
    } else {
        val & !(1u8 << bit)
    }
}

/// `val` with bit `bit` forced to `on` (`u32`).
pub open spec fn with_bit32(val: u32, bit: u32, on: bool) -> u32 {
    if on {
        val | (1u32 << bit)
    } else {
        val & !(1u32 << bit)
    }
}

/// The largest value of a field that is `width` bits wide (`u8`).
pub open spec fn limit8(width: u8) -> u8 {
    if width == 1 {
        0x1
    } else if width == 2 {
        0x3
    } else if width == 3 {
        0x7
    } else if width == 4 {
        0xf
    } else if width == 5 {
        0x1f
    } else if width == 6 {
        0x3f
    } else if width == 7 {
        0x7f
    } else {
        0xff
    }
}

/// The largest value of a field that is `width` bits wide (`u16`).
pub open spec fn limit16(width: u16) -> u16 {
    if width == 1 {
        0x1
    } else if width == 2 {
        0x3
    } else if width == 3 {
        0x7
    } else if width == 4 {
        0xf
    } else if width == 5 {
        0x1f
    } else if width == 6 {
        0x3f
    } else if width == 7 {
        0x7f
    } else if width == 8 {
        0xff
    } else if width == 9 {
        0x1ff
    } else if width == 10 {
        0x3ff
    } else if width == 11 {
        0x7ff
    } else if width == 12 {
        0xfff
    } else if width == 13 {
        0x1fff
    } else if width == 14 {
        0x3fff
    } else if width == 15 {
        0x7fff
    } else {
        0xffff
    }
}

/// The largest value of a field that is `width` bits wide (`u32`).
pub open spec fn limit32(width: u32) -> u32 {
    if width == 1 {
        0x1
    } else if width == 2 {
        0x3
    } else if width == 3 {
        0x7
    } else if width == 4 {
        0xf
    } else if width == 5 {
        0x1f
    } else if width == 6 {
        0x3f
    } else if width == 7 {
        0x7f
    } else if width == 8 {
        0xff
    } else if width == 9 {
        0x1ff
    } else if width == 10 {
        0x3ff
    } else if width == 11 {
        0x7ff
    } else if width == 12 {
        0xfff
    } else if width == 13 {
        0x1fff
    } else if width == 14 {
        0x3fff
    } else if width == 15 {
        0x7fff
    } else if width == 16 {
        0xffff
    } else if width == 17 {
        0x1ffff
    } else if width == 18 {
        0x3ffff
    } else if width == 19 {
        0x7ffff
    } else if width == 20 {
        0xfffff
    } else if width == 21 {
        0x1fffff
    } else if width == 22 {
        0x3fffff
    } else if width == 23 {
        0x7fffff
    } else if width == 24 {
        0xffffff
    } else if width == 25 {
        0x1ffffff
    } else if width == 26 {
        0x3ffffff
    } else if width == 27 {
        0x7ffffff
    } else if width == 28 {
        0xfffffff
    } else if width == 29 {
        0x1fffffff
    } else if width == 30 {
        0x3fffffff
    } else if width == 31 {
        0x7fffffff
    } else {
        0xffffffff
    }
}

/// Bits `lo..hi` of `val` moved down to bit 0 (`u8`).
pub open spec fn bits8(val: u8, lo: u8, hi: u8) -> u8 {
    (val >> lo) & limit8((hi - lo) as u8)
}

/// Bits `lo..hi` of `val` moved down to bit 0 (`u16`).
pub open spec fn bits16(val: u16, lo: u16, hi: u16) -> u16 {
    (val >> lo) & limit16((hi - lo) as u16)
}

/// Bits `lo..hi` of `val` moved down to bit 0 (`u32`).
pub open spec fn bits32(val: u32, lo: u32, hi: u32) -> u32 {
    (val >> lo) & limit32((hi - lo) as u32)
}

/// `val` with bits `lo..hi` replaced by `field` (`u8`).
pub open spec fn with_bits8(val: u8, lo: u8, hi: u8, field: u8) -> u8 {
    (val & !(limit8((hi - lo) as u8) << lo)) | (field << lo)
}

/// `val` with bits `lo..hi` replaced by `field` (`u16`).
pub open spec fn with_bits16(val: u16, lo: u16, hi: u16, field: u16) -> u16 {
    (val & !(limit16((hi - lo) as u16) << lo)) | (field << lo)
}

/// `val` with bits `lo..hi` replaced by `field` (`u32`).
pub open spec fn with_bits32(val: u32, lo: u32, hi: u32, field: u32) -> u32 {
    (val & !(limit32((hi - lo) as u32) << lo)) | (field << lo)
}

/// Four words as one 128-bit number, the first word lowest.
pub open spec fn wide(words: [u32; 4]) -> u128 {
    (words[0] as u128) | ((words[1] as u128) << 32) | ((words[2] as u128) << 64) | ((
    words[3] as u128) << 96)
}

/// Bits `lo..hi` of four words taken as one number, moved down to bit 0. The
/// range is at most 32 bits wide.
pub open spec fn wide_bits(words: [u32; 4], lo: u128, hi: u128) -> u128 {
    (wide(words) >> lo) & (limit32((hi - lo) as u32) as u128)
}

/// `BitField::get_bit` on `u8`: the crate tests `val & (1 << bit)` against
/// zero and panics when `bit` is not below the width.
#[verifier::external_body]
pub(crate) fn get_bit_u8(val: u8, bit: usize) -> (r: bool)
    requires
        bit < 8,
    ensures
        r == (val & (1u8 << (bit as u8)) != 0),
{
    val.get_bit(bit)
}

/// `BitField::get_bit` on `u32`: the crate tests `val & (1 << bit)` against
/// zero and panics when `bit` is not below the width.
#[verifier::external_body]
pub(crate) fn get_bit_u32(val: u32, bit: usize) -> (r: bool)
    requires
        bit < 32,
    ensures
        r == (val & (1u32 << (bit as u32)) != 0),
{
    val.get_bit(bit)
}

/// `BitField::set_bit` on `u8`: the crate ors `1 << bit` in, or ands its
/// complement, and panics when `bit` is not below the width.
#[verifier::external_body]
pub(crate) fn set_bit_u8(val: &mut u8, bit: usize, on: bool)
    requires
        bit < 8,
    ensures
        *final(val) == (if on {
            *old(val) | (1u8 << (bit as u8))
        } else {
            *old(val) & !(1u8 << (bit as u8))
        }),
{
    val.set_bit(bit, on);
}

/// `BitField::set_bit` on `u32`: the crate ors `1 << bit` in, or ands its
/// complement, and panics when `bit` is not below the width.
#[verifier::external_body]
pub(crate) fn set_bit_u32(val: &mut u32, bit: usize, on: bool)
    requires
        bit < 32,
    ensures
        *final(val) == (if on {
            *old(val) | (1u32 << (bit as u32))
        } else {
            *old(val) & !(1u32 << (bit as u32))
        }),
{
    val.set_bit(bit, on);
}

/// `BitField::get_bits` on `u8` with the range `lo..hi`: the crate shifts the
/// bits above `hi` out to the left and back, then shifts right by `lo`. It
/// panics on a range that is reversed or leaves the width; an empty range is
/// left out here.
#[verifier::external_body]
pub(crate) fn get_bits_u8(val: u8, lo: usize, hi: usize) -> (r: u8)
    requires
        lo < hi <= 8,
    ensures
        r == ((val << ((8 - hi) as u8)) >> ((8 - hi) as u8)) >> (lo as u8),
{
    val.get_bits(lo..hi)
}

/// `BitField::get_bits` on `u16` with the range `lo..hi`; see [`get_bits_u8`].
#[verifier::external_body]
pub(crate) fn get_bits_u16(val: u16, lo: usize, hi: usize) -> (r: u16)
    requires
        lo < hi <= 16,
    ensures
        r == ((val << ((16 - hi) as u16)) >> ((16 - hi) as u16)) >> (lo as u16),
{
    val.get_bits(lo..hi)
}

/// `BitField::get_bits` on `u32` with the range `lo..hi`; see [`get_bits_u8`].
#[verifier::external_body]
pub(crate) fn get_bits_u32(val: u32, lo: usize, hi: usize) -> (r: u32)
    requires
        lo < hi <= 32,
    ensures
        r == ((val << ((32 - hi) as u32)) >> ((32 - hi) as u32)) >> (lo as u32),
{
    val.get_bits(lo..hi)
}

/// `BitField::set_bits` on `u8` with the range `lo..hi`: the crate clears the
/// range with a mask built by shifting all-ones, then ors `field << lo` in. It
/// panics on a bad range and when `field` shifted up by the unused width and
/// back is not `field` again.
#[verifier::external_body]
pub(crate) fn set_bits_u8(val: &mut u8, lo: usize, hi: usize, field: u8)
    requires
        lo < hi <= 8,
        (field << ((8 - (hi - lo)) as u8)) >> ((8 - (hi - lo)) as u8) == field,
    ensures
        *final(val) == (*old(val) & !((((!0u8) << ((8 - hi) as u8)) >> ((8 - hi) as u8)) >> (lo as u8)
            << (lo as u8))) | (field << (lo as u8)),
{
    val.set_bits(lo..hi, field);
}

/// `BitField::set_bits` on `u16` with the range `lo..hi`; see [`set_bits_u8`].
#[verifier::external_body]
pub(crate) fn set_bits_u16(val: &mut u16, lo: usize, hi: usize, field: u16)
    requires
        lo < hi <= 16,
        (field << ((16 - (hi - lo)) as u16)) >> ((16 - (hi - lo)) as u16) == field,
    ensures
        *final(val) == (*old(val) & !((((!0u16) << ((16 - hi) as u16)) >> ((16 - hi) as u16)) >> (
        lo as u16) << (lo as u16))) | (field << (lo as u16)),
{
    val.set_bits(lo..hi, field);
}

/// `BitField::set_bits` on `u32` with the range `lo..hi`; see [`set_bits_u8`].
#[verifier::external_body]
pub(crate) fn set_bits_u32(val: &mut u32, lo: usize, hi: usize, field: u32)
    requires
        lo < hi <= 32,
        (field << ((32 - (hi - lo)) as u32)) >> ((32 - (hi - lo)) as u32) == field,
    ensures
        *final(val) == (*old(val) & !((((!0u32) << ((32 - hi) as u32)) >> ((32 - hi) as u32)) >> (
        lo as u32) << (lo as u32))) | (field << (lo as u32)),
{
    val.set_bits(lo..hi, field);
}

/// `BitArray::get_bits` on a slice of four `u32` with the range `lo..hi`: the
/// crate counts bit 0 as the lowest bit of the first word and returns the
/// bits of the range, joined across one word boundary where the range
/// crosses it. It panics on a range wider than a word or outside the slice;
/// an empty range is left out here.
#[verifier::external_body]
pub(crate) fn get_bits_words(words: &[u32; 4], lo: usize, hi: usize) -> (r: u32)
    requires
        lo < hi <= 128,
        hi - lo <= 32,
    ensures
        r as u128 == wide_bits(*words, lo as u128, hi as u128),
{
    BitArray::get_bits(&words[..], lo..hi)
}

/// A masked value is at most the mask.
pub proof fn lemma_masked_is_bounded(val: u128, mask: u32)
    by (bit_vector)
    ensures
        val & (mask as u128) <= mask,
{
}

/// Shifting out and back equals masking, for every range of a `u8`, and the
/// field read stays within its width.
pub proof fn lemma_bits8(val: u8, lo: u8, hi: u8)
    by (bit_vector)
    requires
        lo < hi <= 8,
    ensures
        ((val << ((8 - hi) as u8)) >> ((8 - hi) as u8)) >> lo == bits8(val, lo, hi),
        bits8(val, lo, hi) <= limit8((hi - lo) as u8),
{
}

/// Replacing a range of a `u8`: a field within the width passes the fit
/// test, the mask built by shifts is the mask of the range, the field can be
/// read back, and the bits outside the range stay.
pub proof fn lemma_with_bits8(val: u8, lo: u8, hi: u8, field: u8)
    by (bit_vector)
    requires
        lo < hi <= 8,
        field <= limit8((hi - lo) as u8),
    ensures
        (field << ((8 - (hi - lo)) as u8)) >> ((8 - (hi - lo)) as u8) == field,
        (val & !((((!0u8) << ((8 - hi) as u8)) >> ((8 - hi) as u8)) >> lo << lo)) | (field
            << lo) == with_bits8(val, lo, hi, field),
        bits8(with_bits8(val, lo, hi, field), lo, hi) == field,
        with_bits8(val, lo, hi, field) & !(limit8((hi - lo) as u8) << lo) == val & !(limit8(
            (hi - lo) as u8,
        ) << lo),
{
}

/// Shifting out and back equals masking, for every range of a `u16`, and the
/// field read stays within its width.
pub proof fn lemma_bits16(val: u16, lo: u16, hi: u16)
    by (bit_vector)
    requires
        lo < hi <= 16,
    ensures
        ((val << ((16 - hi) as u16)) >> ((16 - hi) as u16)) >> lo == bits16(val, lo, hi),
        bits16(val, lo, hi) <= limit16((hi - lo) as u16),
{
}

/// Replacing a range of a `u16`: a field within the width passes the fit
/// test, the mask built by shifts is the mask of the range, the field can be
/// read back, and the bits outside the range stay.
pub proof fn lemma_with_bits16(val: u16, lo: u16, hi: u16, field: u16)
    by (bit_vector)
    requires
        lo < hi <= 16,
        field <= limit16((hi - lo) as u16),
    ensures
        (field << ((16 - (hi - lo)) as u16)) >> ((16 - (hi - lo)) as u16) == field,
        (val & !((((!0u16) << ((16 - hi) as u16)) >> ((16 - hi) as u16)) >> lo << lo)) | (field
            << lo) == with_bits16(val, lo, hi, field),
        bits16(with_bits16(val, lo, hi, field), lo, hi) == field,
        with_bits16(val, lo, hi, field) & !(limit16((hi - lo) as u16) << lo) == val & !(limit16(
            (hi - lo) as u16,
        ) << lo),
{
}

/// Shifting out and back equals masking, for every range of a `u32`, and the
/// field read stays within its width.
pub proof fn lemma_bits32(val: u32, lo: u32, hi: u32)
    by (bit_vector)
    requires
        lo < hi <= 32,
    ensures
        ((val << ((32 - hi) as u32)) >> ((32 - hi) as u32)) >> lo == bits32(val, lo, hi),
        bits32(val, lo, hi) <= limit32((hi - lo) as u32),
{
}

/// Replacing a range of a `u32`: a field within the width passes the fit
/// test, the mask built by shifts is the mask of the range, the field can be
/// read back, and the bits outside the range stay.
pub proof fn lemma_with_bits32(val: u32, lo: u32, hi: u32, field: u32)
    by (bit_vector)
    requires
        lo < hi <= 32,
        field <= limit32((hi - lo) as u32),
    ensures
        (field << ((32 - (hi - lo)) as u32)) >> ((32 - (hi - lo)) as u32) == field,
        (val & !((((!0u32) << ((32 - hi) as u32)) >> ((32 - hi) as u32)) >> lo << lo)) | (field
            << lo) == with_bits32(val, lo, hi, field),
        bits32(with_bits32(val, lo, hi, field), lo, hi) == field,
        with_bits32(val, lo, hi, field) & !(limit32((hi - lo) as u32) << lo) == val & !(limit32(
            (hi - lo) as u32,
        ) << lo),
{
}

/// Reads bit `bit` of a `u8`.
pub fn bit_u8(val: u8, bit: usize) -> (r: bool)
    requires
        bit < 8,
    ensures
        r == bit8(val, bit as u8),
{
    get_bit_u8(val, bit)
}

/// Forces bit `bit` of a `u8` to `on`.
pub fn put_bit_u8(val: &mut u8, bit: usize, on: bool)
    requires
        bit < 8,
    ensures
        *final(val) == with_bit8(*old(val), bit as u8, on),
{
    set_bit_u8(val, bit, on);
}

/// Reads bit `bit` of a `u32`.
pub fn bit_u32(val: u32, bit: usize) -> (r: bool)
    requires
        bit < 32,
    ensures
        r == bit32(val, bit as u32),
{
    get_bit_u32(val, bit)
}

/// Forces bit `bit` of a `u32` to `on`.
pub fn put_bit_u32(val: &mut u32, bit: usize, on: bool)
    requires
        bit < 32,
    ensures
        *final(val) == with_bit32(*old(val), bit as u32, on),
{
    set_bit_u32(val, bit, on);
}

/// Reads the field `lo..hi` of a `u8`.
pub fn field_u8(val: u8, lo: usize, hi: usize) -> (r: u8)
    requires
        lo < hi <= 8,
    ensures
        r == bits8(val, lo as u8, hi as u8),
        r <= limit8((hi - lo) as u8),
{
    proof {
        lemma_bits8(val, lo as u8, hi as u8);
    }
    get_bits_u8(val, lo, hi)
}

/// Replaces the field `lo..hi` of a `u8` by `field`, which must fit.
pub fn put_field_u8(val: &mut u8, lo: usize, hi: usize, field: u8)
    requires
        lo < hi <= 8,
        field <= limit8((hi - lo) as u8),
    ensures
        *final(val) == with_bits8(*old(val), lo as u8, hi as u8, field),
        bits8(*final(val), lo as u8, hi as u8) == field,
{
    proof {
        lemma_with_bits8(*val, lo as u8, hi as u8, field);
    }
    set_bits_u8(val, lo, hi, field);
}

/// Reads the field `lo..hi` of a `u16`.
pub fn field_u16(val: u16, lo: usize, hi: usize) -> (r: u16)
    requires
        lo < hi <= 16,
    ensures
        r == bits16(val, lo as u16, hi as u16),
        r <= limit16((hi - lo) as u16),
{
    proof {
        lemma_bits16(val, lo as u16, hi as u16);
    }
    get_bits_u16(val, lo, hi)
}

/// Replaces the field `lo..hi` of a `u16` by `field`, which must fit.
pub fn put_field_u16(val: &mut u16, lo: usize, hi: usize, field: u16)
    requires
        lo < hi <= 16,
        field <= limit16((hi - lo) as u16),
    ensures
        *final(val) == with_bits16(*old(val), lo as u16, hi as u16, field),
        bits16(*final(val), lo as u16, hi as u16) == field,
{
    proof {
        lemma_with_bits16(*val, lo as u16, hi as u16, field);
    }
    set_bits_u16(val, lo, hi, field);
}

/// Reads the field `lo..hi` of a `u32`.
pub fn field_u32(val: u32, lo: usize, hi: usize) -> (r: u32)
    requires
        lo < hi <= 32,
    ensures
        r == bits32(val, lo as u32, hi as u32),
        r <= limit32((hi - lo) as u32),
{
    proof {
        lemma_bits32(val, lo as u32, hi as u32);
    }
    get_bits_u32(val, lo, hi)
}

/// Replaces the field `lo..hi` of a `u32` by `field`, which must fit.
pub fn put_field_u32(val: &mut u32, lo: usize, hi: usize, field: u32)
    requires
        lo < hi <= 32,
        field <= limit32((hi - lo) as u32),
    ensures
        *final(val) == with_bits32(*old(val), lo as u32, hi as u32, field),
        bits32(*final(val), lo as u32, hi as u32) == field,
{
    proof {
        lemma_with_bits32(*val, lo as u32, hi as u32, field);
    }
    set_bits_u32(val, lo, hi, field);
}

/// Reads the field `lo..hi`, at most 32 bits wide, of four words taken as one
/// 128-bit number with the first word lowest.
pub fn field_words(words: &[u32; 4], lo: usize, hi: usize) -> (r: u32)
    requires
        lo < hi <= 128,
        hi - lo <= 32,
    ensures
        r == wide_bits(*words, lo as u128, hi as u128),
        r <= limit32((hi - lo) as u32),
{
    proof {
        lemma_masked_is_bounded(wide(*words) >> (lo as u128), limit32((hi - lo) as u32));
    }
    get_bits_words(words, lo, hi)
}

} // verus!
