//! Bit-level field reader shared by every element decoder.
//!
//! Bit numbering convention: bit 0 is the least-significant bit of the first
//! byte; bit indices increase across byte boundaries in little-endian order.
//! A multi-bit field spanning several bytes is read as an unsigned
//! little-endian integer of that bit width.

use vstd::prelude::*;

verus! {

/// Bit `i` of a byte buffer, under the little-endian bit numbering:
/// bit `i` lives in byte `i / 8` at in-byte position `i % 8`.
pub open spec fn bit_at(bytes: Seq<u8>, i: int) -> bool
    recommends
        0 <= i < bytes.len() * 8,
{
    ((bytes[i / 8] as u32) >> ((i % 8) as u32)) & 1u32 == 1u32
}

/// The unsigned value of the `width`-bit field starting at bit `lo`,
/// read little-endian: bit `lo` is the least significant.
pub open spec fn bits_at(bytes: Seq<u8>, lo: int, width: nat) -> nat
    recommends
        0 <= lo,
        lo + width <= bytes.len() * 8,
    decreases width,
{
    if width == 0 {
        0
    } else {
        (if bit_at(bytes, lo) {
            1nat
        } else {
            0nat
        }) + 2 * bits_at(bytes, lo + 1, (width - 1) as nat)
    }
}

/// A `width`-bit field takes values below `2^width`; stated here for the
/// widths the decoders use, which keeps the accumulator of `read_bits`
/// within `u16` range.
pub proof fn lemma_bits_at_bound(bytes: Seq<u8>, lo: int, width: nat)
    requires
        width <= 16,
    ensures
        bits_at(bytes, lo, width) < (1u32 << (width as u32)),
    decreases width,
{
    if width == 0 {
        assert(1u32 << 0u32 == 1) by (bit_vector);
    } else {
        lemma_bits_at_bound(bytes, lo + 1, (width - 1) as nat);
        let w = width as u32;
        assert(0 < w <= 16 ==> (1u32 << w) == 2 * (1u32 << (w - 1) as u32)) by (bit_vector);
    }
}

/// The value of a byte reinterpreted as a signed, two's-complement number.
pub open spec fn as_signed_byte(b: u8) -> int {
    if b < 128 {
        b as int
    } else {
        b - 256
    }
}

/// Reinterpret a byte as a signed, two's-complement number.
pub fn signed_byte(b: u8) -> (r: i8)
    ensures
        r as int == as_signed_byte(b),
{
    if b < 128 {
        b as i8
    } else {
        ((b as i16) - 256) as i8
    }
}

/// Read the `width`-bit unsigned little-endian field of `bytes` starting at
/// bit `lo`, as a byte; `width` is at most 8.
pub fn read_bits_u8(bytes: &[u8], lo: usize, width: usize) -> (r: u8)
    requires
        width <= 8,
        lo + width <= bytes@.len() * 8,
        lo + width <= usize::MAX,
    ensures
        r == bits_at(bytes@, lo as int, width as nat),
{
    let v = read_bits(bytes, lo, width);
    proof {
        lemma_bits_at_bound(bytes@, lo as int, width as nat);
        let w = width as u32;
        assert(w <= 8 ==> (1u32 << w) <= 0x100) by (bit_vector);
    }
    v as u8
}

/// Read one bit of `bytes` at index `i` under the little-endian numbering.
pub fn read_bit(bytes: &[u8], i: usize) -> (r: bool)
    requires
        i < bytes@.len() * 8,
    ensures
        r == bit_at(bytes@, i as int),
{
    proof {
        assert(i / 8 < bytes@.len()) by (nonlinear_arith)
            requires
                i < bytes@.len() * 8,
        ;
    }
    let byte = bytes[i / 8];
    ((byte as u32) >> ((i % 8) as u32)) & 1u32 == 1u32
}

/// Read the `width`-bit unsigned little-endian field of `bytes` starting at
/// bit `lo`; `width` is at most 16.
pub fn read_bits(bytes: &[u8], lo: usize, width: usize) -> (r: u16)
    requires
        width <= 16,
        lo + width <= bytes@.len() * 8,
        lo + width <= usize::MAX,
    ensures
        r == bits_at(bytes@, lo as int, width as nat),
{
    proof {
        assert(1u32 << 0u32 == 1) by (bit_vector);
    }
    let mut r: u16 = 0;
    let mut j = width;
    while j > 0
        invariant
            j <= width <= 16,
            lo + width <= bytes@.len() * 8,
            lo + width <= usize::MAX,
            r == bits_at(bytes@, lo + j, (width - j) as nat),
            r < (1u32 << ((width - j) as u32)),
        decreases j,
    {
        j = j - 1;
        let b = read_bit(bytes, lo + j);
        proof {
            let w = (width - j) as u32;
            assert(0 < w <= 16 ==> (1u32 << w) == 2 * (1u32 << (w - 1) as u32)) by (bit_vector);
            assert(w <= 16 ==> (1u32 << w) <= 0x10000) by (bit_vector);
        }
        r = 2 * r + (if b {
            1
        } else {
            0
        });
    }
    r
}

} // verus!
