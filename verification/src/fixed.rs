//! Fixed-point codec.
//!
//! The rasterizer protocol works on two fixed-point formats:
//!
//! * integer + 16-bit fraction (slopes and sub-scanline intersections),
//!   produced by [`split`] and, for possibly negative values, by
//!   [`split_signed`];
//! * 10.2 (on-screen coordinates, quarter-pixel granularity), produced by
//!   [`to_fixpoint_10_2`].
//!
//! Screen coordinates are carried in [`Fixed`], a signed 16.16 value: the
//! `raw` field counts 1/65536ths of a pixel. Every conversion here is exact
//! integer arithmetic on `raw`, so each contract pins the result completely.

use vstd::prelude::*;
use vstd::arithmetic::div_mod::{
    lemma_fundamental_div_mod, lemma_fundamental_div_mod_converse, lemma_div_is_ordered,
    lemma_small_mod,
};

verus! {

/// A screen-space coordinate in signed 16.16 fixed point.
#[derive(Clone, Copy, PartialEq, Eq, Structural, Debug)]
pub struct Fixed {
    /// The coordinate scaled by 65536.
    pub raw: i32,
}

impl Fixed {
    /// The coordinate scaled by 65536, as a mathematical integer.
    pub open spec fn value(self) -> int {
        self.raw as int
    }

    pub fn from_raw(raw: i32) -> (r: Fixed)
        ensures
            r.raw == raw,
    {
        Fixed { raw }
    }

    /// The coordinate `v` whole pixels from the origin.
    pub fn from_int(v: i16) -> (r: Fixed)
        ensures
            r.value() == v * 65536,
    {
        Fixed { raw: (v as i32) * 65536 }
    }

    /// The whole pixel the coordinate falls on (floor).
    pub fn floor(self) -> (r: i32)
        ensures
            r == self.value() / 65536,
    {
        let q: (u16, u16) = split_signed(self);
        proof {
            lemma_split_signed_in_range(self);
        }
        if self.raw >= 0 {
            q.0 as i32
        } else {
            (q.0 as i32) - 65536
        }
    }
}

/// Splits a non-negative coordinate into its whole-pixel part and its
/// 16-bit fractional part. The split is exact: the two parts recombine to
/// the input (see [`lemma_split_round_trip`]).
pub fn split(v: Fixed) -> (r: (u16, u16))
    requires
        0 <= v.raw,
    ensures
        r.0 == v.value() / 65536,
        r.1 == v.value() % 65536,
        r.0 * 65536 + r.1 == v.value(),
{
    let bits: u32 = v.raw as u32;
    proof {
        lemma_fundamental_div_mod(bits as int, 65536);
    }
    ((bits / 65536) as u16, (bits % 65536) as u16)
}

/// Splits any coordinate into the hardware's two's-complement 16.16 bit
/// fields: the integer field holds `floor(v) mod 65536`, the fraction field
/// the low 16 bits of the raw value. On non-negative input this coincides
/// with [`split`].
pub fn split_signed(v: Fixed) -> (r: (u16, u16))
    ensures
        r.0 == (v.value() / 65536) % 65536,
        r.1 == v.value() % 65536,
        0 <= v.raw ==> r.0 == v.value() / 65536,
{
    if v.raw >= 0 {
        let bits: u32 = v.raw as u32;
        proof {
            lemma_fundamental_div_mod(bits as int, 65536);
            lemma_small_mod((bits as int / 65536) as nat, 65536);
        }
        ((bits / 65536) as u16, (bits % 65536) as u16)
    } else {
        let raw: i32 = v.raw;
        let bits: u32 = #[verifier::truncate] (raw as u32);
        proof {
            assert(bits == raw + 0x1_0000_0000) by (bit_vector)
                requires
                    bits == #[verifier::truncate] (raw as u32),
                    raw < 0,
            ;
            lemma_fundamental_div_mod(bits as int, 65536);
            // bits == 65536 * (bits / 65536) + bits % 65536, hence
            // v.raw == 65536 * (bits / 65536 - 65536) + bits % 65536.
            lemma_fundamental_div_mod_converse(
                v.value(),
                65536,
                bits as int / 65536 - 65536,
                bits as int % 65536,
            );
            lemma_fundamental_div_mod_converse(
                v.value() / 65536,
                65536,
                -1,
                bits as int / 65536,
            );
        }
        ((bits / 65536) as u16, (bits % 65536) as u16)
    }
}

/// The integer field of [`split_signed`] stays in 16 bits.
pub proof fn lemma_split_signed_in_range(v: Fixed)
    ensures
        0 <= (v.value() / 65536) % 65536 < 65536,
        0 <= v.value() % 65536 < 65536,
        0 <= v.raw ==> v.value() / 65536 < 32768,
        v.raw < 0 ==> (v.value() / 65536) % 65536 == v.value() / 65536 + 65536,
{
    lemma_fundamental_div_mod(v.value(), 65536);
    if v.raw < 0 {
        lemma_fundamental_div_mod_converse(
            v.value() / 65536,
            65536,
            -1,
            v.value() / 65536 + 65536,
        );
    } else {
        lemma_small_mod((v.value() / 65536) as nat, 65536);
    }
}

/// The split round-trips: `integer + fraction/65536` is exactly the input
/// coordinate, for every representable non-negative input. (The input
/// already lies on the 1/65536 grid, so no quantization is left to lose.)
pub proof fn lemma_split_round_trip(v: Fixed)
    requires
        0 <= v.raw,
    ensures
        (v.value() / 65536) * 65536 + v.value() % 65536 == v.value(),
{
    lemma_fundamental_div_mod(v.value(), 65536);
}

/// Splitting is monotonic: ordering two non-negative coordinates orders
/// their `(integer, fraction)` pairs lexicographically.
pub proof fn lemma_split_monotonic(a: Fixed, b: Fixed)
    requires
        0 <= a.raw,
        a.raw <= b.raw,
    ensures
        a.value() / 65536 < b.value() / 65536
            || (a.value() / 65536 == b.value() / 65536
                && a.value() % 65536 <= b.value() % 65536),
{
    lemma_div_is_ordered(a.value(), b.value(), 65536);
    lemma_fundamental_div_mod(a.value(), 65536);
    lemma_fundamental_div_mod(b.value(), 65536);
}

/// Converts an on-screen coordinate to the 10.2 fixed-point field used by
/// scissor and rectangle commands: truncation onto the quarter-pixel grid,
/// in 12 bits. Out-of-range coordinates are a caller contract violation and
/// are excluded here rather than wrapped silently.
pub fn to_fixpoint_10_2(v: Fixed) -> (r: u64)
    requires
        0 <= v.raw,
        v.raw < 1024 * 65536,
    ensures
        r == v.value() / 16384,
        r < 4096,
{
    let bits: u32 = v.raw as u32;
    (bits / 16384) as u64
}

/// 10.2 truncation moves a coordinate down onto the quarter-pixel grid by
/// less than a quarter pixel.
pub proof fn lemma_to_fixpoint_10_2_exact(v: Fixed)
    requires
        0 <= v.raw,
        v.raw < 1024 * 65536,
    ensures
        (v.value() / 16384) * 16384 <= v.value(),
        v.value() < (v.value() / 16384) * 16384 + 16384,
{
    lemma_fundamental_div_mod(v.value(), 16384);
}

/// 10.2 truncation is monotonic.
pub proof fn lemma_to_fixpoint_10_2_monotonic(a: Fixed, b: Fixed)
    requires
        0 <= a.raw,
        a.raw <= b.raw,
    ensures
        a.value() / 16384 <= b.value() / 16384,
{
    lemma_div_is_ordered(a.value(), b.value(), 16384);
}

/// Lexicographic comparison of two `(integer, fraction)` pairs as produced
/// by the codec: true when `a` is strictly greater than `b`.
pub fn int_frac_greater(a_integer: u16, a_fraction: u16, b_integer: u16, b_fraction: u16) -> (r: bool)
    ensures
        r == (a_integer > b_integer || (a_integer == b_integer && a_fraction > b_fraction)),
{
    if a_integer == b_integer {
        a_fraction > b_fraction
    } else {
        a_integer > b_integer
    }
}

} // verus!
