//! Packed pixel colors.
//!
//! The hardware path works on 16-bit RGBA pixels: 5 bits each for red,
//! green and blue and 1 bit of alpha, packed as `rrrrr ggggg bbbbb a` from
//! the high bit down. Conversions to and from 8-bit-per-channel values
//! round to the nearest representable value.

use vstd::prelude::*;
use vstd::arithmetic::div_mod::{
    lemma_fundamental_div_mod, lemma_fundamental_div_mod_converse, lemma_mod_pos_bound,
};

verus! {

/// A packed 16-bit RGBA color (5 bits R/G/B, 1 bit A).
#[derive(Clone, Copy, PartialEq, Eq, Structural, Debug)]
pub struct Color {
    pub value: u16,
}

/// The packed 16-bit word for the given 5-bit channels and 1-bit alpha.
pub open spec fn pack_5551(r: int, g: int, b: int, a: int) -> int {
    r * 2048 + g * 64 + b * 2 + a
}

/// Nearest 5-bit channel for an 8-bit channel.
pub open spec fn quantize_5(c: int) -> int {
    (c * 31 + 127) / 255
}

/// Nearest 8-bit channel for a 5-bit channel.
pub open spec fn expand_5(c: int) -> int {
    (c * 255 + 15) / 31
}

impl Color {
    /// The raw packed 16-bit value.
    pub open spec fn spec_value(self) -> int {
        self.value as int
    }

    pub fn new(value: u16) -> (r: Color)
        ensures
            r.spec_value() == value,
    {
        Color { value }
    }

    pub fn value(&self) -> (r: u16)
        ensures
            r == self.spec_value(),
    {
        self.value
    }

    /// Packs 5-bit channels and a 1-bit alpha.
    pub fn from_channels(r: u16, g: u16, b: u16, a: u16) -> (c: Color)
        requires
            r < 32,
            g < 32,
            b < 32,
            a < 2,
        ensures
            c.spec_value() == pack_5551(r as int, g as int, b as int, a as int),
    {
        Color { value: r * 2048 + g * 64 + b * 2 + a }
    }

    /// The 5-bit red channel.
    pub fn r(&self) -> (r: u16)
        ensures
            r == self.spec_value() / 2048,
            r < 32,
    {
        self.value / 2048
    }

    /// The 5-bit green channel.
    pub fn g(&self) -> (r: u16)
        ensures
            r == (self.spec_value() / 64) % 32,
            r < 32,
    {
        (self.value / 64) % 32
    }

    /// The 5-bit blue channel.
    pub fn b(&self) -> (r: u16)
        ensures
            r == (self.spec_value() / 2) % 32,
            r < 32,
    {
        (self.value / 2) % 32
    }

    /// The 1-bit alpha channel.
    pub fn a(&self) -> (r: u16)
        ensures
            r == self.spec_value() % 2,
            r < 2,
    {
        self.value % 2
    }

    /// Converts one 8-bit-per-channel RGBA pixel (as read back from the
    /// alternate pipeline, byte order R, G, B, A) to the packed 16-bit
    /// format, rounding each channel to the nearest representable value.
    pub fn from_bytes(bytes: [u8; 4]) -> (c: Color)
        ensures
            c.spec_value() == pack_5551(
                quantize_5(bytes[0] as int),
                quantize_5(bytes[1] as int),
                quantize_5(bytes[2] as int),
                (bytes[3] as int) / 128,
            ),
    {
        let r: u16 = ((bytes[0] as u32 * 31 + 127) / 255) as u16;
        let g: u16 = ((bytes[1] as u32 * 31 + 127) / 255) as u16;
        let b: u16 = ((bytes[2] as u32 * 31 + 127) / 255) as u16;
        let a: u16 = (bytes[3] / 128) as u16;
        Color { value: r * 2048 + g * 64 + b * 2 + a }
    }

    /// Expands the packed color to 8-bit-per-channel RGBA, rounding each
    /// channel to the nearest 8-bit value.
    pub fn to_bytes(&self) -> (bytes: [u8; 4])
        ensures
            bytes[0] == expand_5(self.spec_value() / 2048),
            bytes[1] == expand_5((self.spec_value() / 64) % 32),
            bytes[2] == expand_5((self.spec_value() / 2) % 32),
            bytes[3] == (self.spec_value() % 2) * 255,
    {
        let r: u8 = ((self.r() as u32 * 255 + 15) / 31) as u8;
        let g: u8 = ((self.g() as u32 * 255 + 15) / 31) as u8;
        let b: u8 = ((self.b() as u32 * 255 + 15) / 31) as u8;
        let a: u8 = (self.a() * 255) as u8;
        [r, g, b, a]
    }
}

/// Expanding a 5-bit channel to 8 bits and quantizing back returns the
/// channel: the conversion pair loses nothing.
pub proof fn lemma_channel_round_trip(c: int)
    requires
        0 <= c < 32,
    ensures
        quantize_5(expand_5(c)) == c,
{
    let e = expand_5(c);
    lemma_fundamental_div_mod(c * 255 + 15, 31);
    lemma_mod_pos_bound(c * 255 + 15, 31);
    let r = (c * 255 + 15) % 31;
    assert(e * 31 + 127 == c * 255 + (142 - r));
    lemma_fundamental_div_mod_converse(e * 31 + 127, 255, c, 142 - r);
}

/// Conversion to 8 bits per channel and back is lossless: expanding a
/// packed color with [`Color::to_bytes`] and re-quantizing the bytes
/// with [`Color::from_bytes`] reproduces the packed value exactly.
pub proof fn lemma_color_round_trip(c: Color)
    ensures
        pack_5551(
            quantize_5(expand_5(c.spec_value() / 2048)),
            quantize_5(expand_5((c.spec_value() / 64) % 32)),
            quantize_5(expand_5((c.spec_value() / 2) % 32)),
            ((c.spec_value() % 2) * 255) / 128,
        ) == c.spec_value(),
{
    let v = c.value;
    lemma_channel_round_trip(v as int / 2048);
    lemma_channel_round_trip((v as int / 64) % 32);
    lemma_channel_round_trip((v as int / 2) % 32);
    assert((v as int / 2048) * 2048 + ((v as int / 64) % 32) * 64 + ((v as int / 2) % 32) * 2 + (
    v as int % 2) == v as int) by (bit_vector);
}

} // verus!
