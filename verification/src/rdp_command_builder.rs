//! Command encoder for the rasterizer coprocessor.
//!
//! The encoder is an append-only builder over an ordered sequence of
//! 64-bit command words. The high byte of every word is an opcode; the
//! remaining bits are opcode-specific operand fields. Ordering in the
//! sequence is a correctness invariant: state-setting commands must
//! precede the primitives that depend on that state, and the `sync_*`
//! barriers separate pipeline hazards. Every operation appends exactly one
//! word, except the triangle primitive, which is a four-word command
//! (opcode on its first word).
//!
//! Each `encode_*` spec function below pins the exact bit layout of one
//! command word, and the corresponding builder method appends exactly that
//! word.

use vstd::prelude::*;
use crate::color::Color;
use crate::fixed::{to_fixpoint_10_2, Fixed};
use crate::geom::Vec2;
use crate::triangle::TriangleCoefficients;

verus! {

pub const OTHER_MODE_ALPHA_COMPARE_EN: u64 = 0x00_0000_0000_0001; // Conditional color write on alpha compare (bit 0)
pub const OTHER_MODE_DITHER_ALPHA_EN: u64 = 0x00_0000_0000_0002; // Use random noise in alpha compare (bit 1)
pub const OTHER_MODE_Z_SOURCE_SEL: u64 = 0x00_0000_0000_0004; // Choose between primitive Z and pixel Z (bit 2)
pub const OTHER_MODE_ANTIALIAS_EN: u64 = 0x00_0000_0000_0008; // If not force blend, allow blend enable - use CVG bits (bit 3)
pub const OTHER_MODE_Z_COMPARE_EN: u64 = 0x00_0000_0000_0010; // Conditional color write enable on depth comparison (bit 4)
pub const OTHER_MODE_Z_UPDATE_EN: u64 = 0x00_0000_0000_0020; // Enable writing of Z if color write enabled (bit 5)
pub const OTHER_MODE_IMAGE_READ_EN: u64 = 0x00_0000_0000_0040; // Enable color/CVG read/modify/write memory access (bit 6)
pub const OTHER_MODE_COLOR_ON_CVG: u64 = 0x00_0000_0000_0080; // Only update color on coverage overflow (bit 7)
pub const OTHER_MODE_CVG_DEST_CLAMP: u64 = 0x00_0000_0000_0000; // CVG destination clamp (bits 8..9)
pub const OTHER_MODE_CVG_DEST_WRAP: u64 = 0x00_0000_0000_0100; // CVG destination wrap (bits 8..9)
pub const OTHER_MODE_CVG_DEST_ZAP: u64 = 0x00_0000_0000_0200; // CVG destination zap (bits 8..9)
pub const OTHER_MODE_CVG_DEST_SAVE: u64 = 0x00_0000_0000_0300; // CVG destination save (bits 8..9)
pub const OTHER_MODE_Z_MODE_OPAQUE: u64 = 0x00_0000_0000_0000; // Z mode opaque (bits 10..11)
pub const OTHER_MODE_Z_MODE_INTERPENETRATING: u64 = 0x00_0000_0000_0400; // Z mode interpenetrating (bits 10..11)
pub const OTHER_MODE_Z_MODE_TRANSPARENT: u64 = 0x00_0000_0000_0800; // Z mode transparent (bits 10..11)
pub const OTHER_MODE_Z_MODE_DECAL: u64 = 0x00_0000_0000_0C00; // Z mode decal (bits 10..11)
pub const OTHER_MODE_CVG_TIMES_ALPHA: u64 = 0x00_0000_0000_1000; // Use CVG times alpha for pixel alpha and coverage (bit 12)
pub const OTHER_MODE_ALPHA_CVG_SELECT: u64 = 0x00_0000_0000_2000; // Use CVG (or CVG*alpha) for pixel alpha (bit 13)
pub const OTHER_MODE_FORCE_BLEND: u64 = 0x00_0000_0000_4000; // Force blend enable (bit 14)
pub const OTHER_MODE_B_M2B_1_0: u64 = 0x00_0000_0000_0000; // Blend modeword, multiply 2b input select 0, cycle 1 (bits 16..17)
pub const OTHER_MODE_B_M2B_1_1: u64 = 0x00_0000_0001_0000; // Blend modeword, multiply 2b input select 1, cycle 1 (bits 16..17)
pub const OTHER_MODE_B_M2B_1_2: u64 = 0x00_0000_0002_0000; // Blend modeword, multiply 2b input select 2, cycle 1 (bits 16..17)
pub const OTHER_MODE_B_M2B_1_3: u64 = 0x00_0000_0003_0000; // Blend modeword, multiply 2b input select 3, cycle 1 (bits 16..17)
pub const OTHER_MODE_B_M2B_0_0: u64 = 0x00_0000_0000_0000; // Blend modeword, multiply 2b input select 0, cycle 0 (bits 18..19)
pub const OTHER_MODE_B_M2B_0_1: u64 = 0x00_0000_0004_0000; // Blend modeword, multiply 2b input select 1, cycle 0 (bits 18..19)
pub const OTHER_MODE_B_M2B_0_2: u64 = 0x00_0000_0008_0000; // Blend modeword, multiply 2b input select 2, cycle 0 (bits 18..19)
pub const OTHER_MODE_B_M2B_0_3: u64 = 0x00_0000_000C_0000; // Blend modeword, multiply 2b input select 3, cycle 0 (bits 18..19)
pub const OTHER_MODE_B_M2A_1_0: u64 = 0x00_0000_0000_0000; // Blend modeword, multiply 2a input select 0, cycle 1 (bits 20..21)
pub const OTHER_MODE_B_M2A_1_1: u64 = 0x00_0000_0010_0000; // Blend modeword, multiply 2a input select 1, cycle 1 (bits 20..21)
pub const OTHER_MODE_B_M2A_1_2: u64 = 0x00_0000_0020_0000; // Blend modeword, multiply 2a input select 2, cycle 1 (bits 20..21)
pub const OTHER_MODE_B_M2A_1_3: u64 = 0x00_0000_0030_0000; // Blend modeword, multiply 2a input select 3, cycle 1 (bits 20..21)
pub const OTHER_MODE_B_M2A_0_0: u64 = 0x00_0000_0000_0000; // Blend modeword, multiply 2a input select 0, cycle 0 (bits 22..23)
pub const OTHER_MODE_B_M2A_0_1: u64 = 0x00_0000_0040_0000; // Blend modeword, multiply 2a input select 1, cycle 0 (bits 22..23)
pub const OTHER_MODE_B_M2A_0_2: u64 = 0x00_0000_0080_0000; // Blend modeword, multiply 2a input select 2, cycle 0 (bits 22..23)
pub const OTHER_MODE_B_M2A_0_3: u64 = 0x00_0000_00C0_0000; // Blend modeword, multiply 2a input select 3, cycle 0 (bits 22..23)
pub const OTHER_MODE_B_M1B_1_0: u64 = 0x00_0000_0000_0000; // Blend modeword, multiply 1b input select 0, cycle 1 (bits 24..25)
pub const OTHER_MODE_B_M1B_1_1: u64 = 0x00_0000_0100_0000; // Blend modeword, multiply 1b input select 1, cycle 1 (bits 24..25)
pub const OTHER_MODE_B_M1B_1_2: u64 = 0x00_0000_0200_0000; // Blend modeword, multiply 1b input select 2, cycle 1 (bits 24..25)
pub const OTHER_MODE_B_M1B_1_3: u64 = 0x00_0000_0300_0000; // Blend modeword, multiply 1b input select 3, cycle 1 (bits 24..25)
pub const OTHER_MODE_B_M1B_0_0: u64 = 0x00_0000_0000_0000; // Blend modeword, multiply 1b input select 0, cycle 0 (bits 26..27)
pub const OTHER_MODE_B_M1B_0_1: u64 = 0x00_0000_0400_0000; // Blend modeword, multiply 1b input select 1, cycle 0 (bits 26..27)
pub const OTHER_MODE_B_M1B_0_2: u64 = 0x00_0000_0800_0000; // Blend modeword, multiply 1b input select 2, cycle 0 (bits 26..27)
pub const OTHER_MODE_B_M1B_0_3: u64 = 0x00_0000_0C00_0000; // Blend modeword, multiply 1b input select 3, cycle 0 (bits 26..27)
pub const OTHER_MODE_B_M1A_1_0: u64 = 0x00_0000_0000_0000; // Blend modeword, multiply 1a input select 0, cycle 1 (bits 28..29)
pub const OTHER_MODE_B_M1A_1_1: u64 = 0x00_0000_1000_0000; // Blend modeword, multiply 1a input select 1, cycle 1 (bits 28..29)
pub const OTHER_MODE_B_M1A_1_2: u64 = 0x00_0000_2000_0000; // Blend modeword, multiply 1a input select 2, cycle 1 (bits 28..29)
pub const OTHER_MODE_B_M1A_1_3: u64 = 0x00_0000_3000_0000; // Blend modeword, multiply 1a input select 3, cycle 1 (bits 28..29)
pub const OTHER_MODE_B_M1A_0_0: u64 = 0x00_0000_0000_0000; // Blend modeword, multiply 1a input select 0, cycle 0 (bits 30..31)
pub const OTHER_MODE_B_M1A_0_1: u64 = 0x00_0000_4000_0000; // Blend modeword, multiply 1a input select 1, cycle 0 (bits 30..31)
pub const OTHER_MODE_B_M1A_0_2: u64 = 0x00_0000_8000_0000; // Blend modeword, multiply 1a input select 2, cycle 0 (bits 30..31)
pub const OTHER_MODE_B_M1A_0_3: u64 = 0x00_0000_C000_0000; // Blend modeword, multiply 1a input select 3, cycle 0 (bits 30..31)
pub const OTHER_MODE_ALPHA_DITHER_SEL_PATTERN: u64 = 0x00_0000_0000_0000; // Alpha dither selection pattern (bits 36..37)
pub const OTHER_MODE_ALPHA_DITHER_SEL_PATTERNB: u64 = 0x00_0010_0000_0000; // Alpha dither selection ~pattern (bits 36..37)
pub const OTHER_MODE_ALPHA_DITHER_SEL_NOISE: u64 = 0x00_0020_0000_0000; // Alpha dither selection noise (bits 36..37)
pub const OTHER_MODE_ALPHA_DITHER_SEL_NO_DITHER: u64 = 0x00_0030_0000_0000; // Alpha dither selection no dither (bits 36..37)
pub const OTHER_MODE_RGB_DITHER_SEL_MAGIC_SQUARE_MATRIX: u64 = 0x00_0000_0000_0000; // RGB dither selection magic square matrix (bits 38..39)
pub const OTHER_MODE_RGB_DITHER_SEL_STANDARD_BAYER_MATRIX: u64 = 0x00_0040_0000_0000; // RGB dither selection standard Bayer matrix (bits 38..39)
pub const OTHER_MODE_RGB_DITHER_SEL_NOISE: u64 = 0x00_0080_0000_0000; // RGB dither selection noise (bits 38..39)
pub const OTHER_MODE_RGB_DITHER_SEL_NO_DITHER: u64 = 0x00_00C0_0000_0000; // RGB dither selection no dither (bits 38..39)
pub const OTHER_MODE_KEY_EN: u64 = 0x00_0100_0000_0000; // Enables chroma keying (bit 40)
pub const OTHER_MODE_CONVERT_ONE: u64 = 0x00_0200_0000_0000; // Color convert texel that was the output of the texture filter on cycle 0 (bit 41)
pub const OTHER_MODE_BI_LERP_1: u64 = 0x00_0400_0000_0000; // 1=bilerp, 0=color convert operation in texture filter, cycle 1 (bit 42)
pub const OTHER_MODE_BI_LERP_0: u64 = 0x00_0800_0000_0000; // 1=bilerp, 0=color convert operation in texture filter, cycle 0 (bit 43)
pub const OTHER_MODE_MID_TEXEL: u64 = 0x00_1000_0000_0000; // Texture filter does a 2x2 half texel interpolation (bit 44)
pub const OTHER_MODE_SAMPLE_TYPE: u64 = 0x00_2000_0000_0000; // How textures are sampled: 0=1x1 point sample, 1=2x2 (bit 45)
pub const OTHER_MODE_TLUT_TYPE: u64 = 0x00_4000_0000_0000; // Type of texels in table (bit 46)
pub const OTHER_MODE_EN_TLUT: u64 = 0x00_8000_0000_0000; // Enable lookup of texel values from TLUT (bit 47)
pub const OTHER_MODE_TEX_LOD_EN: u64 = 0x01_0000_0000_0000; // Enable texture level of detail (bit 48)
pub const OTHER_MODE_SHARPEN_TEX_EN: u64 = 0x02_0000_0000_0000; // Enable sharpened texture (bit 49)
pub const OTHER_MODE_DETAIL_TEX_EN: u64 = 0x04_0000_0000_0000; // Enable detail texture (bit 50)
pub const OTHER_MODE_PERSP_TEX_EN: u64 = 0x08_0000_0000_0000; // Enable perspective correction on texture (bit 51)
pub const OTHER_MODE_CYCLE_TYPE_1_CYCLE: u64 = 0x00_0000_0000_0000; // Pipeline cycle control mode: 1 cycle (bits 52..53)
pub const OTHER_MODE_CYCLE_TYPE_2_CYCLE: u64 = 0x10_0000_0000_0000; // Pipeline cycle control mode: 2 cycle (bits 52..53)
pub const OTHER_MODE_CYCLE_TYPE_COPY: u64 = 0x20_0000_0000_0000; // Pipeline cycle control mode: copy (bits 52..53)
pub const OTHER_MODE_CYCLE_TYPE_FILL: u64 = 0x30_0000_0000_0000; // Pipeline cycle control mode: fill (bits 52..53)
pub const OTHER_MODE_ATOMIC_PRIM: u64 = 0x80_0000_0000_0000; // Force primitive to be written before read of following primitive (bit 55)

pub const COMMAND_SET_COLOR_IMAGE: u64 = 0xff;
pub const COMMAND_SET_TEXTURE_IMAGE: u64 = 0xfd;
pub const COMMAND_SET_COMBINE_MODE: u64 = 0xfc;
pub const COMMAND_SET_FILL_COLOR: u64 = 0xf7;
pub const COMMAND_FILL_RECTANGLE: u64 = 0xf6;
pub const COMMAND_SET_TILE: u64 = 0xf5;
pub const COMMAND_LOAD_TILE: u64 = 0xf4;
pub const COMMAND_SET_BLEND_COLOR: u64 = 0xf9;
pub const COMMAND_SET_OTHER_MODE: u64 = 0xef;
pub const COMMAND_SET_SCISSOR: u64 = 0xed;
pub const COMMAND_SYNC_FULL: u64 = 0xe9;
pub const COMMAND_SYNC_TILE: u64 = 0xe8;
pub const COMMAND_SYNC_PIPE: u64 = 0xe7;
pub const COMMAND_TEXTURE_RECTANGLE: u64 = 0xe4;
pub const COMMAND_TRIANGLE: u64 = 0x08;

/// Pixel-format tag: RGBA.
pub const FORMAT_RGBA: u64 = 0;

/// Pixel-size tag: 16 bits per pixel.
pub const SIZE_OF_PIXEL_16B: u64 = 2;

/// A coordinate the 10.2 command fields can carry.
pub open spec fn coord_10_2_in_range(f: Fixed) -> bool {
    0 <= f.raw < 1024 * 65536
}

/// Both components of a position fit the 10.2 command fields.
pub open spec fn vec2_10_2_in_range(v: Vec2) -> bool {
    coord_10_2_in_range(v.x) && coord_10_2_in_range(v.y)
}

/// The 12-bit 10.2 field of a coordinate (quarter-pixel units).
pub open spec fn q10_2(f: Fixed) -> u64 {
    (f.value() / 16384) as u64
}

/// Set target surface: opcode, pixel-format and size tags, row width and
/// the device-addressable pointer to the destination pixels.
pub open spec fn encode_set_color_image(format: u64, size: u64, width: u16, image: u32) -> u64 {
    (COMMAND_SET_COLOR_IMAGE << 56) | (format << 53) | (size << 51)
        | (((width - 1) as u64) << 32) | (image as u64)
}

/// Set texture image: source texture base for subsequent tile loads.
pub open spec fn encode_set_texture_image(format: u64, size: u64, width: u16, image: u32) -> u64 {
    (COMMAND_SET_TEXTURE_IMAGE << 56) | (format << 53) | (size << 51)
        | (((width - 1) as u64) << 32) | (image as u64)
}

/// Set scissor: clip rectangle, four 10.2 coordinates.
pub open spec fn encode_set_scissor(top_left: Vec2, bottom_right: Vec2) -> u64 {
    (COMMAND_SET_SCISSOR << 56) | (q10_2(top_left.x) << 44) | (q10_2(top_left.y) << 32)
        | (q10_2(bottom_right.x) << 12) | q10_2(bottom_right.y)
}

/// Set pipeline mode flags: a 56-bit OR-combined flag mask.
pub open spec fn encode_set_other_modes(flags: u64) -> u64 {
    (COMMAND_SET_OTHER_MODE << 56) | (flags & 0x00ff_ffff_ffff_ffff) | 0x0000_000f_0000_0000
}

/// Set fill color: the packed 16-bit color repeated in both halves of the
/// 32-bit fill word.
pub open spec fn encode_set_fill_color(color: Color) -> u64 {
    (COMMAND_SET_FILL_COLOR << 56) | ((color.spec_value() as u64) << 16)
        | (color.spec_value() as u64)
}

/// Set blend color: one 32-bit RGBA8888 constant.
pub open spec fn encode_set_blend_color(color: u32) -> u64 {
    (COMMAND_SET_BLEND_COLOR << 56) | (color as u64)
}

/// Set combine mode: the 16 pixel-pipeline blend-equation selector codes,
/// packed from bit 55 down with field widths 4,5,3,3,4,5,4,4,3,3,3,3,3,3,3,3.
pub open spec fn encode_set_combine_mode(m: Seq<u8>) -> u64 {
    (COMMAND_SET_COMBINE_MODE << 56) | ((m[0] as u64) << 52) | ((m[1] as u64) << 47)
        | ((m[2] as u64) << 44) | ((m[3] as u64) << 41) | ((m[4] as u64) << 37)
        | ((m[5] as u64) << 32) | ((m[6] as u64) << 28) | ((m[7] as u64) << 24)
        | ((m[8] as u64) << 21) | ((m[9] as u64) << 18) | ((m[10] as u64) << 15)
        | ((m[11] as u64) << 12) | ((m[12] as u64) << 9) | ((m[13] as u64) << 6)
        | ((m[14] as u64) << 3) | (m[15] as u64)
}

/// Set tile: configures one on-chip texture-cache region.
pub open spec fn encode_set_tile(
    format: u64,
    size: u64,
    line: u16,
    tmem_addr: u16,
    tile: u8,
    palette: u8,
    clamp_t: u8,
    mask_t: u8,
    shift_t: u8,
    clamp_s: u8,
    mask_s: u8,
    shift_s: u8,
) -> u64 {
    (COMMAND_SET_TILE << 56) | (format << 53) | (size << 51) | ((line as u64) << 41)
        | ((tmem_addr as u64) << 32) | ((tile as u64) << 24) | ((palette as u64) << 20)
        | ((clamp_t as u64) << 18) | ((mask_t as u64) << 14) | ((shift_t as u64) << 10)
        | ((clamp_s as u64) << 8) | ((mask_s as u64) << 4) | (shift_s as u64)
}

/// Load tile: fills a tile from the current texture image; the region is
/// `offset .. offset + size` in 10.2 texel coordinates.
pub open spec fn encode_load_tile(size: Vec2, offset: Vec2, tile: u8) -> u64 {
    (COMMAND_LOAD_TILE << 56) | (q10_2(offset.x) << 44) | (q10_2(offset.y) << 32)
        | ((tile as u64) << 24) | (q10_2(size.x) << 12) | q10_2(size.y)
}

/// Fill rectangle: both corners in 10.2, bottom-right in the high fields.
pub open spec fn encode_fill_rectangle(top_left: Vec2, bottom_right: Vec2) -> u64 {
    (COMMAND_FILL_RECTANGLE << 56) | (q10_2(bottom_right.x) << 44) | (q10_2(bottom_right.y) << 32)
        | (q10_2(top_left.x) << 12) | q10_2(top_left.y)
}

/// Textured rectangle: corners in 10.2 plus the referenced tile; texels
/// come from the window configured by the preceding tile load.
pub open spec fn encode_texture_rectangle(upper_left: Vec2, lower_right: Vec2, tile: u8) -> u64 {
    (COMMAND_TEXTURE_RECTANGLE << 56) | (q10_2(lower_right.x) << 44)
        | (q10_2(lower_right.y) << 32) | ((tile as u64) << 24) | (q10_2(upper_left.x) << 12)
        | q10_2(upper_left.y)
}

/// A synchronization barrier: opcode only, no operands.
pub open spec fn encode_sync(opcode: u64) -> u64 {
    opcode << 56
}

/// First word of the four-word triangle primitive: opcode (with the
/// shade/texture/z-buffer capability bits), fill direction, mip level,
/// tile, and the three sorted Y coordinates in quarter-pixel fields
/// (low at bit 32, mid at bit 16, high at bit 0).
pub open spec fn encode_triangle_head(
    t: TriangleCoefficients,
    shade: bool,
    texture: bool,
    zbuffer: bool,
    level: u8,
    tile: u8,
) -> u64 {
    ((COMMAND_TRIANGLE | (if shade { 4u64 } else { 0u64 }) | (if texture { 2u64 } else { 0u64 })
        | (if zbuffer { 1u64 } else { 0u64 })) << 56)
        | ((if t.right_major { 1u64 } else { 0u64 }) << 55) | ((level as u64) << 51)
        | ((tile as u64) << 48) | (q10_2(t.y_low) << 32) | (q10_2(t.y_mid) << 16)
        | q10_2(t.y_high)
}

/// One edge record of the triangle primitive: anchor X (integer and
/// fraction) in the high half, slope (integer and fraction) in the low.
pub open spec fn encode_edge_word(
    anchor_int: u16,
    anchor_frac: u16,
    slope_int: u16,
    slope_frac: u16,
) -> u64 {
    ((anchor_int as u64) << 48) | ((anchor_frac as u64) << 32) | ((slope_int as u64) << 16)
        | (slope_frac as u64)
}

/// The complete four-word triangle primitive: head word, then the low,
/// mid and high edge records.
pub open spec fn encode_triangle(
    t: TriangleCoefficients,
    shade: bool,
    texture: bool,
    zbuffer: bool,
    level: u8,
    tile: u8,
) -> Seq<u64> {
    seq![
        encode_triangle_head(t, shade, texture, zbuffer, level, tile),
        encode_edge_word(t.low_anchor_int, t.low_anchor_frac, t.low_slope_int, t.low_slope_frac),
        encode_edge_word(t.mid_anchor_int, t.mid_anchor_frac, t.mid_slope_int, t.mid_slope_frac),
        encode_edge_word(
            t.high_anchor_int,
            t.high_anchor_frac,
            t.high_slope_int,
            t.high_slope_frac,
        ),
    ]
}

/// Append-only builder over the command-word sequence of one frame.
pub struct RdpCommandBuilder {
    pub commands: Vec<u64>,
}

impl RdpCommandBuilder {
    pub fn new() -> (r: RdpCommandBuilder)
        ensures
            r.commands@ == Seq::<u64>::empty(),
    {
        RdpCommandBuilder { commands: Vec::new() }
    }

    /// Discards every queued command, keeping the allocation for reuse.
    pub fn clear(&mut self)
        ensures
            final(self).commands@ == Seq::<u64>::empty(),
    {
        self.commands.clear();
    }

    pub fn set_color_image(&mut self, format: u64, size: u64, width: u16, image: u32)
        requires
            format < 8,
            size < 4,
            1 <= width <= 1024,
        ensures
            final(self).commands@ == old(self).commands@.push(
                encode_set_color_image(format, size, width, image),
            ),
    {
        self.commands.push(
            (COMMAND_SET_COLOR_IMAGE << 56) | (format << 53) | (size << 51)
                | (((width - 1) as u64) << 32) | (image as u64),
        );
    }

    pub fn set_texture_image(&mut self, format: u64, size: u64, width: u16, image: u32)
        requires
            format < 8,
            size < 4,
            1 <= width <= 1024,
        ensures
            final(self).commands@ == old(self).commands@.push(
                encode_set_texture_image(format, size, width, image),
            ),
    {
        self.commands.push(
            (COMMAND_SET_TEXTURE_IMAGE << 56) | (format << 53) | (size << 51)
                | (((width - 1) as u64) << 32) | (image as u64),
        );
    }

    pub fn set_scissor(&mut self, top_left: Vec2, bottom_right: Vec2)
        requires
            vec2_10_2_in_range(top_left),
            vec2_10_2_in_range(bottom_right),
        ensures
            final(self).commands@ == old(self).commands@.push(
                encode_set_scissor(top_left, bottom_right),
            ),
    {
        let tx: u64 = to_fixpoint_10_2(top_left.x);
        let ty: u64 = to_fixpoint_10_2(top_left.y);
        let bx: u64 = to_fixpoint_10_2(bottom_right.x);
        let by: u64 = to_fixpoint_10_2(bottom_right.y);
        self.commands.push(
            (COMMAND_SET_SCISSOR << 56) | (tx << 44) | (ty << 32) | (bx << 12) | by,
        );
    }

    pub fn set_other_modes(&mut self, flags: u64)
        ensures
            final(self).commands@ == old(self).commands@.push(encode_set_other_modes(flags)),
    {
        self.commands.push(
            (COMMAND_SET_OTHER_MODE << 56) | (flags & 0x00ff_ffff_ffff_ffff)
                | 0x0000_000f_0000_0000,
        );
    }

    pub fn set_fill_color(&mut self, color: Color)
        ensures
            final(self).commands@ == old(self).commands@.push(encode_set_fill_color(color)),
    {
        let v: u16 = color.value();
        self.commands.push((COMMAND_SET_FILL_COLOR << 56) | ((v as u64) << 16) | (v as u64));
    }

    pub fn set_blend_color(&mut self, color: u32)
        ensures
            final(self).commands@ == old(self).commands@.push(encode_set_blend_color(color)),
    {
        self.commands.push((COMMAND_SET_BLEND_COLOR << 56) | (color as u64));
    }

    pub fn set_combine_mode(&mut self, m: &[u8; 16])
        requires
            m[0] < 16,
            m[1] < 32,
            m[2] < 8,
            m[3] < 8,
            m[4] < 16,
            m[5] < 32,
            m[6] < 16,
            m[7] < 16,
            m[8] < 8,
            m[9] < 8,
            m[10] < 8,
            m[11] < 8,
            m[12] < 8,
            m[13] < 8,
            m[14] < 8,
            m[15] < 8,
        ensures
            final(self).commands@ == old(self).commands@.push(encode_set_combine_mode(m@)),
    {
        self.commands.push(
            (COMMAND_SET_COMBINE_MODE << 56) | ((m[0] as u64) << 52) | ((m[1] as u64) << 47)
                | ((m[2] as u64) << 44) | ((m[3] as u64) << 41) | ((m[4] as u64) << 37)
                | ((m[5] as u64) << 32) | ((m[6] as u64) << 28) | ((m[7] as u64) << 24)
                | ((m[8] as u64) << 21) | ((m[9] as u64) << 18) | ((m[10] as u64) << 15)
                | ((m[11] as u64) << 12) | ((m[12] as u64) << 9) | ((m[13] as u64) << 6)
                | ((m[14] as u64) << 3) | (m[15] as u64),
        );
    }

    pub fn set_tile(
        &mut self,
        format: u64,
        size: u64,
        line: u16,
        tmem_addr: u16,
        tile: u8,
        palette: u8,
        clamp_t: u8,
        mask_t: u8,
        shift_t: u8,
        clamp_s: u8,
        mask_s: u8,
        shift_s: u8,
    )
        requires
            format < 8,
            size < 4,
            line < 512,
            tmem_addr < 512,
            tile < 8,
            palette < 16,
            clamp_t < 4,
            mask_t < 16,
            shift_t < 16,
            clamp_s < 4,
            mask_s < 16,
            shift_s < 16,
        ensures
            final(self).commands@ == old(self).commands@.push(
                encode_set_tile(
                    format,
                    size,
                    line,
                    tmem_addr,
                    tile,
                    palette,
                    clamp_t,
                    mask_t,
                    shift_t,
                    clamp_s,
                    mask_s,
                    shift_s,
                ),
            ),
    {
        self.commands.push(
            (COMMAND_SET_TILE << 56) | (format << 53) | (size << 51) | ((line as u64) << 41)
                | ((tmem_addr as u64) << 32) | ((tile as u64) << 24) | ((palette as u64) << 20)
                | ((clamp_t as u64) << 18) | ((mask_t as u64) << 14) | ((shift_t as u64) << 10)
                | ((clamp_s as u64) << 8) | ((mask_s as u64) << 4) | (shift_s as u64),
        );
    }

    pub fn load_tile(&mut self, size: Vec2, offset: Vec2, tile: u8)
        requires
            vec2_10_2_in_range(size),
            vec2_10_2_in_range(offset),
            tile < 8,
        ensures
            final(self).commands@ == old(self).commands@.push(encode_load_tile(size, offset, tile)),
    {
        let ox: u64 = to_fixpoint_10_2(offset.x);
        let oy: u64 = to_fixpoint_10_2(offset.y);
        let sx: u64 = to_fixpoint_10_2(size.x);
        let sy: u64 = to_fixpoint_10_2(size.y);
        self.commands.push(
            (COMMAND_LOAD_TILE << 56) | (ox << 44) | (oy << 32) | ((tile as u64) << 24)
                | (sx << 12) | sy,
        );
    }

    pub fn fill_rectangle(&mut self, top_left: Vec2, bottom_right: Vec2)
        requires
            vec2_10_2_in_range(top_left),
            vec2_10_2_in_range(bottom_right),
        ensures
            final(self).commands@ == old(self).commands@.push(
                encode_fill_rectangle(top_left, bottom_right),
            ),
    {
        let tx: u64 = to_fixpoint_10_2(top_left.x);
        let ty: u64 = to_fixpoint_10_2(top_left.y);
        let bx: u64 = to_fixpoint_10_2(bottom_right.x);
        let by: u64 = to_fixpoint_10_2(bottom_right.y);
        self.commands.push(
            (COMMAND_FILL_RECTANGLE << 56) | (bx << 44) | (by << 32) | (tx << 12) | ty,
        );
    }

    pub fn texture_rectangle(&mut self, upper_left: Vec2, lower_right: Vec2, tile: u8)
        requires
            vec2_10_2_in_range(upper_left),
            vec2_10_2_in_range(lower_right),
            tile < 8,
        ensures
            final(self).commands@ == old(self).commands@.push(
                encode_texture_rectangle(upper_left, lower_right, tile),
            ),
    {
        let ux: u64 = to_fixpoint_10_2(upper_left.x);
        let uy: u64 = to_fixpoint_10_2(upper_left.y);
        let lx: u64 = to_fixpoint_10_2(lower_right.x);
        let ly: u64 = to_fixpoint_10_2(lower_right.y);
        self.commands.push(
            (COMMAND_TEXTURE_RECTANGLE << 56) | (lx << 44) | (ly << 32) | ((tile as u64) << 24)
                | (ux << 12) | uy,
        );
    }

    /// Emits the encoded triangle-setup output as one four-word primitive.
    pub fn edge_coefficients(
        &mut self,
        t: TriangleCoefficients,
        shade: bool,
        texture: bool,
        zbuffer: bool,
        level: u8,
        tile: u8,
    )
        requires
            level < 16,
            tile < 8,
            coord_10_2_in_range(t.y_low),
            coord_10_2_in_range(t.y_mid),
            coord_10_2_in_range(t.y_high),
        ensures
            final(self).commands@ == old(self).commands@ + encode_triangle(
                t,
                shade,
                texture,
                zbuffer,
                level,
                tile,
            ),
    {
        let yl: u64 = to_fixpoint_10_2(t.y_low);
        let ym: u64 = to_fixpoint_10_2(t.y_mid);
        let yh: u64 = to_fixpoint_10_2(t.y_high);
        let opcode: u64 = COMMAND_TRIANGLE | (if shade { 4u64 } else { 0u64 })
            | (if texture { 2u64 } else { 0u64 }) | (if zbuffer { 1u64 } else { 0u64 });
        self.commands.push(
            (opcode << 56) | ((if t.right_major { 1u64 } else { 0u64 }) << 55)
                | ((level as u64) << 51) | ((tile as u64) << 48) | (yl << 32) | (ym << 16) | yh,
        );
        self.commands.push(
            ((t.low_anchor_int as u64) << 48) | ((t.low_anchor_frac as u64) << 32)
                | ((t.low_slope_int as u64) << 16) | (t.low_slope_frac as u64),
        );
        self.commands.push(
            ((t.mid_anchor_int as u64) << 48) | ((t.mid_anchor_frac as u64) << 32)
                | ((t.mid_slope_int as u64) << 16) | (t.mid_slope_frac as u64),
        );
        self.commands.push(
            ((t.high_anchor_int as u64) << 48) | ((t.high_anchor_frac as u64) << 32)
                | ((t.high_slope_int as u64) << 16) | (t.high_slope_frac as u64),
        );
        proof {
            assert(self.commands@ =~= old(self).commands@ + encode_triangle(
                t,
                shade,
                texture,
                zbuffer,
                level,
                tile,
            ));
        }
    }

    pub fn sync_full(&mut self)
        ensures
            final(self).commands@ == old(self).commands@.push(encode_sync(COMMAND_SYNC_FULL)),
    {
        self.commands.push(COMMAND_SYNC_FULL << 56);
    }

    pub fn sync_pipe(&mut self)
        ensures
            final(self).commands@ == old(self).commands@.push(encode_sync(COMMAND_SYNC_PIPE)),
    {
        self.commands.push(COMMAND_SYNC_PIPE << 56);
    }

    pub fn sync_tile(&mut self)
        ensures
            final(self).commands@ == old(self).commands@.push(encode_sync(COMMAND_SYNC_TILE)),
    {
        self.commands.push(COMMAND_SYNC_TILE << 56);
    }

    /// Consumes the builder, handing over the finished word sequence.
    pub fn build(self) -> (r: Vec<u64>)
        ensures
            r@ == self.commands@,
    {
        self.commands
    }
}

} // verus!
