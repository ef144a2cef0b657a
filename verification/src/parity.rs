//! Laws relating the two backends and the command encoding.
//!
//! Both backends state their draw calls over the same abstract view
//! (see [`crate::draw`]), so backend equivalence reduces to: the same
//! call appends the same operation to the view. The lemmas here state
//! that, pin down what the hardware encoding of a colored rectangle is
//! — one primitive word, at the fixed-point-rounded pixel bounds — and
//! state the counter law the `run` totals obey.

use vstd::prelude::*;
use crate::color::Color;
use crate::command_buffer::{
    default_combine, encode_op, shrink_corner, surface_corner, COLORED_RECT_MODE_FLAGS,
};
use crate::draw::{
    colored_count, colored_rect_op, lemma_counts_push, surface_ok, textured_count, DrawOp,
    Surface,
};
use crate::fixed::lemma_to_fixpoint_10_2_monotonic;
use crate::geom::Vec2;
use crate::rdp_command_builder::{
    q10_2, COMMAND_FILL_RECTANGLE, COMMAND_SET_COMBINE_MODE, COMMAND_SET_FILL_COLOR,
    COMMAND_SET_OTHER_MODE, COMMAND_SYNC_PIPE,
};

verus! {

/// The opcode byte of a command word.
pub open spec fn opcode_of(w: u64) -> u64 {
    w >> 56
}

/// The 10.2 X coordinate of a rectangle word's first corner (the fill
/// command's top-left).
pub open spec fn rect_low_x(w: u64) -> u64 {
    (w >> 12) & 0xfff
}

/// The 10.2 Y coordinate of a rectangle word's first corner.
pub open spec fn rect_low_y(w: u64) -> u64 {
    w & 0xfff
}

/// The 10.2 X coordinate of a rectangle word's second corner (the fill
/// command's bottom-right).
pub open spec fn rect_high_x(w: u64) -> u64 {
    (w >> 44) & 0xfff
}

/// The 10.2 Y coordinate of a rectangle word's second corner.
pub open spec fn rect_high_y(w: u64) -> u64 {
    (w >> 32) & 0xfff
}

/// For any rectangle at least one pixel wide and tall (`lower_right`
/// strictly greater than `upper_left` on both axes, by a whole pixel),
/// one `add_colored_rect` call emits exactly one fill-rectangle
/// primitive on the hardware backend, and that primitive's decoded
/// corners are the fixed-point-rounded (10.2, quarter-pixel truncated)
/// bounds of the rectangle — a non-empty region.
pub proof fn lemma_colored_rect_primitive(
    upper_left: Vec2,
    lower_right: Vec2,
    color: Color,
    s: Surface,
)
    requires
        0 <= upper_left.x.raw,
        0 <= upper_left.y.raw,
        upper_left.x.raw + 65536 <= lower_right.x.raw < 1024 * 65536,
        upper_left.y.raw + 65536 <= lower_right.y.raw < 1024 * 65536,
    ensures
        ({
            let ws = encode_op(colored_rect_op(upper_left, lower_right, color), s);
            &&& ws.len() == 5
            &&& opcode_of(ws[0]) == COMMAND_SYNC_PIPE
            &&& opcode_of(ws[1]) == COMMAND_SET_OTHER_MODE
            &&& opcode_of(ws[2]) == COMMAND_SET_COMBINE_MODE
            &&& opcode_of(ws[3]) == COMMAND_SET_FILL_COLOR
            &&& opcode_of(ws[4]) == COMMAND_FILL_RECTANGLE
            &&& forall|i: int| 0 <= i < 4 ==> opcode_of(#[trigger] ws[i])
                != COMMAND_FILL_RECTANGLE
            &&& rect_low_x(ws[4]) == q10_2(upper_left.x)
            &&& rect_low_y(ws[4]) == q10_2(upper_left.y)
            &&& rect_high_x(ws[4]) == q10_2(shrink_corner(lower_right).x)
            &&& rect_high_y(ws[4]) == q10_2(shrink_corner(lower_right).y)
            &&& rect_low_x(ws[4]) <= rect_high_x(ws[4])
            &&& rect_low_y(ws[4]) <= rect_high_y(ws[4])
        }),
{
    let ws = encode_op(colored_rect_op(upper_left, lower_right, color), s);
    let tx: u64 = q10_2(upper_left.x);
    let ty: u64 = q10_2(upper_left.y);
    let bx: u64 = q10_2(shrink_corner(lower_right).x);
    let by: u64 = q10_2(shrink_corner(lower_right).y);
    // the sync word
    assert((0xe7u64 << 56) >> 56 == 0xe7) by (bit_vector);
    // the mode word: constant operand fields
    assert(((0xefu64 << 56) | (COLORED_RECT_MODE_FLAGS & 0x00ff_ffff_ffff_ffff)
        | 0x0000_000f_0000_0000u64) >> 56 == 0xef) by (bit_vector);
    // the combine word: the default selector codes are constants
    assert(ws[2] == (0xfcu64 << 56) | (0u64 << 52) | (0u64 << 47) | (0u64 << 44) | (0u64 << 41)
        | (6u64 << 37) | (1u64 << 32) | (0u64 << 28) | (15u64 << 24) | (1u64 << 21) | (0u64
        << 18) | (0u64 << 15) | (0u64 << 12) | (0u64 << 9) | (7u64 << 6) | (7u64 << 3) | 7u64);
    assert(((0xfcu64 << 56) | (0u64 << 52) | (0u64 << 47) | (0u64 << 44) | (0u64 << 41) | (6u64
        << 37) | (1u64 << 32) | (0u64 << 28) | (15u64 << 24) | (1u64 << 21) | (0u64 << 18) | (
    0u64 << 15) | (0u64 << 12) | (0u64 << 9) | (7u64 << 6) | (7u64 << 3) | 7u64) >> 56 == 0xfc)
        by (bit_vector);
    // the fill-color word: a symbolic 16-bit operand
    let cv: u64 = color.spec_value() as u64;
    assert(((0xf7u64 << 56) | (cv << 16) | cv) >> 56 == 0xf7) by (bit_vector)
        requires
            cv < 0x1_0000,
    ;
    // the primitive word: opcode and all four 10.2 fields decode exactly
    assert((((0xf6u64 << 56) | (bx << 44) | (by << 32) | (tx << 12) | ty) >> 56 == 0xf6) && ((((
    0xf6u64 << 56) | (bx << 44) | (by << 32) | (tx << 12) | ty) >> 12) & 0xfff == tx) && (((
    0xf6u64 << 56) | (bx << 44) | (by << 32) | (tx << 12) | ty) & 0xfff == ty) && ((((0xf6u64
        << 56) | (bx << 44) | (by << 32) | (tx << 12) | ty) >> 44) & 0xfff == bx) && ((((0xf6u64
        << 56) | (bx << 44) | (by << 32) | (tx << 12) | ty) >> 32) & 0xfff == by)) by (bit_vector)
        requires
            tx < 4096,
            ty < 4096,
            bx < 4096,
            by < 4096,
    ;
    // the quantized corners stay ordered: quarter-pixel truncation is
    // monotonic, and the shrunken corner is still at or right of the
    // upper-left one
    lemma_to_fixpoint_10_2_monotonic(upper_left.x, shrink_corner(lower_right).x);
    lemma_to_fixpoint_10_2_monotonic(upper_left.y, shrink_corner(lower_right).y);
}

/// The clear operation's fill primitive covers the whole surface: its
/// decoded corners run from the origin to the surface's last pixel.
pub proof fn lemma_clear_covers_surface(s: Surface)
    requires
        surface_ok(s),
    ensures
        ({
            let ws = encode_op(DrawOp::Clear, s);
            &&& ws.len() == 3
            &&& opcode_of(ws[2]) == COMMAND_FILL_RECTANGLE
            &&& rect_low_x(ws[2]) == 0
            &&& rect_low_y(ws[2]) == 0
            &&& rect_high_x(ws[2]) == 4 * (s.width - 1)
            &&& rect_high_y(ws[2]) == 4 * (s.height - 1)
        }),
{
    let ws = encode_op(DrawOp::Clear, s);
    let bx: u64 = q10_2(surface_corner(s).x);
    let by: u64 = q10_2(surface_corner(s).y);
    assert(bx == 4 * (s.width - 1) && by == 4 * (s.height - 1));
    assert((((0xf6u64 << 56) | (bx << 44) | (by << 32) | (0u64 << 12) | 0u64) >> 56 == 0xf6)
        && ((((0xf6u64 << 56) | (bx << 44) | (by << 32) | (0u64 << 12) | 0u64) >> 12) & 0xfff
        == 0) && (((0xf6u64 << 56) | (bx << 44) | (by << 32) | (0u64 << 12) | 0u64) & 0xfff == 0)
        && ((((0xf6u64 << 56) | (bx << 44) | (by << 32) | (0u64 << 12) | 0u64) >> 44) & 0xfff
        == bx) && ((((0xf6u64 << 56) | (bx << 44) | (by << 32) | (0u64 << 12) | 0u64) >> 32)
        & 0xfff == by)) by (bit_vector)
        requires
            bx < 4096,
            by < 4096,
    ;
    assert(ws[2] == (0xf6u64 << 56) | (bx << 44) | (by << 32) | (0u64 << 12) | 0u64);
}

/// Both backends record the identical abstract operation for the same
/// colored-rectangle call: from equal views, the views after the call
/// are again equal, its colored count rises by exactly one on each, and
/// its textured count is unchanged.
pub proof fn lemma_colored_rect_backend_parity(
    view_hw: Seq<DrawOp>,
    view_emu: Seq<DrawOp>,
    upper_left: Vec2,
    lower_right: Vec2,
    color: Color,
)
    requires
        view_hw == view_emu,
    ensures
        view_hw.push(colored_rect_op(upper_left, lower_right, color)) == view_emu.push(
            colored_rect_op(upper_left, lower_right, color),
        ),
        colored_count(view_hw.push(colored_rect_op(upper_left, lower_right, color)))
            == colored_count(view_hw) + 1,
        textured_count(view_hw.push(colored_rect_op(upper_left, lower_right, color)))
            == textured_count(view_hw),
{
    lemma_counts_push(view_hw, colored_rect_op(upper_left, lower_right, color));
}

} // verus!
