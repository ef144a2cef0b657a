//! The abstract drawing model shared by both backends.
//!
//! Every frame façade — the hardware command buffer and the alternate
//! batched backend — records the same abstract view: the sequence of
//! [`DrawOp`]s issued since the last clear. The backends' contracts state
//! how each draw call extends this view, so that issuing one call
//! sequence through either backend yields the same abstract drawing, and
//! the draw counters are, by construction, counts over the view.

use vstd::prelude::*;
use crate::color::Color;
use crate::geom::Vec2;
use crate::triangle::TriangleCoefficients;

verus! {

/// The destination surface of one frame: packed 16-bit pixels, row stride
/// equal to the pixel width, at a device-addressable location.
///
/// The device address is produced by the caller's address-space
/// translation seam (virtual to physical, or uncached aliasing); the core
/// never dereferences it.
#[derive(Clone, Copy, PartialEq, Eq, Structural, Debug)]
pub struct Surface {
    /// Width in pixels.
    pub width: u16,
    /// Height in pixels.
    pub height: u16,
    /// Device address of the pixel storage.
    pub image: u32,
}

/// A surface the command stream can address: dimensions within the 10-bit
/// coordinate range.
pub open spec fn surface_ok(s: Surface) -> bool {
    1 <= s.width <= 1024 && 1 <= s.height <= 1024
}

/// An immutable borrowed rectangle of texture pixels, described by its
/// dimensions and its device address. The pixel storage is owned by a
/// texture-asset collaborator and must outlive the draw call.
#[derive(Clone, Copy, PartialEq, Eq, Structural, Debug)]
pub struct TextureDesc {
    /// Width in pixels.
    pub width: u16,
    /// Height in pixels.
    pub height: u16,
    /// Device address of the pixel storage.
    pub image: u32,
}

/// A texture the tile machinery can load: the tile line field is 9 bits.
pub open spec fn texture_ok(t: TextureDesc) -> bool {
    1 <= t.width < 512 && 1 <= t.height < 512
}

/// One abstract drawing operation, as recorded by either backend.
pub enum DrawOp {
    /// Full-screen fill with the background color.
    Clear,
    /// A flat-filled axis-aligned rectangle.
    ColoredRect { upper_left: Vec2, lower_right: Vec2, color: Color },
    /// A textured axis-aligned rectangle; `blend_color` tints the texture,
    /// absence means the unmodified texture color.
    TexturedRect {
        upper_left: Vec2,
        lower_right: Vec2,
        texture: TextureDesc,
        blend_color: Option<u32>,
    },
    /// A flat-filled triangle mesh, already reduced to scan-conversion
    /// coefficients.
    Mesh { triangles: Seq<TriangleCoefficients> },
}

/// The abstract operation recorded by `add_colored_rect`, identical in
/// both backends.
pub open spec fn colored_rect_op(upper_left: Vec2, lower_right: Vec2, color: Color) -> DrawOp {
    DrawOp::ColoredRect { upper_left, lower_right, color }
}

/// The abstract operation recorded by `add_textured_rect`, identical in
/// both backends.
pub open spec fn textured_rect_op(
    upper_left: Vec2,
    lower_right: Vec2,
    texture: TextureDesc,
    blend_color: Option<u32>,
) -> DrawOp {
    DrawOp::TexturedRect { upper_left, lower_right, texture, blend_color }
}

/// 1 for a colored rectangle, else 0.
pub open spec fn op_colored(op: DrawOp) -> int {
    match op {
        DrawOp::ColoredRect { .. } => 1,
        _ => 0,
    }
}

/// 1 for a textured rectangle, else 0.
pub open spec fn op_textured(op: DrawOp) -> int {
    match op {
        DrawOp::TexturedRect { .. } => 1,
        _ => 0,
    }
}

/// 1 for either kind of rectangle call, else 0.
pub open spec fn op_rect(op: DrawOp) -> int {
    op_colored(op) + op_textured(op)
}

/// Number of rectangle draw calls in a view.
pub open spec fn rect_count(ops: Seq<DrawOp>) -> int
    decreases ops.len(),
{
    if ops.len() == 0 {
        0
    } else {
        rect_count(ops.drop_last()) + op_rect(ops.last())
    }
}

/// Number of colored rectangles in a view.
pub open spec fn colored_count(ops: Seq<DrawOp>) -> int
    decreases ops.len(),
{
    if ops.len() == 0 {
        0
    } else {
        colored_count(ops.drop_last()) + op_colored(ops.last())
    }
}

/// Number of textured rectangles in a view.
pub open spec fn textured_count(ops: Seq<DrawOp>) -> int
    decreases ops.len(),
{
    if ops.len() == 0 {
        0
    } else {
        textured_count(ops.drop_last()) + op_textured(ops.last())
    }
}

/// Appending one operation adds its own contribution to each counter.
pub proof fn lemma_counts_push(ops: Seq<DrawOp>, op: DrawOp)
    ensures
        colored_count(ops.push(op)) == colored_count(ops) + op_colored(op),
        textured_count(ops.push(op)) == textured_count(ops) + op_textured(op),
{
    assert(ops.push(op).drop_last() =~= ops);
}

/// The two counters together count exactly the rectangle draw calls in
/// a view — every colored and textured rectangle, and nothing else.
pub proof fn lemma_counters_sum(ops: Seq<DrawOp>)
    ensures
        colored_count(ops) + textured_count(ops) == rect_count(ops),
    decreases ops.len(),
{
    if ops.len() > 0 {
        lemma_counters_sum(ops.drop_last());
    }
}

} // verus!
