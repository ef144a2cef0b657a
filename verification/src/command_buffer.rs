//! Per-frame drawing façade over the hardware command encoder.
//!
//! A [`CommandBuffer`] is constructed fresh each frame around the
//! persistent [`CommandBufferCache`], emits the target-surface and
//! scissor setup, records draw calls as encoded command words, and is
//! consumed exactly once by [`CommandBuffer::run`], which finalizes the
//! stream with a full sync and returns the frame's draw-call counters
//! together with the cache. The caller then swaps the finished word
//! sequence with the coprocessor's in-flight buffer
//! ([`CommandBufferCache::swap_commands`]) and signals execution.
//!
//! Besides the exact word stream, the buffer maintains the abstract view
//! of the frame (see [`crate::draw`]): the sequence of [`DrawOp`]s issued
//! since the last clear. The well-formedness invariant ties the word
//! stream to the complete operation history, so the encoding of every
//! draw call is pinned down, and the counters returned by `run` equal the
//! counts over the view — that is, the number of `add_colored_rect` and
//! `add_textured_rect` calls since the last clear.

use vstd::prelude::*;
use crate::color::Color;
use crate::draw::{
    colored_count, colored_rect_op, lemma_counters_sum, lemma_counts_push, rect_count,
    surface_ok, textured_count, textured_rect_op, texture_ok, DrawOp, Surface, TextureDesc,
};
use crate::error::GfxError;
use crate::fixed::Fixed;
use crate::geom::{Vec2, Vec3};
use crate::rdp_command_builder::{
    encode_fill_rectangle, encode_load_tile, encode_set_blend_color, encode_set_color_image,
    encode_set_combine_mode, encode_set_fill_color, encode_set_other_modes, encode_set_scissor,
    encode_set_texture_image, encode_set_tile, encode_sync, encode_texture_rectangle,
    encode_triangle, RdpCommandBuilder, COMMAND_SYNC_FULL, COMMAND_SYNC_PIPE, COMMAND_SYNC_TILE,
    FORMAT_RGBA, OTHER_MODE_ALPHA_DITHER_SEL_NO_DITHER, OTHER_MODE_BI_LERP_0,
    OTHER_MODE_B_M1A_0_2, OTHER_MODE_B_M2A_0_1, OTHER_MODE_CYCLE_TYPE_1_CYCLE,
    OTHER_MODE_CYCLE_TYPE_2_CYCLE, OTHER_MODE_CYCLE_TYPE_COPY, OTHER_MODE_CYCLE_TYPE_FILL,
    OTHER_MODE_FORCE_BLEND, OTHER_MODE_IMAGE_READ_EN, OTHER_MODE_RGB_DITHER_SEL_NO_DITHER,
    OTHER_MODE_SAMPLE_TYPE, SIZE_OF_PIXEL_16B,
};
use crate::triangle::{
    lemma_sort3_sorted, setup_ok, setup_triangle, tri_coeffs, vertex_in_range,
    TriangleCoefficients,
};

verus! {

/// Pipeline flags of the full-screen clear fill.
pub const CLEAR_MODE_FLAGS: u64 = OTHER_MODE_CYCLE_TYPE_FILL | OTHER_MODE_CYCLE_TYPE_COPY
    | OTHER_MODE_CYCLE_TYPE_2_CYCLE | OTHER_MODE_RGB_DITHER_SEL_NO_DITHER
    | OTHER_MODE_ALPHA_DITHER_SEL_NO_DITHER | OTHER_MODE_FORCE_BLEND;

/// Pipeline flags of a flat-filled rectangle.
pub const COLORED_RECT_MODE_FLAGS: u64 = OTHER_MODE_CYCLE_TYPE_FILL | OTHER_MODE_CYCLE_TYPE_COPY
    | OTHER_MODE_CYCLE_TYPE_1_CYCLE | OTHER_MODE_RGB_DITHER_SEL_NO_DITHER
    | OTHER_MODE_ALPHA_DITHER_SEL_NO_DITHER | OTHER_MODE_FORCE_BLEND;

/// Pipeline flags of a textured rectangle without a blend color.
pub const TEXTURED_RECT_MODE_FLAGS: u64 = OTHER_MODE_SAMPLE_TYPE | OTHER_MODE_BI_LERP_0
    | OTHER_MODE_ALPHA_DITHER_SEL_NO_DITHER | OTHER_MODE_B_M2A_0_1 | OTHER_MODE_FORCE_BLEND
    | OTHER_MODE_IMAGE_READ_EN;

/// Packed value of the designated background color of `clear` (opaque
/// black).
pub const BACKGROUND_COLOR_VALUE: u16 = 0b00000_00000_00000_1;

/// Packed value of the flat fill color used for mesh triangles.
pub const MESH_COLOR_VALUE: u16 = 0b10000_00011_00011_1;

/// Pipeline flags of a textured rectangle: the blend-color multiplier is
/// selected only when a blend color is supplied.
pub open spec fn textured_mode_flags(blend_color: Option<u32>) -> u64 {
    TEXTURED_RECT_MODE_FLAGS | (if blend_color is Some {
        OTHER_MODE_B_M1A_0_2
    } else {
        0
    })
}

/// The default combine-mode selector codes installed at frame start.
pub open spec fn default_combine() -> Seq<u8> {
    seq![0u8, 0, 0, 0, 6, 1, 0, 15, 1, 0, 0, 0, 0, 7, 7, 7]
}

/// The screen-space origin.
pub open spec fn vec2_zero() -> Vec2 {
    Vec2 { x: Fixed { raw: 0 }, y: Fixed { raw: 0 } }
}

/// The bottom-right pixel of the surface, `(width - 1, height - 1)`.
pub open spec fn surface_corner(s: Surface) -> Vec2 {
    Vec2 {
        x: Fixed { raw: (((s.width - 1) * 65536) as i32) },
        y: Fixed { raw: (((s.height - 1) * 65536) as i32) },
    }
}

/// One pixel up and left: the exclusive lower-right rectangle corner
/// turned into the inclusive corner the fill command takes.
pub open spec fn shrink_corner(v: Vec2) -> Vec2 {
    Vec2 { x: Fixed { raw: ((v.x.raw - 65536) as i32) }, y: Fixed { raw: ((v.y.raw - 65536) as i32) } }
}

/// The frame-setup words emitted at buffer creation: target surface,
/// full-viewport scissor, default combine mode.
pub open spec fn new_frame_words(s: Surface) -> Seq<u64> {
    seq![
        encode_set_color_image(FORMAT_RGBA, SIZE_OF_PIXEL_16B, s.width, s.image),
        encode_set_scissor(vec2_zero(), surface_corner(s)),
        encode_set_combine_mode(default_combine()),
    ]
}

/// The four-word primitives of a mesh's triangles, in order.
pub open spec fn tri_words(tris: Seq<TriangleCoefficients>) -> Seq<u64>
    decreases tris.len(),
{
    if tris.len() == 0 {
        Seq::<u64>::empty()
    } else {
        tri_words(tris.drop_last()) + encode_triangle(tris.last(), false, false, false, 0, 0)
    }
}

/// The exact command words the hardware backend emits for one abstract
/// drawing operation.
pub open spec fn encode_op(op: DrawOp, s: Surface) -> Seq<u64> {
    match op {
        DrawOp::Clear => seq![
            encode_set_other_modes(CLEAR_MODE_FLAGS),
            encode_set_fill_color(Color { value: BACKGROUND_COLOR_VALUE }),
            encode_fill_rectangle(vec2_zero(), surface_corner(s)),
        ],
        DrawOp::ColoredRect { upper_left, lower_right, color } => seq![
            encode_sync(COMMAND_SYNC_PIPE),
            encode_set_other_modes(COLORED_RECT_MODE_FLAGS),
            encode_set_combine_mode(default_combine()),
            encode_set_fill_color(color),
            encode_fill_rectangle(upper_left, shrink_corner(lower_right)),
        ],
        DrawOp::TexturedRect { upper_left, lower_right, texture, blend_color } => seq![
            encode_sync(COMMAND_SYNC_TILE),
            encode_set_other_modes(textured_mode_flags(blend_color)),
        ] + (match blend_color {
            Some(bc) => seq![encode_set_blend_color(bc)],
            None => Seq::<u64>::empty(),
        }) + seq![
            encode_set_texture_image(FORMAT_RGBA, SIZE_OF_PIXEL_16B, texture.width, texture.image),
            encode_set_tile(
                FORMAT_RGBA,
                SIZE_OF_PIXEL_16B,
                texture.width,
                0,
                0,
                0,
                0,
                0,
                0,
                0,
                0,
                0,
            ),
            encode_load_tile(
                Vec2 {
                    x: Fixed { raw: ((texture.width * 65536) as i32) },
                    y: Fixed { raw: ((texture.height * 65536) as i32) },
                },
                vec2_zero(),
                0,
            ),
            encode_texture_rectangle(upper_left, lower_right, 0),
        ],
        DrawOp::Mesh { triangles } => seq![
            encode_set_fill_color(Color { value: MESH_COLOR_VALUE }),
            encode_set_other_modes(OTHER_MODE_CYCLE_TYPE_FILL),
        ] + tri_words(triangles),
    }
}

/// The words of a whole operation history, in order.
pub open spec fn ops_words(ops: Seq<DrawOp>, s: Surface) -> Seq<u64>
    decreases ops.len(),
{
    if ops.len() == 0 {
        Seq::<u64>::empty()
    } else {
        ops_words(ops.drop_last(), s) + encode_op(ops.last(), s)
    }
}

/// Appending one operation appends exactly its encoding.
pub proof fn lemma_ops_words_push(ops: Seq<DrawOp>, op: DrawOp, s: Surface)
    ensures
        ops_words(ops.push(op), s) == ops_words(ops, s) + encode_op(op, s),
{
    assert(ops.push(op).drop_last() =~= ops);
}

/// Clamp into the device window, `[0, 128]` pixels in raw units.
pub open spec fn clamp_window(v: int) -> int {
    if v < 0 {
        0
    } else if v > 0x80_0000 {
        0x80_0000
    } else {
        v
    }
}

/// The fixed screen-space window transform applied to mesh vertices:
/// `4 * clamp(15 * (1 + c), 0, 128)` pixels, scale-and-clamp into the
/// device's coordinate range.
pub open spec fn window_coord(c: int) -> int {
    4 * clamp_window(15 * (c + 65536))
}

/// The window transform on both position components; `z` is kept.
pub open spec fn window_vertex(v: Vec3) -> Vec3 {
    Vec3 {
        x: Fixed { raw: window_coord(v.x.value()) as i32 },
        y: Fixed { raw: window_coord(v.y.value()) as i32 },
        z: v.z,
    }
}

/// Applies the screen-space window transform to one mesh vertex.
pub fn transform_to_window(v: Vec3) -> (r: Vec3)
    ensures
        r == window_vertex(v),
        0 <= r.x.raw <= 0x200_0000,
        0 <= r.y.raw <= 0x200_0000,
        vertex_in_range(r),
{
    let tx: i64 = 15 * (v.x.raw as i64 + 65536);
    let ty: i64 = 15 * (v.y.raw as i64 + 65536);
    let cx: i64 = if tx < 0 { 0 } else if tx > 0x80_0000 { 0x80_0000 } else { tx };
    let cy: i64 = if ty < 0 { 0 } else if ty > 0x80_0000 { 0x80_0000 } else { ty };
    Vec3 { x: Fixed { raw: (4 * cx) as i32 }, y: Fixed { raw: (4 * cy) as i32 }, z: v.z }
}

/// The triple at `idx` has a representable scan-conversion setup after
/// the window transform.
pub open spec fn mesh_tri_ok(verts: Seq<Vec3>, idx: [u8; 3]) -> bool {
    setup_ok(
        window_vertex(verts[idx[0] as int]),
        window_vertex(verts[idx[1] as int]),
        window_vertex(verts[idx[2] as int]),
    )
}

/// Every index triple of the mesh is representable.
pub open spec fn mesh_ok(verts: Seq<Vec3>, indices: Seq<[u8; 3]>) -> bool {
    forall|i: int| 0 <= i < indices.len() ==> mesh_tri_ok(verts, #[trigger] indices[i])
}

/// The scan-conversion coefficients of the mesh's triangles, in order.
pub open spec fn mesh_triangles(verts: Seq<Vec3>, indices: Seq<[u8; 3]>) -> Seq<
    TriangleCoefficients,
>
    decreases indices.len(),
{
    if indices.len() == 0 {
        Seq::<TriangleCoefficients>::empty()
    } else {
        mesh_triangles(verts, indices.drop_last()).push(
            tri_coeffs(
                window_vertex(verts[indices.last()[0] as int]),
                window_vertex(verts[indices.last()[1] as int]),
                window_vertex(verts[indices.last()[2] as int]),
            ),
        )
    }
}

/// The abstract operation recorded by `add_mesh_indexed`.
pub open spec fn mesh_op(verts: Seq<Vec3>, indices: Seq<[u8; 3]>) -> DrawOp {
    DrawOp::Mesh { triangles: mesh_triangles(verts, indices) }
}

/// Appending one triangle appends exactly its four-word primitive.
pub proof fn lemma_tri_words_push(tris: Seq<TriangleCoefficients>, t: TriangleCoefficients)
    ensures
        tri_words(tris.push(t)) == tri_words(tris) + encode_triangle(t, false, false, false, 0, 0),
{
    assert(tris.push(t).drop_last() =~= tris);
}

/// The persistent half of the drawing state: the command-word buffer,
/// reused frame to frame to avoid reallocation, and double-buffered
/// against the coprocessor's in-flight sequence.
pub struct CommandBufferCache {
    pub rdp: RdpCommandBuilder,
}

impl CommandBufferCache {
    pub fn new() -> (r: CommandBufferCache)
        ensures
            r.rdp.commands@ == Seq::<u64>::empty(),
    {
        CommandBufferCache { rdp: RdpCommandBuilder::new() }
    }

    /// The double-buffer swap: installs `replacement` (the coprocessor's
    /// drained buffer) as the working storage and hands back the finished
    /// word sequence for dispatch.
    pub fn swap_commands(&mut self, replacement: Vec<u64>) -> (r: Vec<u64>)
        ensures
            r@ == old(self).rdp.commands@,
            final(self).rdp.commands@ == replacement@,
    {
        let mut replacement = replacement;
        core::mem::swap(&mut self.rdp.commands, &mut replacement);
        replacement
    }
}

/// The per-frame drawing façade of the hardware backend.
pub struct CommandBuffer {
    surface: Surface,
    colored_rect_count: u32,
    textured_rect_count: u32,
    cache: CommandBufferCache,
    history: Ghost<Seq<DrawOp>>,
    frame: Ghost<Seq<DrawOp>>,
}

impl CommandBuffer {
    /// The output surface this frame draws to.
    pub closed spec fn spec_surface(self) -> Surface {
        self.surface
    }

    /// The abstract view: operations issued since the last clear (or
    /// since creation).
    pub closed spec fn view_frame(self) -> Seq<DrawOp> {
        self.frame@
    }

    /// Every operation issued since creation, clears included.
    pub closed spec fn view_history(self) -> Seq<DrawOp> {
        self.history@
    }

    /// The command words queued so far.
    pub closed spec fn words(self) -> Seq<u64> {
        self.cache.rdp.commands@
    }

    /// Well-formedness: the word stream is exactly the frame setup
    /// followed by the encoding of the complete operation history, and
    /// the counters count the view since the last clear.
    pub closed spec fn wf(self) -> bool {
        &&& surface_ok(self.surface)
        &&& self.cache.rdp.commands@ == new_frame_words(self.surface) + ops_words(
            self.history@,
            self.surface,
        )
        &&& self.colored_rect_count == colored_count(self.frame@)
        &&& self.textured_rect_count == textured_count(self.frame@)
        &&& self.colored_rect_count <= 0x7fff_ffff
        &&& self.textured_rect_count <= 0x7fff_ffff
    }

    /// Starts a frame: resets the cache's working buffer and emits the
    /// target-surface, full-viewport-scissor and default-combine setup.
    pub fn new(out_tex: Surface, cache: CommandBufferCache) -> (r: CommandBuffer)
        requires
            surface_ok(out_tex),
        ensures
            r.wf(),
            r.spec_surface() == out_tex,
            r.view_frame() == Seq::<DrawOp>::empty(),
            r.view_history() == Seq::<DrawOp>::empty(),
            r.words() == new_frame_words(out_tex),
    {
        let mut cache = cache;
        cache.rdp.clear();
        cache.rdp.set_color_image(FORMAT_RGBA, SIZE_OF_PIXEL_16B, out_tex.width, out_tex.image);
        cache.rdp.set_scissor(
            Vec2::zero(),
            Vec2::new(
                Fixed::from_int((out_tex.width - 1) as i16),
                Fixed::from_int((out_tex.height - 1) as i16),
            ),
        );
        let modes: [u8; 16] = [0, 0, 0, 0, 6, 1, 0, 15, 1, 0, 0, 0, 0, 7, 7, 7];
        cache.rdp.set_combine_mode(&modes);
        proof {
            assert(modes@ =~= default_combine());
            assert(cache.rdp.commands@ =~= new_frame_words(out_tex) + ops_words(
                Seq::<DrawOp>::empty(),
                out_tex,
            ));
        }
        CommandBuffer {
            surface: out_tex,
            colored_rect_count: 0,
            textured_rect_count: 0,
            cache,
            history: Ghost(Seq::empty()),
            frame: Ghost(Seq::empty()),
        }
    }

    /// Emits a full-screen fill with the background color and starts the
    /// frame's view afresh: the counters reset, and everything drawn
    /// before is painted over.
    pub fn clear(&mut self)
        requires
            old(self).wf(),
        ensures
            final(self).wf(),
            final(self).spec_surface() == old(self).spec_surface(),
            final(self).view_frame() == Seq::<DrawOp>::empty(),
            final(self).view_history() == old(self).view_history().push(DrawOp::Clear),
            final(self).words() == old(self).words() + encode_op(
                DrawOp::Clear,
                old(self).spec_surface(),
            ),
    {
        self.cache.rdp.set_other_modes(CLEAR_MODE_FLAGS);
        self.cache.rdp.set_fill_color(Color::new(BACKGROUND_COLOR_VALUE));
        self.cache.rdp.fill_rectangle(
            Vec2::zero(),
            Vec2::new(
                Fixed::from_int((self.surface.width - 1) as i16),
                Fixed::from_int((self.surface.height - 1) as i16),
            ),
        );
        self.colored_rect_count = 0;
        self.textured_rect_count = 0;
        proof {
            lemma_ops_words_push(self.history@, DrawOp::Clear, self.surface);
        }
        self.history = Ghost(self.history@.push(DrawOp::Clear));
        self.frame = Ghost(Seq::empty());
        proof {
            assert(self.cache.rdp.commands@ =~= new_frame_words(self.surface) + ops_words(
                self.history@,
                self.surface,
            ));
            assert(final(self).words() =~= old(self).words() + encode_op(
                DrawOp::Clear,
                old(self).spec_surface(),
            ));
        }
    }

    /// Queues a flat-filled rectangle covering `upper_left` (inclusive)
    /// to `lower_right` (exclusive), and counts it.
    pub fn add_colored_rect(&mut self, upper_left: Vec2, lower_right: Vec2, color: Color)
        requires
            old(self).wf(),
            0 <= upper_left.x.raw < 1024 * 65536,
            0 <= upper_left.y.raw < 1024 * 65536,
            65536 <= lower_right.x.raw < 1024 * 65536,
            65536 <= lower_right.y.raw < 1024 * 65536,
            colored_count(old(self).view_frame()) < 0x7fff_ffff,
        ensures
            final(self).wf(),
            final(self).spec_surface() == old(self).spec_surface(),
            final(self).view_frame() == old(self).view_frame().push(
                colored_rect_op(upper_left, lower_right, color),
            ),
            final(self).view_history() == old(self).view_history().push(
                colored_rect_op(upper_left, lower_right, color),
            ),
            final(self).words() == old(self).words() + encode_op(
                colored_rect_op(upper_left, lower_right, color),
                old(self).spec_surface(),
            ),
            colored_count(final(self).view_frame()) == colored_count(old(self).view_frame()) + 1,
            textured_count(final(self).view_frame()) == textured_count(old(self).view_frame()),
    {
        self.colored_rect_count = self.colored_rect_count + 1;
        self.cache.rdp.sync_pipe();
        self.cache.rdp.set_other_modes(COLORED_RECT_MODE_FLAGS);
        let modes: [u8; 16] = [0, 0, 0, 0, 6, 1, 0, 15, 1, 0, 0, 0, 0, 7, 7, 7];
        self.cache.rdp.set_combine_mode(&modes);
        self.cache.rdp.set_fill_color(color);
        self.cache.rdp.fill_rectangle(
            upper_left,
            Vec2::new(
                Fixed::from_raw(lower_right.x.raw - 65536),
                Fixed::from_raw(lower_right.y.raw - 65536),
            ),
        );
        proof {
            assert(modes@ =~= default_combine());
            let op = colored_rect_op(upper_left, lower_right, color);
            lemma_ops_words_push(self.history@, op, self.surface);
            lemma_counts_push(self.frame@, op);
        }
        self.history = Ghost(self.history@.push(colored_rect_op(upper_left, lower_right, color)));
        self.frame = Ghost(self.frame@.push(colored_rect_op(upper_left, lower_right, color)));
        proof {
            assert(self.cache.rdp.commands@ =~= new_frame_words(self.surface) + ops_words(
                self.history@,
                self.surface,
            ));
            assert(final(self).words() =~= old(self).words() + encode_op(
                colored_rect_op(upper_left, lower_right, color),
                old(self).spec_surface(),
            ));
        }
    }

    /// Queues a textured rectangle: synchronizes the tile cache, loads
    /// the texture into tile 0 and references it; an optional blend color
    /// tints the texture.
    pub fn add_textured_rect(
        &mut self,
        upper_left: Vec2,
        lower_right: Vec2,
        texture: TextureDesc,
        blend_color: Option<u32>,
    )
        requires
            old(self).wf(),
            0 <= upper_left.x.raw < 1024 * 65536,
            0 <= upper_left.y.raw < 1024 * 65536,
            0 <= lower_right.x.raw < 1024 * 65536,
            0 <= lower_right.y.raw < 1024 * 65536,
            texture_ok(texture),
            textured_count(old(self).view_frame()) < 0x7fff_ffff,
        ensures
            final(self).wf(),
            final(self).spec_surface() == old(self).spec_surface(),
            final(self).view_frame() == old(self).view_frame().push(
                textured_rect_op(upper_left, lower_right, texture, blend_color),
            ),
            final(self).view_history() == old(self).view_history().push(
                textured_rect_op(upper_left, lower_right, texture, blend_color),
            ),
            final(self).words() == old(self).words() + encode_op(
                textured_rect_op(upper_left, lower_right, texture, blend_color),
                old(self).spec_surface(),
            ),
            textured_count(final(self).view_frame()) == textured_count(old(self).view_frame()) + 1,
            colored_count(final(self).view_frame()) == colored_count(old(self).view_frame()),
    {
        self.textured_rect_count = self.textured_rect_count + 1;
        self.cache.rdp.sync_tile();
        match blend_color {
            Some(bc) => {
                self.cache.rdp.set_other_modes(
                    TEXTURED_RECT_MODE_FLAGS | OTHER_MODE_B_M1A_0_2,
                );
                self.cache.rdp.set_blend_color(bc);
            },
            None => {
                self.cache.rdp.set_other_modes(TEXTURED_RECT_MODE_FLAGS | 0);
            },
        }
        self.cache.rdp.set_texture_image(
            FORMAT_RGBA,
            SIZE_OF_PIXEL_16B,
            texture.width,
            texture.image,
        );
        self.cache.rdp.set_tile(
            FORMAT_RGBA,
            SIZE_OF_PIXEL_16B,
            texture.width,
            0,
            0,
            0,
            0,
            0,
            0,
            0,
            0,
            0,
        );
        self.cache.rdp.load_tile(
            Vec2::new(
                Fixed::from_int(texture.width as i16),
                Fixed::from_int(texture.height as i16),
            ),
            Vec2::zero(),
            0,
        );
        self.cache.rdp.texture_rectangle(upper_left, lower_right, 0);
        proof {
            let op = textured_rect_op(upper_left, lower_right, texture, blend_color);
            lemma_ops_words_push(self.history@, op, self.surface);
            lemma_counts_push(self.frame@, op);
        }
        self.history = Ghost(
            self.history@.push(textured_rect_op(upper_left, lower_right, texture, blend_color)),
        );
        self.frame = Ghost(
            self.frame@.push(textured_rect_op(upper_left, lower_right, texture, blend_color)),
        );
        proof {
            assert(self.cache.rdp.commands@ =~= new_frame_words(self.surface) + ops_words(
                self.history@,
                self.surface,
            ));
            assert(final(self).words() =~= old(self).words() + encode_op(
                textured_rect_op(upper_left, lower_right, texture, blend_color),
                old(self).spec_surface(),
            ));
        }
    }

    /// Queues a flat-filled triangle mesh: transforms each indexed
    /// vertex triple into the fixed screen-space window, sorts it and
    /// emits its scan-conversion coefficients through the fill-color
    /// path (no per-vertex interpolation). The UV, per-vertex-color and
    /// texture arguments are accepted for forward compatibility and do
    /// not influence the baseline flat-fill output. If any triple is
    /// degenerate (shared Y after transform, or an unrepresentable slope
    /// or anchor), the whole mesh is rejected and nothing is emitted.
    /// Mesh primitives do not move the rectangle counters.
    pub fn add_mesh_indexed(
        &mut self,
        verts: &Vec<Vec3>,
        _uvs: &Vec<Vec2>,
        _colors: &Vec<u32>,
        indices: &Vec<[u8; 3]>,
        _texture: Option<TextureDesc>,
    ) -> (r: Result<(), GfxError>)
        requires
            old(self).wf(),
            forall|i: int| 0 <= i < indices@.len() ==> (#[trigger] indices@[i])[0]
                < verts@.len() && indices@[i][1] < verts@.len() && indices@[i][2] < verts@.len(),
        ensures
            mesh_ok(verts@, indices@) ==> {
                &&& r == Ok::<(), GfxError>(())
                &&& final(self).wf()
                &&& final(self).spec_surface() == old(self).spec_surface()
                &&& final(self).view_frame() == old(self).view_frame().push(
                    mesh_op(verts@, indices@),
                )
                &&& final(self).view_history() == old(self).view_history().push(
                    mesh_op(verts@, indices@),
                )
                &&& final(self).words() == old(self).words() + encode_op(
                    mesh_op(verts@, indices@),
                    old(self).spec_surface(),
                )
                &&& colored_count(final(self).view_frame()) == colored_count(
                    old(self).view_frame(),
                )
                &&& textured_count(final(self).view_frame()) == textured_count(
                    old(self).view_frame(),
                )
            },
            !mesh_ok(verts@, indices@) ==> r == Err::<(), GfxError>(GfxError::DegenerateGeometry)
                && *final(self) == *old(self),
    {
        let mut tris: Vec<TriangleCoefficients> = Vec::new();
        let mut i: usize = 0;
        while i < indices.len()
            invariant
                *self == *old(self),
                old(self).wf(),
                forall|j: int| 0 <= j < indices@.len() ==> (#[trigger] indices@[j])[0]
                    < verts@.len() && indices@[j][1] < verts@.len() && indices@[j][2]
                    < verts@.len(),
                0 <= i <= indices@.len(),
                tris@ == mesh_triangles(verts@, indices@.take(i as int)),
                forall|j: int| 0 <= j < i ==> mesh_tri_ok(verts@, #[trigger] indices@[j]),
                forall|j: int|
                    0 <= j < tris@.len() ==> {
                        &&& 0 <= (#[trigger] tris@[j]).y_low.raw <= 0x200_0000
                        &&& 0 <= tris@[j].y_mid.raw <= 0x200_0000
                        &&& 0 <= tris@[j].y_high.raw <= 0x200_0000
                    },
            decreases indices@.len() - i,
        {
            let idx: [u8; 3] = indices[i];
            let a: Vec3 = transform_to_window(verts[idx[0] as usize]);
            let b: Vec3 = transform_to_window(verts[idx[1] as usize]);
            let c: Vec3 = transform_to_window(verts[idx[2] as usize]);
            match setup_triangle(a, b, c) {
                Ok(tc) => {
                    proof {
                        lemma_sort3_sorted(a, b, c);
                        assert(indices@.take(i + 1).drop_last() =~= indices@.take(i as int));
                    }
                    tris.push(tc);
                },
                Err(_) => {
                    proof {
                        assert(!mesh_tri_ok(verts@, indices@[i as int]));
                    }
                    return Err(GfxError::DegenerateGeometry);
                },
            }
            i = i + 1;
        }
        proof {
            assert(indices@.take(indices@.len() as int) =~= indices@);
        }
        self.cache.rdp.set_fill_color(Color::new(MESH_COLOR_VALUE));
        self.cache.rdp.set_other_modes(OTHER_MODE_CYCLE_TYPE_FILL);
        let ghost words_before: Seq<u64> = old(self).cache.rdp.commands@;
        let ghost prelude: Seq<u64> = seq![
            encode_set_fill_color(Color { value: MESH_COLOR_VALUE }),
            encode_set_other_modes(OTHER_MODE_CYCLE_TYPE_FILL),
        ];
        let mut k: usize = 0;
        while k < tris.len()
            invariant
                0 <= k <= tris@.len(),
                self.surface == old(self).surface,
                self.colored_rect_count == old(self).colored_rect_count,
                self.textured_rect_count == old(self).textured_rect_count,
                self.history == old(self).history,
                self.frame == old(self).frame,
                old(self).wf(),
                words_before == old(self).cache.rdp.commands@,
                prelude == seq![
                    encode_set_fill_color(Color { value: MESH_COLOR_VALUE }),
                    encode_set_other_modes(OTHER_MODE_CYCLE_TYPE_FILL),
                ],
                self.cache.rdp.commands@ == words_before + prelude + tri_words(
                    tris@.take(k as int),
                ),
                tris@ == mesh_triangles(verts@, indices@),
                forall|j: int|
                    0 <= j < tris@.len() ==> {
                        &&& 0 <= (#[trigger] tris@[j]).y_low.raw <= 0x200_0000
                        &&& 0 <= tris@[j].y_mid.raw <= 0x200_0000
                        &&& 0 <= tris@[j].y_high.raw <= 0x200_0000
                    },
            decreases tris@.len() - k,
        {
            let tc: TriangleCoefficients = tris[k];
            self.cache.rdp.edge_coefficients(tc, false, false, false, 0, 0);
            proof {
                assert(tris@.take(k + 1).drop_last() =~= tris@.take(k as int));
                assert(self.cache.rdp.commands@ =~= words_before + prelude + tri_words(
                    tris@.take(k + 1),
                ));
            }
            k = k + 1;
        }
        proof {
            assert(tris@.take(tris@.len() as int) =~= tris@);
            let op = mesh_op(verts@, indices@);
            lemma_ops_words_push(self.history@, op, self.surface);
            lemma_counts_push(self.frame@, op);
        }
        self.history = Ghost(self.history@.push(mesh_op(verts@, indices@)));
        self.frame = Ghost(self.frame@.push(mesh_op(verts@, indices@)));
        proof {
            assert(self.cache.rdp.commands@ =~= new_frame_words(self.surface) + ops_words(
                self.history@,
                self.surface,
            ));
            assert(final(self).words() =~= old(self).words() + encode_op(
                mesh_op(verts@, indices@),
                old(self).spec_surface(),
            ));
        }
        Ok(())
    }

    /// Finalizes the frame with a full sync and consumes the buffer,
    /// returning the `(colored, textured)` draw totals — the number of
    /// `add_colored_rect` and `add_textured_rect` calls since the last
    /// clear — together with the cache, whose working buffer now holds
    /// the complete word sequence for dispatch.
    pub fn run(self) -> (r: ((i32, i32), CommandBufferCache))
        requires
            self.wf(),
        ensures
            r.0.0 == colored_count(self.view_frame()),
            r.0.1 == textured_count(self.view_frame()),
            r.0.0 + r.0.1 == rect_count(self.view_frame()),
            r.1.rdp.commands@ == self.words() + seq![encode_sync(COMMAND_SYNC_FULL)],
    {
        proof {
            lemma_counters_sum(self.frame@);
        }
        let CommandBuffer {
            surface: _,
            colored_rect_count,
            textured_rect_count,
            cache: mut cache,
            history: _,
            frame: _,
        } = self;
        cache.rdp.sync_full();
        ((colored_rect_count as i32, textured_rect_count as i32), cache)
    }
}

} // verus!
