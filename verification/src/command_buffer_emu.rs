//! The alternate backend: a per-frame façade with the identical draw-call
//! contract that defers all work to `run`.
//!
//! Draw calls are appended to a tagged command list; `run` translates
//! each tagged command into the normalized-device-coordinate transform
//! the alternate raster pipeline consumes and returns that dispatch list
//! together with the draw counters. The caller renders the dispatch list
//! through the alternate pipeline, reads the pixels back as
//! 8-bit-per-channel RGBA, and converts them with
//! [`framebuffer_from_rgba8`] into the same packed-pixel surface
//! representation the hardware path writes.
//!
//! Capacity limits — at most [`MAX_COLORED_RECTS`] colored and
//! [`MAX_TEXTURED_RECTS`] textured rectangles per frame, the alternate
//! pipeline's fixed uniform-pool sizes — are enforced as checked
//! preconditions: the draw call that would exceed one returns
//! [`GfxError::CapacityExceeded`] and queues nothing.
//!
//! Mesh rendering has no equivalent in this backend: a non-empty mesh
//! call queues nothing and reports [`GfxError::BackendParityGap`], so the
//! gap with the hardware path is flagged rather than silently dropped.

use vstd::prelude::*;
use vstd::arithmetic::div_mod::{lemma_div_nonincreasing, lemma_fundamental_div_mod};
use crate::color::{pack_5551, quantize_5, Color};
use crate::draw::{
    colored_count, colored_rect_op, lemma_counters_sum, lemma_counts_push, rect_count,
    surface_ok, textured_count, textured_rect_op, texture_ok, DrawOp, Surface, TextureDesc,
};
use crate::error::GfxError;
use crate::geom::{Vec2, Vec3};
use crate::triangle::TriangleCoefficients;

verus! {

/// The alternate pipeline's colored-rectangle uniform pool size.
pub const MAX_COLORED_RECTS: u32 = 512;

/// The alternate pipeline's textured-rectangle uniform pool size.
pub const MAX_TEXTURED_RECTS: u32 = 512;

/// One tagged draw command, deferred until `run`.
#[derive(Clone, Copy, PartialEq, Eq, Structural, Debug)]
pub enum Command {
    ColoredRect { upper_left: Vec2, lower_right: Vec2, color: Color },
    TexturedRect {
        upper_left: Vec2,
        lower_right: Vec2,
        texture: TextureDesc,
        blend_color: Option<u32>,
    },
}

/// The abstract drawing operation a tagged command stands for.
pub open spec fn cmd_op(c: Command) -> DrawOp {
    match c {
        Command::ColoredRect { upper_left, lower_right, color } => DrawOp::ColoredRect {
            upper_left,
            lower_right,
            color,
        },
        Command::TexturedRect { upper_left, lower_right, texture, blend_color } =>
            DrawOp::TexturedRect { upper_left, lower_right, texture, blend_color },
    }
}

/// The view of a tagged command list.
pub open spec fn cmds_view(cmds: Seq<Command>) -> Seq<DrawOp> {
    cmds.map_values(|c: Command| cmd_op(c))
}

/// The rectangle lies on screen: corners ordered, within the 10-bit
/// pixel range.
pub open spec fn cmd_in_range(c: Command) -> bool {
    match c {
        Command::ColoredRect { upper_left, lower_right, color } => {
            &&& 0 <= upper_left.x.raw <= lower_right.x.raw < 1024 * 65536
            &&& 0 <= upper_left.y.raw <= lower_right.y.raw < 1024 * 65536
        },
        Command::TexturedRect { upper_left, lower_right, texture, blend_color } => {
            &&& 0 <= upper_left.x.raw <= lower_right.x.raw < 1024 * 65536
            &&& 0 <= upper_left.y.raw <= lower_right.y.raw < 1024 * 65536
        },
    }
}

/// Scale of a rectangle extent relative to the window, in raw 16.16
/// units: `size / window`.
pub open spec fn ndc_scale(size_raw: int, window: int) -> int {
    size_raw / window
}

/// Horizontal NDC offset centering the rectangle:
/// `2 * upper_left / window - 1 + scale`.
pub open spec fn ndc_offset_x(ul_raw: int, scale_raw: int, window: int) -> int {
    2 * ul_raw / window - 65536 + scale_raw
}

/// Vertical NDC offset (the alternate pipeline's Y axis points up):
/// `-2 * upper_left / window + 1 - scale`.
pub open spec fn ndc_offset_y(ul_raw: int, scale_raw: int, window: int) -> int {
    -(2 * ul_raw / window) + 65536 - scale_raw
}

/// Per-instance uniforms of one colored rectangle: 8-bit RGBA color and
/// the NDC transform in raw 16.16 units.
#[derive(Clone, Copy, PartialEq, Eq, Debug)]
pub struct ColoredRectUniforms {
    pub color: [u8; 4],
    pub offset_x: i32,
    pub offset_y: i32,
    pub scale_x: i32,
    pub scale_y: i32,
}

/// Per-instance uniforms of one textured rectangle: 8-bit RGBA blend
/// color and the NDC transform in raw 16.16 units.
#[derive(Clone, Copy, PartialEq, Eq, Debug)]
pub struct TexturedRectUniforms {
    pub blend_color: [u8; 4],
    pub offset_x: i32,
    pub offset_y: i32,
    pub scale_x: i32,
    pub scale_y: i32,
}

/// One translated draw dispatch for the alternate pipeline, in issue
/// order.
#[derive(Clone, Copy, PartialEq, Eq, Debug)]
pub enum DispatchCmd {
    Colored { uniforms: ColoredRectUniforms },
    Textured { uniforms: TexturedRectUniforms, texture: TextureDesc },
}

/// The bytes of a 32-bit RGBA blend constant, high byte first; an absent
/// blend color means the unmodified texture color (opaque white).
pub open spec fn blend_bytes(blend_color: Option<u32>) -> [u8; 4] {
    match blend_color {
        Some(bc) => [
            (bc / 0x100_0000) as u8,
            ((bc / 0x1_0000) % 0x100) as u8,
            ((bc / 0x100) % 0x100) as u8,
            (bc % 0x100) as u8,
        ],
        None => [255u8, 255, 255, 255],
    }
}

/// The 8-bit channel expansion of a packed color (see
/// [`Color::to_bytes`]).
pub open spec fn color_bytes(c: Color) -> [u8; 4] {
    [
        (((c.spec_value() / 2048) * 255 + 15) / 31) as u8,
        ((((c.spec_value() / 64) % 32) * 255 + 15) / 31) as u8,
        ((((c.spec_value() / 2) % 32) * 255 + 15) / 31) as u8,
        ((c.spec_value() % 2) * 255) as u8,
    ]
}

/// The exact dispatch the alternate pipeline receives for one tagged
/// command on the given surface.
pub open spec fn dispatch_of(c: Command, s: Surface) -> DispatchCmd {
    match c {
        Command::ColoredRect { upper_left, lower_right, color } => {
            let sx = ndc_scale(lower_right.x.value() - upper_left.x.value(), s.width as int);
            let sy = ndc_scale(lower_right.y.value() - upper_left.y.value(), s.height as int);
            DispatchCmd::Colored {
                uniforms: ColoredRectUniforms {
                    color: color_bytes(color),
                    offset_x: ndc_offset_x(upper_left.x.value(), sx, s.width as int) as i32,
                    offset_y: ndc_offset_y(upper_left.y.value(), sy, s.height as int) as i32,
                    scale_x: sx as i32,
                    scale_y: sy as i32,
                },
            }
        },
        Command::TexturedRect { upper_left, lower_right, texture, blend_color } => {
            let sx = ndc_scale(lower_right.x.value() - upper_left.x.value(), s.width as int);
            let sy = ndc_scale(lower_right.y.value() - upper_left.y.value(), s.height as int);
            DispatchCmd::Textured {
                uniforms: TexturedRectUniforms {
                    blend_color: blend_bytes(blend_color),
                    offset_x: ndc_offset_x(upper_left.x.value(), sx, s.width as int) as i32,
                    offset_y: ndc_offset_y(upper_left.y.value(), sy, s.height as int) as i32,
                    scale_x: sx as i32,
                    scale_y: sy as i32,
                },
                texture,
            }
        },
    }
}

/// The translated frame the caller hands to the alternate pipeline:
/// whether to clear the target first, and the dispatches in issue order.
pub struct FrameDispatch {
    pub clear: bool,
    pub commands: Vec<DispatchCmd>,
}

/// The persistent half of the alternate backend: the tagged command
/// list, reused frame to frame.
pub struct CommandBufferCache {
    pub commands: Vec<Command>,
}

impl CommandBufferCache {
    pub fn new() -> (r: CommandBufferCache)
        ensures
            r.commands@ == Seq::<Command>::empty(),
    {
        CommandBufferCache { commands: Vec::new() }
    }
}

/// The per-frame drawing façade of the alternate backend.
pub struct CommandBuffer {
    surface: Surface,
    clear: bool,
    colored_rect_count: u32,
    textured_rect_count: u32,
    cache: CommandBufferCache,
}

impl CommandBuffer {
    /// The output surface this frame draws to.
    pub closed spec fn spec_surface(self) -> Surface {
        self.surface
    }

    /// The abstract view: operations issued since the last clear (or
    /// since creation).
    pub open spec fn view_frame(self) -> Seq<DrawOp> {
        cmds_view(self.spec_commands())
    }

    /// The pending tagged commands.
    pub closed spec fn spec_commands(self) -> Seq<Command> {
        self.cache.commands@
    }

    /// Whether the frame starts from a cleared target.
    pub closed spec fn cleared(self) -> bool {
        self.clear
    }

    /// Well-formedness: the counters count the pending view and stay
    /// within the pools.
    pub closed spec fn wf(self) -> bool {
        &&& surface_ok(self.surface)
        &&& self.colored_rect_count == colored_count(self.view_frame())
        &&& self.textured_rect_count == textured_count(self.view_frame())
        &&& self.colored_rect_count <= MAX_COLORED_RECTS
        &&& self.textured_rect_count <= MAX_TEXTURED_RECTS
        &&& forall|i: int|
            0 <= i < self.cache.commands@.len() ==> cmd_in_range(
                #[trigger] self.cache.commands@[i],
            )
    }

    /// Starts a frame: resets the cache's working buffer.
    pub fn new(out_tex: Surface, cache: CommandBufferCache) -> (r: CommandBuffer)
        requires
            surface_ok(out_tex),
        ensures
            r.wf(),
            r.spec_surface() == out_tex,
            r.view_frame() == Seq::<DrawOp>::empty(),
            !r.cleared(),
    {
        let mut cache = cache;
        cache.commands.clear();
        proof {
            assert(cmds_view(cache.commands@) =~= Seq::<DrawOp>::empty());
        }
        CommandBuffer {
            surface: out_tex,
            clear: false,
            colored_rect_count: 0,
            textured_rect_count: 0,
            cache,
        }
    }

    /// Drops everything queued, resets the counters and marks the frame
    /// to start from a cleared target.
    pub fn clear(&mut self)
        requires
            old(self).wf(),
        ensures
            final(self).wf(),
            final(self).spec_surface() == old(self).spec_surface(),
            final(self).view_frame() == Seq::<DrawOp>::empty(),
            final(self).cleared(),
    {
        self.clear = true;
        self.cache.commands.clear();
        self.colored_rect_count = 0;
        self.textured_rect_count = 0;
        proof {
            assert(cmds_view(self.cache.commands@) =~= Seq::<DrawOp>::empty());
        }
    }

    /// Queues a flat-filled rectangle and counts it, unless the
    /// colored-rectangle pool for this frame is already full.
    pub fn add_colored_rect(&mut self, upper_left: Vec2, lower_right: Vec2, color: Color) -> (r:
        Result<(), GfxError>)
        requires
            old(self).wf(),
            0 <= upper_left.x.raw <= lower_right.x.raw < 1024 * 65536,
            0 <= upper_left.y.raw <= lower_right.y.raw < 1024 * 65536,
        ensures
            final(self).spec_surface() == old(self).spec_surface(),
            final(self).cleared() == old(self).cleared(),
            final(self).wf(),
            colored_count(old(self).view_frame()) < MAX_COLORED_RECTS ==> {
                &&& r == Ok::<(), GfxError>(())
                &&& final(self).view_frame() == old(self).view_frame().push(
                    colored_rect_op(upper_left, lower_right, color),
                )
                &&& colored_count(final(self).view_frame()) == colored_count(
                    old(self).view_frame(),
                ) + 1
                &&& textured_count(final(self).view_frame()) == textured_count(
                    old(self).view_frame(),
                )
            },
            colored_count(old(self).view_frame()) >= MAX_COLORED_RECTS ==> {
                &&& r == Err::<(), GfxError>(GfxError::CapacityExceeded)
                &&& *final(self) == *old(self)
            },
    {
        if self.colored_rect_count >= MAX_COLORED_RECTS {
            return Err(GfxError::CapacityExceeded);
        }
        self.colored_rect_count = self.colored_rect_count + 1;
        let c: Command = Command::ColoredRect { upper_left, lower_right, color };
        self.cache.commands.push(c);
        proof {
            assert(cmds_view(self.cache.commands@) =~= cmds_view(
                old(self).cache.commands@,
            ).push(colored_rect_op(upper_left, lower_right, color)));
            lemma_counts_push(
                old(self).view_frame(),
                colored_rect_op(upper_left, lower_right, color),
            );
        }
        Ok(())
    }

    /// Queues a textured rectangle and counts it, unless the
    /// textured-rectangle pool for this frame is already full.
    pub fn add_textured_rect(
        &mut self,
        upper_left: Vec2,
        lower_right: Vec2,
        texture: TextureDesc,
        blend_color: Option<u32>,
    ) -> (r: Result<(), GfxError>)
        requires
            old(self).wf(),
            0 <= upper_left.x.raw <= lower_right.x.raw < 1024 * 65536,
            0 <= upper_left.y.raw <= lower_right.y.raw < 1024 * 65536,
            texture_ok(texture),
        ensures
            final(self).spec_surface() == old(self).spec_surface(),
            final(self).cleared() == old(self).cleared(),
            final(self).wf(),
            textured_count(old(self).view_frame()) < MAX_TEXTURED_RECTS ==> {
                &&& r == Ok::<(), GfxError>(())
                &&& final(self).view_frame() == old(self).view_frame().push(
                    textured_rect_op(upper_left, lower_right, texture, blend_color),
                )
                &&& textured_count(final(self).view_frame()) == textured_count(
                    old(self).view_frame(),
                ) + 1
                &&& colored_count(final(self).view_frame()) == colored_count(
                    old(self).view_frame(),
                )
            },
            textured_count(old(self).view_frame()) >= MAX_TEXTURED_RECTS ==> {
                &&& r == Err::<(), GfxError>(GfxError::CapacityExceeded)
                &&& *final(self) == *old(self)
            },
    {
        if self.textured_rect_count >= MAX_TEXTURED_RECTS {
            return Err(GfxError::CapacityExceeded);
        }
        self.textured_rect_count = self.textured_rect_count + 1;
        let c: Command = Command::TexturedRect { upper_left, lower_right, texture, blend_color };
        self.cache.commands.push(c);
        proof {
            assert(cmds_view(self.cache.commands@) =~= cmds_view(
                old(self).cache.commands@,
            ).push(textured_rect_op(upper_left, lower_right, texture, blend_color)));
            lemma_counts_push(
                old(self).view_frame(),
                textured_rect_op(upper_left, lower_right, texture, blend_color),
            );
        }
        Ok(())
    }

    /// Mesh rendering has no equivalent on this backend. The call
    /// queues nothing and moves no counter; a non-empty mesh reports the
    /// parity gap instead of being dropped without notice. (An empty
    /// mesh draws nothing on either backend, so it succeeds.)
    pub fn add_mesh_indexed(
        &mut self,
        _verts: &Vec<Vec3>,
        _uvs: &Vec<Vec2>,
        _colors: &Vec<u32>,
        indices: &Vec<[u8; 3]>,
        _texture: Option<TextureDesc>,
    ) -> (r: Result<(), GfxError>)
        requires
            old(self).wf(),
        ensures
            *final(self) == *old(self),
            indices@.len() == 0 ==> r == Ok::<(), GfxError>(()),
            indices@.len() > 0 ==> r == Err::<(), GfxError>(GfxError::BackendParityGap),
    {
        if indices.len() == 0 {
            Ok(())
        } else {
            Err(GfxError::BackendParityGap)
        }
    }

    /// Translates the queued frame into the alternate pipeline's
    /// dispatch list and consumes the buffer, returning the
    /// `(colored, textured)` draw totals — the number of rectangle calls
    /// queued since the last clear — the cache, and the dispatch list in
    /// issue order.
    pub fn run(self) -> (r: ((i32, i32), CommandBufferCache, FrameDispatch))
        requires
            self.wf(),
        ensures
            r.0.0 == colored_count(self.view_frame()),
            r.0.1 == textured_count(self.view_frame()),
            r.0.0 + r.0.1 == rect_count(self.view_frame()),
            r.1.commands@ == self.spec_commands(),
            r.2.clear == self.cleared(),
            r.2.commands@.len() == self.spec_commands().len(),
            forall|i: int|
                0 <= i < self.spec_commands().len() ==> r.2.commands@[i] == dispatch_of(
                    self.spec_commands()[i],
                    self.spec_surface(),
                ),
    {
        proof {
            lemma_counters_sum(self.view_frame());
        }
        let CommandBuffer {
            surface,
            clear,
            colored_rect_count,
            textured_rect_count,
            cache,
        } = self;
        let mut dispatch: Vec<DispatchCmd> = Vec::new();
        let mut i: usize = 0;
        while i < cache.commands.len()
            invariant
                0 <= i <= cache.commands@.len(),
                surface_ok(surface),
                forall|j: int|
                    0 <= j < cache.commands@.len() ==> cmd_in_range(
                        #[trigger] cache.commands@[j],
                    ),
                dispatch@.len() == i,
                forall|j: int|
                    0 <= j < i ==> dispatch@[j] == dispatch_of(cache.commands@[j], surface),
            decreases cache.commands@.len() - i,
        {
            let cmd: Command = cache.commands[i];
            match cmd {
                Command::ColoredRect { upper_left, lower_right, color } => {
                    let (offset_x, offset_y, scale_x, scale_y) = ndc_transform(
                        upper_left,
                        lower_right,
                        surface,
                    );
                    let cb: [u8; 4] = color.to_bytes();
                    proof {
                        assert(cb =~= color_bytes(color));
                    }
                    let d: DispatchCmd = DispatchCmd::Colored {
                        uniforms: ColoredRectUniforms {
                            color: cb,
                            offset_x,
                            offset_y,
                            scale_x,
                            scale_y,
                        },
                    };
                    proof {
                        assert(d == dispatch_of(cmd, surface));
                    }
                    dispatch.push(d);
                },
                Command::TexturedRect { upper_left, lower_right, texture, blend_color } => {
                    let (offset_x, offset_y, scale_x, scale_y) = ndc_transform(
                        upper_left,
                        lower_right,
                        surface,
                    );
                    let bb: [u8; 4] = match blend_color {
                        Some(bc) => {
                            proof {
                                assert((bc as int) / 0x100_0000 < 0x100 && 0 <= ((bc as int)
                                    / 0x1_0000) % 0x100 < 0x100 && 0 <= ((bc as int) / 0x100)
                                    % 0x100 < 0x100 && 0 <= (bc as int) % 0x100 < 0x100)
                                    by (nonlinear_arith)
                                    requires
                                        bc < 0x1_0000_0000,
                                ;
                            }
                            [
                                (bc / 0x100_0000) as u8,
                                ((bc / 0x1_0000) % 0x100) as u8,
                                ((bc / 0x100) % 0x100) as u8,
                                (bc % 0x100) as u8,
                            ]
                        },
                        None => [255u8, 255, 255, 255],
                    };
                    proof {
                        assert(bb =~= blend_bytes(blend_color));
                    }
                    let d: DispatchCmd = DispatchCmd::Textured {
                        uniforms: TexturedRectUniforms {
                            blend_color: bb,
                            offset_x,
                            offset_y,
                            scale_x,
                            scale_y,
                        },
                        texture,
                    };
                    proof {
                        assert(d == dispatch_of(cmd, surface));
                    }
                    dispatch.push(d);
                },
            }
            i = i + 1;
        }
        ((colored_rect_count as i32, textured_rect_count as i32), cache, FrameDispatch {
            clear,
            commands: dispatch,
        })
    }
}

/// Computes the NDC offsets and scales of one rectangle on the given
/// surface, in raw 16.16 units.
fn ndc_transform(upper_left: Vec2, lower_right: Vec2, s: Surface) -> (r: (i32, i32, i32, i32))
    requires
        surface_ok(s),
        0 <= upper_left.x.raw <= lower_right.x.raw < 1024 * 65536,
        0 <= upper_left.y.raw <= lower_right.y.raw < 1024 * 65536,
    ensures
        ({
            let sx = ndc_scale(lower_right.x.value() - upper_left.x.value(), s.width as int);
            let sy = ndc_scale(lower_right.y.value() - upper_left.y.value(), s.height as int);
            &&& r.2 == sx
            &&& r.3 == sy
            &&& r.0 == ndc_offset_x(upper_left.x.value(), sx, s.width as int)
            &&& r.1 == ndc_offset_y(upper_left.y.value(), sy, s.height as int)
        }),
{
    let size_x: u32 = (lower_right.x.raw - upper_left.x.raw) as u32;
    let size_y: u32 = (lower_right.y.raw - upper_left.y.raw) as u32;
    let scale_x: u32 = size_x / (s.width as u32);
    let scale_y: u32 = size_y / (s.height as u32);
    let ax: u32 = (2 * (upper_left.x.raw as u32)) / (s.width as u32);
    let ay: u32 = (2 * (upper_left.y.raw as u32)) / (s.height as u32);
    proof {
        lemma_div_nonincreasing(size_x as int, s.width as int);
        lemma_div_nonincreasing(size_y as int, s.height as int);
        lemma_div_nonincreasing(2 * (upper_left.x.raw as int), s.width as int);
        lemma_div_nonincreasing(2 * (upper_left.y.raw as int), s.height as int);
    }
    let offset_x: i32 = (ax as i32) - 65536 + (scale_x as i32);
    let offset_y: i32 = -(ay as i32) + 65536 - (scale_y as i32);
    (offset_x, offset_y, scale_x as i32, scale_y as i32)
}

/// Converts an 8-bit-per-channel RGBA read-back buffer (byte order R, G,
/// B, A per pixel) into the packed-pixel surface representation, one
/// color per 4 bytes, rounding each channel to the nearest representable
/// value.
pub fn framebuffer_from_rgba8(bytes: &Vec<u8>) -> (r: Vec<Color>)
    requires
        bytes@.len() % 4 == 0,
    ensures
        r@.len() == bytes@.len() / 4,
        forall|i: int|
            0 <= i < r@.len() ==> (#[trigger] r@[i]).spec_value() == pack_5551(
                quantize_5(bytes@[4 * i] as int),
                quantize_5(bytes@[4 * i + 1] as int),
                quantize_5(bytes@[4 * i + 2] as int),
                bytes@[4 * i + 3] as int / 128,
            ),
{
    let n: usize = bytes.len() / 4;
    proof {
        lemma_fundamental_div_mod(bytes@.len() as int, 4);
    }
    let mut out: Vec<Color> = Vec::new();
    let mut i: usize = 0;
    while i < n
        invariant
            0 <= i <= n,
            n == bytes@.len() / 4,
            bytes@.len() % 4 == 0,
            4 * n <= bytes@.len(),
            bytes@.len() <= usize::MAX,
            out@.len() == i,
            forall|j: int|
                0 <= j < i ==> (#[trigger] out@[j]).spec_value() == pack_5551(
                    quantize_5(bytes@[4 * j] as int),
                    quantize_5(bytes@[4 * j + 1] as int),
                    quantize_5(bytes@[4 * j + 2] as int),
                    bytes@[4 * j + 3] as int / 128,
                ),
        decreases n - i,
    {
        let px: [u8; 4] = [bytes[4 * i], bytes[4 * i + 1], bytes[4 * i + 2], bytes[4 * i + 3]];
        out.push(Color::from_bytes(px));
        i = i + 1;
    }
    out
}

} // verus!
