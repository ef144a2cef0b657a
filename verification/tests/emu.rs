use n64_gfx::color::Color;
use n64_gfx::command_buffer_emu::{
    framebuffer_from_rgba8, CommandBuffer, CommandBufferCache, DispatchCmd, MAX_COLORED_RECTS,
    MAX_TEXTURED_RECTS,
};
use n64_gfx::draw::{Surface, TextureDesc};
use n64_gfx::error::GfxError;
use n64_gfx::fixed::Fixed;
use n64_gfx::geom::{Vec2, Vec3};

fn p(x: i16, y: i16) -> Vec2 {
    Vec2 { x: Fixed::from_int(x), y: Fixed::from_int(y) }
}

fn pal_surface() -> Surface {
    Surface { width: 320, height: 240, image: 0x10_0000 }
}

#[test]
fn empty_frame_dispatches_nothing() {
    let cb = CommandBuffer::new(pal_surface(), CommandBufferCache::new());
    let ((colored, textured), _cache, frame) = cb.run();
    assert_eq!((colored, textured), (0, 0));
    assert!(!frame.clear);
    assert!(frame.commands.is_empty());
}

#[test]
fn clear_then_small_white_rect() {
    // the same scenario as on the hardware path: totals (1, 0), one
    // dispatch, cleared target
    let mut cb = CommandBuffer::new(pal_surface(), CommandBufferCache::new());
    cb.clear();
    cb.add_colored_rect(p(0, 0), p(10, 10), Color::new(0xffff)).unwrap();
    let ((colored, textured), _cache, frame) = cb.run();
    assert_eq!((colored, textured), (1, 0));
    assert!(frame.clear);
    assert_eq!(frame.commands.len(), 1);
    match frame.commands[0] {
        DispatchCmd::Colored { uniforms } => {
            assert_eq!(uniforms.color, [255, 255, 255, 255]);
            // scale = 10/320 = 0.03125, offset = -1 + scale
            assert_eq!(uniforms.scale_x, 2048);
            assert_eq!(uniforms.offset_x, -65536 + 2048);
            // scale_y = 10/240 (floor on the 1/65536 grid)
            assert_eq!(uniforms.scale_y, 10 * 65536 / 240);
            assert_eq!(uniforms.offset_y, 65536 - 10 * 65536 / 240);
        },
        _ => panic!("expected a colored dispatch"),
    }
}

#[test]
fn dispatches_keep_issue_order() {
    let mut cb = CommandBuffer::new(pal_surface(), CommandBufferCache::new());
    let tex = TextureDesc { width: 32, height: 32, image: 7 };
    cb.add_colored_rect(p(0, 0), p(10, 10), Color::new(1)).unwrap();
    cb.add_textured_rect(p(20, 20), p(52, 52), tex, Some(0x11223344)).unwrap();
    cb.add_colored_rect(p(5, 5), p(6, 6), Color::new(2)).unwrap();
    let ((colored, textured), _cache, frame) = cb.run();
    assert_eq!((colored, textured), (2, 1));
    assert_eq!(frame.commands.len(), 3);
    assert!(matches!(frame.commands[0], DispatchCmd::Colored { .. }));
    match frame.commands[1] {
        DispatchCmd::Textured { uniforms, texture } => {
            assert_eq!(texture, tex);
            assert_eq!(uniforms.blend_color, [0x11, 0x22, 0x33, 0x44]);
        },
        _ => panic!("expected a textured dispatch"),
    }
    assert!(matches!(frame.commands[2], DispatchCmd::Colored { .. }));
}

#[test]
fn absent_blend_color_is_opaque_white() {
    let mut cb = CommandBuffer::new(pal_surface(), CommandBufferCache::new());
    let tex = TextureDesc { width: 16, height: 16, image: 1 };
    cb.add_textured_rect(p(0, 0), p(16, 16), tex, None).unwrap();
    let (_, _, frame) = cb.run();
    match frame.commands[0] {
        DispatchCmd::Textured { uniforms, .. } => {
            assert_eq!(uniforms.blend_color, [255, 255, 255, 255]);
        },
        _ => panic!("expected a textured dispatch"),
    }
}

#[test]
fn clear_resets_counters_and_queue() {
    let mut cb = CommandBuffer::new(pal_surface(), CommandBufferCache::new());
    cb.add_colored_rect(p(0, 0), p(10, 10), Color::new(1)).unwrap();
    cb.add_colored_rect(p(0, 0), p(10, 10), Color::new(2)).unwrap();
    cb.clear();
    cb.add_colored_rect(p(0, 0), p(10, 10), Color::new(3)).unwrap();
    let ((colored, textured), _cache, frame) = cb.run();
    assert_eq!((colored, textured), (1, 0));
    assert_eq!(frame.commands.len(), 1);
}

#[test]
fn alternate_cache_is_reused_across_frames() {
    let cache = CommandBufferCache::new();
    let mut cb = CommandBuffer::new(pal_surface(), cache);
    cb.add_colored_rect(p(0, 0), p(10, 10), Color::new(1)).unwrap();
    let (_, cache, _) = cb.run();
    // a fresh frame on the same cache starts with an empty queue
    let cb = CommandBuffer::new(pal_surface(), cache);
    let ((colored, textured), _cache, frame) = cb.run();
    assert_eq!((colored, textured), (0, 0));
    assert!(frame.commands.is_empty());
}

#[test]
fn colored_capacity_is_a_checked_error() {
    // one frame may hold at most the pool size; the call that would
    // exceed it reports the failure instead of truncating silently
    let mut cb = CommandBuffer::new(pal_surface(), CommandBufferCache::new());
    for i in 0..MAX_COLORED_RECTS {
        let r = cb.add_colored_rect(p(0, 0), p(1, 1), Color::new(i as u16));
        assert_eq!(r, Ok(()));
    }
    let r = cb.add_colored_rect(p(0, 0), p(1, 1), Color::new(0));
    assert_eq!(r, Err(GfxError::CapacityExceeded));
    let ((colored, _), _cache, frame) = cb.run();
    assert_eq!(colored as u32, MAX_COLORED_RECTS);
    assert_eq!(frame.commands.len() as u32, MAX_COLORED_RECTS);
}

#[test]
fn textured_capacity_is_a_checked_error() {
    let mut cb = CommandBuffer::new(pal_surface(), CommandBufferCache::new());
    let tex = TextureDesc { width: 8, height: 8, image: 0 };
    for _ in 0..MAX_TEXTURED_RECTS {
        assert_eq!(cb.add_textured_rect(p(0, 0), p(8, 8), tex, None), Ok(()));
    }
    assert_eq!(
        cb.add_textured_rect(p(0, 0), p(8, 8), tex, None),
        Err(GfxError::CapacityExceeded)
    );
}

#[test]
fn mesh_reports_the_parity_gap() {
    let mut cb = CommandBuffer::new(pal_surface(), CommandBufferCache::new());
    let verts = vec![Vec3 {
        x: Fixed::from_raw(0),
        y: Fixed::from_raw(0),
        z: Fixed::from_raw(0),
    }];
    let r = cb.add_mesh_indexed(&verts, &Vec::new(), &Vec::new(), &vec![[0u8, 0, 0]], None);
    assert_eq!(r, Err(GfxError::BackendParityGap));
    let empty = cb.add_mesh_indexed(&verts, &Vec::new(), &Vec::new(), &Vec::new(), None);
    assert_eq!(empty, Ok(()));
    let ((colored, textured), _cache, frame) = cb.run();
    assert_eq!((colored, textured), (0, 0));
    assert!(frame.commands.is_empty());
}

#[test]
fn readback_converts_pixels_to_packed_colors() {
    let bytes = vec![255u8, 255, 255, 255, 0, 0, 0, 0, 128, 64, 32, 200];
    let fb = framebuffer_from_rgba8(&bytes);
    assert_eq!(fb.len(), 3);
    assert_eq!(fb[0].value(), 0xffff);
    assert_eq!(fb[1].value(), 0);
    assert_eq!(fb[2].value(), Color::from_bytes([128, 64, 32, 200]).value());
}
