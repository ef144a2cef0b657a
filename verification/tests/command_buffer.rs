use n64_gfx::color::Color;
use n64_gfx::command_buffer::{CommandBuffer, CommandBufferCache};
use n64_gfx::draw::{Surface, TextureDesc};
use n64_gfx::error::GfxError;
use n64_gfx::fixed::Fixed;
use n64_gfx::geom::{Vec2, Vec3};

fn p(x: i16, y: i16) -> Vec2 {
    Vec2 { x: Fixed::from_int(x), y: Fixed::from_int(y) }
}

fn pal_surface() -> Surface {
    Surface { width: 320, height: 240, image: 0x10_0000 }
}

#[test]
fn empty_frame_emits_setup_and_final_sync() {
    let cb = CommandBuffer::new(pal_surface(), CommandBufferCache::new());
    let ((colored, textured), mut cache) = cb.run();
    assert_eq!((colored, textured), (0, 0));
    let words = cache.swap_commands(Vec::new());
    assert_eq!(words.len(), 4);
    assert_eq!(words[0], (0xffu64 << 56) | (2u64 << 51) | (319u64 << 32) | 0x10_0000);
    assert_eq!(words[1], (0xedu64 << 56) | (1276u64 << 12) | 956);
    assert_eq!(words[1] >> 56, 0xed);
    assert_eq!(words[2] >> 56, 0xfc);
    assert_eq!(words[3], 0xe9u64 << 56);
}

#[test]
fn pal_frame_clear_then_small_white_rect() {
    // on a 320x240 surface: clear, one 10x10 opaque-white rectangle at
    // the origin, run. The totals are (1, 0) and the stream holds the
    // full-screen background fill followed by one primitive at the
    // quarter-pixel bounds of the rectangle; the coprocessor consuming
    // the stream then fills those pixel regions.
    let mut cb = CommandBuffer::new(pal_surface(), CommandBufferCache::new());
    cb.clear();
    cb.add_colored_rect(p(0, 0), p(10, 10), Color::new(0xffff));
    let ((colored, textured), mut cache) = cb.run();
    assert_eq!((colored, textured), (1, 0));
    let words = cache.swap_commands(Vec::new());
    assert_eq!(words.len(), 12);
    // the clear fill covers the whole surface with the background color
    assert_eq!(words[4], (0xf7u64 << 56) | (1u64 << 16) | 1);
    assert_eq!(words[5], (0xf6u64 << 56) | (1276u64 << 44) | (956u64 << 32));
    // the rectangle: fill color white, then one primitive over
    // (0, 0)..(9.75, 9.75) quarter-pixel-inclusive bounds
    assert_eq!(words[6], 0xe7u64 << 56);
    assert_eq!(words[9], (0xf7u64 << 56) | (0xffffu64 << 16) | 0xffff);
    assert_eq!(words[10], (0xf6u64 << 56) | (36u64 << 44) | (36u64 << 32));
    assert_eq!(words[11], 0xe9u64 << 56);
}

#[test]
fn counters_count_calls_since_last_clear() {
    let mut cb = CommandBuffer::new(pal_surface(), CommandBufferCache::new());
    cb.clear();
    cb.add_colored_rect(p(0, 0), p(10, 10), Color::new(1));
    cb.add_colored_rect(p(5, 5), p(7, 9), Color::new(2));
    cb.add_textured_rect(
        p(20, 20),
        p(52, 52),
        TextureDesc { width: 32, height: 32, image: 0x2000 },
        None,
    );
    // a clear resets the totals; later calls count afresh
    cb.clear();
    cb.add_colored_rect(p(1, 1), p(3, 3), Color::new(3));
    let ((colored, textured), _cache) = cb.run();
    assert_eq!((colored, textured), (1, 0));
}

#[test]
fn cache_is_reused_across_frames() {
    let cache = CommandBufferCache::new();
    let mut cb = CommandBuffer::new(pal_surface(), cache);
    cb.clear();
    let (_, mut cache) = cb.run();
    let drained = cache.swap_commands(Vec::new());
    assert_eq!(drained.len(), 7);
    // the next frame reuses the same cache and starts its stream afresh
    let mut cb = CommandBuffer::new(pal_surface(), cache);
    cb.add_colored_rect(p(0, 0), p(2, 2), Color::new(5));
    let ((colored, _), mut cache) = cb.run();
    assert_eq!(colored, 1);
    let words = cache.swap_commands(drained);
    assert_eq!(words.len(), 9);
}

#[test]
fn textured_rect_configures_the_tile() {
    let mut cb = CommandBuffer::new(pal_surface(), CommandBufferCache::new());
    let tex = TextureDesc { width: 32, height: 32, image: 0x2000 };
    cb.add_textured_rect(p(10, 20), p(42, 52), tex, None);
    let ((colored, textured), mut cache) = cb.run();
    assert_eq!((colored, textured), (0, 1));
    let words = cache.swap_commands(Vec::new());
    // setup (3) + sync_tile, modes, texture image, tile, load, rectangle
    // (6) + final sync
    assert_eq!(words.len(), 10);
    assert_eq!(words[3], 0xe8u64 << 56);
    assert_eq!(words[5], (0xfdu64 << 56) | (2u64 << 51) | (31u64 << 32) | 0x2000);
    assert_eq!(words[6], (0xf5u64 << 56) | (2u64 << 51) | (32u64 << 41));
    assert_eq!(words[7], (0xf4u64 << 56) | (128u64 << 12) | 128);
    assert_eq!(
        words[8],
        (0xe4u64 << 56) | (168u64 << 44) | (208u64 << 32) | (40u64 << 12) | 80
    );
}

#[test]
fn blend_color_adds_one_word() {
    let mut cb = CommandBuffer::new(pal_surface(), CommandBufferCache::new());
    let tex = TextureDesc { width: 32, height: 32, image: 0x2000 };
    cb.add_textured_rect(p(10, 20), p(42, 52), tex, Some(0x80ff40ff));
    let ((_, textured), mut cache) = cb.run();
    assert_eq!(textured, 1);
    let words = cache.swap_commands(Vec::new());
    assert_eq!(words.len(), 11);
    assert_eq!(words[5], (0xf9u64 << 56) | 0x80ff40ff);
}

#[test]
fn mesh_appends_one_primitive_per_triangle() {
    let mut cb = CommandBuffer::new(pal_surface(), CommandBufferCache::new());
    let verts = vec![
        Vec3 {
            x: Fixed::from_raw(0),
            y: Fixed::from_raw((0.5f32 * 65536.0) as i32),
            z: Fixed::from_raw(0),
        },
        Vec3 {
            x: Fixed::from_raw((-0.5f32 * 65536.0) as i32),
            y: Fixed::from_raw((-0.2f32 * 65536.0) as i32),
            z: Fixed::from_raw(0),
        },
        Vec3 {
            x: Fixed::from_raw((0.5f32 * 65536.0) as i32),
            y: Fixed::from_raw((-0.3f32 * 65536.0) as i32),
            z: Fixed::from_raw(0),
        },
    ];
    let uvs = Vec::new();
    let colors = Vec::new();
    let indices = vec![[0u8, 1, 2]];
    let r = cb.add_mesh_indexed(&verts, &uvs, &colors, &indices, None);
    assert_eq!(r, Ok(()));
    let ((colored, textured), mut cache) = cb.run();
    // mesh primitives do not move the rectangle counters
    assert_eq!((colored, textured), (0, 0));
    let words = cache.swap_commands(Vec::new());
    // setup (3) + fill color + mode + 4-word triangle + final sync
    assert_eq!(words.len(), 10);
    assert_eq!(words[3], (0xf7u64 << 56) | ((0b10000_00011_00011_1u64) << 16) | 0b10000_00011_00011_1);
    assert_eq!(words[5] >> 56, 0x08);
}

#[test]
fn degenerate_mesh_is_rejected_whole() {
    let mut cb = CommandBuffer::new(pal_surface(), CommandBufferCache::new());
    // both triangles reference vertices that share a Y coordinate after
    // the window transform; nothing may be emitted
    let verts = vec![
        Vec3 { x: Fixed::from_raw(0), y: Fixed::from_raw(0), z: Fixed::from_raw(0) },
        Vec3 { x: Fixed::from_raw(65536), y: Fixed::from_raw(0), z: Fixed::from_raw(0) },
        Vec3 { x: Fixed::from_raw(32768), y: Fixed::from_raw(32768), z: Fixed::from_raw(0) },
    ];
    let indices = vec![[0u8, 1, 2]];
    let r = cb.add_mesh_indexed(&verts, &Vec::new(), &Vec::new(), &indices, None);
    assert_eq!(r, Err(GfxError::DegenerateGeometry));
    let ((colored, textured), mut cache) = cb.run();
    assert_eq!((colored, textured), (0, 0));
    let words = cache.swap_commands(Vec::new());
    assert_eq!(words.len(), 4);
}
