use n64_gfx::color::Color;
use n64_gfx::command_buffer;
use n64_gfx::command_buffer_emu;
use n64_gfx::command_buffer_emu::DispatchCmd;
use n64_gfx::draw::Surface;
use n64_gfx::fixed::Fixed;
use n64_gfx::geom::Vec2;

fn p(x: i16, y: i16) -> Vec2 {
    Vec2 { x: Fixed::from_int(x), y: Fixed::from_int(y) }
}

const RECTS: [((i16, i16), (i16, i16), u16); 3] = [
    ((0, 0), (10, 10), 0xffff),
    ((100, 50), (200, 150), 0x1234),
    ((12, 34), (56, 78), 0x8001),
];

#[test]
fn both_backends_record_the_same_rectangles() {
    // issue the identical colored-rectangle sequence through both
    // backends against identically sized surfaces, and check that the
    // totals agree and that each backend's recorded geometry describes
    // exactly the rectangle that was issued, so the rasterized outputs
    // describe the same filled regions
    let surface = Surface { width: 320, height: 240, image: 0 };

    let mut hw = command_buffer::CommandBuffer::new(surface, command_buffer::CommandBufferCache::new());
    let mut emu = command_buffer_emu::CommandBuffer::new(
        surface,
        command_buffer_emu::CommandBufferCache::new(),
    );
    for (ul, lr, c) in RECTS {
        hw.add_colored_rect(p(ul.0, ul.1), p(lr.0, lr.1), Color::new(c));
        emu.add_colored_rect(p(ul.0, ul.1), p(lr.0, lr.1), Color::new(c)).unwrap();
    }

    let (hw_counts, mut cache) = hw.run();
    let (emu_counts, _emu_cache, frame) = emu.run();
    assert_eq!(hw_counts, emu_counts);
    assert_eq!(hw_counts, (3, 0));

    // the hardware stream holds exactly one fill primitive per call, in
    // order, at the quarter-pixel bounds of the issued rectangle
    let words = cache.swap_commands(Vec::new());
    let prims: Vec<u64> = words.iter().copied().filter(|w| w >> 56 == 0xf6).collect();
    assert_eq!(prims.len(), 3);
    for (i, (ul, lr, _)) in RECTS.iter().enumerate() {
        let w = prims[i];
        assert_eq!((w >> 12) & 0xfff, 4 * ul.0 as u64);
        assert_eq!(w & 0xfff, 4 * ul.1 as u64);
        assert_eq!((w >> 44) & 0xfff, 4 * (lr.0 as u64 - 1));
        assert_eq!((w >> 32) & 0xfff, 4 * (lr.1 as u64 - 1));
    }

    // the alternate dispatch holds one colored draw per call, in order,
    // whose transform maps the unit quad onto the same rectangle
    assert_eq!(frame.commands.len(), 3);
    for (i, (ul, lr, c)) in RECTS.iter().enumerate() {
        match frame.commands[i] {
            DispatchCmd::Colored { uniforms } => {
                let sx = ((lr.0 - ul.0) as i64 * 65536) / 320;
                let sy = ((lr.1 - ul.1) as i64 * 65536) / 240;
                assert_eq!(uniforms.scale_x as i64, sx);
                assert_eq!(uniforms.scale_y as i64, sy);
                assert_eq!(uniforms.offset_x as i64, (2 * ul.0 as i64 * 65536) / 320 - 65536 + sx);
                assert_eq!(
                    uniforms.offset_y as i64,
                    -((2 * ul.1 as i64 * 65536) / 240) + 65536 - sy
                );
                assert_eq!(uniforms.color, Color::new(*c).to_bytes());
            },
            _ => panic!("expected a colored dispatch"),
        }
    }
}
