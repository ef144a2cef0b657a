use n64_gfx::fixed::Fixed;
use n64_gfx::geom::Vec2;
use n64_gfx::rdp_command_builder::RdpCommandBuilder;
use n64_gfx::triangle::TriangleCoefficients;

fn p(x: i16, y: i16) -> Vec2 {
    Vec2 { x: Fixed::from_int(x), y: Fixed::from_int(y) }
}

#[test]
fn set_color_image_word() {
    let mut b = RdpCommandBuilder::new();
    b.set_color_image(0, 2, 320, 0x1000);
    assert_eq!(b.commands, vec![(0xffu64 << 56) | (2u64 << 51) | (319u64 << 32) | 0x1000]);
}

#[test]
fn set_scissor_word() {
    let mut b = RdpCommandBuilder::new();
    b.set_scissor(p(0, 0), p(319, 239));
    assert_eq!(b.commands, vec![(0xedu64 << 56) | (1276u64 << 12) | 956]);
}

#[test]
fn set_other_modes_word() {
    let mut b = RdpCommandBuilder::new();
    b.set_other_modes(0);
    assert_eq!(b.commands, vec![(0xefu64 << 56) | 0x0000_000f_0000_0000]);
    b.set_other_modes(0x30_0000_0000_4000);
    assert_eq!(
        b.commands[1],
        (0xefu64 << 56) | 0x30_0000_0000_4000 | 0x0000_000f_0000_0000
    );
}

#[test]
fn set_fill_color_word() {
    let mut b = RdpCommandBuilder::new();
    b.set_fill_color(n64_gfx::color::Color::new(0xffff));
    assert_eq!(b.commands, vec![(0xf7u64 << 56) | (0xffffu64 << 16) | 0xffff]);
}

#[test]
fn set_blend_color_word() {
    let mut b = RdpCommandBuilder::new();
    b.set_blend_color(0xff00ff80);
    assert_eq!(b.commands, vec![(0xf9u64 << 56) | 0xff00ff80]);
}

#[test]
fn set_combine_mode_word() {
    let mut b = RdpCommandBuilder::new();
    b.set_combine_mode(&[0, 0, 0, 0, 6, 1, 0, 15, 1, 0, 0, 0, 0, 7, 7, 7]);
    let expected = (0xfcu64 << 56) | (6u64 << 37) | (1u64 << 32) | (15u64 << 24) | (1u64 << 21)
        | (7u64 << 6) | (7u64 << 3) | 7;
    assert_eq!(b.commands, vec![expected]);
}

#[test]
fn fill_rectangle_word() {
    let mut b = RdpCommandBuilder::new();
    b.fill_rectangle(p(0, 0), p(319, 239));
    assert_eq!(b.commands, vec![(0xf6u64 << 56) | (1276u64 << 44) | (956u64 << 32)]);
}

#[test]
fn texture_rectangle_word() {
    let mut b = RdpCommandBuilder::new();
    b.texture_rectangle(p(10, 20), p(42, 52), 0);
    let expected = (0xe4u64 << 56) | (168u64 << 44) | (208u64 << 32) | (40u64 << 12) | 80;
    assert_eq!(b.commands, vec![expected]);
}

#[test]
fn sync_words() {
    let mut b = RdpCommandBuilder::new();
    b.sync_pipe();
    b.sync_tile();
    b.sync_full();
    assert_eq!(b.commands, vec![0xe7u64 << 56, 0xe8u64 << 56, 0xe9u64 << 56]);
}

#[test]
fn triangle_primitive_is_four_words() {
    let tc = TriangleCoefficients {
        right_major: true,
        y_low: Fixed::from_int(1),
        y_mid: Fixed::from_int(3),
        y_high: Fixed::from_int(5),
        low_anchor_int: 10,
        low_anchor_frac: 0,
        mid_anchor_int: 0,
        mid_anchor_frac: 0,
        high_anchor_int: 20,
        high_anchor_frac: 0,
        low_slope_int: 2,
        low_slope_frac: 32768,
        mid_slope_int: 65531,
        mid_slope_frac: 0,
        high_slope_int: 10,
        high_slope_frac: 0,
    };
    let mut b = RdpCommandBuilder::new();
    b.edge_coefficients(tc, false, false, false, 0, 0);
    assert_eq!(b.commands.len(), 4);
    // head word: opcode, fill direction, the three Y coordinates in
    // quarter pixels
    assert_eq!(
        b.commands[0],
        (0x08u64 << 56) | (1u64 << 55) | (4u64 << 32) | (12u64 << 16) | 20
    );
    // one edge record per sorted vertex: anchor then slope
    assert_eq!(b.commands[1], (10u64 << 48) | (2u64 << 16) | 32768);
    assert_eq!(b.commands[2], 65531u64 << 16);
    assert_eq!(b.commands[3], (20u64 << 48) | (10u64 << 16));
}

#[test]
fn clear_resets_and_build_hands_over() {
    let mut b = RdpCommandBuilder::new();
    b.sync_full();
    b.clear();
    assert!(b.commands.is_empty());
    b.sync_pipe();
    let words = b.build();
    assert_eq!(words, vec![0xe7u64 << 56]);
}
