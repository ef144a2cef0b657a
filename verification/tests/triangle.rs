use n64_gfx::error::GfxError;
use n64_gfx::fixed::Fixed;
use n64_gfx::geom::Vec3;
use n64_gfx::triangle::{
    edge_slope, setup_triangle, slope_y_next_subpixel_intersection,
    slope_y_prev_scanline_intersection, sorted_triangle,
};

fn v(x: i32, y: i32) -> Vec3 {
    Vec3 { x: Fixed { raw: x }, y: Fixed { raw: y }, z: Fixed { raw: 0 } }
}

fn vi(x: i16, y: i16) -> Vec3 {
    Vec3 { x: Fixed::from_int(x), y: Fixed::from_int(y), z: Fixed { raw: 0 } }
}

#[test]
fn sorting_is_permutation_invariant() {
    // any of the 6 orderings of 3 vertices with distinct Y values yields
    // the same (low, mid, high) triple
    let a = vi(1, 10);
    let b = vi(2, 30);
    let c = vi(3, 20);
    let expected = (a, c, b);
    assert_eq!(sorted_triangle(a, b, c), expected);
    assert_eq!(sorted_triangle(a, c, b), expected);
    assert_eq!(sorted_triangle(b, a, c), expected);
    assert_eq!(sorted_triangle(b, c, a), expected);
    assert_eq!(sorted_triangle(c, a, b), expected);
    assert_eq!(sorted_triangle(c, b, a), expected);
}

#[test]
fn sorting_orders_by_y() {
    let (lo, mi, hi) = sorted_triangle(vi(0, 7), vi(1, 2), vi(2, 4));
    assert!(lo.y.raw <= mi.y.raw && mi.y.raw <= hi.y.raw);
    assert_eq!((lo.x.raw, mi.x.raw, hi.x.raw), (Fixed::from_int(1).raw, Fixed::from_int(2).raw, Fixed::from_int(0).raw));
}

#[test]
fn edge_slope_exact() {
    // dx = 2 pixels over dy = 4 pixels: slope 0.5
    assert_eq!(edge_slope(vi(0, 0), vi(2, 4)), Some(Fixed { raw: 32768 }));
    // dx = -4 pixels over dy = 2 pixels: slope -2.0
    assert_eq!(edge_slope(vi(4, 0), vi(0, 2)), Some(Fixed { raw: -131072 }));
}

#[test]
fn next_subpixel_intersection_exact() {
    // p0 at y = 1.125: the next sub-scanline is 1.25
    let p0 = v(65536, 65536 + 8192);
    let p1 = vi(3, 5);
    assert_eq!(slope_y_next_subpixel_intersection(p0, p1), Some(Fixed { raw: 69764 }));
}

#[test]
fn prev_scanline_intersection_exact() {
    // p1 at y = 3.5: the previous whole scanline is 3.0
    let p0 = vi(1, 1);
    let p1 = v(3 * 65536, 3 * 65536 + 32768);
    assert_eq!(slope_y_prev_scanline_intersection(p0, p1), Some(Fixed { raw: 170393 }));
}

#[test]
fn zero_height_span_is_degenerate() {
    let r = setup_triangle(vi(0, 2), vi(5, 2), vi(3, 7));
    assert_eq!(r, Err(GfxError::DegenerateGeometry));
}

#[test]
fn setup_of_simple_triangle() {
    let tc = setup_triangle(vi(10, 1), vi(0, 3), vi(20, 5)).unwrap();
    assert_eq!(tc.y_low, Fixed::from_int(1));
    assert_eq!(tc.y_mid, Fixed::from_int(3));
    assert_eq!(tc.y_high, Fixed::from_int(5));
    // anchors: low vertex on the long edge at its own (whole) Y; the mid
    // and high anchors land exactly on their vertices' X
    assert_eq!((tc.low_anchor_int, tc.low_anchor_frac), (10, 0));
    assert_eq!((tc.mid_anchor_int, tc.mid_anchor_frac), (0, 0));
    assert_eq!((tc.high_anchor_int, tc.high_anchor_frac), (20, 0));
    // slopes: long edge 2.5, low->mid -5.0, mid->high 10.0
    assert_eq!((tc.low_slope_int, tc.low_slope_frac), (2, 32768));
    assert_eq!((tc.mid_slope_int, tc.mid_slope_frac), (65531, 0));
    assert_eq!((tc.high_slope_int, tc.high_slope_frac), (10, 0));
    // the mid anchor (x = 0) is left of the high anchor (x = 20)
    assert!(!tc.right_major);
}

#[test]
fn setup_is_permutation_invariant() {
    let a = vi(10, 1);
    let b = vi(0, 3);
    let c = vi(20, 5);
    let expected = setup_triangle(a, b, c).unwrap();
    assert_eq!(setup_triangle(c, a, b).unwrap(), expected);
    assert_eq!(setup_triangle(b, c, a).unwrap(), expected);
}
