//! Triangle setup: vertex sorting, edge slopes and sub-scanline
//! intersection anchors for the rasterizer's scan-conversion primitive.
//!
//! Vertices are sorted into ascending order by Y (`low`, `mid`, `high`).
//! Three edge records are derived, one per sorted vertex, each an
//! `(anchor, slope)` pair in the integer + 16-bit-fraction codec format:
//!
//! * the low record describes the long edge `low -> high`, anchored at the
//!   X intersection with the next sub-scanline boundary above the low
//!   vertex (the hardware samples 4 sub-scanlines per pixel row, so the
//!   anchor Y is `ceil(y * 4) / 4`);
//! * the mid record describes the short edge `low -> mid`, anchored at the
//!   X intersection with the whole scanline boundary before the mid vertex
//!   (`floor(y)`);
//! * the high record describes the short edge `mid -> high`, anchored at
//!   the X intersection with the whole scanline boundary before the high
//!   vertex.
//!
//! Slopes are dx/dy per unit of Y, computed from the edge's lower-Y
//! endpoint and quantized toward minus infinity onto the 1/65536 grid.
//! The fill-direction flag compares the mid and high anchors
//! lexicographically on `(integer, fraction)`.
//!
//! A triangle two of whose vertices share a Y coordinate would divide by
//! zero here; such zero-height spans are rejected as
//! [`GfxError::DegenerateGeometry`] rather than encoded. The same policy
//! covers edges so close to horizontal that a slope or anchor leaves the
//! representable 16.16 range.

use vstd::prelude::*;
use vstd::arithmetic::div_mod::{
    lemma_fundamental_div_mod, lemma_fundamental_div_mod_converse, lemma_div_nonincreasing,
    lemma_mod_pos_bound,
};
use crate::error::GfxError;
use crate::fixed::{split_signed, int_frac_greater, Fixed, lemma_split_signed_in_range};
use crate::geom::Vec3;

verus! {

/// Largest on-screen coordinate the setup accepts, in raw 16.16 units
/// (1024 pixels).
pub const COORD_LIMIT: i32 = 0x400_0000;

/// A coordinate the scan-conversion setup accepts: on screen, within the
/// 10-bit pixel range.
pub open spec fn coord_in_range(f: Fixed) -> bool {
    0 <= f.raw <= COORD_LIMIT
}

/// Both position components are on screen.
pub open spec fn vertex_in_range(v: Vec3) -> bool {
    coord_in_range(v.x) && coord_in_range(v.y)
}

/// A value representable as a raw 16.16 coordinate.
pub open spec fn fits_fixed(v: int) -> bool {
    -0x8000_0000 <= v < 0x8000_0000
}

/// Floor quotient for a positive divisor.
fn floor_div_i64(n: i64, d: i64) -> (r: i64)
    requires
        d > 0,
        -0x1000_0000_0000_0000 < n < 0x1000_0000_0000_0000,
    ensures
        r == n as int / d as int,
        -0x1000_0000_0000_0001 < r < 0x1000_0000_0000_0001,
{
    let na: u64 = if n >= 0 { n as u64 } else { (-n) as u64 };
    let da: u64 = d as u64;
    let q: u64 = na / da;
    let rem: u64 = na % da;
    proof {
        lemma_fundamental_div_mod(na as int, da as int);
        lemma_div_nonincreasing(na as int, da as int);
    }
    if n >= 0 {
        q as i64
    } else if rem == 0 {
        proof {
            assert(n as int == (-(q as int)) * (d as int) + 0) by (nonlinear_arith)
                requires
                    n as int == -(na as int),
                    na as int == da as int * (q as int),
                    d == da,
            ;
            lemma_fundamental_div_mod_converse(n as int, d as int, -(q as int), 0);
        }
        -(q as i64)
    } else {
        proof {
            assert(n as int == (-(q as int) - 1) * (d as int) + (da as int - rem as int))
                by (nonlinear_arith)
                requires
                    n as int == -(na as int),
                    na as int == da as int * (q as int) + rem as int,
                    d == da,
            ;
            lemma_fundamental_div_mod_converse(
                n as int,
                d as int,
                -(q as int) - 1,
                da as int - rem as int,
            );
        }
        -(q as i64) - 1
    }
}

/// Checked narrowing of an intermediate result onto the 16.16 grid.
fn i64_to_fixed(n: i64) -> (r: Option<Fixed>)
    ensures
        match r {
            Some(f) => f.value() == n && fits_fixed(n as int),
            None => !fits_fixed(n as int),
        },
{
    if -0x8000_0000i64 <= n && n < 0x8000_0000i64 {
        Some(Fixed { raw: n as i32 })
    } else {
        None
    }
}

/// dx/dy of the edge from `p0` to `p1`, in raw 16.16 units, quantized
/// toward minus infinity.
pub open spec fn eslope(p0: Vec3, p1: Vec3) -> int {
    (p1.x.value() - p0.x.value()) * 65536 / (p1.y.value() - p0.y.value())
}

/// X of the line through `p0` and `p1` at height `y` (raw units),
/// quantized toward minus infinity.
pub open spec fn isect(p0: Vec3, p1: Vec3, y: int) -> int {
    p0.x.value() + (y - p0.y.value()) * (p1.x.value() - p0.x.value())
        / (p1.y.value() - p0.y.value())
}

/// The next sub-scanline boundary at or above `y`: `ceil(y * 4) / 4` in
/// pixels, on the raw 16.16 grid.
pub open spec fn ceil4(y: int) -> int {
    ((y + 16383) / 16384) * 16384
}

/// The previous whole scanline boundary: `floor(y)` in pixels, on the raw
/// 16.16 grid.
pub open spec fn floor_scan(y: int) -> int {
    (y / 65536) * 65536
}

/// Dx/Dy of the edge from `p0` to `p1`, as a 16.16 coordinate; `None` when
/// the slope leaves the representable range.
pub fn edge_slope(p0: Vec3, p1: Vec3) -> (r: Option<Fixed>)
    requires
        vertex_in_range(p0),
        vertex_in_range(p1),
        p0.y.raw < p1.y.raw,
    ensures
        match r {
            Some(s) => s.value() == eslope(p0, p1) && fits_fixed(eslope(p0, p1)),
            None => !fits_fixed(eslope(p0, p1)),
        },
{
    let dx: i64 = p1.x.raw as i64 - p0.x.raw as i64;
    let dy: i64 = p1.y.raw as i64 - p0.y.raw as i64;
    let q: i64 = floor_div_i64(dx * 65536, dy);
    i64_to_fixed(q)
}

/// X where the edge from `p0` to `p1` crosses the first sub-scanline
/// boundary at or above `p0`; `None` when it leaves the representable
/// range.
pub fn slope_y_next_subpixel_intersection(p0: Vec3, p1: Vec3) -> (r: Option<Fixed>)
    requires
        vertex_in_range(p0),
        vertex_in_range(p1),
        p0.y.raw < p1.y.raw,
    ensures
        match r {
            Some(x) => x.value() == isect(p0, p1, ceil4(p0.y.value()))
                && fits_fixed(isect(p0, p1, ceil4(p0.y.value()))),
            None => !fits_fixed(isect(p0, p1, ceil4(p0.y.value()))),
        },
{
    let y: u32 = ((p0.y.raw as u32 + 16383) / 16384) * 16384;
    proof {
        lemma_fundamental_div_mod(p0.y.raw as int + 16383, 16384);
        lemma_mod_pos_bound(p0.y.raw as int + 16383, 16384);
    }
    let t: i64 = y as i64 - p0.y.raw as i64;
    let dx: i64 = p1.x.raw as i64 - p0.x.raw as i64;
    let dy: i64 = p1.y.raw as i64 - p0.y.raw as i64;
    proof {
        assert(-0x1000_0000_0000_0000 < t * dx < 0x1000_0000_0000_0000) by (nonlinear_arith)
            requires
                0 <= t < 16384,
                -0x400_0001 < dx < 0x400_0001,
        ;
    }
    let xo: i64 = floor_div_i64(t * dx, dy);
    i64_to_fixed(p0.x.raw as i64 + xo)
}

/// X where the edge from `p0` down to `p1` crosses the whole scanline
/// boundary before `p1` (`floor(p1.y)`); `None` when it leaves the
/// representable range.
pub fn slope_y_prev_scanline_intersection(p0: Vec3, p1: Vec3) -> (r: Option<Fixed>)
    requires
        vertex_in_range(p0),
        vertex_in_range(p1),
        p0.y.raw < p1.y.raw,
    ensures
        match r {
            Some(x) => x.value() == isect(p0, p1, floor_scan(p1.y.value()))
                && fits_fixed(isect(p0, p1, floor_scan(p1.y.value()))),
            None => !fits_fixed(isect(p0, p1, floor_scan(p1.y.value()))),
        },
{
    let y: u32 = (p1.y.raw as u32 / 65536) * 65536;
    proof {
        lemma_fundamental_div_mod(p1.y.raw as int, 65536);
        lemma_mod_pos_bound(p1.y.raw as int, 65536);
    }
    let t: i64 = y as i64 - p0.y.raw as i64;
    let dx: i64 = p1.x.raw as i64 - p0.x.raw as i64;
    let dy: i64 = p1.y.raw as i64 - p0.y.raw as i64;
    proof {
        assert(-0x1000_0000_0000_0000 < t * dx < 0x1000_0000_0000_0000) by (nonlinear_arith)
            requires
                -0x400_0001 < t < 0x400_0001,
                -0x400_0001 < dx < 0x400_0001,
        ;
    }
    let xo: i64 = floor_div_i64(t * dx, dy);
    i64_to_fixed(p0.x.raw as i64 + xo)
}

/// The vertices in ascending order of Y. Ties keep the earlier argument
/// first.
pub open spec fn sort3(v0: Vec3, v1: Vec3, v2: Vec3) -> (Vec3, Vec3, Vec3) {
    if v0.y.raw <= v1.y.raw {
        if v1.y.raw <= v2.y.raw {
            (v0, v1, v2)
        } else if v0.y.raw <= v2.y.raw {
            (v0, v2, v1)
        } else {
            (v2, v0, v1)
        }
    } else {
        if v0.y.raw <= v2.y.raw {
            (v1, v0, v2)
        } else if v1.y.raw <= v2.y.raw {
            (v1, v2, v0)
        } else {
            (v2, v1, v0)
        }
    }
}

/// `t` is one of the 6 orderings of `(a, b, c)`.
pub open spec fn is_perm3(t: (Vec3, Vec3, Vec3), a: Vec3, b: Vec3, c: Vec3) -> bool {
    t == (a, b, c) || t == (a, c, b) || t == (b, a, c) || t == (b, c, a) || t == (c, a, b)
        || t == (c, b, a)
}

/// The three Y coordinates are pairwise distinct.
pub open spec fn ys_distinct(v0: Vec3, v1: Vec3, v2: Vec3) -> bool {
    v0.y.raw != v1.y.raw && v0.y.raw != v2.y.raw && v1.y.raw != v2.y.raw
}

/// Sorts a triangle's vertices so that `r.0.y <= r.1.y <= r.2.y`.
pub fn sorted_triangle(v0: Vec3, v1: Vec3, v2: Vec3) -> (r: (Vec3, Vec3, Vec3))
    ensures
        r == sort3(v0, v1, v2),
        r.0.y.raw <= r.1.y.raw <= r.2.y.raw,
        is_perm3(r, v0, v1, v2),
{
    proof {
        lemma_sort3_sorted(v0, v1, v2);
    }
    if v0.y.raw <= v1.y.raw {
        if v1.y.raw <= v2.y.raw {
            (v0, v1, v2)
        } else if v0.y.raw <= v2.y.raw {
            (v0, v2, v1)
        } else {
            (v2, v0, v1)
        }
    } else {
        if v0.y.raw <= v2.y.raw {
            (v1, v0, v2)
        } else if v1.y.raw <= v2.y.raw {
            (v1, v2, v0)
        } else {
            (v2, v1, v0)
        }
    }
}

/// The sort yields an ordering of its inputs, ascending in Y.
pub proof fn lemma_sort3_sorted(v0: Vec3, v1: Vec3, v2: Vec3)
    ensures
        sort3(v0, v1, v2).0.y.raw <= sort3(v0, v1, v2).1.y.raw,
        sort3(v0, v1, v2).1.y.raw <= sort3(v0, v1, v2).2.y.raw,
        is_perm3(sort3(v0, v1, v2), v0, v1, v2),
{
}

/// Sorting is permutation-invariant: with distinct Y coordinates, every
/// one of the 6 input orderings of the same three vertices sorts to the
/// same `(low, mid, high)` triple.
pub proof fn lemma_sorted_triangle_permutation_invariant(
    v0: Vec3,
    v1: Vec3,
    v2: Vec3,
    w0: Vec3,
    w1: Vec3,
    w2: Vec3,
)
    requires
        ys_distinct(v0, v1, v2),
        is_perm3((w0, w1, w2), v0, v1, v2),
    ensures
        sort3(w0, w1, w2) == sort3(v0, v1, v2),
{
}

/// The whole scan-conversion setup is permutation-invariant: with
/// distinct Y coordinates, every ordering of the same three vertices is
/// accepted or rejected alike and yields the same coefficients, since
/// the setup depends on the vertices only through the sorted triple.
pub proof fn lemma_setup_permutation_invariant(
    v0: Vec3,
    v1: Vec3,
    v2: Vec3,
    w0: Vec3,
    w1: Vec3,
    w2: Vec3,
)
    requires
        ys_distinct(v0, v1, v2),
        is_perm3((w0, w1, w2), v0, v1, v2),
    ensures
        setup_ok(w0, w1, w2) == setup_ok(v0, v1, v2),
        tri_coeffs(w0, w1, w2) == tri_coeffs(v0, v1, v2),
{
    lemma_sorted_triangle_permutation_invariant(v0, v1, v2, w0, w1, w2);
}

/// The complete input of the hardware's triangle primitive: the
/// fill-direction flag, the three sorted Y coordinates, and one
/// `(anchor, slope)` record per sorted vertex, each value in the
/// integer + 16-bit-fraction codec fields.
#[derive(Clone, Copy, PartialEq, Eq, Structural, Debug)]
pub struct TriangleCoefficients {
    /// True when the mid anchor lies to the right of the high anchor
    /// (lexicographic on `(integer, fraction)`).
    pub right_major: bool,
    pub y_low: Fixed,
    pub y_mid: Fixed,
    pub y_high: Fixed,
    pub low_anchor_int: u16,
    pub low_anchor_frac: u16,
    pub mid_anchor_int: u16,
    pub mid_anchor_frac: u16,
    pub high_anchor_int: u16,
    pub high_anchor_frac: u16,
    pub low_slope_int: u16,
    pub low_slope_frac: u16,
    pub mid_slope_int: u16,
    pub mid_slope_frac: u16,
    pub high_slope_int: u16,
    pub high_slope_frac: u16,
}

/// Integer codec field of a raw 16.16 value (two's complement, 16 bits).
pub open spec fn field_int(v: int) -> int {
    (v / 65536) % 65536
}

/// Fraction codec field of a raw 16.16 value (low 16 bits).
pub open spec fn field_frac(v: int) -> int {
    v % 65536
}

/// The long-edge anchor of the sorted triangle: X of `low -> high` at the
/// sub-scanline boundary above the low vertex.
pub open spec fn low_anchor(lo: Vec3, hi: Vec3) -> int {
    isect(lo, hi, ceil4(lo.y.value()))
}

/// The mid anchor: X of `low -> mid` at the scanline boundary before the
/// mid vertex.
pub open spec fn mid_anchor(lo: Vec3, mi: Vec3) -> int {
    isect(lo, mi, floor_scan(mi.y.value()))
}

/// The high anchor: X of `mid -> high` at the scanline boundary before
/// the high vertex.
pub open spec fn high_anchor(mi: Vec3, hi: Vec3) -> int {
    isect(mi, hi, floor_scan(hi.y.value()))
}

/// All six derived values of the sorted triangle stay representable.
pub open spec fn setup_ok(v0: Vec3, v1: Vec3, v2: Vec3) -> bool {
    let s = sort3(v0, v1, v2);
    let lo = s.0;
    let mi = s.1;
    let hi = s.2;
    &&& lo.y.raw < mi.y.raw
    &&& mi.y.raw < hi.y.raw
    &&& fits_fixed(eslope(lo, hi))
    &&& fits_fixed(eslope(lo, mi))
    &&& fits_fixed(eslope(mi, hi))
    &&& fits_fixed(low_anchor(lo, hi))
    &&& fits_fixed(mid_anchor(lo, mi))
    &&& fits_fixed(high_anchor(mi, hi))
}

/// The coefficient record of a triangle accepted by [`setup_ok`].
pub open spec fn tri_coeffs(v0: Vec3, v1: Vec3, v2: Vec3) -> TriangleCoefficients {
    let s = sort3(v0, v1, v2);
    let lo = s.0;
    let mi = s.1;
    let hi = s.2;
    let la = low_anchor(lo, hi);
    let ma = mid_anchor(lo, mi);
    let ha = high_anchor(mi, hi);
    TriangleCoefficients {
        right_major: field_int(ma) > field_int(ha)
            || (field_int(ma) == field_int(ha) && field_frac(ma) > field_frac(ha)),
        y_low: lo.y,
        y_mid: mi.y,
        y_high: hi.y,
        low_anchor_int: field_int(la) as u16,
        low_anchor_frac: field_frac(la) as u16,
        mid_anchor_int: field_int(ma) as u16,
        mid_anchor_frac: field_frac(ma) as u16,
        high_anchor_int: field_int(ha) as u16,
        high_anchor_frac: field_frac(ha) as u16,
        low_slope_int: field_int(eslope(lo, hi)) as u16,
        low_slope_frac: field_frac(eslope(lo, hi)) as u16,
        mid_slope_int: field_int(eslope(lo, mi)) as u16,
        mid_slope_frac: field_frac(eslope(lo, mi)) as u16,
        high_slope_int: field_int(eslope(mi, hi)) as u16,
        high_slope_frac: field_frac(eslope(mi, hi)) as u16,
    }
}

/// Sorts the triangle and derives its complete scan-conversion setup.
/// Zero-height spans and unrepresentable slopes or anchors are rejected as
/// degenerate geometry; nothing is encoded for them.
pub fn setup_triangle(v0: Vec3, v1: Vec3, v2: Vec3) -> (r: Result<
    TriangleCoefficients,
    GfxError,
>)
    requires
        vertex_in_range(v0),
        vertex_in_range(v1),
        vertex_in_range(v2),
    ensures
        setup_ok(v0, v1, v2) ==> r == Ok::<TriangleCoefficients, GfxError>(
            tri_coeffs(v0, v1, v2),
        ),
        !setup_ok(v0, v1, v2) ==> r == Err::<TriangleCoefficients, GfxError>(
            GfxError::DegenerateGeometry,
        ),
{
    let (lo, mi, hi) = sorted_triangle(v0, v1, v2);
    if !(lo.y.raw < mi.y.raw && mi.y.raw < hi.y.raw) {
        return Err(GfxError::DegenerateGeometry);
    }
    let low_slope_v: Option<Fixed> = edge_slope(lo, hi);
    let mid_slope_v: Option<Fixed> = edge_slope(lo, mi);
    let high_slope_v: Option<Fixed> = edge_slope(mi, hi);
    let low_anchor_v: Option<Fixed> = slope_y_next_subpixel_intersection(lo, hi);
    let mid_anchor_v: Option<Fixed> = slope_y_prev_scanline_intersection(lo, mi);
    let high_anchor_v: Option<Fixed> = slope_y_prev_scanline_intersection(mi, hi);
    match (low_slope_v, mid_slope_v, high_slope_v, low_anchor_v, mid_anchor_v, high_anchor_v) {
        (Some(ls), Some(ms), Some(hs), Some(la), Some(ma), Some(ha)) => {
            let (la_i, la_f) = split_signed(la);
            let (ma_i, ma_f) = split_signed(ma);
            let (ha_i, ha_f) = split_signed(ha);
            let (ls_i, ls_f) = split_signed(ls);
            let (ms_i, ms_f) = split_signed(ms);
            let (hs_i, hs_f) = split_signed(hs);
            proof {
                lemma_split_signed_in_range(la);
                lemma_split_signed_in_range(ma);
                lemma_split_signed_in_range(ha);
            }
            Ok(TriangleCoefficients {
                right_major: int_frac_greater(ma_i, ma_f, ha_i, ha_f),
                y_low: lo.y,
                y_mid: mi.y,
                y_high: hi.y,
                low_anchor_int: la_i,
                low_anchor_frac: la_f,
                mid_anchor_int: ma_i,
                mid_anchor_frac: ma_f,
                high_anchor_int: ha_i,
                high_anchor_frac: ha_f,
                low_slope_int: ls_i,
                low_slope_frac: ls_f,
                mid_slope_int: ms_i,
                mid_slope_frac: ms_f,
                high_slope_int: hs_i,
                high_slope_frac: hs_f,
            })
        },
        _ => Err(GfxError::DegenerateGeometry),
    }
}

} // verus!
