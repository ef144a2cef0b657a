//! Error taxonomy of the drawing core.

use vstd::prelude::*;

verus! {

/// Rejected-result cases of the drawing core.
///
/// * `CapacityExceeded`: more primitives queued in one frame than the
///   active backend's fixed pool size.
/// * `DegenerateGeometry`: a triangle whose scan-conversion setup is not
///   representable: two vertices share a Y coordinate (a zero-height span,
///   whose slope would divide by zero), or an edge is so close to
///   horizontal that its slope or anchor leaves the 16.16 range.
/// * `BackendParityGap`: a capability exercised on a backend that has no
///   equivalent for it — mesh rendering on the alternate backend — so the
///   call is reported rather than silently dropped.
#[derive(Clone, Copy, PartialEq, Eq, Structural, Debug)]
pub enum GfxError {
    CapacityExceeded,
    DegenerateGeometry,
    BackendParityGap,
}

} // verus!
