//! Points and the affine transform between virtual growth space and pixel
//! space.
//!
//! A [`VirtualPoint`] stores a virtual coordinate times `scale_num`: the
//! point's real position is `(x / scale_num, y / scale_num)`.  A
//! [`PixelPoint`] stores a pixel coordinate times `scale_den`: its position
//! on the framebuffer is `(x / scale_den, y / scale_den)`.  With those
//! units, the forward transform `pixel = virtual * scale - pan` and its
//! inverse `virtual = (pixel + pan) / scale` are the exact integer maps
//! below, and they invert each other without loss.

use vstd::prelude::*;

use crate::config::GrowthConfig;
use crate::config::wf_config;

verus! {

/// Coordinates accepted by the projection, in virtual numerator units.
/// Everything the engine ever produces stays far below this bound.
pub const COORD_LIMIT: i64 = 2_000_000_000_000_000_000;

/// A point of the unbounded virtual growth plane, as numerators over
/// `scale_num`.
#[derive(Clone, Copy, PartialEq, Eq, Structural, Debug)]
pub struct VirtualPoint {
    pub x: i64,
    pub y: i64,
}

/// A point of pixel space, as numerators over `scale_den`.
#[derive(Clone, Copy, PartialEq, Eq, Structural, Debug)]
pub struct PixelPoint {
    pub x: i64,
    pub y: i64,
}

/// Whether both coordinates of a virtual point are at most `b` in magnitude.
pub open spec fn in_coord_range(p: VirtualPoint, b: int) -> bool {
    &&& -b <= p.x <= b
    &&& -b <= p.y <= b
}

/// The projected x numerator: `virtual_x * scale - pan_x`, in units of
/// `1 / scale_den`.  With `virtual_x = p.x / scale_num` and
/// `scale = scale_num / scale_den`, the scale numerators cancel and only the
/// pan term needs rescaling.
pub open spec fn proj_x(p: VirtualPoint, c: GrowthConfig) -> int {
    p.x - c.pan_x * c.scale_den
}

/// The projected y numerator; see [`proj_x`].
pub open spec fn proj_y(p: VirtualPoint, c: GrowthConfig) -> int {
    p.y - c.pan_y * c.scale_den
}

/// The inverse transform on the x numerator: `(pixel_x + pan_x) / scale`,
/// in units of `1 / scale_num`.
pub open spec fn unproj_x(q: PixelPoint, c: GrowthConfig) -> int {
    q.x + c.pan_x * c.scale_den
}

/// The inverse transform on the y numerator; see [`unproj_x`].
pub open spec fn unproj_y(q: PixelPoint, c: GrowthConfig) -> int {
    q.y + c.pan_y * c.scale_den
}

/// Forward projection of a virtual point into pixel space.
pub fn project(p: VirtualPoint, c: &GrowthConfig) -> (q: PixelPoint)
    requires
        wf_config(*c),
        in_coord_range(p, COORD_LIMIT as int),
    ensures
        q.x as int == proj_x(p, *c),
        q.y as int == proj_y(p, *c),
{
    proof {
        lemma_pan_term_bounded(*c);
    }
    PixelPoint { x: p.x - c.pan_x * (c.scale_den as i64), y: p.y - c.pan_y * (c.scale_den as i64) }
}

/// Inverse projection of a pixel point back into virtual space.
pub fn pixel_to_virtual(q: PixelPoint, c: &GrowthConfig) -> (p: VirtualPoint)
    requires
        wf_config(*c),
        -COORD_LIMIT <= q.x <= COORD_LIMIT,
        -COORD_LIMIT <= q.y <= COORD_LIMIT,
    ensures
        p.x as int == unproj_x(q, *c),
        p.y as int == unproj_y(q, *c),
{
    proof {
        lemma_pan_term_bounded(*c);
    }
    VirtualPoint { x: q.x + c.pan_x * (c.scale_den as i64), y: q.y + c.pan_y * (c.scale_den as i64) }
}

/// The pan term `pan * scale_den` of a valid configuration is small enough
/// that projecting a point within [`COORD_LIMIT`] cannot overflow an `i64`.
proof fn lemma_pan_term_bounded(c: GrowthConfig)
    requires
        wf_config(c),
    ensures
        -0x8_0000_0000_0000 <= c.pan_x * c.scale_den <= 0x8_0000_0000_0000,
        -0x8_0000_0000_0000 <= c.pan_y * c.scale_den <= 0x8_0000_0000_0000,
{
    assert(-0x8_0000_0000_0000 <= c.pan_x * c.scale_den <= 0x8_0000_0000_0000)
        by (nonlinear_arith)
        requires
            -0x8000_0000 <= c.pan_x <= 0x8000_0000,
            1 <= c.scale_den <= 0x10_0000,
    ;
    assert(-0x8_0000_0000_0000 <= c.pan_y * c.scale_den <= 0x8_0000_0000_0000)
        by (nonlinear_arith)
        requires
            -0x8000_0000 <= c.pan_y <= 0x8000_0000,
            1 <= c.scale_den <= 0x10_0000,
    ;
}

/// Round trip: projecting a virtual point and mapping the result back
/// through the inverse transform returns the point exactly, and likewise
/// starting from a pixel point.  The two transforms are mutually inverse
/// bijections of the integer lattices.
pub proof fn lemma_projection_round_trip(p: VirtualPoint, q: PixelPoint, c: GrowthConfig)
    requires
        wf_config(c),
    ensures
        in_coord_range(p, COORD_LIMIT as int) ==> {
            let proj = (PixelPoint { x: proj_x(p, c) as i64, y: proj_y(p, c) as i64 });
            unproj_x(proj, c) == p.x && unproj_y(proj, c) == p.y
        },
        -COORD_LIMIT <= q.x <= COORD_LIMIT && -COORD_LIMIT <= q.y <= COORD_LIMIT ==> {
            let unproj = (VirtualPoint { x: unproj_x(q, c) as i64, y: unproj_y(q, c) as i64 });
            proj_x(unproj, c) == q.x && proj_y(unproj, c) == q.y
        },
{
    lemma_pan_term_bounded(c);
}

} // verus!
