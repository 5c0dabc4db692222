//! Growth configuration: framebuffer extent, pan/zoom transform, branching
//! rule tier, and the tick multiplicity per presentation frame.
//!
//! The zoom scale is an exact positive rational `scale_num / scale_den`.
//! Changing any field invalidates an in-progress growth: the engine must be
//! rebuilt through `Engine::reset`.

use vstd::prelude::*;

verus! {

/// Largest accepted framebuffer dimension (pixels).
pub const MAX_DIM: usize = 65536;

/// Largest accepted numerator or denominator of the zoom scale.
pub const MAX_SCALE: u32 = 1048576;

/// Largest accepted magnitude of a pan offset (whole pixels).
pub const MAX_PAN: i64 = 2147483648;

/// Engine configuration.  All geometry is derived from these fields; a
/// configuration is only meaningful when [`wf_config`] holds of it.
#[derive(Clone, Copy, PartialEq, Eq, Structural, Debug)]
pub struct GrowthConfig {
    /// Framebuffer width in pixels.
    pub width: usize,
    /// Framebuffer height in pixels.
    pub height: usize,
    /// Pan offset along x, in whole pixels, applied after scaling.
    pub pan_x: i64,
    /// Pan offset along y, in whole pixels, applied after scaling.
    pub pan_y: i64,
    /// Numerator of the zoom scale.
    pub scale_num: u32,
    /// Denominator of the zoom scale.
    pub scale_den: u32,
    /// How many turning rules are active, cumulative, in `1..=4`.
    pub branch_rules: u8,
    /// Growth steps the presentation shell should run per frame.
    pub ticks_per_frame: u32,
}

/// Validity of a configuration: positive rational zoom, rule tier in range,
/// and bounds that keep every derived quantity inside fixed-width integers.
pub open spec fn wf_config(c: GrowthConfig) -> bool {
    &&& 1 <= c.width <= MAX_DIM
    &&& 1 <= c.height <= MAX_DIM
    &&& 1 <= c.scale_num <= MAX_SCALE
    &&& 1 <= c.scale_den <= MAX_SCALE
    &&& -MAX_PAN <= c.pan_x <= MAX_PAN
    &&& -MAX_PAN <= c.pan_y <= MAX_PAN
    &&& 1 <= c.branch_rules <= 4
    &&& 1 <= c.ticks_per_frame
}

/// Runtime check of [`wf_config`], for callers outside verified code.
pub fn check_config(c: &GrowthConfig) -> (r: bool)
    ensures
        r == wf_config(*c),
{
    1 <= c.width && c.width <= MAX_DIM && 1 <= c.height && c.height <= MAX_DIM && 1
        <= c.scale_num && c.scale_num <= MAX_SCALE && 1 <= c.scale_den && c.scale_den <= MAX_SCALE
        && -MAX_PAN <= c.pan_x && c.pan_x <= MAX_PAN && -MAX_PAN <= c.pan_y && c.pan_y <= MAX_PAN
        && 1 <= c.branch_rules && c.branch_rules <= 4 && 1 <= c.ticks_per_frame
}

/// The next branching-rule tier in the control cycle 1 -> 2 -> 3 -> 4 -> 1.
pub fn cycle_branch_rules(rules: u8) -> (r: u8)
    requires
        1 <= rules <= 4,
    ensures
        r == if rules == 4 {
            1u8
        } else {
            (rules + 1) as u8
        },
        1 <= r <= 4,
{
    if rules == 4 {
        1
    } else {
        rules + 1
    }
}

} // verus!
