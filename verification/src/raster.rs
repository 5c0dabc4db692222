//! Rasterization of tips into a tightly packed RGBA8 framebuffer.
//!
//! Each tip is projected into pixel space; tips strictly outside the visible
//! window `[0, width] x [0, height]` are skipped, the rest are rounded
//! half-to-even to a framebuffer cell `idx = round(y) * width + round(x)`
//! and a palette color is written at byte offset `idx * 4`.  Offsets beyond
//! the framebuffer's byte extent are silently dropped: a tip that has grown
//! out of view is expected steady state, never a fault.

use vstd::prelude::*;

use crate::config::GrowthConfig;
use crate::config::wf_config;
use crate::geometry::COORD_LIMIT;
use crate::geometry::VirtualPoint;
use crate::geometry::in_coord_range;
use crate::geometry::proj_x;
use crate::geometry::proj_y;
use crate::rounding::round_half_even;
use crate::rounding::spec_round;

verus! {

/// One RGBA color.
#[derive(Clone, Copy, PartialEq, Eq, Structural, Debug)]
pub struct Color {
    pub r: u8,
    pub g: u8,
    pub b: u8,
    pub a: u8,
}

/// Number of entries in the fixed render palette.
pub const PALETTE_LEN: u32 = 13;

/// The fixed 13-entry render palette, indexed by generation.
pub open spec fn spec_palette(i: int) -> Color {
    if i == 3 || i == 9 {
        Color { r: 115, g: 0, b: 13, a: 255 }
    } else if i == 4 || i == 6 || i == 7 || i == 11 {
        Color { r: 222, g: 87, b: 123, a: 255 }
    } else if i == 12 {
        Color { r: 230, g: 119, b: 184, a: 255 }
    } else {
        Color { r: 140, g: 4, b: 40, a: 255 }
    }
}

/// The palette color of generation `gen`: the palette is cycled, purely
/// cosmetically, once per generation.
pub fn palette_color(gen: u32) -> (c: Color)
    ensures
        c == spec_palette(gen as int % PALETTE_LEN as int),
{
    let i: u32 = gen % PALETTE_LEN;
    if i == 3 || i == 9 {
        Color { r: 115, g: 0, b: 13, a: 255 }
    } else if i == 4 || i == 6 || i == 7 || i == 11 {
        Color { r: 222, g: 87, b: 123, a: 255 }
    } else if i == 12 {
        Color { r: 230, g: 119, b: 184, a: 255 }
    } else {
        Color { r: 140, g: 4, b: 40, a: 255 }
    }
}

/// What painting a single tip does to the framebuffer bytes: project, skip
/// when strictly outside the visible window, otherwise round to a cell and
/// write the four color channels, unless the byte offset falls outside the
/// buffer.
pub open spec fn paint_tip(f: Seq<u8>, t: VirtualPoint, c: GrowthConfig, col: Color) -> Seq<u8> {
    let px = proj_x(t, c);
    let py = proj_y(t, c);
    if 0 <= px <= c.width * c.scale_den && 0 <= py <= c.height * c.scale_den {
        let idx = spec_round(py, c.scale_den as int) * c.width + spec_round(
            px,
            c.scale_den as int,
        );
        if idx * 4 + 4 <= f.len() {
            f.update(idx * 4, col.r).update(idx * 4 + 1, col.g).update(idx * 4 + 2, col.b).update(
                idx * 4 + 3,
                col.a,
            )
        } else {
            f
        }
    } else {
        f
    }
}

/// Painting a sequence of tips, in order.
pub open spec fn paint_seq(f: Seq<u8>, ts: Seq<VirtualPoint>, c: GrowthConfig, col: Color) -> Seq<
    u8,
>
    decreases ts.len(),
{
    if ts.len() == 0 {
        f
    } else {
        paint_tip(paint_seq(f, ts.drop_last(), c, col), ts.last(), c, col)
    }
}

/// Painting one more tip extends the fold by one step.
pub proof fn lemma_paint_seq_push(
    f: Seq<u8>,
    ts: Seq<VirtualPoint>,
    t: VirtualPoint,
    c: GrowthConfig,
    col: Color,
)
    ensures
        paint_seq(f, ts.push(t), c, col) == paint_tip(paint_seq(f, ts, c, col), t, c, col),
{
    assert(ts.push(t).drop_last() =~= ts);
    assert(ts.push(t).last() == t);
}

/// Painting one tip never changes the framebuffer's length.
pub proof fn lemma_paint_tip_len(f: Seq<u8>, t: VirtualPoint, c: GrowthConfig, col: Color)
    requires
        wf_config(c),
    ensures
        paint_tip(f, t, c, col).len() == f.len(),
{
    let px = proj_x(t, c);
    let py = proj_y(t, c);
    let sd = c.scale_den as int;
    if 0 <= px <= c.width * c.scale_den && 0 <= py <= c.height * c.scale_den {
        let idx = spec_round(py, sd) * c.width + spec_round(px, sd);
        crate::rounding::lemma_round_nonneg(px, sd);
        crate::rounding::lemma_round_nonneg(py, sd);
        vstd::arithmetic::mul::lemma_mul_nonnegative(spec_round(py, sd), c.width as int);
        assert(idx >= 0);
    }
}

/// Painting never changes the framebuffer's length.
pub proof fn lemma_paint_seq_len(f: Seq<u8>, ts: Seq<VirtualPoint>, c: GrowthConfig, col: Color)
    requires
        wf_config(c),
    ensures
        paint_seq(f, ts, c, col).len() == f.len(),
    decreases ts.len(),
{
    if ts.len() > 0 {
        lemma_paint_seq_len(f, ts.drop_last(), c, col);
        lemma_paint_tip_len(paint_seq(f, ts.drop_last(), c, col), ts.last(), c, col);
    }
}

/// Paints one tip into the framebuffer, exactly as [`paint_tip`] describes.
pub fn paint_point(t: VirtualPoint, frame: &mut Vec<u8>, c: &GrowthConfig, col: Color)
    requires
        wf_config(*c),
        in_coord_range(t, COORD_LIMIT as int),
    ensures
        final(frame)@ == paint_tip(old(frame)@, t, *c, col),
{
    let q = crate::geometry::project(t, c);
    proof {
        assert(c.width as int * (c.scale_den as int) <= 0x10_0000_0000 && c.height as int * (
        c.scale_den as int) <= 0x10_0000_0000 && 0 <= c.width as int * (c.scale_den as int) && 0
            <= c.height as int * (c.scale_den as int)) by (nonlinear_arith)
            requires
                0 <= c.width <= 0x1_0000,
                0 <= c.height <= 0x1_0000,
                0 <= c.scale_den <= 0x10_0000,
        ;
    }
    let wsd: i64 = (c.width as i64) * (c.scale_den as i64);
    let hsd: i64 = (c.height as i64) * (c.scale_den as i64);
    if 0 <= q.x && q.x <= wsd && 0 <= q.y && q.y <= hsd {
        let rx: u64 = round_half_even(q.x as u64, c.scale_den as u64);
        let ry: u64 = round_half_even(q.y as u64, c.scale_den as u64);
        proof {
            crate::rounding::lemma_round_le(q.x as int, c.scale_den as int, c.width as int);
            crate::rounding::lemma_round_le(q.y as int, c.scale_den as int, c.height as int);
            vstd::arithmetic::mul::lemma_mul_upper_bound(
                ry as int,
                c.height as int,
                c.width as int,
                0x1_0000,
            );
            vstd::arithmetic::mul::lemma_mul_inequality(
                spec_round(proj_y(t, *c), c.scale_den as int),
                ry as int,
                c.width as int,
            );
        }
        let idx: u64 = ry * (c.width as u64) + rx;
        let off: u64 = idx * 4;
        if off + 4 <= frame.len() as u64 {
            let o: usize = off as usize;
            frame[o] = col.r;
            frame[o + 1] = col.g;
            frame[o + 2] = col.b;
            frame[o + 3] = col.a;
        }
    }
}

} // verus!
