//! The growth engine: generation scheduler, branch transitions, per-tick
//! movement of the front, and delegation to the rasterizer.
//!
//! The schedule keeps the current segment length as the exact rational
//! `seg / den` pixels, where `seg = (height / 2) * scale_num` is fixed by the
//! configuration and `den = scale_den * 2^h` doubles at every halving of the
//! segment length.  `remaining` counts down the ticks of the current segment,
//! recomputed as `round(seg / den)` after each halving; when that rounds to
//! zero the engine retires into the `exhausted` state and idles until it is
//! rebuilt by [`Engine::reset`].

use vstd::prelude::*;

use crate::config::GrowthConfig;
use crate::config::wf_config;
use crate::geometry::VirtualPoint;
use crate::geometry::in_coord_range;
use crate::population::Direction;
use crate::population::PopModel;
use crate::population::Population;
use crate::population::seq_within;
use crate::population::spec_transition;
use crate::population::within;
use crate::raster::Color;
use crate::raster::paint_seq;
use crate::raster::spec_palette;
use crate::rounding::round_half_even;
use crate::rounding::spec_round;

verus! {

/// Coordinate magnitude that any tip the engine ever holds stays under.
pub const TIP_LIMIT: i64 = 1_400_000_000_000_000_000;

/// The growth engine's whole state.
pub struct Engine {
    pub config: GrowthConfig,
    /// Denominator of the current segment length in pixels:
    /// `scale_den * 2^halvings`.
    pub den: u64,
    /// Ticks left in the current segment.
    pub remaining: u64,
    /// Number of branch transitions performed; selects the render color.
    pub gen: u32,
    /// Set once the segment length has rounded down to zero ticks; the
    /// engine then idles until reset.
    pub exhausted: bool,
    pub pop: Population,
}

/// The fixed initial segment length in virtual units, times `scale_num`:
/// half the framebuffer height, scaled into virtual numerator units.
pub open spec fn seg_of(c: GrowthConfig) -> int {
    (c.height as int / 2) * c.scale_num
}

/// The seed tip: virtual `(0, -height/2)`, in numerator units.
pub open spec fn seed_point(c: GrowthConfig) -> VirtualPoint {
    VirtualPoint { x: 0, y: (0 - seg_of(c)) as i64 }
}

/// A sequence of tips, each moved one step `(dx, dy)` in numerator units.
pub open spec fn moved(s: Seq<VirtualPoint>, dx: int, dy: int) -> Seq<VirtualPoint> {
    s.map_values(|p: VirtualPoint| (VirtualPoint { x: (p.x + dx) as i64, y: (p.y + dy) as i64 }))
}

/// One tick of movement for a whole front: every tip advances by one step of
/// `1 / scale` in virtual units, which is `scale_den` in numerator units,
/// along its own direction's axis.
pub open spec fn moved_pop(m: PopModel, sd: int) -> PopModel {
    PopModel {
        down: moved(m.down, 0, sd),
        up: moved(m.up, 0, -sd),
        right: moved(m.right, sd, 0),
        left: moved(m.left, -sd, 0),
    }
}

/// One tick's framebuffer effect: the four direction collections painted in
/// the fixed order left, right, up, down.
pub open spec fn painted(f: Seq<u8>, m: PopModel, c: GrowthConfig, col: Color) -> Seq<u8> {
    paint_seq(
        paint_seq(paint_seq(paint_seq(f, m.left, c, col), m.right, c, col), m.up, c, col),
        m.down,
        c,
        col,
    )
}

impl Engine {
    /// Number of segment-length halvings so far: one per transition, plus
    /// the final halving that retired the engine.
    pub open spec fn halvings(self) -> nat {
        self.gen as nat + if self.exhausted {
            1nat
        } else {
            0nat
        }
    }

    /// Magnitude bound on every tip coordinate: the seed magnitude plus one
    /// step per tick that can have happened so far.
    pub open spec fn pos_limit(self) -> int {
        seg_of(self.config) + self.config.scale_den * ((self.gen + 1) * seg_of(self.config)
            - self.remaining)
    }

    /// Well-formedness: the schedule fields encode `scale_den * 2^halvings`,
    /// stay small enough for the arithmetic, and every tip is within the
    /// movement budget spent so far.
    pub open spec fn wf(self) -> bool {
        &&& wf_config(self.config)
        &&& 1 <= self.den
        &&& self.den as int == self.config.scale_den * vstd::arithmetic::power2::pow2(
            self.halvings(),
        )
        &&& self.den as int <= 4 * seg_of(self.config) + 2 * self.config.scale_den
        &&& (!self.exhausted ==> (self.den == self.config.scale_den as u64 || self.den as int <= 2
            * seg_of(self.config)))
        &&& self.gen <= 37
        &&& self.remaining as int <= seg_of(self.config)
        &&& within(self.pop@, self.pos_limit())
    }

    /// The configuration this engine was built with.
    pub fn config(&self) -> (c: GrowthConfig)
        ensures
            c == self.spec_config(),
    {
        self.config
    }

    /// The generation index: how many branch transitions have happened.
    pub fn generation(&self) -> (g: u32)
        ensures
            g as int == self.spec_gen(),
    {
        self.gen
    }

    /// Ticks left in the current segment.
    pub fn remaining_ticks(&self) -> (r: u64)
        ensures
            r as int == self.spec_remaining(),
    {
        self.remaining
    }

    /// Whether the engine has retired: the segment length rounds to zero
    /// ticks and no further growth occurs until reset.
    pub fn is_exhausted(&self) -> (e: bool)
        ensures
            e == self.spec_exhausted(),
    {
        self.exhausted
    }

    /// The current growth front.
    pub fn population(&self) -> (p: &Population)
        ensures
            p@ == self.front(),
    {
        &self.pop
    }

    /// Spec view of the current front.
    pub open spec fn front(self) -> PopModel {
        self.pop@
    }

    /// Spec view of the schedule denominator.
    pub open spec fn spec_den(self) -> int {
        self.den as int
    }

    /// Spec view of the remaining tick count.
    pub open spec fn spec_remaining(self) -> int {
        self.remaining as int
    }

    /// Spec view of the generation index.
    pub open spec fn spec_gen(self) -> int {
        self.gen as int
    }

    /// Spec view of the exhaustion flag.
    pub open spec fn spec_exhausted(self) -> bool {
        self.exhausted
    }

    /// Spec view of the configuration.
    pub open spec fn spec_config(self) -> GrowthConfig {
        self.config
    }

    /// What `remaining` would be recomputed to by the next halving.
    pub open spec fn next_remaining(self) -> int {
        spec_round(seg_of(self.config), 2 * self.den as int)
    }

    /// (Re)initializes the engine: a single seed tip at the fixed starting
    /// position moving down, generation zero, and a fresh schedule with the
    /// full initial segment length of `height / 2` virtual units.  The
    /// result is a pure function of the configuration: resetting twice with
    /// the same configuration gives identical engine state.
    pub fn reset(config: GrowthConfig) -> (e: Engine)
        requires
            wf_config(config),
        ensures
            e.wf(),
            e.spec_config() == config,
            e.spec_gen() == 0,
            !e.spec_exhausted(),
            e.spec_den() == config.scale_den as int,
            e.spec_remaining() == spec_round(seg_of(config), config.scale_den as int),
            e.front() == (PopModel {
                down: seq![seed_point(config)],
                up: Seq::<VirtualPoint>::empty(),
                right: Seq::<VirtualPoint>::empty(),
                left: Seq::<VirtualPoint>::empty(),
            }),
    {
        proof {
            lemma_seg_bounds(config);
        }
        let seg: u64 = seg_px(&config);
        let remaining: u64 = round_half_even(seg, config.scale_den as u64);
        let seed = VirtualPoint { x: 0, y: -(seg as i64) };
        let pop = Population::single(seed, Direction::Down);
        let e = Engine {
            config,
            den: config.scale_den as u64,
            remaining,
            gen: 0,
            exhausted: false,
            pop,
        };
        proof {
            vstd::arithmetic::power2::lemma2_to64();
            vstd::arithmetic::mul::lemma_mul_basics(config.scale_den as int);
            vstd::arithmetic::mul::lemma_mul_basics(seg_of(config));
            assert(e.den as int == config.scale_den * vstd::arithmetic::power2::pow2(0));
            vstd::arithmetic::mul::lemma_mul_nonnegative(
                config.scale_den as int,
                seg_of(config) - remaining,
            );
            assert(e.pos_limit() == seg_of(config) + config.scale_den * (seg_of(config)
                - remaining));
            assert(in_coord_range(seed, e.pos_limit()));
        }
        e
    }

    /// Performs one tick.
    ///
    /// If the current segment is spent, the segment length halves first:
    /// either the new length still rounds to at least one tick, and a branch
    /// transition replaces the whole front by its descendants and starts the
    /// next generation, or it rounds to zero and the engine retires without
    /// touching the framebuffer.  An active tick then moves every tip one
    /// step of `1 / scale` along its direction and paints the whole moved
    /// front into the framebuffer, in the order left, right, up, down, with
    /// the current generation's palette color.  Byte offsets outside the
    /// framebuffer are silently dropped, never a fault.
    pub fn advance(&mut self, frame: &mut Vec<u8>)
        requires
            old(self).wf(),
        ensures
            final(self).wf(),
            final(self).spec_config() == old(self).spec_config(),
            // A retired engine idles: no state change, no pixel writes.
            old(self).spec_exhausted() ==> {
                &&& final(self).spec_exhausted()
                &&& final(self).spec_gen() == old(self).spec_gen()
                &&& final(self).spec_den() == old(self).spec_den()
                &&& final(self).spec_remaining() == old(self).spec_remaining()
                &&& final(self).front() == old(self).front()
                &&& final(frame)@ == old(frame)@
            },
            // A tick inside the current segment: one step of movement, one
            // round of painting, one tick consumed; the schedule and the
            // generation stand.
            !old(self).spec_exhausted() && old(self).spec_remaining() > 0 ==> {
                &&& !final(self).spec_exhausted()
                &&& final(self).spec_gen() == old(self).spec_gen()
                &&& final(self).spec_den() == old(self).spec_den()
                &&& final(self).spec_remaining() == old(self).spec_remaining() - 1
                &&& final(self).front() == moved_pop(
                    old(self).front(),
                    old(self).spec_config().scale_den as int,
                )
                &&& final(frame)@ == painted(
                    old(frame)@,
                    final(self).front(),
                    old(self).spec_config(),
                    spec_palette(old(self).spec_gen() % 13),
                )
            },
            // The segment is spent and the halved length still rounds to at
            // least one tick: branch transition, then the first tick of the
            // new generation.
            !old(self).spec_exhausted() && old(self).spec_remaining() == 0 && old(self).next_remaining() > 0 ==> {
                &&& !final(self).spec_exhausted()
                &&& final(self).spec_gen() == old(self).spec_gen() + 1
                &&& final(self).spec_den() == 2 * old(self).spec_den()
                &&& final(self).spec_remaining() == old(self).next_remaining() - 1
                &&& final(self).front() == moved_pop(
                    spec_transition(old(self).front(), old(self).spec_config().branch_rules),
                    old(self).spec_config().scale_den as int,
                )
                &&& final(frame)@ == painted(
                    old(frame)@,
                    final(self).front(),
                    old(self).spec_config(),
                    spec_palette((old(self).spec_gen() + 1) % 13),
                )
            },
            // The halved length rounds to zero ticks: the engine retires,
            // the front and the framebuffer stand untouched.
            !old(self).spec_exhausted() && old(self).spec_remaining() == 0 && old(self).next_remaining() == 0 ==> {
                &&& final(self).spec_exhausted()
                &&& final(self).spec_gen() == old(self).spec_gen()
                &&& final(self).spec_den() == 2 * old(self).spec_den()
                &&& final(self).spec_remaining() == 0
                &&& final(self).front() == old(self).front()
                &&& final(frame)@ == old(frame)@
            },
    {
        if self.exhausted {
            return ;
        }
        proof {
            lemma_seg_bounds(self.config);
        }
        let seg: u64 = seg_px(&self.config);
        if self.remaining == 0 {
            self.den = self.den * 2;
            proof {
                lemma_pow2_step(old(self).halvings());
                vstd::arithmetic::mul::lemma_mul_is_associative(
                    self.config.scale_den as int,
                    vstd::arithmetic::power2::pow2(old(self).halvings()) as int,
                    2,
                );
                vstd::arithmetic::mul::lemma_mul_is_commutative(
                    vstd::arithmetic::power2::pow2(old(self).halvings()) as int,
                    2,
                );
                vstd::arithmetic::mul::lemma_mul_is_commutative(
                    self.config.scale_den as int,
                    vstd::arithmetic::power2::pow2(old(self).halvings() + 1) as int,
                );
                assert(self.den as int == self.config.scale_den * vstd::arithmetic::power2::pow2(
                    old(self).halvings() + 1,
                ));
            }
            let r: u64 = round_half_even(seg, self.den);
            if r == 0 {
                self.exhausted = true;
                proof {
                    assert(self.halvings() == old(self).halvings() + 1);
                    assert(self.pos_limit() == old(self).pos_limit());
                }
                return ;
            }
            self.pop.branch_transition(self.config.branch_rules);
            self.gen = self.gen + 1;
            self.remaining = r;
            proof {
                lemma_schedule_after_transition(*old(self), *self, seg as int, r as int);
            }
        }
        let ghost s0 = *self;
        self.remaining = self.remaining - 1;
        let ghost mid = *self;
        proof {
            lemma_tick_budget(s0, mid);
        }
        let col = crate::raster::palette_color(self.gen);
        let sd: i64 = self.config.scale_den as i64;
        tick_dir(&mut self.pop.left, -sd, 0, frame, &self.config, col);
        tick_dir(&mut self.pop.right, sd, 0, frame, &self.config, col);
        tick_dir(&mut self.pop.up, 0, -sd, frame, &self.config, col);
        tick_dir(&mut self.pop.down, 0, sd, frame, &self.config, col);
        proof {
            assert(self.pop@ =~= moved_pop(mid.front(), sd as int));
        }
    }
}

/// The segment length is non-increasing — it halves exactly once per
/// transition, as [`Engine::advance`] ensures — and the engine retires after
/// a finite, computable number of transitions determined solely by the
/// initial segment length and the zoom scale: the schedule denominator
/// `scale_den * 2^halvings` doubles at every transition yet can never pass
/// `4 * seg + 2 * scale_den`, so the generation index is capped by the
/// smallest exponent whose power of two outgrows that bound.
pub proof fn lemma_generations_bounded(e: Engine)
    requires
        e.wf(),
    ensures
        vstd::arithmetic::power2::pow2(e.spec_gen() as nat) * e.spec_config().scale_den <= 4
            * seg_of(e.spec_config()) + 2 * e.spec_config().scale_den,
        e.spec_gen() <= 37,
{
    let sd = e.spec_config().scale_den as int;
    let g = e.spec_gen() as nat;
    let h = e.halvings();
    let pg = vstd::arithmetic::power2::pow2(g);
    let ph = vstd::arithmetic::power2::pow2(h);
    if g < h {
        vstd::arithmetic::power2::lemma_pow2_strictly_increases(g, h);
    }
    assert(pg as int * sd <= ph as int * sd) by {
        vstd::arithmetic::mul::lemma_mul_inequality(pg as int, ph as int, sd);
    }
    vstd::arithmetic::mul::lemma_mul_is_commutative(sd, ph as int);
}

/// The initial segment length in numerator units, `(height / 2) * scale_num`.
pub(crate) fn seg_px(c: &GrowthConfig) -> (s: u64)
    requires
        wf_config(*c),
    ensures
        s as int == seg_of(*c),
        s <= 0x8_0000_0000,
{
    proof {
        lemma_seg_bounds(*c);
    }
    ((c.height / 2) as u64) * (c.scale_num as u64)
}

/// Bounds of the initial segment length under a valid configuration.
pub proof fn lemma_seg_bounds(c: GrowthConfig)
    requires
        wf_config(c),
    ensures
        0 <= seg_of(c) <= 0x8_0000_0000,
{
    let hh = c.height as int / 2;
    assert(0 <= hh <= 0x8000);
    assert(0 <= hh * c.scale_num <= 0x8_0000_0000) by (nonlinear_arith)
        requires
            0 <= hh <= 0x8000,
            1 <= c.scale_num <= 0x10_0000,
    ;
}

/// Doubling a power of two advances the exponent.
proof fn lemma_pow2_step(e: nat)
    ensures
        vstd::arithmetic::power2::pow2(e + 1) == vstd::arithmetic::power2::pow2(e) * 2,
{
    vstd::arithmetic::power2::lemma_pow2_adds(e, 1);
    vstd::arithmetic::power2::lemma2_to64();
}

/// After a successful transition the rebuilt schedule is well formed: the
/// new remaining count fits under the segment budget, the doubled
/// denominator stays tight, and the new generation index stays under its
/// cap.  This is the finite-exhaustion argument: the denominator doubles at
/// every transition but can never exceed twice the fixed segment numerator,
/// so the number of transitions is bounded by a function of the initial
/// segment length and the zoom scale alone.
proof fn lemma_schedule_after_transition(pre: Engine, post: Engine, seg: int, r: int)
    requires
        pre.wf(),
        !pre.spec_exhausted(),
        pre.spec_remaining() == 0,
        seg == seg_of(pre.spec_config()),
        post.spec_config() == pre.spec_config(),
        post.spec_den() == 2 * pre.spec_den(),
        post.spec_den() == post.spec_config().scale_den * vstd::arithmetic::power2::pow2(
            pre.halvings() + 1,
        ),
        r == spec_round(seg, post.spec_den()),
        1 <= r,
        post.spec_remaining() == r,
        post.spec_gen() == pre.spec_gen() + 1,
        !post.spec_exhausted(),
        post.front() == spec_transition(pre.front(), pre.spec_config().branch_rules),
    ensures
        post.spec_den() <= 2 * seg,
        post.spec_gen() <= 36,
        post.wf(),
{
    let c = pre.spec_config();
    let sd = c.scale_den as int;
    lemma_seg_bounds(c);
    // A positive rounding keeps the denominator under twice the numerator.
    assert(post.spec_den() <= 2 * seg) by {
        if post.spec_den() > 2 * seg {
            crate::rounding::lemma_round_half_zero(seg, post.spec_den());
        }
    }
    // The new remaining count respects the budget.
    assert(r <= seg) by {
        if seg == 0 {
            crate::rounding::lemma_round_half_zero(seg, post.spec_den());
        } else {
            vstd::arithmetic::mul::lemma_mul_increases(post.spec_den(), seg);
            vstd::arithmetic::mul::lemma_mul_is_commutative(post.spec_den(), seg);
            crate::rounding::lemma_round_le(seg, post.spec_den(), seg);
        }
    }
    // The generation cap: `scale_den * 2^halvings <= 2 * seg <= 2^37`.
    assert(post.spec_gen() <= 36) by {
        let h = pre.halvings() + 1;
        let p = vstd::arithmetic::power2::pow2(h);
        assert(p as int <= post.spec_den()) by {
            vstd::arithmetic::power2::lemma_pow2_pos(h);
            vstd::arithmetic::mul::lemma_mul_increases(sd, p as int);
            vstd::arithmetic::mul::lemma_mul_is_commutative(sd, p as int);
        }
        if post.spec_gen() > 36 {
            assert(h >= 37);
            vstd::arithmetic::power2::lemma_pow2_strictly_increases(36, h);
            vstd::arithmetic::power2::lemma2_to64_rest();
            assert(false);
        }
    }
    // The position budget only grows across the transition.
    assert(post.pos_limit() >= pre.pos_limit()) by {
        let g = pre.spec_gen();
        assert((g + 2) * seg == (g + 1) * seg + seg) by {
            vstd::arithmetic::mul::lemma_mul_is_distributive_add_other_way(seg, g + 1, 1);
            vstd::arithmetic::mul::lemma_mul_basics(seg);
        }
        assert((g + 2) * seg - r >= (g + 1) * seg - 0);
        vstd::arithmetic::mul::lemma_mul_left_inequality(sd, (g + 1) * seg - 0, (g + 2) * seg - r);
    }
    crate::population::lemma_transition_within(pre.front(), c.branch_rules, pre.pos_limit());
    crate::population::lemma_within_weaken(post.front(), pre.pos_limit(), post.pos_limit());
}

/// Spending one tick raises the position budget by exactly one movement
/// step, so the front about to move lies inside the absolute
/// [`TIP_LIMIT`] and its moved image lies inside the new budget.
proof fn lemma_tick_budget(s0: Engine, mid: Engine)
    requires
        s0.wf(),
        !s0.spec_exhausted(),
        s0.spec_remaining() >= 1,
        mid.spec_config() == s0.spec_config(),
        mid.spec_den() == s0.spec_den(),
        mid.spec_gen() == s0.spec_gen(),
        !mid.spec_exhausted(),
        mid.spec_remaining() == s0.spec_remaining() - 1,
        mid.front() == s0.front(),
    ensures
        within(mid.front(), TIP_LIMIT as int),
        within(
            moved_pop(mid.front(), mid.spec_config().scale_den as int),
            mid.pos_limit(),
        ),
        mid.pos_limit() == s0.pos_limit() + mid.spec_config().scale_den,
{
    let c = s0.spec_config();
    let sd = c.scale_den as int;
    let seg = seg_of(c);
    let g = s0.spec_gen();
    let rem = s0.spec_remaining();
    lemma_seg_bounds(c);
    // Spending a tick raises the budget by one step.
    assert(sd * ((g + 1) * seg - (rem - 1)) == sd * ((g + 1) * seg - rem) + sd) by {
        vstd::arithmetic::mul::lemma_mul_is_distributive_add(sd, (g + 1) * seg - rem, 1);
        vstd::arithmetic::mul::lemma_mul_basics(sd);
    }
    assert(mid.pos_limit() == s0.pos_limit() + sd);
    // The budget stays far below the absolute coordinate limit, and is
    // never negative: at most `seg` ticks of the budget are unspent.
    assert(0 <= seg + sd * ((g + 1) * seg - rem) <= TIP_LIMIT - 0x10_0000) by (nonlinear_arith)
        requires
            0 <= seg <= 0x8_0000_0000,
            1 <= sd <= 0x10_0000,
            0 <= g <= 37,
            0 <= rem <= seg,
            TIP_LIMIT == 1_400_000_000_000_000_000i64,
    ;
    crate::population::lemma_within_weaken(s0.front(), s0.pos_limit(), TIP_LIMIT as int);
    // Each direction's moved tips stay within the raised budget.
    let m = mid.front();
    let b0 = s0.pos_limit();
    let b1 = mid.pos_limit();
    lemma_moved_seq_within(m.down, 0, sd, sd, b0, b1);
    lemma_moved_seq_within(m.up, 0, -sd, sd, b0, b1);
    lemma_moved_seq_within(m.right, sd, 0, sd, b0, b1);
    lemma_moved_seq_within(m.left, -sd, 0, sd, b0, b1);
}

/// Moving every tip of a bounded sequence by one bounded step keeps it
/// within the bound widened by the step.
proof fn lemma_moved_seq_within(s: Seq<VirtualPoint>, dx: int, dy: int, d: int, b0: int, b1: int)
    requires
        seq_within(s, b0),
        -d <= dx <= d,
        -d <= dy <= d,
        0 <= d,
        b1 >= b0 + d,
        0 <= b0,
        b1 <= 0x7fff_ffff_ffff_0000,
    ensures
        seq_within(moved(s, dx, dy), b1),
{
    let t = moved(s, dx, dy);
    assert forall|i: int| 0 <= i < t.len() implies in_coord_range(#[trigger] t[i], b1) by {
        assert(in_coord_range(s[i], b0));
        assert(t[i] == (VirtualPoint { x: (s[i].x + dx) as i64, y: (s[i].y + dy) as i64 }));
    }
}

/// Moves every tip of one direction collection by `(dx, dy)` and paints each
/// moved tip, in order, with color `col`.
#[verifier::loop_isolation(false)]
fn tick_dir(
    v: &mut Vec<VirtualPoint>,
    dx: i64,
    dy: i64,
    frame: &mut Vec<u8>,
    c: &GrowthConfig,
    col: Color,
)
    requires
        wf_config(*c),
        -0x10_0000 <= dx <= 0x10_0000,
        -0x10_0000 <= dy <= 0x10_0000,
        seq_within(old(v)@, TIP_LIMIT as int),
    ensures
        final(v)@ == moved(old(v)@, dx as int, dy as int),
        final(frame)@ == paint_seq(old(frame)@, moved(old(v)@, dx as int, dy as int), *c, col),
        final(frame)@.len() == old(frame)@.len(),
{
    let ghost target = moved(old(v)@, dx as int, dy as int);
    let mut i: usize = 0;
    while i < v.len()
        invariant
            i <= v@.len(),
            v@.len() == old(v)@.len(),
            forall|j: int| i <= j < v@.len() ==> v@[j] == old(v)@[j],
            v@.take(i as int) == target.take(i as int),
            frame@ == paint_seq(old(frame)@, v@.take(i as int), *c, col),
            frame@.len() == old(frame)@.len(),
        decreases v@.len() - i,
    {
        let p = v[i];
        assert(p == old(v)@[i as int]);
        assert(in_coord_range(p, TIP_LIMIT as int));
        let q = VirtualPoint { x: p.x + dx, y: p.y + dy };
        assert(q == target[i as int]);
        let ghost pre_frame = frame@;
        let ghost prefix = v@.take(i as int);
        v[i] = q;
        crate::raster::paint_point(q, frame, c, col);
        proof {
            crate::raster::lemma_paint_seq_push(old(frame)@, prefix, q, *c, col);
            crate::raster::lemma_paint_tip_len(pre_frame, q, *c, col);
            assert(v@.take(i + 1) =~= prefix.push(q));
            assert(v@.take(i + 1) =~= target.take(i + 1)) by {
                assert(target.take(i + 1) =~= target.take(i as int).push(target[i as int]));
            }
        }
        i = i + 1;
    }
    proof {
        assert(v@ =~= v@.take(v@.len() as int));
        assert(v@ =~= target);
    }
}

} // verus!
