//! End-to-end tests of the engine: reset determinism, the tick scenario,
//! segment halving, exhaustion, and rasterization offsets.

use fractal_growth::config::GrowthConfig;
use fractal_growth::engine::Engine;
use fractal_growth::geometry::VirtualPoint;
use fractal_growth::population::Direction;
use fractal_growth::raster::Color;
use fractal_growth::raster::palette_color;
use fractal_growth::raster::paint_point;

fn small_config() -> GrowthConfig {
    GrowthConfig {
        width: 10,
        height: 10,
        pan_x: 0,
        pan_y: 0,
        scale_num: 1,
        scale_den: 1,
        branch_rules: 1,
        ticks_per_frame: 1,
    }
}

fn frame_of(c: &GrowthConfig) -> Vec<u8> {
    vec![0u8; c.width * c.height * 4]
}

fn tip(e: &Engine, d: Direction, i: usize) -> VirtualPoint {
    e.population().tip_at(d, i).unwrap()
}

#[test]
fn reset_is_deterministic() {
    // Resetting twice with the same configuration yields identical state.
    let c = GrowthConfig { scale_num: 7, scale_den: 3, branch_rules: 2, ..small_config() };
    let a = Engine::reset(c);
    let b = Engine::reset(c);
    assert_eq!(a.generation(), b.generation());
    assert_eq!(a.remaining_ticks(), b.remaining_ticks());
    assert_eq!(a.is_exhausted(), b.is_exhausted());
    assert_eq!(a.config(), b.config());
    assert_eq!(
        a.population().len_of(Direction::Down),
        b.population().len_of(Direction::Down)
    );
    assert_eq!(
        a.population().tip_at(Direction::Down, 0),
        b.population().tip_at(Direction::Down, 0)
    );
    assert_eq!(a.population().len_of(Direction::Up), 0);
    assert_eq!(b.population().len_of(Direction::Up), 0);
}

#[test]
fn reset_places_single_seed() {
    // One seed tip at virtual (0, -height/2), moving down, generation 0,
    // with the full initial schedule.
    let c = small_config();
    let e = Engine::reset(c);
    assert_eq!(e.generation(), 0);
    assert!(!e.is_exhausted());
    // Initial segment: height/2 = 5 virtual units; at zoom 1 that is
    // round(5 * 1) = 5 ticks.
    assert_eq!(e.remaining_ticks(), 5);
    assert_eq!(e.population().len_of(Direction::Down), 1);
    assert_eq!(tip(&e, Direction::Down, 0), VirtualPoint { x: 0, y: -5 });
    assert_eq!(e.population().len_of(Direction::Up), 0);
    assert_eq!(e.population().len_of(Direction::Right), 0);
    assert_eq!(e.population().len_of(Direction::Left), 0);
}

#[test]
fn one_tick_moves_one_step() {
    // zoom 1, pan (0,0), 10x10: after one tick the seed's virtual y has
    // grown by exactly 1/zoom = 1; the tip is still above the window, so
    // nothing is painted yet.
    let c = small_config();
    let mut e = Engine::reset(c);
    let mut frame = frame_of(&c);
    e.advance(&mut frame);
    assert_eq!(e.remaining_ticks(), 4);
    assert_eq!(tip(&e, Direction::Down, 0), VirtualPoint { x: 0, y: -4 });
    assert!(frame.iter().all(|b| *b == 0));
}

#[test]
fn tip_entering_window_paints_exact_offset() {
    // After five ticks the seed reaches virtual (0, 0), which projects to
    // pixel (0, 0): cell index 0 * 10 + 0 = 0, byte offset 0, written with
    // the generation-0 palette color.
    let c = small_config();
    let mut e = Engine::reset(c);
    let mut frame = frame_of(&c);
    for _ in 0..5 {
        e.advance(&mut frame);
    }
    assert_eq!(e.remaining_ticks(), 0);
    assert_eq!(tip(&e, Direction::Down, 0), VirtualPoint { x: 0, y: 0 });
    let col = palette_color(0);
    assert_eq!(&frame[0..4], &[col.r, col.g, col.b, col.a]);
    assert_eq!(&frame[0..4], &[140, 4, 40, 255]);
    assert!(frame[4..].iter().all(|b| *b == 0));
}

#[test]
fn transition_halves_segment_and_turns() {
    // The sixth tick exhausts the first segment: the length halves
    // (the schedule denominator doubles, 1 -> 2), 5/2 rounds half-to-even
    // to 2 ticks, and under rule tier 1 the whole down-moving front turns
    // left.
    let c = small_config();
    let mut e = Engine::reset(c);
    let mut frame = frame_of(&c);
    for _ in 0..5 {
        e.advance(&mut frame);
    }
    assert_eq!(e.den, 1);
    e.advance(&mut frame);
    assert_eq!(e.generation(), 1);
    assert_eq!(e.den, 2);
    assert_eq!(e.remaining_ticks(), 1);
    assert_eq!(e.population().len_of(Direction::Down), 0);
    assert_eq!(e.population().len_of(Direction::Left), 1);
    assert_eq!(tip(&e, Direction::Left, 0), VirtualPoint { x: -1, y: 0 });
}

#[test]
fn denominator_doubles_exactly_at_transitions() {
    // The segment length halves exactly once per transition and never
    // grows: the stored denominator doubles exactly when the generation
    // increments or the engine retires, and stands still otherwise.
    let c = small_config();
    let mut e = Engine::reset(c);
    let mut frame = frame_of(&c);
    for _ in 0..40 {
        let den_before = e.den;
        let gen_before = e.generation();
        let exhausted_before = e.is_exhausted();
        e.advance(&mut frame);
        if exhausted_before {
            assert_eq!(e.den, den_before);
        } else if e.generation() == gen_before + 1 || (e.is_exhausted() && !exhausted_before) {
            assert_eq!(e.den, 2 * den_before);
        } else {
            assert_eq!(e.den, den_before);
        }
        assert!(e.den >= den_before);
    }
}

#[test]
fn engine_reaches_exhaustion_and_idles() {
    // Schedule at zoom 1 from segment 5: remaining counts 5, 2, 1, 1, then
    // 5/16 rounds to zero and the engine retires after the third
    // transition.  A retired engine changes nothing.
    let c = small_config();
    let mut e = Engine::reset(c);
    let mut frame = frame_of(&c);
    for _ in 0..10 {
        e.advance(&mut frame);
    }
    assert!(e.is_exhausted());
    assert_eq!(e.generation(), 3);
    assert_eq!(e.den, 16);
    let frame_before = frame.clone();
    let tips_before = tip(&e, Direction::Left, 0);
    e.advance(&mut frame);
    assert!(e.is_exhausted());
    assert_eq!(e.generation(), 3);
    assert_eq!(tip(&e, Direction::Left, 0), tips_before);
    assert_eq!(frame, frame_before);
}

#[test]
fn tiny_segment_retires_without_any_growth() {
    // A segment that rounds to zero ticks at the very first halving: the
    // engine retires on the first advance and the population never grows.
    let c = GrowthConfig { height: 2, scale_num: 1, scale_den: 4, ..small_config() };
    // Initial segment 1 virtual unit at scale 1/4: round(1/4) = 0 ticks.
    let mut e = Engine::reset(c);
    assert_eq!(e.remaining_ticks(), 0);
    let mut frame = frame_of(&c);
    e.advance(&mut frame);
    // Halved: round(1/8) = 0 -> retired, generation never advanced.
    assert!(e.is_exhausted());
    assert_eq!(e.generation(), 0);
    assert_eq!(e.population().len_of(Direction::Down), 1);
    assert!(frame.iter().all(|b| *b == 0));
}

#[test]
fn paint_writes_documented_cell() {
    // Virtual (2, 3) at zoom 1, pan (0, 0) lands on pixel (2, 3):
    // cell 3 * 10 + 2 = 32, bytes 128..132.
    let c = small_config();
    let mut frame = frame_of(&c);
    let col = Color { r: 9, g: 8, b: 7, a: 6 };
    paint_point(VirtualPoint { x: 2, y: 3 }, &mut frame, &c, col);
    assert_eq!(&frame[128..132], &[9, 8, 7, 6]);
    assert!(frame[..128].iter().all(|b| *b == 0));
    assert!(frame[132..].iter().all(|b| *b == 0));
}

#[test]
fn paint_rounds_half_to_even() {
    // At scale 2/2 the pixel numerators sit on half-pixel positions:
    // 1/2 rounds down to the even cell 0, 3/2 rounds up to the even cell 2.
    let c = GrowthConfig { scale_num: 2, scale_den: 2, ..small_config() };
    let mut frame = frame_of(&c);
    let col = Color { r: 1, g: 2, b: 3, a: 4 };
    paint_point(VirtualPoint { x: 1, y: 1 }, &mut frame, &c, col);
    assert_eq!(&frame[0..4], &[1, 2, 3, 4]);
    paint_point(VirtualPoint { x: 3, y: 3 }, &mut frame, &c, col);
    // Cell (2, 2): index 2 * 10 + 2 = 22, bytes 88..92.
    assert_eq!(&frame[88..92], &[1, 2, 3, 4]);
}

#[test]
fn out_of_window_tip_is_skipped() {
    let c = small_config();
    let mut frame = frame_of(&c);
    let col = Color { r: 5, g: 5, b: 5, a: 5 };
    paint_point(VirtualPoint { x: -1, y: 0 }, &mut frame, &c, col);
    paint_point(VirtualPoint { x: 0, y: 11 }, &mut frame, &c, col);
    assert!(frame.iter().all(|b| *b == 0));
}

#[test]
fn out_of_buffer_write_is_dropped() {
    // A tip inside the window whose cell lies beyond the buffer's byte
    // extent is silently dropped, never a fault.
    let c = small_config();
    let mut short_frame = vec![0u8; 4];
    let col = Color { r: 5, g: 5, b: 5, a: 5 };
    paint_point(VirtualPoint { x: 5, y: 5 }, &mut short_frame, &c, col);
    assert_eq!(short_frame, vec![0u8; 4]);
    let mut empty: Vec<u8> = Vec::new();
    paint_point(VirtualPoint { x: 0, y: 0 }, &mut empty, &c, col);
    assert!(empty.is_empty());
}

#[test]
fn palette_cycles_every_thirteen_generations() {
    assert_eq!(palette_color(0), Color { r: 140, g: 4, b: 40, a: 255 });
    assert_eq!(palette_color(3), Color { r: 115, g: 0, b: 13, a: 255 });
    assert_eq!(palette_color(4), Color { r: 222, g: 87, b: 123, a: 255 });
    assert_eq!(palette_color(12), Color { r: 230, g: 119, b: 184, a: 255 });
    assert_eq!(palette_color(13), palette_color(0));
    assert_eq!(palette_color(25), palette_color(12));
    assert_eq!(palette_color(26), palette_color(0));
}

#[test]
fn branching_engine_population_grows() {
    // Rule tier 2 from the single seed: each transition doubles the front.
    let c = GrowthConfig { branch_rules: 2, ..small_config() };
    let mut e = Engine::reset(c);
    let mut frame = frame_of(&c);
    let total = |e: &Engine| {
        e.population().len_of(Direction::Down) + e.population().len_of(Direction::Up)
            + e.population().len_of(Direction::Right) + e.population().len_of(Direction::Left)
    };
    assert_eq!(total(&e), 1);
    for _ in 0..6 {
        e.advance(&mut frame);
    }
    // Transition after tick 5 (at the sixth advance): 2 tips.
    assert_eq!(e.generation(), 1);
    assert_eq!(total(&e), 2);
    for _ in 0..2 {
        e.advance(&mut frame);
    }
    assert_eq!(e.generation(), 2);
    assert_eq!(total(&e), 4);
}
