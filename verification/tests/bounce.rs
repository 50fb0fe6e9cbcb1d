use bouncer::color::{random_color, Color};
use bouncer::input::{handle_input, Key};
use bouncer::rng::rng_from_seed;
use bouncer::state::{setup_bouncer, step, BounceState, Bouncer, Viewport};

fn square_setup() -> (BounceState, Viewport) {
    // size = (10, 10) units, viewport = (100, 100) units, in milliunits.
    let s = BounceState {
        x: 40_000,
        y: 0,
        vel: Bouncer { dx: 100, dy: 0 },
        size_x: 10_000,
        size_y: 10_000,
        color: Color { r: 1, g: 2, b: 3 },
    };
    let vp = Viewport { width: 100_000, height: 100_000 };
    (s, vp)
}

#[test]
fn scenario_right_wall_bounce() {
    // x starts at 40, travels 100 u/s for 0.1 s: raw 50 exceeds the
    // bound 45, so the frame clamps to 45 and reverses the velocity.
    let mut rng = rng_from_seed(7);
    let (mut s, vp) = square_setup();
    let bounced = step(&mut s, vp, 100, &mut rng);
    assert!(bounced);
    assert_eq!(s.x, 45_000);
    assert_eq!(s.y, 0);
    assert_eq!(s.vel.dx, -100);
    assert_eq!(s.vel.dy, 0);
    assert_eq!(s.size_x, 10_000);
    assert_eq!(s.size_y, 10_000);
    assert!(s.color.r < 1000 && s.color.g < 1000 && s.color.b < 1000);
}

#[test]
fn scenario_zero_velocity_is_fixed() {
    // With velocity (0, 0) a frame of any length changes nothing,
    // color included.
    let mut rng = rng_from_seed(7);
    let (mut s, vp) = square_setup();
    s.vel = Bouncer { dx: 0, dy: 0 };
    let before = s;
    for dt in [0, 1, 100, 1_000_000] {
        let bounced = step(&mut s, vp, dt, &mut rng);
        assert!(!bounced);
        assert_eq!(s, before);
    }
}

#[test]
fn reflection_at_ceiling() {
    // Rising past the ceiling leaves y exactly on it and dy negated.
    let mut rng = rng_from_seed(1);
    let (mut s, vp) = square_setup();
    s.x = 0;
    s.y = 40_000;
    s.vel = Bouncer { dx: 0, dy: 100 };
    let bounced = step(&mut s, vp, 100, &mut rng);
    assert!(bounced);
    assert_eq!(s.y, 45_000);
    assert_eq!(s.vel.dy, -100);
    assert_eq!(s.x, 0);
    assert_eq!(s.vel.dx, 0);
}

#[test]
fn reflection_at_ground() {
    let mut rng = rng_from_seed(1);
    let (mut s, vp) = square_setup();
    s.x = 0;
    s.y = -40_000;
    s.vel = Bouncer { dx: 0, dy: -100 };
    let bounced = step(&mut s, vp, 100, &mut rng);
    assert!(bounced);
    assert_eq!(s.y, -45_000);
    assert_eq!(s.vel.dy, 100);
}

#[test]
fn corner_bounce_flips_both_axes() {
    // One frame's displacement crosses the right wall and the ceiling
    // at once: both coordinates clamp and both velocity signs flip.
    let mut rng = rng_from_seed(2);
    let (mut s, vp) = square_setup();
    s.x = 44_000;
    s.y = 44_000;
    s.vel = Bouncer { dx: 100, dy: 100 };
    let bounced = step(&mut s, vp, 100, &mut rng);
    assert!(bounced);
    assert_eq!(s.x, 45_000);
    assert_eq!(s.y, 45_000);
    assert_eq!(s.vel.dx, -100);
    assert_eq!(s.vel.dy, -100);
}

#[test]
fn rest_frames_change_nothing() {
    // A zero-dt frame on an in-bounds state is a no-op, color
    // included, however often it is repeated.
    let mut rng = rng_from_seed(3);
    let (mut s, vp) = square_setup();
    let before = s;
    for _ in 0..10 {
        let bounced = step(&mut s, vp, 0, &mut rng);
        assert!(!bounced);
        assert_eq!(s, before);
    }
}

#[test]
fn exact_touch_is_not_a_bounce() {
    // Integration that lands exactly on the bound does not cross it:
    // no reflection, no color change.
    let mut rng = rng_from_seed(4);
    let (mut s, vp) = square_setup();
    s.x = 44_900;
    let before_color = s.color;
    let bounced = step(&mut s, vp, 1, &mut rng);
    assert!(!bounced);
    assert_eq!(s.x, 45_000);
    assert_eq!(s.vel.dx, 100);
    assert_eq!(s.color, before_color);
}

#[test]
fn containment_over_many_frames() {
    // Over a long mixed sequence of frame times and viewport sizes,
    // the sprite's bounding box never leaves the viewport, and the
    // speed along each axis never changes magnitude.
    let mut rng = rng_from_seed(5);
    let vp_a = Viewport { width: 100_000, height: 100_000 };
    let vp_b = Viewport { width: 60_000, height: 220_000 };
    let (mut s, _) = square_setup();
    s.vel = Bouncer { dx: 100, dy: -100 };
    let dts = [0, 1, 17, 100, 333, 1000, 5000, 123_456];
    for i in 0..200 {
        let vp = if i % 3 == 0 { vp_b } else { vp_a };
        let dt = dts[i % dts.len()];
        step(&mut s, vp, dt, &mut rng);
        let wall = (vp.width - s.size_x) / 2;
        let ceil = (vp.height - s.size_y) / 2;
        assert!(-wall <= s.x && s.x <= wall);
        assert!(-ceil <= s.y && s.y <= ceil);
        assert_eq!(s.vel.dx.abs(), 100);
        assert_eq!(s.vel.dy.abs(), 100);
    }
}

#[test]
fn degenerate_axis_recenters_without_reflection() {
    // A viewport narrower than the sprite: the x coordinate is moved
    // to the center and the velocity keeps its sign.
    let mut rng = rng_from_seed(6);
    let mut s = BounceState {
        x: 2_000,
        y: 0,
        vel: Bouncer { dx: 100, dy: 0 },
        size_x: 10_000,
        size_y: 10_000,
        color: Color { r: 1, g: 2, b: 3 },
    };
    let vp = Viewport { width: 5_000, height: 100_000 };
    let bounced = step(&mut s, vp, 100, &mut rng);
    assert!(!bounced);
    assert_eq!(s.x, 0);
    assert_eq!(s.vel.dx, 100);
    assert_eq!(s.color, Color { r: 1, g: 2, b: 3 });
}

#[test]
fn flip_x_and_flip_y_negate_one_axis() {
    let mut v = Bouncer { dx: 100, dy: -100 };
    v.flip_x();
    assert_eq!(v, Bouncer { dx: -100, dy: -100 });
    v.flip_y();
    assert_eq!(v, Bouncer { dx: -100, dy: 100 });
    v.flip_y();
    assert_eq!(v, Bouncer { dx: -100, dy: -100 });
}

#[test]
fn setup_bouncer_starts_in_bounds_at_speed() {
    // Startup with the real sprite size, 173.5 by 100 units, in a
    // 800 by 600 viewport: position in bounds, each velocity axis at
    // the conventional speed, color valid, size stored.
    let vp = Viewport { width: 800_000, height: 600_000 };
    for seed in 0..50u64 {
        let mut rng = rng_from_seed(seed);
        let s = setup_bouncer(173_500, 100_000, vp, &mut rng);
        let wall = (vp.width - s.size_x) / 2;
        let ceil = (vp.height - s.size_y) / 2;
        assert_eq!(s.size_x, 173_500);
        assert_eq!(s.size_y, 100_000);
        assert!(-wall <= s.x && s.x <= wall);
        assert!(-ceil <= s.y && s.y <= ceil);
        assert!(s.vel.dx == 100 || s.vel.dx == -100);
        assert!(s.vel.dy == 100 || s.vel.dy == -100);
        assert!(s.color.r < 1000 && s.color.g < 1000 && s.color.b < 1000);
    }
}

#[test]
fn setup_bouncer_positions_vary_with_seed() {
    // The drawn position actually depends on the generator: across
    // seeds the positions are not all one value.
    let vp = Viewport { width: 800_000, height: 600_000 };
    let mut first: Option<(i64, i64)> = None;
    let mut varied = false;
    for seed in 0..20u64 {
        let mut rng = rng_from_seed(seed);
        let s = setup_bouncer(173_500, 100_000, vp, &mut rng);
        match first {
            None => first = Some((s.x, s.y)),
            Some(p) => {
                if p != (s.x, s.y) {
                    varied = true;
                }
            }
        }
    }
    assert!(varied);
}

#[test]
fn random_color_channels_stay_in_range() {
    let mut rng = rng_from_seed(9);
    for _ in 0..500 {
        let c = random_color(&mut rng);
        assert!(c.r < 1000 && c.g < 1000 && c.b < 1000);
    }
}

#[test]
fn bounce_resamples_color_eventually() {
    // Colors on bounces come from the generator: over many bounces
    // they cannot all equal the starting color.
    let mut rng = rng_from_seed(10);
    let (mut s, vp) = square_setup();
    s.vel = Bouncer { dx: 100, dy: -100 };
    let start = s.color;
    let mut changed = false;
    for _ in 0..100 {
        let bounced = step(&mut s, vp, 500, &mut rng);
        if bounced && s.color != start {
            changed = true;
        }
    }
    assert!(changed);
}

#[test]
fn only_q_requests_exit() {
    assert!(handle_input(Some(Key::Q)));
    assert!(!handle_input(Some(Key::Other)));
    assert!(!handle_input(None));
}
