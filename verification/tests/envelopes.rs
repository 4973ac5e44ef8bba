use led_effects::{
    Clamp, Constant, Envelope, EnvelopePulse, Fade, Invert, LoopCount, Max, Min, Product,
    Sawtooth, Sine, Square, Sum, TimeLimited, Triangle, VelocityIntegral, ADSR,
};

fn fade_until(duration: u32) -> Fade {
    Fade { start_time: 0, duration, inverted: false }
}

#[test]
fn fade_ramps_linearly_and_dies_at_duration() {
    let fade = fade_until(1000);
    let at_start: u8 = fade.sample(0);
    let at_half: u8 = fade.sample(500);
    let at_end: u8 = fade.sample(1000);
    assert_eq!(at_start, 0);
    assert_eq!(at_half, 127);
    assert_eq!(at_end, 255);
    assert!(Envelope::<u8>::is_alive(&fade, 999));
    assert!(!Envelope::<u8>::is_alive(&fade, 1000));
}

#[test]
fn fade_inverted_runs_downward() {
    let fade = Fade { start_time: 0, duration: 1000, inverted: true };
    let at_start: u8 = fade.sample(0);
    let at_end: u8 = fade.sample(1000);
    assert_eq!(at_start, 255);
    assert_eq!(at_end, 0);
}

#[test]
fn fade_before_start_time_sees_elapsed_zero() {
    let fade = Fade { start_time: 500, duration: 1000, inverted: false };
    let before: u8 = fade.sample(100);
    assert_eq!(before, 0);
}

#[test]
fn fade_samples_wider_domains() {
    let fade = fade_until(1000);
    let mid16: u16 = fade.sample(500);
    let mid32: u32 = fade.sample(500);
    assert_eq!(mid16, 32767);
    assert_eq!(mid32, 2147483647);
}

#[test]
fn constant_is_one_and_immortal() {
    let c = Constant;
    let v: u8 = c.sample(12345);
    assert_eq!(v, 1);
    assert!(Envelope::<u8>::is_alive(&c, u32::MAX));
}

#[test]
fn triangle_rises_then_falls() {
    let tri = Triangle { start_time: 0, period: 1000 };
    let quarter: u8 = tri.sample(250);
    let three_quarters: u8 = tri.sample(750);
    let wrapped: u8 = tri.sample(1250);
    assert_eq!(quarter, 127);
    assert_eq!(three_quarters, 128);
    assert_eq!(wrapped, 127);
    assert!(Envelope::<u8>::is_alive(&tri, u32::MAX));
}

#[test]
fn sine_starts_at_midpoint() {
    let sine = Sine { start_time: 0, period: 256 };
    let at_zero: u8 = sine.sample(0);
    assert_eq!(at_zero, 128);
}

#[test]
fn sine_stays_in_range_over_a_period() {
    let sine = Sine { start_time: 0, period: 333 };
    for now in 0..333u32 {
        let v: u8 = sine.sample(now);
        assert!(v <= 255);
    }
}

#[test]
fn square_follows_its_duty_cycle() {
    let sq = Square { start_time: 0, period: 1000, duty_cycle: 128 };
    let high: u8 = sq.sample(0);
    let still_high: u8 = sq.sample(500);
    let low: u8 = sq.sample(501);
    assert_eq!(high, 255);
    assert_eq!(still_high, 255);
    assert_eq!(low, 0);
}

#[test]
fn sawtooth_resets_each_period() {
    let saw = Sawtooth { start_time: 0, period: 1000 };
    let mid: u8 = saw.sample(500);
    let near_end: u8 = saw.sample(999);
    let wrapped: u8 = saw.sample(1500);
    assert_eq!(mid, 127);
    assert_eq!(near_end, 254);
    assert_eq!(wrapped, 127);
}

fn test_adsr() -> ADSR {
    ADSR {
        start_time: 0,
        attack: 100,
        decay: 100,
        sustain_level: 128,
        sustain_duration: 100,
        release: 100,
    }
}

#[test]
fn adsr_walks_through_its_four_phases() {
    let adsr = test_adsr();
    let attacking: u8 = adsr.sample(50);
    let decaying: u8 = adsr.sample(150);
    let sustaining: u8 = adsr.sample(250);
    let releasing: u8 = adsr.sample(350);
    let done: u8 = adsr.sample(400);
    assert_eq!(attacking, 127);
    assert_eq!(decaying, 192);
    assert_eq!(sustaining, 128);
    assert_eq!(releasing, 64);
    assert_eq!(done, 0);
}

#[test]
fn adsr_dies_after_its_total_duration() {
    let adsr = test_adsr();
    assert!(Envelope::<u8>::is_alive(&adsr, 399));
    assert!(!Envelope::<u8>::is_alive(&adsr, 400));
}

#[test]
fn combinator_liveness_truth_table() {
    // At 150, a fade over 100 ms is dead and a fade over 1000 ms is alive.
    let now = 150u32;
    for &(a, b) in &[(100u32, 100u32), (100, 1000), (1000, 100), (1000, 1000)] {
        let e1_alive = now < a;
        let e2_alive = now < b;
        let product = Product { env1: fade_until(a), env2: fade_until(b) };
        let sum = Sum { env1: fade_until(a), env2: fade_until(b) };
        let min = Min { env1: fade_until(a), env2: fade_until(b) };
        let max = Max { env1: fade_until(a), env2: fade_until(b) };
        assert_eq!(Envelope::<u8>::is_alive(&product, now), e1_alive && e2_alive);
        assert_eq!(Envelope::<u8>::is_alive(&sum, now), e1_alive || e2_alive);
        assert_eq!(Envelope::<u8>::is_alive(&min, now), e1_alive || e2_alive);
        assert_eq!(Envelope::<u8>::is_alive(&max, now), e1_alive || e2_alive);
    }
}

#[test]
fn combinators_compute_their_algebra() {
    let product = Product { env1: fade_until(1000), env2: fade_until(1000) };
    let sum = Sum { env1: fade_until(1000), env2: fade_until(1000) };
    let min = Min { env1: fade_until(1000), env2: fade_until(500) };
    let max = Max { env1: fade_until(1000), env2: fade_until(500) };
    let p: u8 = product.sample(500);
    let s: u8 = sum.sample(500);
    let lo: u8 = min.sample(250);
    let hi: u8 = max.sample(250);
    assert_eq!(p, 63); // (127 * 127) / 255
    assert_eq!(s, 254);
    assert_eq!(lo, 63); // fade over 1000 ms is at 63 after 250 ms
    assert_eq!(hi, 127); // fade over 500 ms is at 127 after 250 ms
}

#[test]
fn invert_reflects_every_sample_exactly() {
    let fade = fade_until(1000);
    let inverted = Invert { inner: fade_until(1000) };
    for now in [0u32, 1, 250, 500, 999, 1000, 5000] {
        let plain: u8 = fade.sample(now);
        let flipped: u8 = inverted.sample(now);
        assert_eq!(flipped, 255 - plain);
    }
}

#[test]
fn clamp_constrains_the_inner_envelope() {
    let clamped = Clamp { inner: fade_until(1000), min: 50u8, max: 200u8 };
    let low: u8 = clamped.sample(0);
    let mid: u8 = clamped.sample(500);
    let high: u8 = clamped.sample(1000);
    assert_eq!(low, 50);
    assert_eq!(mid, 127);
    assert_eq!(high, 200);
}

#[test]
fn time_limited_forces_death() {
    let limited = TimeLimited { inner: Triangle { start_time: 0, period: 100 }, start_time: 0, duration: 500 };
    assert!(Envelope::<u8>::is_alive(&limited, 499));
    assert!(!Envelope::<u8>::is_alive(&limited, 500));
    let inner_value: u8 = Triangle { start_time: 0, period: 100 }.sample(25);
    let wrapped_value: u8 = limited.sample(25);
    assert_eq!(wrapped_value, inner_value);
}

#[test]
fn loop_count_dies_after_its_loops() {
    let looped = LoopCount {
        inner: Triangle { start_time: 0, period: 100 },
        start_time: 0,
        period: 100,
        max_loops: 3,
    };
    assert!(Envelope::<u8>::is_alive(&looped, 299));
    assert!(!Envelope::<u8>::is_alive(&looped, 300));
}

#[test]
fn envelope_pulse_attacks_then_decays() {
    let pulse = EnvelopePulse { start_time: 0, attack: 100, decay: 100 };
    let rising: u8 = pulse.sample(50);
    let decaying: u8 = pulse.sample(150);
    let gone: u8 = pulse.sample(200);
    assert_eq!(rising, 127);
    assert_eq!(decaying, 16); // decay table halfway point
    assert_eq!(gone, 0);
    assert!(Envelope::<u8>::is_alive(&pulse, 199));
    assert!(!Envelope::<u8>::is_alive(&pulse, 200));
}

#[test]
fn velocity_integral_accumulates_constant_velocity() {
    // The constant envelope samples to 1, scaled to one pixel step per tick.
    let vi = VelocityIntegral {
        start_time: 0,
        velocity_envelope: fade_until(0), // saturated: always the maximum
        initial_position: 0,
        dt_ms: 16,
        velocity_scale: 1,
    };
    // A saturated fade gives maximum velocity, so each step adds the whole
    // scale: after 160 ms there are 10 steps of 1.
    let pos: u8 = vi.sample(160);
    assert_eq!(pos, 10);
}

#[test]
fn velocity_integral_liveness_follows_inner() {
    let vi = VelocityIntegral {
        start_time: 0,
        velocity_envelope: fade_until(100),
        initial_position: 0,
        dt_ms: 16,
        velocity_scale: 10,
    };
    assert!(Envelope::<u8>::is_alive(&vi, 99));
    assert!(!Envelope::<u8>::is_alive(&vi, 100));
}

#[test]
fn samples_stay_in_the_value_domain() {
    // The range law is proved for every envelope; spot-check it dynamically
    // across waveforms and times anyway.
    let tri = Triangle { start_time: 7, period: 333 };
    let saw = Sawtooth { start_time: 3, period: 97 };
    let adsr = test_adsr();
    for now in (0..2000u32).step_by(13) {
        let a: u16 = tri.sample(now);
        let b: u16 = saw.sample(now);
        let c: u16 = adsr.sample(now);
        assert!(a <= 65535 && b <= 65535 && c <= 65535);
        let a8: u8 = tri.sample(now);
        assert!(a8 <= 255);
    }
}
