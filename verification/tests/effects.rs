use led_effects::{
    Blur, Brightness, Chase, Decay, EffectBuilder, GammaCorrection, Generator, Gradient, Mirror,
    Modifier, Pixel, Pulse, Reverse, Shift, SolidColor, Sparkle, StaticHue, StaticParam, Stripes,
    Trail,
};

fn black_buffer(n: usize) -> Vec<Pixel> {
    vec![Pixel::new(0, 0, 0); n]
}

fn full_red() -> Pixel {
    Pixel::from_hsv(0, 255, 255)
}

#[test]
fn solid_color_fills_every_pixel_with_red() {
    let mut gen = SolidColor {
        start_time: 0,
        duration: 1000,
        intensity: StaticParam(255u8),
        hue: StaticHue::from_normalized(0),
        saturation: StaticParam(255u8),
    };
    let mut buffer = black_buffer(10);
    gen.generate(&mut buffer, 0);
    assert_eq!(buffer.len(), 10);
    for px in &buffer {
        assert_eq!(*px, Pixel::new(255, 0, 0));
    }
}

#[test]
fn solid_color_liveness_follows_duration() {
    let gen = SolidColor {
        start_time: 0,
        duration: 1000,
        intensity: StaticParam(255u8),
        hue: StaticHue::from_normalized(0),
        saturation: StaticParam(255u8),
    };
    assert!(gen.is_alive(999));
    assert!(!gen.is_alive(1000));
}

fn test_gradient() -> Gradient<StaticParam<u8>, StaticHue, StaticHue, StaticParam<u8>> {
    Gradient {
        start_time: 0,
        duration: 1000,
        intensity: StaticParam(255u8),
        hue_start: StaticHue::from_normalized(0),
        hue_end: StaticHue::from_normalized(180),
        saturation: StaticParam(255u8),
    }
}

#[test]
fn gradient_interpolates_hue_across_the_buffer() {
    let mut gen = test_gradient();
    let mut buffer = black_buffer(5);
    gen.generate(&mut buffer, 0);
    // Interpolation positions 0, 63, 127, 191, 255 of the way from hue 0 to
    // hue 180 give hues 0, 44, 89, 134, 180: strictly monotonic, with the
    // ends exact.
    let hues = [0u8, 44, 89, 134, 180];
    for (px, hue) in buffer.iter().zip(hues.iter()) {
        assert_eq!(*px, Pixel::from_hsv(*hue, 255, 255));
    }
    assert_eq!(buffer[0], Pixel::from_hsv(0, 255, 255));
    assert_eq!(buffer[4], Pixel::from_hsv(180, 255, 255));
}

#[test]
fn gradient_wraps_the_short_way_around() {
    let mut gen = Gradient {
        start_time: 0,
        duration: 1000,
        intensity: StaticParam(255u8),
        hue_start: StaticHue::from_normalized(250),
        hue_end: StaticHue::from_normalized(10),
        saturation: StaticParam(255u8),
    };
    let mut buffer = black_buffer(3);
    gen.generate(&mut buffer, 0);
    // The span from 250 up through the wrap to 10 is 16 hue steps; halfway
    // (127/255 of 16 is 7) lands on hue 1, past the wrap at zero.
    assert_eq!(buffer[0], Pixel::from_hsv(250, 255, 255));
    assert_eq!(buffer[1], Pixel::from_hsv(1, 255, 255));
    assert_eq!(buffer[2], Pixel::from_hsv(10, 255, 255));
}

#[test]
fn stripes_alternate_and_zero_width_is_clamped() {
    let mut gen = Stripes {
        start_time: 0,
        duration: 1000,
        intensity: StaticParam(255u8),
        hue1: StaticHue::from_normalized(0),
        hue2: StaticHue::from_normalized(85),
        saturation: StaticParam(255u8),
        stripe_width: StaticParam(0usize),
    };
    let mut buffer = black_buffer(4);
    gen.generate(&mut buffer, 0);
    let a = Pixel::from_hsv(0, 255, 255);
    let b = Pixel::from_hsv(85, 255, 255);
    assert_eq!(buffer, vec![a, b, a, b]);

    let mut wide = Stripes {
        start_time: 0,
        duration: 1000,
        intensity: StaticParam(255u8),
        hue1: StaticHue::from_normalized(0),
        hue2: StaticHue::from_normalized(85),
        saturation: StaticParam(255u8),
        stripe_width: StaticParam(2usize),
    };
    let mut buffer2 = black_buffer(6);
    wide.generate(&mut buffer2, 0);
    assert_eq!(buffer2, vec![a, a, b, b, a, a]);
}

#[test]
fn chase_peaks_at_its_position_and_fades_to_the_window_edge() {
    let mut gen = Chase {
        start_time: 0,
        duration: 1000,
        position: StaticParam(5u16),
        width: StaticParam(2u8),
        intensity: StaticParam(255u8),
        hue: StaticHue::from_normalized(0),
        saturation: StaticParam(255u8),
    };
    let mut buffer = black_buffer(10);
    gen.generate(&mut buffer, 0);
    // Full intensity at the center.
    assert_eq!(buffer[5], full_red());
    // Falloff reaches zero exactly at the window edge: a zero-value color is
    // black, and blending black leaves the zeroed pixel unchanged.
    assert_eq!(buffer[3], Pixel::new(0, 0, 0));
    assert_eq!(buffer[7], Pixel::new(0, 0, 0));
    // Pixels outside the window are untouched.
    for i in [0usize, 1, 2, 8, 9] {
        assert_eq!(buffer[i], Pixel::new(0, 0, 0));
    }
    // One pixel off center gets half the falloff.
    let half = Pixel::from_hsv(0, 255, 127);
    assert_eq!(buffer[4], half);
    assert_eq!(buffer[6], half);
}

#[test]
fn chase_blends_additively_into_existing_content() {
    let mut gen = Chase {
        start_time: 0,
        duration: 1000,
        position: StaticParam(1u16),
        width: StaticParam(0u8),
        intensity: StaticParam(255u8),
        hue: StaticHue::from_normalized(0),
        saturation: StaticParam(255u8),
    };
    // Width zero means the falloff is zero even at the center, so the chase
    // adds black everywhere and the prior content survives.
    let mut buffer = vec![Pixel::new(1, 2, 3); 3];
    gen.generate(&mut buffer, 0);
    assert_eq!(buffer, vec![Pixel::new(1, 2, 3); 3]);
}

#[test]
fn pulse_spreads_two_edges_from_its_center() {
    let mut gen = Pulse {
        start_time: 0,
        duration: 1000,
        position: 5,
        spread_millipixels_per_ms: 1000, // one pixel per millisecond
        width: StaticParam(0u8),
        intensity: StaticParam(255u8),
        hue: StaticHue::from_normalized(0),
        saturation: StaticParam(255u8),
    };
    let mut buffer = black_buffer(11);
    gen.generate(&mut buffer, 2);
    // After 2 ms the edges sit at positions 3 and 7. Width zero gives zero
    // falloff, so nothing visible lands anywhere; the buffer stays black.
    assert_eq!(buffer, black_buffer(11));

    let mut visible = Pulse {
        start_time: 0,
        duration: 1000,
        position: 5,
        spread_millipixels_per_ms: 1000,
        width: StaticParam(1u8),
        intensity: StaticParam(255u8),
        hue: StaticHue::from_normalized(0),
        saturation: StaticParam(255u8),
    };
    let mut buffer2 = black_buffer(11);
    visible.generate(&mut buffer2, 2);
    // Each edge paints full intensity at its center, zero one pixel away.
    assert_eq!(buffer2[3], full_red());
    assert_eq!(buffer2[7], full_red());
    assert_eq!(buffer2[5], Pixel::new(0, 0, 0));
    assert_eq!(buffer2[0], Pixel::new(0, 0, 0));
}

#[test]
fn pulse_edges_overlap_at_the_start() {
    let mut gen = Pulse {
        start_time: 0,
        duration: 1000,
        position: 2,
        spread_millipixels_per_ms: 1000,
        width: StaticParam(1u8),
        intensity: StaticParam(100u8),
        hue: StaticHue::from_normalized(0),
        saturation: StaticParam(255u8),
    };
    let mut buffer = black_buffer(5);
    gen.generate(&mut buffer, 0);
    // At time zero both edges coincide with the center, so the center pixel
    // receives the edge color twice, blended by saturating addition.
    let once = Pixel::new(0, 0, 0).add(Pixel::from_hsv(0, 255, 100));
    let twice = once.add(Pixel::from_hsv(0, 255, 100));
    assert_eq!(buffer[2], twice);
}

#[test]
fn brightness_scales_every_pixel() {
    let mut modifier = Brightness { factor: StaticParam(128u8) };
    let mut buffer = vec![Pixel::new(200, 100, 0); 2];
    modifier.modify(&mut buffer, 0);
    assert_eq!(buffer, vec![Pixel::new(100, 50, 0); 2]);
}

#[test]
fn decay_and_trail_fade_toward_black() {
    let mut decay = Decay { rate: StaticParam(128u8) };
    let mut trail = Trail { decay_rate: StaticParam(128u8) };
    let mut a = vec![Pixel::new(200, 100, 0); 2];
    let mut b = vec![Pixel::new(200, 100, 0); 2];
    decay.modify(&mut a, 0);
    trail.modify(&mut b, 0);
    assert_eq!(a, vec![Pixel::new(100, 50, 0); 2]);
    assert_eq!(a, b);
}

#[test]
fn gamma_correction_modifier_applies_the_table() {
    let mut modifier = GammaCorrection;
    let mut buffer = vec![Pixel::new(128, 0, 255)];
    modifier.modify(&mut buffer, 0);
    assert_eq!(buffer, vec![Pixel::new(56, 0, 255)]);
}

#[test]
fn blur_blends_toward_the_predecessor() {
    let mut modifier = Blur { strength: StaticParam(255u8) };
    let mut buffer = vec![Pixel::new(200, 0, 0), Pixel::new(0, 0, 0), Pixel::new(100, 0, 0)];
    modifier.modify(&mut buffer, 0);
    // Strength 255 blends each pixel halfway (t = 127) toward the value its
    // predecessor held before the pass.
    assert_eq!(buffer[0], Pixel::new(200, 0, 0));
    assert_eq!(buffer[1], Pixel::new(0, 0, 0).lerp(&Pixel::new(200, 0, 0), 127));
    assert_eq!(buffer[2], Pixel::new(100, 0, 0).lerp(&Pixel::new(0, 0, 0), 127));
}

#[test]
fn blur_leaves_short_buffers_alone() {
    let mut modifier = Blur { strength: StaticParam(255u8) };
    let mut buffer = vec![Pixel::new(5, 6, 7)];
    modifier.modify(&mut buffer, 0);
    assert_eq!(buffer, vec![Pixel::new(5, 6, 7)]);
}

#[test]
fn shift_rotates_by_the_normalized_offset() {
    let a = Pixel::new(1, 0, 0);
    let b = Pixel::new(2, 0, 0);
    let c = Pixel::new(3, 0, 0);
    let mut modifier = Shift { offset: StaticParam(1i64) };
    let mut buffer = vec![a, b, c];
    modifier.modify(&mut buffer, 0);
    assert_eq!(buffer, vec![c, a, b]);
    // The offset is normalized modulo the length.
    let mut modifier4 = Shift { offset: StaticParam(4i64) };
    let mut buffer2 = vec![a, b, c];
    modifier4.modify(&mut buffer2, 0);
    assert_eq!(buffer2, vec![c, a, b]);
    // A negative offset rotates toward lower indices.
    let mut negative = Shift { offset: StaticParam(-1i64) };
    let mut buffer3 = vec![a, b, c];
    negative.modify(&mut buffer3, 0);
    assert_eq!(buffer3, vec![b, c, a]);
    // ... and is normalized euclideanly.
    let mut negative4 = Shift { offset: StaticParam(-4i64) };
    let mut buffer4 = vec![a, b, c];
    negative4.modify(&mut buffer4, 0);
    assert_eq!(buffer4, vec![b, c, a]);
}

#[test]
fn mirror_reflects_the_low_half() {
    let a = Pixel::new(1, 0, 0);
    let b = Pixel::new(2, 0, 0);
    let x = Pixel::new(9, 0, 0);
    let mut modifier = Mirror { center: 2 };
    let mut buffer = vec![a, b, x, x];
    modifier.modify(&mut buffer, 0);
    assert_eq!(buffer, vec![a, b, b, a]);
}

#[test]
fn reverse_inverts_the_order() {
    let mut modifier = Reverse;
    let mut buffer = vec![Pixel::new(1, 0, 0), Pixel::new(2, 0, 0), Pixel::new(3, 0, 0)];
    modifier.modify(&mut buffer, 0);
    assert_eq!(buffer, vec![Pixel::new(3, 0, 0), Pixel::new(2, 0, 0), Pixel::new(1, 0, 0)]);
}

fn test_sparkle(seed: u32) -> Sparkle<StaticParam<u8>, StaticHue, StaticParam<u8>, StaticParam<u8>> {
    Sparkle {
        chance: StaticParam(128u8),
        hue: StaticHue::from_normalized(0),
        saturation: StaticParam(255u8),
        intensity: StaticParam(255u8),
        seed,
    }
}

#[test]
fn sparkle_is_deterministic_for_a_fixed_seed() {
    let mut first = test_sparkle(42);
    let mut second = test_sparkle(42);
    let mut buf1 = black_buffer(32);
    let mut buf2 = black_buffer(32);
    for now in [0u32, 25, 50, 75, 100] {
        first.modify(&mut buf1, now);
        second.modify(&mut buf2, now);
        assert_eq!(buf1, buf2);
    }
}

#[test]
fn sparkle_replaces_pixels_with_its_color() {
    let mut sparkle = test_sparkle(42);
    let mut buffer = black_buffer(64);
    sparkle.modify(&mut buffer, 0);
    // With a chance of 128 out of 256 roughly half the pixels light up;
    // every touched pixel carries exactly the sparkle color.
    let lit = buffer.iter().filter(|px| **px == full_red()).count();
    let dark = buffer.iter().filter(|px| **px == Pixel::new(0, 0, 0)).count();
    assert_eq!(lit + dark, 64);
    assert!(lit > 0);
    assert!(dark > 0);
}

#[test]
fn builder_applies_modifiers_after_the_generator() {
    // A gradient decorated with a reversal produces exactly the reverse of
    // the undecorated gradient's output at the same timestamp.
    let mut plain = test_gradient();
    let mut decorated = EffectBuilder::new(test_gradient()).with_modifier(Reverse).build();
    let mut expected = black_buffer(5);
    plain.generate(&mut expected, 0);
    expected.reverse();
    let mut actual = black_buffer(5);
    decorated.generate(&mut actual, 0);
    assert_eq!(actual, expected);
}

#[test]
fn builder_composite_liveness_is_the_generators() {
    let decorated = EffectBuilder::new(test_gradient()).with_modifier(Reverse).build();
    assert!(decorated.is_alive(999));
    assert!(!decorated.is_alive(1000));
}

#[test]
fn builder_chains_modifiers_in_declared_order() {
    // Brightness then reverse equals reverse of the brightness-scaled
    // output; with a second modifier the chain nests outward.
    let mut composite = EffectBuilder::new(test_gradient())
        .with_modifier(Brightness { factor: StaticParam(128u8) })
        .with_modifier(Reverse)
        .build();
    let mut buffer = black_buffer(5);
    composite.generate(&mut buffer, 0);

    let mut reference = black_buffer(5);
    test_gradient().generate(&mut reference, 0);
    let mut scaled: Vec<Pixel> = reference.iter().map(|px| px.scale(128)).collect();
    scaled.reverse();
    assert_eq!(buffer, scaled);
}
