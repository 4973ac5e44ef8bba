use led_effects::{hsv_to_rgb, Pixel};

#[test]
fn pixel_new_stores_channels() {
    let p = Pixel::new(10, 20, 30);
    assert_eq!(p.r, 10);
    assert_eq!(p.g, 20);
    assert_eq!(p.b, 30);
}

#[test]
fn scale_multiplies_each_channel() {
    let p = Pixel::new(200, 100, 0);
    let scaled = p.scale(128);
    assert_eq!(scaled, Pixel::new(100, 50, 0));
}

#[test]
fn add_saturates_per_channel() {
    let p = Pixel::new(200, 100, 0);
    let q = Pixel::new(100, 100, 5);
    let sum = p.add(q);
    assert_eq!(sum, Pixel::new(255, 200, 5));
}

#[test]
fn lerp_moves_toward_the_other_color() {
    let p = Pixel::new(10, 200, 0);
    let q = Pixel::new(200, 10, 0);
    let half = p.lerp(&q, 128);
    // 10 + (200-10)*128/255 = 105; 200 - (200-10)*128/255 = 105
    assert_eq!(half, Pixel::new(105, 105, 0));
    let none = p.lerp(&q, 0);
    assert_eq!(none, p);
}

#[test]
fn gamma_correction_uses_the_table() {
    let p = Pixel::new(128, 200, 1).gamma_correct();
    assert_eq!(p, Pixel::new(56, 149, 0));
    let ends = Pixel::new(0, 255, 0).gamma_correct();
    assert_eq!(ends, Pixel::new(0, 255, 0));
}

#[test]
fn hsv_to_rgb_hits_the_primaries() {
    assert_eq!(hsv_to_rgb(0, 255, 255), Pixel::new(255, 0, 0));
    assert_eq!(hsv_to_rgb(120, 255, 255), Pixel::new(0, 255, 0));
    assert_eq!(hsv_to_rgb(240, 255, 255), Pixel::new(0, 0, 255));
    assert_eq!(hsv_to_rgb(0, 0, 200), Pixel::new(200, 200, 200));
}

#[test]
fn from_hsv_full_red_is_exact() {
    assert_eq!(Pixel::from_hsv(0, 255, 255), Pixel::new(255, 0, 0));
}

#[test]
fn from_hsv_quantizes_saturation_and_value() {
    // 200 falls in the seventh of the eight value buckets, whose
    // representative level is 218.
    assert_eq!(Pixel::from_hsv(0, 0, 200), Pixel::new(218, 218, 218));
}

#[test]
fn to_hsv_of_the_primaries() {
    assert_eq!(Pixel::new(255, 0, 0).to_hsv_u8(), (0, 255, 255));
    assert_eq!(Pixel::new(0, 255, 0).to_hsv_u8(), (85, 255, 255));
    assert_eq!(Pixel::new(0, 0, 255).to_hsv_u8(), (171, 255, 255));
}

#[test]
fn to_hsv_of_grays_is_achromatic() {
    assert_eq!(Pixel::new(100, 100, 100).to_hsv_u8(), (0, 0, 100));
    assert_eq!(Pixel::new(0, 0, 0).to_hsv_u8(), (0, 0, 0));
}

#[test]
fn to_hsv_of_a_mixed_color() {
    assert_eq!(Pixel::new(10, 200, 60).to_hsv_u8(), (96, 242, 200));
}

#[test]
fn achromatic_bucket_values_round_trip_exactly() {
    // The eight quantization levels of the color table.
    for &v in &[0u8, 36, 72, 109, 145, 182, 218, 255] {
        let c = Pixel::new(v, v, v);
        let (h, s, val) = c.to_hsv_u8();
        assert_eq!((h, s, val), (0, 0, v));
        assert_eq!(Pixel::from_hsv(h, s, val), c);
    }
}

#[test]
fn hsv_round_trip_on_pseudo_random_triples() {
    // The table quantizes saturation and value to eight levels each, so an
    // arbitrary color does not round-trip within one unit; what does hold
    // of every color is that reading a color back recovers the brightest
    // channel exactly, and that achromatic colors read back as achromatic.
    let mut seed: u32 = 0x1234_5678;
    for _ in 0..1000 {
        seed = seed.wrapping_mul(1103515245).wrapping_add(12345);
        let r = (seed >> 24) as u8;
        seed = seed.wrapping_mul(1103515245).wrapping_add(12345);
        let g = (seed >> 24) as u8;
        seed = seed.wrapping_mul(1103515245).wrapping_add(12345);
        let b = (seed >> 24) as u8;
        let c = Pixel::new(r, g, b);
        let (h1, s1, v1) = c.to_hsv_u8();
        assert_eq!(v1, r.max(g).max(b));
        if r == g && g == b {
            assert_eq!((h1, s1), (0, 0));
            // An achromatic color on one of the table's eight levels
            // round-trips exactly.
            if v1 as u32 == (v1 as u32 / 32) * 255 / 7 {
                assert_eq!(Pixel::from_hsv(h1, s1, v1), c);
            }
        }
    }
}

#[test]
fn shift_hue_moves_around_the_circle() {
    // Full red sits at hue 0; a shift of 85 lands on the green sector.
    let red = Pixel::from_hsv(0, 255, 255);
    let shifted = red.shift_hue(85);
    assert_eq!(shifted, Pixel::from_hsv(85, 255, 255));
}

#[test]
fn adjust_saturation_scales_toward_gray() {
    let red = Pixel::from_hsv(0, 255, 255);
    let gray = red.adjust_saturation(0);
    assert_eq!(gray, Pixel::new(255, 255, 255));
}
