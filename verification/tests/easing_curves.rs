use led_effects::{
    BounceIn, BounceInOut, BounceOut, EaseInCubic, EaseInOutCubic, EaseInOutQuad, EaseInOutQuart,
    EaseInQuad, EaseInQuart, EaseOutCubic, EaseOutQuad, EaseOutQuart, Easing, Linear,
};

const ONE: u16 = 65535;

#[test]
fn every_curve_is_exact_at_the_endpoints() {
    let curves: Vec<Box<dyn Fn(u16) -> u16>> = vec![
        Box::new(|t| Linear.ease(t)),
        Box::new(|t| EaseInQuad.ease(t)),
        Box::new(|t| EaseOutQuad.ease(t)),
        Box::new(|t| EaseInOutQuad.ease(t)),
        Box::new(|t| EaseInCubic.ease(t)),
        Box::new(|t| EaseOutCubic.ease(t)),
        Box::new(|t| EaseInOutCubic.ease(t)),
        Box::new(|t| EaseInQuart.ease(t)),
        Box::new(|t| EaseOutQuart.ease(t)),
        Box::new(|t| EaseInOutQuart.ease(t)),
        Box::new(|t| BounceIn.ease(t)),
        Box::new(|t| BounceOut.ease(t)),
        Box::new(|t| BounceInOut.ease(t)),
    ];
    for ease in &curves {
        assert_eq!(ease(0), 0);
        assert_eq!(ease(ONE), ONE);
    }
}

#[test]
fn linear_is_the_identity() {
    assert_eq!(Linear.ease(12345), 12345);
}

#[test]
fn quadratic_curves_at_the_midpoint() {
    // 32768^2 / 65535 = 16384; the out curve is its mirror image.
    assert_eq!(EaseInQuad.ease(32768), 16384);
    assert_eq!(EaseOutQuad.ease(32768), 49151);
    // In-out: 2 * 16384^2-ish on the accelerating side.
    assert_eq!(EaseInOutQuad.ease(16384), 8192);
}

#[test]
fn cubic_and_quartic_accelerate_harder() {
    // t = 1/2: cubic gives 1/8 of the range, quartic 1/16.
    assert_eq!(EaseInCubic.ease(32768), 8192);
    assert_eq!(EaseInQuart.ease(32768), 4096);
    // The out curves give the complements.
    assert_eq!(EaseOutCubic.ease(32768), 57343);
    assert_eq!(EaseOutQuart.ease(32768), 61439);
}

#[test]
fn in_out_curves_meet_their_halves() {
    assert_eq!(EaseInOutCubic.ease(16384), 4096);
    assert_eq!(EaseInOutQuart.ease(16384), 2048);
}

#[test]
fn bounce_out_midpoint_matches_the_classical_curve() {
    // In the second parabola: 7.5625 * (0.5 - 6/11)^2 + 0.75 of the range.
    assert_eq!(BounceOut.ease(32768), 50174);
}

#[test]
fn bounce_curves_are_mirror_images() {
    for t in [0u16, 1000, 20000, 32768, 50000, 65535] {
        assert_eq!(BounceIn.ease(t), ONE - BounceOut.ease(ONE - t));
    }
}

#[test]
fn easing_results_stay_in_the_unit_interval() {
    for t in (0..=65535u32).step_by(997) {
        let t = t as u16;
        let all = [
            EaseInQuad.ease(t),
            EaseOutQuad.ease(t),
            EaseInOutQuad.ease(t),
            EaseInCubic.ease(t),
            EaseOutCubic.ease(t),
            EaseInOutCubic.ease(t),
            EaseInQuart.ease(t),
            EaseOutQuart.ease(t),
            EaseInOutQuart.ease(t),
            BounceIn.ease(t),
            BounceOut.ease(t),
            BounceInOut.ease(t),
        ];
        for v in all {
            assert!(v <= ONE);
        }
    }
}
