use led_effects::{
    DynamicParam, EnvelopeValue, Fade, HueOscillate, HueParameter, LedChannel, Parameter, Rgb,
    RgbBuffer, RotatingHue, StaticHue, StaticParam,
};

#[test]
fn from_progress_scales_into_each_domain() {
    assert_eq!(<u8 as EnvelopeValue>::from_progress(1, 2), 127);
    assert_eq!(<u16 as EnvelopeValue>::from_progress(1, 2), 32767);
    assert_eq!(<u32 as EnvelopeValue>::from_progress(1, 2), 2147483647);
    assert_eq!(<u8 as EnvelopeValue>::from_progress(0, 1000), 0);
    assert_eq!(<u8 as EnvelopeValue>::from_progress(1000, 1000), 255);
}

#[test]
fn saturating_arithmetic_on_the_u8_domain() {
    assert_eq!(EnvelopeValue::saturating_add(200u8, 100u8), 255);
    assert_eq!(EnvelopeValue::saturating_add(100u8, 100u8), 200);
    assert_eq!(EnvelopeValue::saturating_sub(100u8, 200u8), 0);
    assert_eq!(EnvelopeValue::saturating_sub(200u8, 100u8), 100);
    assert_eq!(EnvelopeValue::saturating_mul_div(255u8, 128u8), 128);
    assert_eq!(EnvelopeValue::saturating_mul_div(127u8, 127u8), 63);
    assert_eq!(EnvelopeValue::clamp_value(10u8, 50u8, 200u8), 50);
    assert_eq!(EnvelopeValue::clamp_value(250u8, 50u8, 200u8), 200);
    assert_eq!(EnvelopeValue::clamp_value(100u8, 50u8, 200u8), 100);
}

#[test]
fn saturating_arithmetic_on_the_wider_domains() {
    assert_eq!(EnvelopeValue::saturating_add(60000u16, 10000u16), 65535);
    assert_eq!(EnvelopeValue::saturating_mul_div(65535u16, 32768u16), 32768);
    assert_eq!(EnvelopeValue::saturating_add(4000000000u32, 1000000000u32), 4294967295);
    assert_eq!(EnvelopeValue::saturating_mul_div(4294967295u32, 2147483648u32), 2147483648);
    assert_eq!(EnvelopeValue::to_u32(65535u16), 65535);
}

#[test]
fn static_param_always_returns_its_value() {
    let p = StaticParam(42u8);
    assert_eq!(p.sample(0), 42);
    assert_eq!(p.sample(u32::MAX), 42);
    let q = StaticParam(7usize);
    assert_eq!(q.sample(99), 7);
}

#[test]
fn dynamic_param_maps_the_envelope_into_its_range() {
    // A fade halfway through gives 127/255 of the way from 10 to 20.
    let p: DynamicParam<Fade, u8> =
        DynamicParam::new(Fade { start_time: 0, duration: 1000, inverted: false }, 10, 20);
    let at_start: u8 = p.sample(0);
    let at_half: u8 = p.sample(500);
    let at_end: u8 = p.sample(2000);
    assert_eq!(at_start, 10);
    assert_eq!(at_half, 14); // 10 + 127 * 10 / 255
    assert_eq!(at_end, 20);
}

#[test]
fn dynamic_param_feeds_different_destination_widths() {
    let p: DynamicParam<Fade, u8> =
        DynamicParam::new(Fade { start_time: 0, duration: 1000, inverted: false }, 0, 1000);
    let wide: u16 = p.sample(500);
    assert_eq!(wide, 498); // 127 * 1000 / 255
    let wider: u32 = p.sample(1000);
    assert_eq!(wider, 1000);
}

#[test]
fn static_hue_converts_degrees() {
    assert_eq!(StaticHue::from_degrees(0).sample(0), 0);
    assert_eq!(StaticHue::from_degrees(180).sample(123), 127);
    assert_eq!(StaticHue::from_degrees(360).sample(0), 255);
    assert_eq!(StaticHue::from_normalized(200).sample(0), 200);
}

#[test]
fn rotating_hue_advances_and_wraps() {
    // One degree per millisecond.
    let hue = RotatingHue { start_time: 0, millidegrees_per_ms: 1000 };
    assert_eq!(hue.sample(0), 0);
    assert_eq!(hue.sample(90), 63); // 90 degrees
    assert_eq!(hue.sample(360), 0); // full circle
    assert_eq!(hue.sample(450), 63);
}

#[test]
fn hue_oscillate_sweeps_between_its_hues() {
    let hue = HueOscillate { start_time: 0, period: 1000, hue1: 0, hue2: 100 };
    assert_eq!(hue.sample(0), 0);
    assert_eq!(hue.sample(250), 49); // 127/255 of the way up
    assert_eq!(hue.sample(500), 100); // top of the sweep
    // The downward half interpolates with the saturating difference
    // hue1 - hue2, which is zero here, so the hue holds at hue2.
    assert_eq!(hue.sample(750), 100);
    // With the hues swapped the second half sweeps back down.
    let back = HueOscillate { start_time: 0, period: 1000, hue1: 100, hue2: 0 };
    assert_eq!(back.sample(750), 49);
}

#[test]
fn rgb_new_and_saturating_add() {
    let c = Rgb::new(200, 100, 0);
    let d = c.add(Rgb::new(100, 100, 7));
    assert_eq!(d, Rgb::new(255, 200, 7));
    assert_eq!(Rgb::black(), Rgb::new(0, 0, 0));
}

#[test]
fn rgb_buffer_starts_black_and_fills() {
    let mut buf: RgbBuffer<8> = RgbBuffer::new();
    assert_eq!(buf.len(), 8);
    buf.fill(Rgb::new(1, 2, 3));
    let leds = buf.as_mut_slice();
    assert_eq!(leds.len(), 8);
    for led in leds.iter() {
        assert_eq!(*led, Rgb::new(1, 2, 3));
    }
}

#[test]
fn led_channel_fills_and_clears() {
    let mut channel: LedChannel<4> = LedChannel::new(3);
    assert_eq!(channel.channel_number(), 3);
    channel.fill(9, 8, 7);
    {
        let leds = channel.as_mut_slice();
        assert_eq!(leds.len(), 4);
        for led in leds.iter() {
            assert_eq!(*led, Rgb::new(9, 8, 7));
        }
    }
    channel.clear();
    {
        let buf = channel.buffer_mut();
        let leds = buf.as_mut_slice();
        for led in leds.iter() {
            assert_eq!(*led, Rgb::new(0, 0, 0));
        }
    }
}
