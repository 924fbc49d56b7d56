use slider_io::hid::Buffer;
use slider_io::lights::{
    calc_even, calc_hori_lights, calc_serial, calc_six, calc_voltex_lights, rainbow_desaturate,
    tick_micros, ColorScheme,
};
use slider_io::state::SliderLights;

fn flat_with(pressed: &[usize]) -> Vec<bool> {
    let mut flat = vec![false; 41];
    for i in pressed {
        flat[*i] = true;
    }
    flat
}

fn pixel(lights: &SliderLights, idx: usize) -> [u8; 3] {
    [lights.ground[3 * idx], lights.ground[3 * idx + 1], lights.ground[3 * idx + 2]]
}

#[test]
fn reactive_eight_painting() {
    // Scenario: the first four pads pressed, everything else released.
    let flat = flat_with(&[0, 1, 2, 3]);
    let color = ColorScheme {
        active: [255, 0, 255],
        inactive: [255, 255, 0],
        air_active: [0, 134, 237],
        air_inactive: [0, 0, 0],
    };
    let mut lights = SliderLights::new();
    calc_even(&flat, 8, &color, &mut lights);
    // Pad pixels 0 and 2 sit in the pressed bucket.
    assert_eq!(pixel(&lights, 0), [255, 0, 255]);
    assert_eq!(pixel(&lights, 2), [255, 0, 255]);
    // Pad pixel 8 sits in a released bucket.
    assert_eq!(pixel(&lights, 8), [255, 255, 0]);
    // Divider pixel 3 sits just before a bucket boundary and is always lit.
    assert_eq!(pixel(&lights, 3), [255, 0, 255]);
    // Other dividers are inactive.
    assert_eq!(pixel(&lights, 1), [255, 255, 0]);
    assert!(lights.dirty);
}

#[test]
fn reactive_even_air_pairs() {
    let flat = flat_with(&[32]);
    let color = ColorScheme::default();
    let mut lights = SliderLights::new();
    calc_even(&flat, 4, &color, &mut lights);
    assert_eq!(&lights.air_left[0..3], &[0, 134, 237]);
    assert_eq!(&lights.air_right[0..3], &[0, 134, 237]);
    assert_eq!(&lights.air_left[3..6], &[0, 0, 0]);
}

#[test]
fn reactive_six_buckets() {
    let flat = flat_with(&[6]);
    let color = ColorScheme::default();
    let mut lights = SliderLights::new();
    calc_six(&flat, &color, &mut lights);
    // The five fixed boundaries are always active.
    for idx in [5usize, 9, 15, 21, 25] {
        assert_eq!(pixel(&lights, idx), [255, 0, 255]);
    }
    // Other dividers are inactive.
    assert_eq!(pixel(&lights, 1), [255, 255, 0]);
    // Pad 6 lights its bucket's pad pixels 6 and 8.
    assert_eq!(pixel(&lights, 6), [255, 0, 255]);
    assert_eq!(pixel(&lights, 8), [255, 0, 255]);
    // The first bucket stays inactive.
    assert_eq!(pixel(&lights, 0), [255, 255, 0]);
}

#[test]
fn voltex_layout_decoration() {
    let flat = flat_with(&[0, 9, 8, 24]);
    let mut lights = SliderLights::new();
    calc_voltex_lights(&flat, &mut lights);
    // The left laser zone is lit.
    assert_eq!(pixel(&lights, 0), [70, 230, 250]);
    assert_eq!(pixel(&lights, 2), [70, 230, 250]);
    // The second left zone is not.
    assert_eq!(pixel(&lights, 4), [0, 0, 0]);
    // Fixed decorations.
    assert_eq!(pixel(&lights, 3), [10, 100, 180]);
    assert_eq!(pixel(&lights, 7), [64, 64, 64]);
    assert_eq!(pixel(&lights, 27), [180, 10, 110]);
    // Button 0 and pedal 0 paint their pixels.
    assert_eq!(pixel(&lights, 8), [255, 255, 255]);
    assert_eq!(pixel(&lights, 9), [250, 100, 30]);
    // The pedal overwrites the divider at 11.
    assert_eq!(pixel(&lights, 11), [250, 100, 30]);
    // The right laser zone from pad 24.
    assert_eq!(pixel(&lights, 24), [250, 60, 200]);
    assert_eq!(pixel(&lights, 25), [255, 60, 200]);
    assert_eq!(pixel(&lights, 28), [0, 0, 0]);
}

#[test]
fn hori_layout_bands() {
    let flat = flat_with(&[0, 1]);
    let mut lights = SliderLights::new();
    calc_hori_lights(&flat, &mut lights);
    // Band 0 is pressed at full brightness.
    assert_eq!(pixel(&lights, 0), [64, 226, 160]);
    // Band 1 is released and dimmed fourfold.
    assert_eq!(pixel(&lights, 8), [255 / 4, 105 / 4, 248 / 4]);
    // Column 0 is touched, so the divider next to it lights white.
    assert_eq!(pixel(&lights, 1), [200, 200, 200]);
    // An untouched divider away from the boundaries stays black.
    assert_eq!(pixel(&lights, 3), [0, 0, 0]);
    // The boundary divider keeps its gray.
    assert_eq!(pixel(&lights, 7), [64, 64, 64]);
}

#[test]
fn rainbow_desaturation_flags() {
    let flat = flat_with(&[4, 7]);
    let flags = rainbow_desaturate(&flat);
    assert_eq!(flags.len(), 31);
    assert!(flags[4]);
    assert!(flags[6]);
    assert!(!flags[5]);
    assert!(!flags[0]);
}

#[test]
fn serial_frame_ingestion() {
    let mut buf = Buffer::new();
    buf.data[0] = 0xaa;
    buf.data[1] = 0xaa;
    // Source pixel 30, stored green, blue, red, lands on ground pixel 0 as
    // red, green, blue.
    buf.data[2 + 3 * 30] = 10;  // green
    buf.data[2 + 3 * 30 + 1] = 20;  // blue
    buf.data[2 + 3 * 30 + 2] = 30;  // red
    buf.len = 100;
    let mut lights = SliderLights::new();
    calc_serial(&buf, &mut lights);
    assert_eq!(pixel(&lights, 0), [30, 10, 20]);
    assert!(lights.dirty);

    // Without the marker bytes nothing is painted, but the tick still marks.
    let mut lights = SliderLights::new();
    let plain = Buffer::new();
    calc_serial(&plain, &mut lights);
    assert!(lights.ground.iter().all(|b| *b == 0));
    assert!(lights.dirty);
}

#[test]
fn lighting_tick_rates() {
    assert_eq!(tick_micros(true), 33333);
    assert_eq!(tick_micros(false), 66666);
}

#[test]
fn reactive_sixteen_buckets() {
    // With sixteen buckets every odd pixel sits just before a boundary and is
    // always active; each even pixel follows its own pad pair.
    let flat = flat_with(&[4]);
    let color = ColorScheme::default();
    let mut lights = SliderLights::new();
    calc_even(&flat, 16, &color, &mut lights);
    for idx in (1..31).step_by(2) {
        assert_eq!(pixel(&lights, idx), [255, 0, 255]);
    }
    assert_eq!(pixel(&lights, 4), [255, 0, 255]);
    assert_eq!(pixel(&lights, 0), [255, 255, 0]);
    assert_eq!(pixel(&lights, 6), [255, 255, 0]);
}
