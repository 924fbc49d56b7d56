use slider_io::state::{snapshot_bytes, SliderInput, SliderLights};

#[test]
fn flat_projection_layout() {
    let mut input = SliderInput::new();
    input.ground[0] = 20;
    input.ground[1] = 19;
    input.ground[31] = 255;
    input.air[0] = 1;
    input.air[5] = 7;
    input.extra[2] = 1;
    let flat = input.to_flat(&20);
    assert_eq!(flat.len(), 41);
    assert!(flat[0]);
    assert!(!flat[1]);
    assert!(flat[31]);
    assert!(flat[32]);
    assert!(flat[37]);
    assert!(!flat[38]);
    assert!(flat[40]);
}

#[test]
fn flat_projection_zero_sensitivity() {
    let input = SliderInput::new();
    let flat = input.to_flat(&0);
    // A zero threshold counts every pad as pressed.
    for i in 0..32 {
        assert!(flat[i]);
    }
    for i in 32..41 {
        assert!(!flat[i]);
    }
}

#[test]
fn flip_vert_swaps_columns() {
    let mut input = SliderInput::new();
    for i in 0..32 {
        input.ground[i] = i as u8;
    }
    input.flip_vert();
    for k in 0..16 {
        assert_eq!(input.ground[2 * k], (2 * k + 1) as u8);
        assert_eq!(input.ground[2 * k + 1], (2 * k) as u8);
    }
}

#[test]
fn flip_vert_twice_is_identity() {
    let mut input = SliderInput::new();
    for i in 0..32 {
        input.ground[i] = (3 * i + 7) as u8;
    }
    let before = input.ground.clone();
    input.flip_vert();
    input.flip_vert();
    assert_eq!(input.ground, before);
}

#[test]
fn paint_writes_one_pixel() {
    let mut lights = SliderLights::new();
    lights.paint(2, &[1, 2, 3]);
    assert_eq!(&lights.ground[6..9], &[1, 2, 3]);
    assert_eq!(lights.ground[5], 0);
    assert_eq!(lights.ground[9], 0);
    lights.paint_air(1, &[9, 8, 7]);
    assert_eq!(&lights.air_left[3..6], &[9, 8, 7]);
    assert_eq!(&lights.air_right[3..6], &[9, 8, 7]);
}

#[test]
fn dirty_discipline_round() {
    let mut lights = SliderLights::new();
    lights.paint(0, &[10, 20, 30]);
    lights.dirty = true;
    // The first consumer takes exactly the written frame and clears the flag.
    let frame = lights.take_frame().expect("dirty slot must hand out a frame");
    assert_eq!(&frame[0..3], &[10, 20, 30]);
    assert!(!lights.dirty);
    // Until the producer marks the slot again, nothing more is handed out.
    assert!(lights.take_frame().is_none());
    lights.dirty = true;
    assert!(lights.take_frame().is_some());
}

#[test]
fn snapshot_concatenates() {
    let mut input = SliderInput::new();
    input.ground[0] = 1;
    input.air[0] = 2;
    input.extra[0] = 3;
    let mut lights = SliderLights::new();
    lights.ground[0] = 4;
    let snap = snapshot_bytes(&input, &lights);
    assert_eq!(snap.len(), 32 + 6 + 3 + 93);
    assert_eq!(snap[0], 1);
    assert_eq!(snap[32], 2);
    assert_eq!(snap[38], 3);
    assert_eq!(snap[41], 4);
}

#[test]
fn lights_reset_zeroes() {
    let mut lights = SliderLights::new();
    lights.paint(5, &[1, 1, 1]);
    lights.dirty = true;
    lights.reset();
    assert!(lights.ground.iter().all(|b| *b == 0));
    assert!(lights.air_left.iter().all(|b| *b == 0));
    assert!(lights.air_right.iter().all(|b| *b == 0));
    assert!(!lights.dirty);
}
