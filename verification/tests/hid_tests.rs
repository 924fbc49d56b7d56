use slider_io::hid::{
    buffer_eq, disable_air, hori_decode, hori_led_brg, hori_led_stage, read_is_fresh,
    tasoller_one_decode, tasoller_one_led, tasoller_two_decode, tasoller_two_led, yuancon_decode,
    yuancon_led, yubideck_decode, yubideck_led, yubideck_three_led, Buffer, LedSpec, WriteType,
};
use slider_io::state::{SliderInput, SliderLights};

fn buffer_from(bytes: &[u8]) -> Buffer {
    let mut buf = Buffer::new();
    buf.data[..bytes.len()].copy_from_slice(bytes);
    buf.len = bytes.len();
    buf
}

#[test]
fn tasoller_two_read() {
    // Scenario: byte 3 carries air bit 0 and extra bit 7, bytes 4..36 all 5.
    let mut frame = vec![0u8, 0, 0, 0b1000_0001];
    frame.extend([5u8; 32]);
    let buf = buffer_from(&frame);
    let mut input = SliderInput::new();
    tasoller_two_decode(&buf, &mut input);
    assert_eq!(input.ground, vec![5u8; 32]);
    assert_eq!(input.air, vec![1, 0, 0, 0, 0, 0]);
    assert_eq!(&input.extra[0..2], &[0, 1]);
}

#[test]
fn tasoller_two_read_flips_columns() {
    let mut frame = vec![0u8, 0, 0, 0];
    for i in 0..32 {
        frame.push(i as u8);
    }
    let buf = buffer_from(&frame);
    let mut input = SliderInput::new();
    tasoller_two_decode(&buf, &mut input);
    for k in 0..16 {
        assert_eq!(input.ground[2 * k], (2 * k + 1) as u8);
        assert_eq!(input.ground[2 * k + 1], (2 * k) as u8);
    }
}

#[test]
fn tasoller_two_wrong_length_ignored() {
    let buf = buffer_from(&[0u8; 35]);
    let mut input = SliderInput::new();
    input.ground[0] = 77;
    tasoller_two_decode(&buf, &mut input);
    assert_eq!(input.ground[0], 77);
}

#[test]
fn tasoller_one_read() {
    // Bit 34 of the stream is bit 2 of byte 4; after the flip it lands on
    // ground pad 1. Bit 28 (bit 4 of byte 3) is air beam 0; bit 26 extra 0.
    let mut frame = [0u8; 11];
    frame[4] = 0b0000_0100;
    frame[3] = 0b0001_0000 | 0b0000_0100;
    let buf = buffer_from(&frame);
    let mut input = SliderInput::new();
    tasoller_one_decode(&buf, &mut input);
    assert_eq!(input.ground[1], 255);
    assert_eq!(input.ground[0], 0);
    assert_eq!(input.air[0], 1);
    assert_eq!(input.extra[0], 1);
}

#[test]
fn yuancon_read() {
    let mut frame = vec![0u8; 34];
    frame[0] = 0b0000_0001;  // air bit 0 lands on beam 1
    frame[1] = 0b0000_0100;  // extra bit 2 lands on button 0
    for i in 0..32 {
        frame[2 + i] = (i + 1) as u8;
    }
    let buf = buffer_from(&frame);
    let mut input = SliderInput::new();
    yuancon_decode(&buf, &mut input);
    // No vertical flip on this model.
    for i in 0..32 {
        assert_eq!(input.ground[i], (i + 1) as u8);
    }
    assert_eq!(input.air, vec![0, 1, 0, 0, 0, 0]);
    assert_eq!(input.extra, vec![1, 0, 0]);
}

#[test]
fn yubideck_read_flips() {
    let mut frame = vec![0u8; 45];
    for i in 0..32 {
        frame[2 + i] = i as u8;
    }
    let buf = buffer_from(&frame);
    let mut input = SliderInput::new();
    yubideck_decode(&buf, &mut input);
    assert_eq!(input.ground[0], 1);
    assert_eq!(input.ground[1], 0);
}

#[test]
fn hori_read() {
    // All bytes zero: the XOR mask raises bit 7 of every byte, so the stream
    // has bits 7, 15, ..., 55 set. Ground pad i reads bit 55 - i: every
    // eighth pad starting at 0 reads pressed.
    let buf = buffer_from(&[0u8; 9]);
    let mut input = SliderInput::new();
    input.extra[0] = 9;
    hori_decode(&buf, &mut input);
    assert_eq!(input.ground[0], 255);
    assert_eq!(input.ground[8], 255);
    assert_eq!(input.ground[1], 0);
    assert_eq!(input.ground[9], 0);
    assert_eq!(input.air, vec![0u8; 6]);
    assert_eq!(input.extra, vec![0u8; 3]);
}

#[test]
fn disable_air_zeroes_air_only() {
    let mut input = SliderInput::new();
    input.ground[3] = 9;
    input.air[2] = 1;
    input.extra[1] = 1;
    disable_air(&mut input);
    assert_eq!(input.ground[3], 9);
    assert_eq!(input.air, vec![0u8; 6]);
    assert_eq!(input.extra[1], 1);
}

#[test]
fn fresh_read_detection() {
    let a = buffer_from(&[1, 2, 3]);
    let b = buffer_from(&[1, 2, 3]);
    let c = buffer_from(&[1, 2, 4]);
    let empty = Buffer::new();
    assert!(buffer_eq(&a, &b));
    assert!(!buffer_eq(&a, &c));
    assert!(!read_is_fresh(&a, &b));
    assert!(read_is_fresh(&a, &c));
    assert!(!read_is_fresh(&empty, &a));
}

#[test]
fn tasoller_led_frame() {
    let mut lights = SliderLights::new();
    lights.paint(30, &[1, 2, 3]);
    let mut buf = Buffer::new();
    tasoller_one_led(&lights, &mut buf);
    assert_eq!(buf.len, 240);
    assert_eq!(&buf.data[0..3], &[b'B', b'L', 0]);
    // Pixel 30 lands first, its red and green channels swapped.
    assert_eq!(&buf.data[3..6], &[2, 1, 3]);
    assert!(buf.data[96..240].iter().all(|b| *b == 0));
}

#[test]
fn tasoller_two_air_blocks() {
    let mut lights = SliderLights::new();
    lights.paint_air_left(2, &[1, 2, 3]);
    lights.paint_air_right(0, &[4, 5, 6]);
    let mut buf = Buffer::new();
    tasoller_two_led(&lights, &mut buf);
    // The first air block repeats the top left pixel eight times in GRB order.
    for rep in 0..8 {
        assert_eq!(&buf.data[96 + 3 * rep..96 + 3 * rep + 3], &[2, 1, 3]);
    }
    // The fourth block carries the bottom right pixel.
    assert_eq!(&buf.data[96 + 72..96 + 75], &[5, 4, 6]);
}

#[test]
fn yuancon_led_packs_565() {
    let mut lights = SliderLights::new();
    lights.paint(30, &[0xff, 0xff, 0xff]);
    let mut buf = Buffer::new();
    yuancon_led(&lights, &mut buf);
    assert_eq!(buf.len, 62);
    assert_eq!(buf.data[0], 0xff);
    assert_eq!(buf.data[1], 0xff);
    // A black pixel packs to zero.
    assert_eq!(buf.data[2], 0);
    assert_eq!(buf.data[3], 0);
}

#[test]
fn yubideck_led_packs_nibbles() {
    let mut lights = SliderLights::new();
    lights.paint(30, &[0x10, 0x20, 0x30]);
    lights.paint(29, &[0x40, 0x50, 0x60]);
    let mut buf = Buffer::new();
    yubideck_led(&lights, &mut buf);
    assert_eq!(buf.len, 62);
    assert_eq!(buf.data[0], 0x21);
    assert_eq!(buf.data[1], 0x43);
    assert_eq!(buf.data[2], 0x65);
}

#[test]
fn yubideck_three_led_frames() {
    let mut lights = SliderLights::new();
    lights.paint(30, &[1, 2, 3]);
    lights.paint(10, &[4, 5, 6]);
    lights.paint_air_left(1, &[7, 8, 9]);
    lights.paint_air_right(1, &[10, 11, 12]);
    let mut a = Buffer::new();
    let mut b = Buffer::new();
    yubideck_three_led(&lights, &mut a, &mut b);
    assert_eq!(a.len, 61);
    assert_eq!(b.len, 61);
    assert_eq!(a.data[0], 0);
    assert_eq!(b.data[0], 1);
    // Frame one starts at pixel 30; frame two at pixel 10.
    assert_eq!(&a.data[1..4], &[1, 2, 3]);
    assert_eq!(&b.data[1..4], &[4, 5, 6]);
    // The transmitted air bytes are each strip's bytes 3..6: its middle pixel.
    assert_eq!(&b.data[34..37], &[7, 8, 9]);
    assert_eq!(&b.data[37..40], &[10, 11, 12]);
}

#[test]
fn hori_led_stream_and_staging() {
    let mut lights = SliderLights::new();
    lights.paint(0, &[1, 2, 3]);
    let brg = hori_led_brg(&lights);
    assert_eq!(brg.len(), 111);
    assert_eq!(&brg[0..3], &[3, 1, 2]);

    let mut ga = Buffer::new();
    let mut gb = Buffer::new();
    let mut air = Buffer::new();
    let mut comp = Buffer::new();
    // A compressed stream that fits goes whole to the compressed channel.
    let small = vec![9u8; 62];
    hori_led_stage(&brg, &small, &mut ga, &mut gb, &mut air, &mut comp);
    assert_eq!(comp.len, 62);
    assert_eq!(ga.len, 0);
    // A stream that does not fit stripes the raw bytes 48/45/18.
    let big = vec![9u8; 63];
    hori_led_stage(&brg, &big, &mut ga, &mut gb, &mut air, &mut comp);
    assert_eq!(ga.len, 48);
    assert_eq!(gb.len, 45);
    assert_eq!(air.len, 18);
    assert_eq!(&ga.data[0..3], &[3, 1, 2]);
}

#[test]
fn led_spec_marks_sent() {
    let mut spec = LedSpec::new(WriteType::Bulk, 0x03);
    spec.led_buf.len = 240;
    assert!(!spec.mark_sent(240));
    assert_eq!(spec.led_buf.len, 240);
    assert!(spec.mark_sent(241));
    assert_eq!(spec.led_buf.len, 0);
}
