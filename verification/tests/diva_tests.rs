use slider_io::diva::{
    DivaDeserializer, DivaPacket, DivaSliderBootstrap, DivaSliderCore, CMD_INFO, CMD_LIGHTS,
    CMD_RESET, CMD_START, CMD_STOP, CMD_TOUCH,
};
use slider_io::state::{SliderInput, SliderLights};

fn frame_sum(p: &DivaPacket) -> u32 {
    0xff + p.command as u32 + p.len as u32 + p.data.iter().map(|b| *b as u32).sum::<u32>()
        + p.checksum as u32
}

#[test]
fn checksum_closes_the_frame() {
    // An all-16 touch report: the recorded wire capture ends in 0xe0.
    let payload = [0x10u8; 32];
    let p = DivaPacket::from_bytes(0x01, &payload);
    assert_eq!(p.checksum, 0xe0);
    assert_eq!(frame_sum(&p) % 256, 0);
    // The 0..=31 ramp sums to 784 with its header, so 240 closes the frame.
    let ramp: Vec<u8> = (0u8..32).collect();
    let p = DivaPacket::from_bytes(0x01, &ramp);
    assert_eq!(p.checksum, 0xf0);
    assert_eq!(frame_sum(&p) % 256, 0);
    // The empty reset frame ends in 0xf1.
    let p = DivaPacket::from_bytes(0x10, &[]);
    assert_eq!(p.checksum, 0xf1);
    assert_eq!(frame_sum(&p) % 256, 0);
}

#[test]
fn serialize_stuffs_escapes() {
    let p = DivaPacket::from_bytes(0x02, &[0xfd, 0xff, 0x01]);
    let wire = p.serialize();
    assert_eq!(wire[0], 0xff);
    assert_eq!(wire[1], 0x02);
    // The length byte 3 passes through, then the stuffed payload.
    assert_eq!(&wire[2..3], &[0x03]);
    assert_eq!(&wire[3..7], &[0xfd, 0xfc, 0xfd, 0xfe]);
    assert_eq!(wire[7], 0x01);
}

#[test]
fn stuffing_round_trip() {
    for payload in [
        vec![],
        vec![0u8],
        vec![0xfd, 0xfe, 0xff, 0x00, 0x7f],
        (0u8..=254).collect::<Vec<u8>>(),
    ] {
        let sent = DivaPacket::from_bytes(0x01, &payload);
        let wire = sent.serialize();
        let mut deser = DivaDeserializer::new();
        let mut out = Vec::new();
        deser.deserialize(&wire, &mut out);
        assert_eq!(out.len(), 1);
        assert_eq!(out[0].command, 0x01);
        assert_eq!(out[0].len as usize, payload.len());
        assert_eq!(out[0].data, payload);
        assert_eq!(out[0].checksum, sent.checksum);
        assert_eq!(frame_sum(&out[0]) % 256, 0);
    }
}

#[test]
fn deserializer_rejects_bad_checksum() {
    let p = DivaPacket::from_bytes(0x01, &[1, 2, 3]);
    let mut wire = p.serialize();
    let last = wire.len() - 1;
    wire[last] = wire[last].wrapping_add(1);
    let mut deser = DivaDeserializer::new();
    let mut out = Vec::new();
    deser.deserialize(&wire, &mut out);
    assert!(out.is_empty());
}

#[test]
fn deserializer_resyncs_after_garbage() {
    let mut wire = vec![0x13, 0x37, 0x00];
    wire.extend(DivaPacket::from_bytes(0x10, &[]).serialize());
    let mut deser = DivaDeserializer::new();
    let mut out = Vec::new();
    deser.deserialize(&wire, &mut out);
    assert_eq!(out.len(), 1);
    assert_eq!(out[0].command, 0x10);
    assert_eq!(out[0].len, 0);
}

#[test]
fn serial_bootstrap_handshake() {
    let mut core = DivaSliderCore::new(63);
    let mut input = SliderInput::new();
    let mut lights = SliderLights::new();
    let mut in_packets: Vec<DivaPacket> = Vec::new();
    let mut out: Vec<DivaPacket> = Vec::new();

    // From the initial state the core enqueues exactly one reset frame.
    assert!(core.advance(&mut in_packets, &mut input, &mut lights, false, &mut out));
    assert_eq!(out.len(), 1);
    assert_eq!(out[0].command, CMD_RESET);
    assert_eq!(out[0].len, 0);
    assert_eq!(out[0].checksum, 0xf1);
    assert_eq!(core.bootstrap, DivaSliderBootstrap::AwaitReset);

    // The reset acknowledgement yields exactly one info frame.
    in_packets.push(DivaPacket::from_bytes(CMD_RESET, &[]));
    assert!(core.advance(&mut in_packets, &mut input, &mut lights, false, &mut out));
    assert_eq!(out.len(), 2);
    assert_eq!(out[1].command, CMD_INFO);
    assert_eq!(frame_sum(&out[1]) % 256, 0);
    assert_eq!(core.bootstrap, DivaSliderBootstrap::AwaitInfo);

    // Any acknowledgement of the info request yields exactly one start frame.
    in_packets.push(DivaPacket::from_bytes(0xf0, &[0xff, 0x10, 0x00]));
    assert!(core.advance(&mut in_packets, &mut input, &mut lights, false, &mut out));
    assert_eq!(out.len(), 3);
    assert_eq!(out[2].command, CMD_START);
    assert_eq!(frame_sum(&out[2]) % 256, 0);
    assert_eq!(core.bootstrap, DivaSliderBootstrap::ReadLoop);
}

#[test]
fn read_loop_takes_touch_and_sends_lights() {
    let mut core = DivaSliderCore::new(40);
    let mut input = SliderInput::new();
    let mut lights = SliderLights::new();
    let mut in_packets: Vec<DivaPacket> = Vec::new();
    let mut out: Vec<DivaPacket> = Vec::new();

    // Walk the handshake.
    core.advance(&mut in_packets, &mut input, &mut lights, false, &mut out);
    in_packets.push(DivaPacket::from_bytes(CMD_RESET, &[]));
    core.advance(&mut in_packets, &mut input, &mut lights, false, &mut out);
    in_packets.push(DivaPacket::from_bytes(0xf0, &[]));
    core.advance(&mut in_packets, &mut input, &mut lights, false, &mut out);
    out.clear();

    // A touch report lands in the input slot; the last report wins.
    in_packets.push(DivaPacket::from_bytes(CMD_TOUCH, &[5u8; 32]));
    in_packets.push(DivaPacket::from_bytes(CMD_TOUCH, &[9u8; 32]));
    lights.paint(30, &[1, 2, 3]);
    lights.dirty = true;
    assert!(core.advance(&mut in_packets, &mut input, &mut lights, false, &mut out));
    assert_eq!(input.ground, vec![9u8; 32]);
    assert!(!lights.dirty);
    assert_eq!(out.len(), 1);
    let f = &out[0];
    assert_eq!(f.command, CMD_LIGHTS);
    assert_eq!(f.len, 94);
    assert_eq!(f.data[0], 40);
    // Pixel 30 lands first, in BRG order.
    assert_eq!(&f.data[1..4], &[3, 1, 2]);
    assert_eq!(frame_sum(f) % 256, 0);

    // Without fresh dirt or a due keep-alive nothing is sent.
    out.clear();
    assert!(!core.advance(&mut in_packets, &mut input, &mut lights, false, &mut out));
    assert!(out.is_empty());
    // The keep-alive alone forces a frame.
    assert!(core.advance(&mut in_packets, &mut input, &mut lights, true, &mut out));
    assert_eq!(out.len(), 1);
}

#[test]
fn halt_sends_stop_only_mid_stream() {
    let mut core = DivaSliderCore::new(0);
    let mut out: Vec<DivaPacket> = Vec::new();
    core.halt(&mut out);
    assert!(out.is_empty());

    let mut core = DivaSliderCore::new(0);
    let mut input = SliderInput::new();
    let mut lights = SliderLights::new();
    let mut in_packets: Vec<DivaPacket> = Vec::new();
    core.advance(&mut in_packets, &mut input, &mut lights, false, &mut out);
    in_packets.push(DivaPacket::from_bytes(CMD_RESET, &[]));
    core.advance(&mut in_packets, &mut input, &mut lights, false, &mut out);
    in_packets.push(DivaPacket::from_bytes(0xf0, &[]));
    core.advance(&mut in_packets, &mut input, &mut lights, false, &mut out);
    out.clear();
    core.halt(&mut out);
    assert_eq!(out.len(), 1);
    assert_eq!(out[0].command, CMD_STOP);
    assert_eq!(frame_sum(&out[0]) % 256, 0);
}

#[test]
fn deserializer_accepts_split_input() {
    // The machine keeps its state across reads: the wire form arrives one
    // byte at a time.
    let sent = DivaPacket::from_bytes(0x01, &[0xfd, 0x42, 0xff]);
    let wire = sent.serialize();
    let mut deser = DivaDeserializer::new();
    let mut out = Vec::new();
    for b in &wire {
        deser.deserialize(&[*b], &mut out);
    }
    assert_eq!(out.len(), 1);
    assert_eq!(out[0].data, vec![0xfd, 0x42, 0xff]);
}
