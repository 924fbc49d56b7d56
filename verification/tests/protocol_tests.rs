use slider_io::brokenithm::{brokenithm_handle_text, route_request, BrokenithmReply, BrokenithmRoute};
use slider_io::state::{SliderInput, SliderLights};
use slider_io::umgr::{umgr_handle, umgr_server_info, UmgrReply};

#[test]
fn websocket_touch_payload() {
    // Scenario: "b" + "1" * 32 + "0" * 6 presses every pad and no beam.
    let msg: Vec<char> = format!("b{}{}", "1".repeat(32), "0".repeat(6)).chars().collect();
    let mut input = SliderInput::new();
    let reply = brokenithm_handle_text(&msg, &mut input);
    assert_eq!(reply, BrokenithmReply::Applied);
    assert_eq!(input.ground, vec![255u8; 32]);
    assert_eq!(input.air, vec![0u8; 6]);
}

#[test]
fn websocket_heartbeat_and_close() {
    let mut input = SliderInput::new();
    let msg: Vec<char> = "axxxxx".chars().collect();
    assert_eq!(brokenithm_handle_text(&msg, &mut input), BrokenithmReply::Alive);
    let msg: Vec<char> = "bxxxxx".chars().collect();
    assert_eq!(brokenithm_handle_text(&msg, &mut input), BrokenithmReply::Ignored);
    let msg: Vec<char> = "too short".chars().collect();
    assert_eq!(brokenithm_handle_text(&msg, &mut input), BrokenithmReply::Close);
    assert_eq!(input.ground, vec![0u8; 32]);
}

#[test]
fn websocket_mixed_touch_payload() {
    let mut body = String::from("b");
    body.push_str(&"10".repeat(16));
    body.push_str("101010");
    let msg: Vec<char> = body.chars().collect();
    let mut input = SliderInput::new();
    assert_eq!(brokenithm_handle_text(&msg, &mut input), BrokenithmReply::Applied);
    for i in 0..32 {
        assert_eq!(input.ground[i], if i % 2 == 0 { 255 } else { 0 });
    }
    assert_eq!(input.air, vec![1, 0, 1, 0, 1, 0]);
}

#[test]
fn request_routing() {
    assert_eq!(route_request(false, "/", false, false), BrokenithmRoute::NotFound);
    assert_eq!(route_request(true, "/", false, false), BrokenithmRoute::IndexFull);
    assert_eq!(route_request(true, "/index.html", false, true), BrokenithmRoute::IndexGroundOnly);
    assert_eq!(route_request(true, "/app.js", false, false), BrokenithmRoute::Asset);
    assert_eq!(route_request(true, "/ws", true, false), BrokenithmRoute::Websocket);
    assert_eq!(route_request(true, "/other", true, false), BrokenithmRoute::NotFound);
}

#[test]
fn umgr_ping() {
    // Scenario: a ping with payload a, b, c, d answers with the payload and
    // the server magic.
    let msg = vec![0x01, 0x12, 0x04, 0xde, 0xad, 0xbe, 0xef];
    let mut lights = SliderLights::new();
    match umgr_handle(&msg, &mut lights, false, 0, 0) {
        UmgrReply::Send(reply) => {
            assert_eq!(reply, vec![0x01, 0x1a, 0x06, 0xde, 0xad, 0xbe, 0xef, 0x51, 0xed]);
        }
        _ => panic!("ping must be answered"),
    }
}

#[test]
fn umgr_initialize() {
    let mut lights = SliderLights::new();
    match umgr_handle(&vec![0x01, 0x11, 0x00], &mut lights, false, 0, 0) {
        UmgrReply::Send(reply) => assert_eq!(reply, vec![0x01, 0x19, 0x00]),
        _ => panic!("initialize must be answered"),
    }
}

#[test]
fn umgr_server_info_record() {
    let mut lights = SliderLights::new();
    match umgr_handle(&vec![0x01, 0xd0, 0x00], &mut lights, false, 0x0102, 0x0304) {
        UmgrReply::Send(reply) => {
            assert_eq!(reply.len(), 47);
            assert_eq!(&reply[0..3], &[0x01, 0xd8, 44]);
            assert_eq!(&reply[3..12], b"slider-io");
            assert_eq!(&reply[19..23], &[0x01, 0x02, 0x03, 0x04]);
            assert_eq!(&reply[25..39], b"generic-slider");
            assert_eq!(&reply[41..45], &[0x00, 0x01, 0x00, 0x01]);
        }
        _ => panic!("info request must be answered"),
    }
    let direct = umgr_server_info(0x0102, 0x0304);
    assert_eq!(direct.len(), 47);
}

#[test]
fn umgr_set_led_paints_and_throttles() {
    let mut payload = vec![0x01u8];
    for i in 0..16u8 {
        payload.extend([i, i, i]);
    }
    for i in 0..15u8 {
        payload.extend([100 + i, 100 + i, 100 + i]);
    }
    payload.extend([201, 202, 203]);
    payload.extend([211, 212, 213]);
    payload.extend([221, 222, 223]);
    assert_eq!(payload.len(), 103);
    let mut msg = vec![0x01, 0x10, 103];
    msg.extend(&payload);

    let mut lights = SliderLights::new();
    match umgr_handle(&msg, &mut lights, false, 0, 0) {
        UmgrReply::Quiet => {}
        _ => panic!("a lighting frame asks for no reply"),
    }
    // Pad colors land on the even pixels, divider colors on the odd pixels.
    assert_eq!(&lights.ground[0..3], &[0, 0, 0]);
    assert_eq!(&lights.ground[6..9], &[1, 1, 1]);
    assert_eq!(&lights.ground[3..6], &[100, 100, 100]);
    // The three air colors land top first on both strips.
    assert_eq!(&lights.air_left[6..9], &[201, 202, 203]);
    assert_eq!(&lights.air_right[0..3], &[221, 222, 223]);
    // The throttle was closed, so the slot stays clean.
    assert!(!lights.dirty);
    match umgr_handle(&msg, &mut lights, true, 0, 0) {
        UmgrReply::Quiet => {}
        _ => panic!(),
    }
    assert!(lights.dirty);
}

#[test]
fn umgr_malformed_closes() {
    let mut lights = SliderLights::new();
    // Too short.
    assert!(matches!(umgr_handle(&vec![0x01, 0x12], &mut lights, true, 0, 0), UmgrReply::Close));
    // Length byte does not match the payload.
    assert!(matches!(
        umgr_handle(&vec![0x01, 0x12, 0x04, 0x01], &mut lights, true, 0, 0),
        UmgrReply::Close
    ));
    // Unknown opcode.
    assert!(matches!(umgr_handle(&vec![0x01, 0x77, 0x00], &mut lights, true, 0, 0), UmgrReply::Close));
    // Unknown version.
    assert!(matches!(umgr_handle(&vec![0x02, 0x12, 0x00], &mut lights, true, 0, 0), UmgrReply::Close));
    assert!(!lights.dirty);
}
