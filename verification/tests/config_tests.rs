use slider_io::config::{parse_hex_color, Config};
use slider_io::device::{BrokenithmSpec, DeviceMode, HardwareSpec};
use slider_io::lights::{LightsMode, ReactiveLayout};
use slider_io::output::{KeyboardLayout, OutputMode, PollingRate};
use slider_io::session::session_plan;
use slider_io::system::{get_config_path, get_log_file_path};

const FULL_CONFIG: &str = r##"{
    "deviceMode": "tasoller-two",
    "outputMode": "kb-32-tasoller",
    "ledMode": "reactive-8",
    "disableAirStrings": false,
    "divaSerialPort": "COM1",
    "divaBrightness": 63,
    "brokenithmPort": 1606,
    "keyboardSensitivity": 20,
    "keyboardDirectInput": false,
    "outputPolling": "100",
    "outputWebsocketUrl": "localhost:3000",
    "ledFaster": false,
    "ledColorActive": "#ff00ff",
    "ledColorInactive": "#ffff00",
    "ledColorAirActive": "#0086ed",
    "ledColorAirInactive": "#000000",
    "ledSensitivity": 20,
    "ledWebsocketUrl": "localhost:3001",
    "ledSerialPort": "COM5"
}"##;

#[test]
fn full_config_parses() {
    let config = Config::from_str(FULL_CONFIG).expect("the full document must parse");
    assert_eq!(config.raw, FULL_CONFIG);
    match config.device_mode {
        DeviceMode::Hardware { model, disable_air } => {
            assert_eq!(model, HardwareSpec::TasollerTwo);
            assert!(!disable_air);
        }
        other => panic!("wrong device mode: {:?}", other),
    }
    match config.output_mode {
        OutputMode::Keyboard { layout, polling, sensitivity, direct_input } => {
            assert_eq!(layout, KeyboardLayout::Tasoller);
            assert_eq!(polling, PollingRate::Hundred);
            assert_eq!(sensitivity, 20);
            assert!(!direct_input);
        }
        other => panic!("wrong output mode: {:?}", other),
    }
    match config.lights_mode {
        LightsMode::Reactive { faster, layout, sensitivity, color } => {
            assert!(!faster);
            assert!(matches!(layout, ReactiveLayout::Even { splits: 8 }));
            assert_eq!(sensitivity, 20);
            assert_eq!(color.active, [0xff, 0x00, 0xff]);
            assert_eq!(color.inactive, [0xff, 0xff, 0x00]);
            assert_eq!(color.air_active, [0x00, 0x86, 0xed]);
            assert_eq!(color.air_inactive, [0x00, 0x00, 0x00]);
        }
        other => panic!("wrong lights mode: {:?}", other),
    }
}

#[test]
fn diva_and_brokenithm_modes() {
    let doc = r##"{
        "deviceMode": "diva",
        "outputMode": "none",
        "ledMode": "none",
        "divaSerialPort": "COM7",
        "divaBrightness": 40
    }"##;
    let config = Config::from_str(doc).unwrap();
    match config.device_mode {
        DeviceMode::DivaSlider { port, brightness } => {
            assert_eq!(port, "COM7");
            assert_eq!(brightness, 40);
        }
        other => panic!("wrong device mode: {:?}", other),
    }

    let doc = r##"{
        "deviceMode": "brokenithm-led",
        "outputMode": "none",
        "ledMode": "none",
        "disableAirStrings": true,
        "brokenithmPort": 1700
    }"##;
    let config = Config::from_str(doc).unwrap();
    match config.device_mode {
        DeviceMode::Brokenithm { spec, lights_enabled, port } => {
            assert!(matches!(spec, BrokenithmSpec::GroundOnly));
            assert!(lights_enabled);
            assert_eq!(port, 1700);
        }
        other => panic!("wrong device mode: {:?}", other),
    }

    // An out-of-range port falls back to the default.
    let doc = r##"{
        "deviceMode": "brokenithm",
        "outputMode": "none",
        "ledMode": "none",
        "disableAirStrings": false,
        "brokenithmPort": 70000
    }"##;
    let config = Config::from_str(doc).unwrap();
    match config.device_mode {
        DeviceMode::Brokenithm { port, .. } => assert_eq!(port, 1606),
        other => panic!("wrong device mode: {:?}", other),
    }
}

#[test]
fn rejected_documents() {
    // Not JSON at all.
    assert!(Config::from_str("not json").is_none());
    // An unknown mode name.
    assert!(Config::from_str(
        r##"{"deviceMode": "gibberish", "outputMode": "none", "ledMode": "none"}"##
    )
    .is_none());
    // A mode missing a value it needs.
    assert!(Config::from_str(
        r##"{"deviceMode": "tasoller-one", "outputMode": "none", "ledMode": "none"}"##
    )
    .is_none());
    // An out-of-range sensitivity.
    assert!(Config::from_str(
        r##"{"deviceMode": "none", "outputMode": "kb-4", "ledMode": "none",
            "outputPolling": "100", "keyboardSensitivity": 300,
            "keyboardDirectInput": false}"##
    )
    .is_none());
    // An unsupported polling rate.
    assert!(Config::from_str(
        r##"{"deviceMode": "none", "outputMode": "kb-4", "ledMode": "none",
            "outputPolling": "144", "keyboardSensitivity": 20,
            "keyboardDirectInput": false}"##
    )
    .is_none());
}

#[test]
fn gamepad_and_external_lights_modes() {
    let doc = r##"{
        "deviceMode": "none",
        "outputMode": "gamepad-voltex",
        "ledMode": "umgr-websocket",
        "outputPolling": "1000",
        "keyboardSensitivity": 50,
        "ledFaster": true,
        "ledUmgrWebsocketPort": 1621
    }"##;
    let config = Config::from_str(doc).unwrap();
    assert!(matches!(config.output_mode, OutputMode::Gamepad { polling: PollingRate::Thousand, sensitivity: 50, .. }));
    match config.lights_mode {
        LightsMode::UmgrWebsocket { faster, port } => {
            assert!(faster);
            assert_eq!(port, 1621);
        }
        other => panic!("wrong lights mode: {:?}", other),
    }

    let plan = session_plan(&config);
    assert!(!plan.hid_worker);
    assert!(!plan.diva_worker);
    assert!(!plan.brokenithm_worker);
    assert!(plan.output_worker);
    assert!(!plan.lights_worker);
    assert!(plan.umgr_worker);
}

#[test]
fn default_config_plans_nothing() {
    let config = Config::default();
    let plan = session_plan(&config);
    assert!(!plan.hid_worker);
    assert!(!plan.diva_worker);
    assert!(!plan.brokenithm_worker);
    assert!(!plan.output_worker);
    assert!(!plan.lights_worker);
    assert!(!plan.umgr_worker);
}

#[test]
fn malformed_palette_falls_back() {
    let doc = r##"{
        "deviceMode": "none",
        "outputMode": "none",
        "ledMode": "reactive-4",
        "ledFaster": false,
        "ledSensitivity": 20,
        "ledColorActive": "#zz00ff",
        "ledColorInactive": "#ffff00",
        "ledColorAirActive": "#0086ed",
        "ledColorAirInactive": "#000000"
    }"##;
    let config = Config::from_str(doc).unwrap();
    match config.lights_mode {
        LightsMode::Reactive { color, .. } => {
            assert_eq!(color.active, [255, 0, 255]);
            assert_eq!(color.inactive, [255, 255, 0]);
        }
        other => panic!("wrong lights mode: {:?}", other),
    }
}

#[test]
fn hex_colors() {
    assert_eq!(parse_hex_color("#ff00Aa"), Some((0xff, 0x00, 0xaa)));
    assert_eq!(parse_hex_color("x123456"), Some((0x12, 0x34, 0x56)));
    assert_eq!(parse_hex_color("#ff00"), None);
    assert_eq!(parse_hex_color("#ff00zz"), None);
}

#[test]
fn system_paths() {
    assert_eq!(get_log_file_path("/tmp/conf"), "/tmp/conf/log.txt");
    assert_eq!(get_config_path("/tmp/conf"), "/tmp/conf/config.json");
}

#[test]
fn default_document_round_trips() {
    let config = Config::default();
    assert!(matches!(config.device_mode, DeviceMode::Off));
    // The fallback document itself parses back to the same modes and carries
    // the usual defaults for the remaining keys.
    let reparsed = Config::from_str(&config.raw).expect("the default document must parse");
    assert!(matches!(reparsed.device_mode, DeviceMode::Off));
    assert!(matches!(reparsed.output_mode, OutputMode::Off));
    assert!(matches!(reparsed.lights_mode, LightsMode::Off));
    assert!(config.raw.contains("\"brokenithmPort\": 1606"));
    assert!(config.raw.contains("\"keyboardSensitivity\": 20"));
    assert!(config.raw.contains("\"ledSensitivity\": 20"));
    assert!(config.raw.contains("\"outputPolling\": \"100\""));
    assert!(config.raw.contains("\"divaSerialPort\": \"COM1\""));
}

#[test]
fn brightness_range_and_deemo_alias() {
    // The serial slider brightness is a six-bit value: anything above 63 is
    // rejected.
    assert!(Config::from_str(
        r##"{"deviceMode": "diva", "outputMode": "none", "ledMode": "none",
            "divaSerialPort": "COM7", "divaBrightness": 100}"##
    )
    .is_none());
    let config = Config::from_str(
        r##"{"deviceMode": "diva", "outputMode": "none", "ledMode": "none",
            "divaSerialPort": "COM7", "divaBrightness": 63}"##,
    )
    .unwrap();
    assert!(matches!(config.device_mode, DeviceMode::DivaSlider { brightness: 63, .. }));

    // The eight-key layout answers to its alias mode name as well.
    let config = Config::from_str(
        r##"{"deviceMode": "none", "outputMode": "kb-8-deemo", "ledMode": "none",
            "outputPolling": "100", "keyboardSensitivity": 20,
            "keyboardDirectInput": false}"##,
    )
    .unwrap();
    assert!(matches!(
        config.output_mode,
        OutputMode::Keyboard { layout: KeyboardLayout::EightK, .. }
    ));
}

#[test]
fn mode_deciders_read_the_document() {
    let doc = r##"{"deviceMode": "yuancon", "disableAirStrings": true}"##;
    match DeviceMode::from_document(doc) {
        Some(DeviceMode::Hardware { model, disable_air }) => {
            assert_eq!(model, HardwareSpec::Yuancon);
            assert!(disable_air);
        }
        other => panic!("wrong device mode: {:?}", other),
    }
    assert!(DeviceMode::from_document("{}").is_none());
    assert!(OutputMode::from_document("not json").is_none());
    match LightsMode::from_document(r##"{"ledMode": "attract", "ledFaster": true}"##) {
        Some(LightsMode::Attract { faster }) => assert!(faster),
        other => panic!("wrong lights mode: {:?}", other),
    }
}
