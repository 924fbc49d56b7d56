//! The configuration surface: parsing a JSON configuration document into the
//! device, output and lighting modes. The JSON lookups are done by an outside
//! parser behind small trusted wrappers whose results carry uninterpreted
//! names over the document text, so every entry point's contract reaches back
//! to the document; everything the values mean is decided and verified here.

use vstd::prelude::*;
use crate::device::{BrokenithmSpec, DeviceMode, HardwareSpec};
use crate::lights::{ColorScheme, LightsMode, ReactiveLayout};
use crate::output::{
    polling_rate_spec, str_eq, GamepadLayout, HoriLayout, KeyboardLayout, OutputMode, PollingRate,
};

verus! {

/// Whether a text is a well-formed JSON document.
pub uninterp spec fn json_is_doc(doc: Seq<char>) -> bool;

/// The string under a top-level key of a JSON document, when the document
/// parses, holds the key, and the value is a string.
pub uninterp spec fn json_str_of(doc: Seq<char>, key: Seq<char>) -> Option<Seq<char>>;

/// The boolean under a top-level key of a JSON document.
pub uninterp spec fn json_bool_of(doc: Seq<char>, key: Seq<char>) -> Option<bool>;

/// The integer under a top-level key of a JSON document, when it fits a
/// signed 64-bit value.
pub uninterp spec fn json_i64_of(doc: Seq<char>, key: Seq<char>) -> Option<i64>;

/// The character sequences a looked-up string option carries.
pub open spec fn str_opt_view(o: Option<String>) -> Option<Seq<char>> {
    match o {
        Some(s) => Some(s@),
        None => None,
    }
}

/// Relies on serde_json::from_str: whether the text parses as a JSON
/// document. Parsing is depth-limited and fails rather than panics.
#[verifier::external_body]
fn json_doc_ok(doc: &str) -> (r: bool)
    ensures
        r == json_is_doc(doc@),
{
    serde_json::from_str::<serde_json::Value>(doc).is_ok()
}

/// Relies on serde_json::from_str, Value::get and Value::as_str: the string
/// under a top-level key of the document, `None` when the document does not
/// parse, lacks the key, or holds another kind of value there.
#[verifier::external_body]
fn json_get_str(doc: &str, key: &str) -> (r: Option<String>)
    ensures
        str_opt_view(r) == json_str_of(doc@, key@),
{
    let v: serde_json::Value = serde_json::from_str(doc).ok()?;
    Some(v.get(key)?.as_str()?.to_owned())
}

/// Relies on serde_json::from_str, Value::get and Value::as_bool: the boolean
/// under a top-level key of the document.
#[verifier::external_body]
fn json_get_bool(doc: &str, key: &str) -> (r: Option<bool>)
    ensures
        r == json_bool_of(doc@, key@),
{
    let v: serde_json::Value = serde_json::from_str(doc).ok()?;
    v.get(key)?.as_bool()
}

/// Relies on serde_json::from_str, Value::get and Value::as_i64: the integer
/// under a top-level key of the document.
#[verifier::external_body]
fn json_get_i64(doc: &str, key: &str) -> (r: Option<i64>)
    ensures
        r == json_i64_of(doc@, key@),
{
    let v: serde_json::Value = serde_json::from_str(doc).ok()?;
    v.get(key)?.as_i64()
}

/// The value of a hexadecimal digit, either case.
pub open spec fn hex_digit_spec(c: char) -> Option<u8> {
    if '0' <= c <= '9' {
        Some(((c as u32) - 0x30) as u8)
    } else if 'a' <= c <= 'f' {
        Some(((c as u32) - 0x61 + 10) as u8)
    } else if 'A' <= c <= 'F' {
        Some(((c as u32) - 0x41 + 10) as u8)
    } else {
        None
    }
}

/// Reads one hexadecimal digit.
pub fn hex_digit(c: char) -> (r: Option<u8>)
    ensures
        r == hex_digit_spec(c),
{
    if '0' <= c && c <= '9' {
        Some(((c as u32) - 0x30) as u8)
    } else if 'a' <= c && c <= 'f' {
        Some(((c as u32) - 0x61 + 10) as u8)
    } else if 'A' <= c && c <= 'F' {
        Some(((c as u32) - 0x41 + 10) as u8)
    } else {
        None
    }
}

/// The byte two hexadecimal digits spell, when both are digits.
pub open spec fn hex_byte_spec(hi: char, lo: char) -> Option<u8> {
    match (hex_digit_spec(hi), hex_digit_spec(lo)) {
        (Some(h), Some(l)) => Some((16 * h + l) as u8),
        _ => None,
    }
}

/// Reads a byte from two hexadecimal digits.
pub fn hex_byte(hi: char, lo: char) -> (r: Option<u8>)
    ensures
        r == hex_byte_spec(hi, lo),
{
    match (hex_digit(hi), hex_digit(lo)) {
        (Some(h), Some(l)) => {
            proof {
                assert(hex_digit_spec(hi) matches Some(d) ==> d < 16);
                assert(hex_digit_spec(lo) matches Some(d) ==> d < 16);
            }
            Some(16 * h + l)
        },
        _ => None,
    }
}

/// The color a `#RRGGBB` string spells: its characters 1..7 read as three
/// hexadecimal byte pairs. Anything shorter, or a non-digit among them, is no
/// color.
pub open spec fn hex_color_spec(s: Seq<char>) -> Option<(u8, u8, u8)> {
    if s.len() < 7 {
        None
    } else {
        match (hex_byte_spec(s[1], s[2]), hex_byte_spec(s[3], s[4]), hex_byte_spec(s[5], s[6])) {
            (Some(r), Some(g), Some(b)) => Some((r, g, b)),
            _ => None,
        }
    }
}

/// Parses a `#RRGGBB` color string.
pub fn parse_hex_color(s: &str) -> (r: Option<(u8, u8, u8)>)
    ensures
        r == hex_color_spec(s@),
{
    if s.unicode_len() < 7 {
        return None;
    }
    match (
        hex_byte(s.get_char(1), s.get_char(2)),
        hex_byte(s.get_char(3), s.get_char(4)),
        hex_byte(s.get_char(5), s.get_char(6)),
    ) {
        (Some(r), Some(g), Some(b)) => Some((r, g, b)),
        _ => None,
    }
}

/// Whether a palette is the default one: magenta on yellow with blue air
/// strips.
pub open spec fn is_default_palette(r: ColorScheme) -> bool {
    &&& r.active@ =~= seq![255u8, 0u8, 255u8]
    &&& r.inactive@ =~= seq![255u8, 255u8, 0u8]
    &&& r.air_active@ =~= seq![0u8, 134u8, 237u8]
    &&& r.air_inactive@ =~= seq![0u8, 0u8, 0u8]
}

impl ColorScheme {
    /// Builds the palette from the four configured color strings; any missing
    /// or malformed color makes the whole palette fall back to the default.
    pub fn from_values(
        active: Option<String>,
        inactive: Option<String>,
        air_active: Option<String>,
        air_inactive: Option<String>,
    ) -> (r: ColorScheme)
        ensures
            match (active, inactive, air_active, air_inactive) {
                (Some(a), Some(i), Some(aa), Some(ai)) => match (
                    hex_color_spec(a@),
                    hex_color_spec(i@),
                    hex_color_spec(aa@),
                    hex_color_spec(ai@),
                ) {
                    (Some(ca), Some(ci), Some(caa), Some(cai)) => {
                        &&& r.active@ =~= seq![ca.0, ca.1, ca.2]
                        &&& r.inactive@ =~= seq![ci.0, ci.1, ci.2]
                        &&& r.air_active@ =~= seq![caa.0, caa.1, caa.2]
                        &&& r.air_inactive@ =~= seq![cai.0, cai.1, cai.2]
                    },
                    _ => is_default_palette(r),
                },
                _ => is_default_palette(r),
            },
    {
        let defaults = ColorScheme::default();
        match (&active, &inactive, &air_active, &air_inactive) {
            (Some(a), Some(i), Some(aa), Some(ai)) => {
                match (
                    parse_hex_color(a.as_str()),
                    parse_hex_color(i.as_str()),
                    parse_hex_color(aa.as_str()),
                    parse_hex_color(ai.as_str()),
                ) {
                    (Some(a), Some(i), Some(aa), Some(ai)) => ColorScheme {
                        active: [a.0, a.1, a.2],
                        inactive: [i.0, i.1, i.2],
                        air_active: [aa.0, aa.1, aa.2],
                        air_inactive: [ai.0, ai.1, ai.2],
                    },
                    _ => defaults,
                }
            },
            _ => defaults,
        }
    }
}

/// The device mode a configuration spells, from its plain values: the mode
/// name, the air switch, the serial port and brightness (0..=63) of a
/// serial slider,
/// and the TCP port of the embedded server. A missing value the chosen mode
/// needs, or an unknown mode name, yields nothing; an out-of-range embedded
/// server port falls back to 1606.
pub open spec fn device_mode_spec(
    mode: Seq<char>,
    disable_air: Option<bool>,
    diva_port: Option<String>,
    diva_brightness: Option<i64>,
    brokenithm_port: Option<i64>,
) -> Option<DeviceMode> {
    if mode == "none"@ {
        Some(DeviceMode::Off)
    } else if mode == "tasoller-one"@ {
        hardware_mode_spec(HardwareSpec::TasollerOne, disable_air)
    } else if mode == "tasoller-two"@ {
        hardware_mode_spec(HardwareSpec::TasollerTwo, disable_air)
    } else if mode == "yuancon"@ {
        hardware_mode_spec(HardwareSpec::Yuancon, disable_air)
    } else if mode == "yubideck"@ {
        hardware_mode_spec(HardwareSpec::Yubideck, disable_air)
    } else if mode == "yubideck-three"@ {
        hardware_mode_spec(HardwareSpec::YubideckThree, disable_air)
    } else if mode == "hori"@ {
        hardware_mode_spec(HardwareSpec::HoriPad, disable_air)
    } else if mode == "diva"@ {
        match (diva_port, diva_brightness) {
            (Some(port), Some(b)) => if 0 <= b <= 63 {
                Some(DeviceMode::DivaSlider { port, brightness: b as u8 })
            } else {
                None
            },
            _ => None,
        }
    } else if mode == "brokenithm"@ {
        brokenithm_mode_spec(disable_air, false, brokenithm_port)
    } else if mode == "brokenithm-led"@ {
        brokenithm_mode_spec(disable_air, true, brokenithm_port)
    } else if mode == "brokenithm-nostalgia"@ {
        match brokenithm_port {
            Some(bp) => Some(
                DeviceMode::Brokenithm {
                    spec: BrokenithmSpec::Nostalgia,
                    lights_enabled: false,
                    port: brokenithm_port_spec(bp),
                },
            ),
            None => None,
        }
    } else {
        None
    }
}

/// A USB hardware mode, needing only the air switch.
pub open spec fn hardware_mode_spec(
    model: HardwareSpec,
    disable_air: Option<bool>,
) -> Option<DeviceMode> {
    match disable_air {
        Some(da) => Some(DeviceMode::Hardware { model, disable_air: da }),
        None => None,
    }
}

/// The embedded server port a configured integer spells: itself when it fits,
/// the default 1606 otherwise.
pub open spec fn brokenithm_port_spec(bp: i64) -> u16 {
    if 0 <= bp <= 65535 {
        bp as u16
    } else {
        1606u16
    }
}

/// An embedded-server mode: the air switch picks the client flavor.
pub open spec fn brokenithm_mode_spec(
    disable_air: Option<bool>,
    lights_enabled: bool,
    brokenithm_port: Option<i64>,
) -> Option<DeviceMode> {
    match (disable_air, brokenithm_port) {
        (Some(da), Some(bp)) => Some(
            DeviceMode::Brokenithm {
                spec: if da {
                    BrokenithmSpec::GroundOnly
                } else {
                    BrokenithmSpec::Basic
                },
                lights_enabled,
                port: brokenithm_port_spec(bp),
            },
        ),
        _ => None,
    }
}

impl DeviceMode {
    /// Decides the device mode from the configuration's plain values.
    pub fn from_values(
        mode: &String,
        disable_air: Option<bool>,
        diva_port: Option<String>,
        diva_brightness: Option<i64>,
        brokenithm_port: Option<i64>,
    ) -> (r: Option<DeviceMode>)
        ensures
            r == device_mode_spec(mode@, disable_air, diva_port, diva_brightness, brokenithm_port),
    {
        let s = mode.as_str();
        if str_eq(s, "none") {
            Some(DeviceMode::Off)
        } else if str_eq(s, "tasoller-one") {
            Self::hardware(HardwareSpec::TasollerOne, disable_air)
        } else if str_eq(s, "tasoller-two") {
            Self::hardware(HardwareSpec::TasollerTwo, disable_air)
        } else if str_eq(s, "yuancon") {
            Self::hardware(HardwareSpec::Yuancon, disable_air)
        } else if str_eq(s, "yubideck") {
            Self::hardware(HardwareSpec::Yubideck, disable_air)
        } else if str_eq(s, "yubideck-three") {
            Self::hardware(HardwareSpec::YubideckThree, disable_air)
        } else if str_eq(s, "hori") {
            Self::hardware(HardwareSpec::HoriPad, disable_air)
        } else if str_eq(s, "diva") {
            match (diva_port, diva_brightness) {
                (Some(port), Some(b)) => if 0 <= b && b <= 63 {
                    Some(DeviceMode::DivaSlider { port, brightness: b as u8 })
                } else {
                    None
                },
                _ => None,
            }
        } else if str_eq(s, "brokenithm") {
            Self::brokenithm(disable_air, false, brokenithm_port)
        } else if str_eq(s, "brokenithm-led") {
            Self::brokenithm(disable_air, true, brokenithm_port)
        } else if str_eq(s, "brokenithm-nostalgia") {
            match brokenithm_port {
                Some(bp) => Some(
                    DeviceMode::Brokenithm {
                        spec: BrokenithmSpec::Nostalgia,
                        lights_enabled: false,
                        port: Self::brokenithm_port(bp),
                    },
                ),
                None => None,
            }
        } else {
            None
        }
    }

    /// Builds a USB hardware mode when the air switch is present.
    fn hardware(model: HardwareSpec, disable_air: Option<bool>) -> (r: Option<DeviceMode>)
        ensures
            r == hardware_mode_spec(model, disable_air),
    {
        match disable_air {
            Some(da) => Some(DeviceMode::Hardware { model, disable_air: da }),
            None => None,
        }
    }

    /// The embedded server port, falling back to 1606 when out of range.
    fn brokenithm_port(bp: i64) -> (r: u16)
        ensures
            r == brokenithm_port_spec(bp),
    {
        if 0 <= bp && bp <= 65535 {
            bp as u16
        } else {
            1606
        }
    }

    /// Builds an embedded-server mode when its values are present.
    fn brokenithm(
        disable_air: Option<bool>,
        lights_enabled: bool,
        brokenithm_port: Option<i64>,
    ) -> (r: Option<DeviceMode>)
        ensures
            r == brokenithm_mode_spec(disable_air, lights_enabled, brokenithm_port),
    {
        match (disable_air, brokenithm_port) {
            (Some(da), Some(bp)) => Some(
                DeviceMode::Brokenithm {
                    spec: if da {
                        BrokenithmSpec::GroundOnly
                    } else {
                        BrokenithmSpec::Basic
                    },
                    lights_enabled,
                    port: Self::brokenithm_port(bp),
                },
            ),
            _ => None,
        }
    }

    /// Decides the device mode straight from a configuration document,
    /// reading its values through the named lookups.
    pub fn from_document(doc: &str) -> (r: Option<DeviceMode>)
        ensures
            device_mode_doc_ok(r, doc@),
    {
        let mode = match json_get_str(doc, "deviceMode") {
            Some(m) => m,
            None => {
                return None;
            },
        };
        DeviceMode::from_values(
            &mode,
            json_get_bool(doc, "disableAirStrings"),
            json_get_str(doc, "divaSerialPort"),
            json_get_i64(doc, "divaBrightness"),
            json_get_i64(doc, "brokenithmPort"),
        )
    }
}

/// Whether `m` is the device mode a document spells through the named
/// lookups: no mode name means no mode; otherwise the same decision as
/// `device_mode_spec`, with the serial port pinned by its characters.
pub open spec fn device_mode_doc_ok(m: Option<DeviceMode>, doc: Seq<char>) -> bool {
    match json_str_of(doc, "deviceMode"@) {
        None => m is None,
        Some(mode) => {
            let disable_air = json_bool_of(doc, "disableAirStrings"@);
            let diva_port = json_str_of(doc, "divaSerialPort"@);
            let diva_brightness = json_i64_of(doc, "divaBrightness"@);
            let brokenithm_port = json_i64_of(doc, "brokenithmPort"@);
            if mode == "none"@ {
                m == Some(DeviceMode::Off)
            } else if mode == "tasoller-one"@ {
                m == hardware_mode_spec(HardwareSpec::TasollerOne, disable_air)
            } else if mode == "tasoller-two"@ {
                m == hardware_mode_spec(HardwareSpec::TasollerTwo, disable_air)
            } else if mode == "yuancon"@ {
                m == hardware_mode_spec(HardwareSpec::Yuancon, disable_air)
            } else if mode == "yubideck"@ {
                m == hardware_mode_spec(HardwareSpec::Yubideck, disable_air)
            } else if mode == "yubideck-three"@ {
                m == hardware_mode_spec(HardwareSpec::YubideckThree, disable_air)
            } else if mode == "hori"@ {
                m == hardware_mode_spec(HardwareSpec::HoriPad, disable_air)
            } else if mode == "diva"@ {
                match (diva_port, diva_brightness) {
                    (Some(p), Some(b)) => if 0 <= b <= 63 {
                        m matches Some(DeviceMode::DivaSlider { port, brightness }) && port@ == p
                            && brightness == b as u8
                    } else {
                        m is None
                    },
                    _ => m is None,
                }
            } else if mode == "brokenithm"@ {
                m == brokenithm_mode_spec(disable_air, false, brokenithm_port)
            } else if mode == "brokenithm-led"@ {
                m == brokenithm_mode_spec(disable_air, true, brokenithm_port)
            } else if mode == "brokenithm-nostalgia"@ {
                m == (match brokenithm_port {
                    Some(bp) => Some(
                        DeviceMode::Brokenithm {
                            spec: BrokenithmSpec::Nostalgia,
                            lights_enabled: false,
                            port: brokenithm_port_spec(bp),
                        },
                    ),
                    None => None,
                })
            } else {
                m is None
            }
        },
    }
}

/// A keyboard output mode: needs the polling rate, a sensitivity in byte
/// range, and the direct-input switch.
pub open spec fn keyboard_mode_spec(
    layout: KeyboardLayout,
    polling: Option<Seq<char>>,
    sensitivity: Option<i64>,
    direct_input: Option<bool>,
) -> Option<OutputMode> {
    match (polling, sensitivity, direct_input) {
        (Some(p), Some(s), Some(di)) => match polling_rate_spec(p) {
            Some(pr) => if 0 <= s <= 255 {
                Some(
                    OutputMode::Keyboard {
                        layout,
                        polling: pr,
                        sensitivity: s as u8,
                        direct_input: di,
                    },
                )
            } else {
                None
            },
            None => None,
        },
        _ => None,
    }
}

/// An XInput gamepad output mode: needs the polling rate and a sensitivity in
/// byte range.
pub open spec fn gamepad_mode_spec(
    layout: GamepadLayout,
    polling: Option<Seq<char>>,
    sensitivity: Option<i64>,
) -> Option<OutputMode> {
    match (polling, sensitivity) {
        (Some(p), Some(s)) => match polling_rate_spec(p) {
            Some(pr) => if 0 <= s <= 255 {
                Some(OutputMode::Gamepad { layout, polling: pr, sensitivity: s as u8 })
            } else {
                None
            },
            None => None,
        },
        _ => None,
    }
}

/// A DualShock gamepad output mode: needs the polling rate and a sensitivity
/// in byte range.
pub open spec fn hori_mode_spec(
    layout: HoriLayout,
    polling: Option<Seq<char>>,
    sensitivity: Option<i64>,
) -> Option<OutputMode> {
    match (polling, sensitivity) {
        (Some(p), Some(s)) => match polling_rate_spec(p) {
            Some(pr) => if 0 <= s <= 255 {
                Some(OutputMode::Hori { layout, polling: pr, sensitivity: s as u8 })
            } else {
                None
            },
            None => None,
        },
        _ => None,
    }
}

/// The output mode a configuration spells, from its plain values.
pub open spec fn output_mode_spec(
    mode: Seq<char>,
    polling: Option<String>,
    sensitivity: Option<i64>,
    direct_input: Option<bool>,
    url: Option<String>,
) -> Option<OutputMode> {
    if mode == "none"@ {
        Some(OutputMode::Off)
    } else if mode == "kb-32-tasoller"@ {
        keyboard_mode_spec(KeyboardLayout::Tasoller, str_opt_view(polling), sensitivity, direct_input)
    } else if mode == "kb-32-yuancon"@ {
        keyboard_mode_spec(KeyboardLayout::Yuancon, str_opt_view(polling), sensitivity, direct_input)
    } else if mode == "kb-32-umiguri"@ {
        keyboard_mode_spec(KeyboardLayout::Umiguri, str_opt_view(polling), sensitivity, direct_input)
    } else if mode == "kb-16"@ {
        keyboard_mode_spec(KeyboardLayout::TasollerHalf, str_opt_view(polling), sensitivity, direct_input)
    } else if mode == "kb-8"@ || mode == "kb-8-deemo"@ {
        keyboard_mode_spec(KeyboardLayout::EightK, str_opt_view(polling), sensitivity, direct_input)
    } else if mode == "kb-6"@ {
        keyboard_mode_spec(KeyboardLayout::SixK, str_opt_view(polling), sensitivity, direct_input)
    } else if mode == "kb-4"@ {
        keyboard_mode_spec(KeyboardLayout::FourK, str_opt_view(polling), sensitivity, direct_input)
    } else if mode == "kb-voltex"@ {
        keyboard_mode_spec(KeyboardLayout::Voltex, str_opt_view(polling), sensitivity, direct_input)
    } else if mode == "kb-neardayo"@ {
        keyboard_mode_spec(KeyboardLayout::Neardayo, str_opt_view(polling), sensitivity, direct_input)
    } else if mode == "kb-pdfta"@ {
        keyboard_mode_spec(KeyboardLayout::PDFTA, str_opt_view(polling), sensitivity, direct_input)
    } else if mode == "gamepad-voltex"@ {
        gamepad_mode_spec(GamepadLayout::Voltex, str_opt_view(polling), sensitivity)
    } else if mode == "gamepad-neardayo"@ {
        gamepad_mode_spec(GamepadLayout::Neardayo, str_opt_view(polling), sensitivity)
    } else if mode == "gamepad-hori"@ {
        hori_mode_spec(HoriLayout::Full, str_opt_view(polling), sensitivity)
    } else if mode == "gamepad-hori-wide"@ {
        hori_mode_spec(HoriLayout::SliderOnly, str_opt_view(polling), sensitivity)
    } else if mode == "websocket"@ {
        match (url, polling) {
            (Some(u), Some(p)) => match polling_rate_spec(p@) {
                Some(pr) => Some(OutputMode::Websocket { url: u, polling: pr }),
                None => None,
            },
            _ => None,
        }
    } else {
        None
    }
}

impl OutputMode {
    /// Decides the output mode from the configuration's plain values.
    pub fn from_values(
        mode: &String,
        polling: Option<String>,
        sensitivity: Option<i64>,
        direct_input: Option<bool>,
        url: Option<String>,
    ) -> (r: Option<OutputMode>)
        ensures
            r == output_mode_spec(mode@, polling, sensitivity, direct_input, url),
    {
        let s = mode.as_str();
        if str_eq(s, "none") {
            Some(OutputMode::Off)
        } else if str_eq(s, "kb-32-tasoller") {
            Self::keyboard(KeyboardLayout::Tasoller, polling, sensitivity, direct_input)
        } else if str_eq(s, "kb-32-yuancon") {
            Self::keyboard(KeyboardLayout::Yuancon, polling, sensitivity, direct_input)
        } else if str_eq(s, "kb-32-umiguri") {
            Self::keyboard(KeyboardLayout::Umiguri, polling, sensitivity, direct_input)
        } else if str_eq(s, "kb-16") {
            Self::keyboard(KeyboardLayout::TasollerHalf, polling, sensitivity, direct_input)
        } else if str_eq(s, "kb-8") || str_eq(s, "kb-8-deemo") {
            Self::keyboard(KeyboardLayout::EightK, polling, sensitivity, direct_input)
        } else if str_eq(s, "kb-6") {
            Self::keyboard(KeyboardLayout::SixK, polling, sensitivity, direct_input)
        } else if str_eq(s, "kb-4") {
            Self::keyboard(KeyboardLayout::FourK, polling, sensitivity, direct_input)
        } else if str_eq(s, "kb-voltex") {
            Self::keyboard(KeyboardLayout::Voltex, polling, sensitivity, direct_input)
        } else if str_eq(s, "kb-neardayo") {
            Self::keyboard(KeyboardLayout::Neardayo, polling, sensitivity, direct_input)
        } else if str_eq(s, "kb-pdfta") {
            Self::keyboard(KeyboardLayout::PDFTA, polling, sensitivity, direct_input)
        } else if str_eq(s, "gamepad-voltex") {
            Self::gamepad(GamepadLayout::Voltex, polling, sensitivity)
        } else if str_eq(s, "gamepad-neardayo") {
            Self::gamepad(GamepadLayout::Neardayo, polling, sensitivity)
        } else if str_eq(s, "gamepad-hori") {
            Self::hori(HoriLayout::Full, polling, sensitivity)
        } else if str_eq(s, "gamepad-hori-wide") {
            Self::hori(HoriLayout::SliderOnly, polling, sensitivity)
        } else if str_eq(s, "websocket") {
            match (url, polling) {
                (Some(u), Some(p)) => match PollingRate::from_str(p.as_str()) {
                    Some(pr) => Some(OutputMode::Websocket { url: u, polling: pr }),
                    None => None,
                },
                _ => None,
            }
        } else {
            None
        }
    }

    /// Builds a keyboard mode when its values are present.
    fn keyboard(
        layout: KeyboardLayout,
        polling: Option<String>,
        sensitivity: Option<i64>,
        direct_input: Option<bool>,
    ) -> (r: Option<OutputMode>)
        ensures
            r == keyboard_mode_spec(layout, str_opt_view(polling), sensitivity, direct_input),
    {
        match (polling, sensitivity, direct_input) {
            (Some(p), Some(s), Some(di)) => match PollingRate::from_str(p.as_str()) {
                Some(pr) => if 0 <= s && s <= 255 {
                    Some(
                        OutputMode::Keyboard {
                            layout,
                            polling: pr,
                            sensitivity: s as u8,
                            direct_input: di,
                        },
                    )
                } else {
                    None
                },
                None => None,
            },
            _ => None,
        }
    }

    /// Builds an XInput gamepad mode when its values are present.
    fn gamepad(
        layout: GamepadLayout,
        polling: Option<String>,
        sensitivity: Option<i64>,
    ) -> (r: Option<OutputMode>)
        ensures
            r == gamepad_mode_spec(layout, str_opt_view(polling), sensitivity),
    {
        match (polling, sensitivity) {
            (Some(p), Some(s)) => match PollingRate::from_str(p.as_str()) {
                Some(pr) => if 0 <= s && s <= 255 {
                    Some(OutputMode::Gamepad { layout, polling: pr, sensitivity: s as u8 })
                } else {
                    None
                },
                None => None,
            },
            _ => None,
        }
    }

    /// Builds a DualShock gamepad mode when its values are present.
    fn hori(
        layout: HoriLayout,
        polling: Option<String>,
        sensitivity: Option<i64>,
    ) -> (r: Option<OutputMode>)
        ensures
            r == hori_mode_spec(layout, str_opt_view(polling), sensitivity),
    {
        match (polling, sensitivity) {
            (Some(p), Some(s)) => match PollingRate::from_str(p.as_str()) {
                Some(pr) => if 0 <= s && s <= 255 {
                    Some(OutputMode::Hori { layout, polling: pr, sensitivity: s as u8 })
                } else {
                    None
                },
                None => None,
            },
            _ => None,
        }
    }

    /// Decides the output mode from a parsed configuration document.
    pub fn from_document(doc: &str) -> (r: Option<OutputMode>)
        ensures
            output_mode_doc_ok(r, doc@),
    {
        let mode = match json_get_str(doc, "outputMode") {
            Some(m) => m,
            None => {
                return None;
            },
        };
        OutputMode::from_values(
            &mode,
            json_get_str(doc, "outputPolling"),
            json_get_i64(doc, "keyboardSensitivity"),
            json_get_bool(doc, "keyboardDirectInput"),
            json_get_str(doc, "outputWebsocketUrl"),
        )
    }
}

/// Whether `m` is the output mode a document spells through the named
/// lookups: no mode name means no mode; otherwise the same decision as
/// `output_mode_spec`, with the destination URL pinned by its characters.
pub open spec fn output_mode_doc_ok(m: Option<OutputMode>, doc: Seq<char>) -> bool {
    match json_str_of(doc, "outputMode"@) {
        None => m is None,
        Some(mode) => {
            let polling = json_str_of(doc, "outputPolling"@);
            let sensitivity = json_i64_of(doc, "keyboardSensitivity"@);
            let direct_input = json_bool_of(doc, "keyboardDirectInput"@);
            if mode == "none"@ {
                m == Some(OutputMode::Off)
            } else if mode == "kb-32-tasoller"@ {
                m == keyboard_mode_spec(KeyboardLayout::Tasoller, polling, sensitivity, direct_input)
            } else if mode == "kb-32-yuancon"@ {
                m == keyboard_mode_spec(KeyboardLayout::Yuancon, polling, sensitivity, direct_input)
            } else if mode == "kb-32-umiguri"@ {
                m == keyboard_mode_spec(KeyboardLayout::Umiguri, polling, sensitivity, direct_input)
            } else if mode == "kb-16"@ {
                m == keyboard_mode_spec(
                    KeyboardLayout::TasollerHalf,
                    polling,
                    sensitivity,
                    direct_input,
                )
            } else if mode == "kb-8"@ || mode == "kb-8-deemo"@ {
                m == keyboard_mode_spec(KeyboardLayout::EightK, polling, sensitivity, direct_input)
            } else if mode == "kb-6"@ {
                m == keyboard_mode_spec(KeyboardLayout::SixK, polling, sensitivity, direct_input)
            } else if mode == "kb-4"@ {
                m == keyboard_mode_spec(KeyboardLayout::FourK, polling, sensitivity, direct_input)
            } else if mode == "kb-voltex"@ {
                m == keyboard_mode_spec(KeyboardLayout::Voltex, polling, sensitivity, direct_input)
            } else if mode == "kb-neardayo"@ {
                m == keyboard_mode_spec(KeyboardLayout::Neardayo, polling, sensitivity, direct_input)
            } else if mode == "kb-pdfta"@ {
                m == keyboard_mode_spec(KeyboardLayout::PDFTA, polling, sensitivity, direct_input)
            } else if mode == "gamepad-voltex"@ {
                m == gamepad_mode_spec(GamepadLayout::Voltex, polling, sensitivity)
            } else if mode == "gamepad-neardayo"@ {
                m == gamepad_mode_spec(GamepadLayout::Neardayo, polling, sensitivity)
            } else if mode == "gamepad-hori"@ {
                m == hori_mode_spec(HoriLayout::Full, polling, sensitivity)
            } else if mode == "gamepad-hori-wide"@ {
                m == hori_mode_spec(HoriLayout::SliderOnly, polling, sensitivity)
            } else if mode == "websocket"@ {
                match (json_str_of(doc, "outputWebsocketUrl"@), polling) {
                    (Some(u), Some(p)) => match polling_rate_spec(p) {
                        Some(pr) => m matches Some(OutputMode::Websocket { url, polling: pl })
                            && url@ == u && pl == pr,
                        None => m is None,
                    },
                    _ => m is None,
                }
            } else {
                m is None
            }
        },
    }
}

/// A reactive lighting mode: needs the speed switch and a sensitivity in byte
/// range.
pub open spec fn reactive_mode_spec(
    layout: ReactiveLayout,
    faster: Option<bool>,
    sensitivity: Option<i64>,
    color: ColorScheme,
) -> Option<LightsMode> {
    match (faster, sensitivity) {
        (Some(f), Some(s)) => if 0 <= s <= 255 {
            Some(LightsMode::Reactive { faster: f, layout, sensitivity: s as u8, color })
        } else {
            None
        },
        _ => None,
    }
}

/// The lighting mode a configuration spells, from its plain values. The even,
/// six-bucket and rainbow-free layouts take the configured palette; the
/// rainbow, Voltex and Hori layouts always use the default palette, passed in
/// as `default_color`.
pub open spec fn lights_mode_spec(
    mode: Seq<char>,
    faster: Option<bool>,
    sensitivity: Option<i64>,
    color: ColorScheme,
    default_color: ColorScheme,
    websocket_url: Option<String>,
    umgr_port: Option<i64>,
    serial_port: Option<String>,
) -> Option<LightsMode> {
    if mode == "none"@ {
        Some(LightsMode::Off)
    } else if mode == "reactive-16"@ {
        reactive_mode_spec(ReactiveLayout::Even { splits: 16 }, faster, sensitivity, color)
    } else if mode == "reactive-8"@ {
        reactive_mode_spec(ReactiveLayout::Even { splits: 8 }, faster, sensitivity, color)
    } else if mode == "reactive-6"@ {
        reactive_mode_spec(ReactiveLayout::Six, faster, sensitivity, color)
    } else if mode == "reactive-4"@ {
        reactive_mode_spec(ReactiveLayout::Even { splits: 4 }, faster, sensitivity, color)
    } else if mode == "reactive-rainbow"@ {
        reactive_mode_spec(ReactiveLayout::Rainbow, faster, sensitivity, default_color)
    } else if mode == "reactive-voltex"@ {
        reactive_mode_spec(ReactiveLayout::Voltex, faster, sensitivity, default_color)
    } else if mode == "reactive-hori"@ {
        reactive_mode_spec(ReactiveLayout::Hori, faster, sensitivity, default_color)
    } else if mode == "attract"@ {
        match faster {
            Some(f) => Some(LightsMode::Attract { faster: f }),
            None => None,
        }
    } else if mode == "websocket"@ {
        match (faster, websocket_url) {
            (Some(f), Some(u)) => Some(LightsMode::Websocket { faster: f, url: u }),
            _ => None,
        }
    } else if mode == "umgr-websocket"@ {
        match (faster, umgr_port) {
            (Some(f), Some(p)) => if 0 <= p <= 65535 {
                Some(LightsMode::UmgrWebsocket { faster: f, port: p as u16 })
            } else {
                None
            },
            _ => None,
        }
    } else if mode == "serial"@ {
        match (faster, serial_port) {
            (Some(f), Some(p)) => Some(LightsMode::Serial { faster: f, port: p }),
            _ => None,
        }
    } else {
        None
    }
}

impl LightsMode {
    /// Decides the lighting mode from the configuration's plain values.
    pub fn from_values(
        mode: &String,
        faster: Option<bool>,
        sensitivity: Option<i64>,
        color: ColorScheme,
        default_color: ColorScheme,
        websocket_url: Option<String>,
        umgr_port: Option<i64>,
        serial_port: Option<String>,
    ) -> (r: Option<LightsMode>)
        ensures
            r == lights_mode_spec(
                mode@,
                faster,
                sensitivity,
                color,
                default_color,
                websocket_url,
                umgr_port,
                serial_port,
            ),
    {
        let s = mode.as_str();
        if str_eq(s, "none") {
            Some(LightsMode::Off)
        } else if str_eq(s, "reactive-16") {
            Self::reactive(ReactiveLayout::Even { splits: 16 }, faster, sensitivity, color)
        } else if str_eq(s, "reactive-8") {
            Self::reactive(ReactiveLayout::Even { splits: 8 }, faster, sensitivity, color)
        } else if str_eq(s, "reactive-6") {
            Self::reactive(ReactiveLayout::Six, faster, sensitivity, color)
        } else if str_eq(s, "reactive-4") {
            Self::reactive(ReactiveLayout::Even { splits: 4 }, faster, sensitivity, color)
        } else if str_eq(s, "reactive-rainbow") {
            Self::reactive(ReactiveLayout::Rainbow, faster, sensitivity, default_color)
        } else if str_eq(s, "reactive-voltex") {
            Self::reactive(ReactiveLayout::Voltex, faster, sensitivity, default_color)
        } else if str_eq(s, "reactive-hori") {
            Self::reactive(ReactiveLayout::Hori, faster, sensitivity, default_color)
        } else if str_eq(s, "attract") {
            match faster {
                Some(f) => Some(LightsMode::Attract { faster: f }),
                None => None,
            }
        } else if str_eq(s, "websocket") {
            match (faster, websocket_url) {
                (Some(f), Some(u)) => Some(LightsMode::Websocket { faster: f, url: u }),
                _ => None,
            }
        } else if str_eq(s, "umgr-websocket") {
            match (faster, umgr_port) {
                (Some(f), Some(p)) => if 0 <= p && p <= 65535 {
                    Some(LightsMode::UmgrWebsocket { faster: f, port: p as u16 })
                } else {
                    None
                },
                _ => None,
            }
        } else if str_eq(s, "serial") {
            match (faster, serial_port) {
                (Some(f), Some(p)) => Some(LightsMode::Serial { faster: f, port: p }),
                _ => None,
            }
        } else {
            None
        }
    }

    /// Builds a reactive mode when its values are present.
    fn reactive(
        layout: ReactiveLayout,
        faster: Option<bool>,
        sensitivity: Option<i64>,
        color: ColorScheme,
    ) -> (r: Option<LightsMode>)
        ensures
            r == reactive_mode_spec(layout, faster, sensitivity, color),
    {
        match (faster, sensitivity) {
            (Some(f), Some(s)) => if 0 <= s && s <= 255 {
                Some(LightsMode::Reactive { faster: f, layout, sensitivity: s as u8, color })
            } else {
                None
            },
            _ => None,
        }
    }

    /// Decides the lighting mode straight from a configuration document,
    /// reading its values through the named lookups.
    pub fn from_document(doc: &str) -> (r: Option<LightsMode>)
        ensures
            lights_mode_doc_ok(r, doc@),
    {
        let mode = match json_get_str(doc, "ledMode") {
            Some(m) => m,
            None => {
                return None;
            },
        };
        let color = ColorScheme::from_values(
            json_get_str(doc, "ledColorActive"),
            json_get_str(doc, "ledColorInactive"),
            json_get_str(doc, "ledColorAirActive"),
            json_get_str(doc, "ledColorAirInactive"),
        );
        LightsMode::from_values(
            &mode,
            json_get_bool(doc, "ledFaster"),
            json_get_i64(doc, "ledSensitivity"),
            color,
            ColorScheme::default(),
            json_get_str(doc, "ledWebsocketUrl"),
            json_get_i64(doc, "ledUmgrWebsocketPort"),
            json_get_str(doc, "ledSerialPort"),
        )
    }
}

/// Whether `c` carries the palette a document spells: the four configured
/// colors when all are present and well formed, the default palette
/// otherwise.
pub open spec fn palette_doc_ok(c: ColorScheme, doc: Seq<char>) -> bool {
    match (
        json_str_of(doc, "ledColorActive"@),
        json_str_of(doc, "ledColorInactive"@),
        json_str_of(doc, "ledColorAirActive"@),
        json_str_of(doc, "ledColorAirInactive"@),
    ) {
        (Some(a), Some(i), Some(aa), Some(ai)) => match (
            hex_color_spec(a),
            hex_color_spec(i),
            hex_color_spec(aa),
            hex_color_spec(ai),
        ) {
            (Some(ca), Some(ci), Some(caa), Some(cai)) => {
                &&& c.active@ =~= seq![ca.0, ca.1, ca.2]
                &&& c.inactive@ =~= seq![ci.0, ci.1, ci.2]
                &&& c.air_active@ =~= seq![caa.0, caa.1, caa.2]
                &&& c.air_inactive@ =~= seq![cai.0, cai.1, cai.2]
            },
            _ => is_default_palette(c),
        },
        _ => is_default_palette(c),
    }
}

/// Whether `m` is a reactive mode a document spells for this layout: the
/// speed switch and an in-range sensitivity must be present, and the palette
/// comes from the document when `configured`, else it is the default.
pub open spec fn reactive_doc_ok(
    m: Option<LightsMode>,
    layout: ReactiveLayout,
    configured: bool,
    doc: Seq<char>,
) -> bool {
    match (json_bool_of(doc, "ledFaster"@), json_i64_of(doc, "ledSensitivity"@)) {
        (Some(f), Some(sv)) => if 0 <= sv <= 255 {
            m matches Some(LightsMode::Reactive { faster, layout: l, sensitivity, color })
                && faster == f && l == layout && sensitivity == sv as u8 && (if configured {
                palette_doc_ok(color, doc)
            } else {
                is_default_palette(color)
            })
        } else {
            m is None
        },
        _ => m is None,
    }
}

/// Whether `m` is the lighting mode a document spells through the named
/// lookups: no mode name means no mode; otherwise the same decision as
/// `lights_mode_spec`, with the palette, URL and port name pinned by their
/// characters.
pub open spec fn lights_mode_doc_ok(m: Option<LightsMode>, doc: Seq<char>) -> bool {
    match json_str_of(doc, "ledMode"@) {
        None => m is None,
        Some(mode) => {
            let faster = json_bool_of(doc, "ledFaster"@);
            if mode == "none"@ {
                m == Some(LightsMode::Off)
            } else if mode == "reactive-16"@ {
                reactive_doc_ok(m, ReactiveLayout::Even { splits: 16 }, true, doc)
            } else if mode == "reactive-8"@ {
                reactive_doc_ok(m, ReactiveLayout::Even { splits: 8 }, true, doc)
            } else if mode == "reactive-6"@ {
                reactive_doc_ok(m, ReactiveLayout::Six, true, doc)
            } else if mode == "reactive-4"@ {
                reactive_doc_ok(m, ReactiveLayout::Even { splits: 4 }, true, doc)
            } else if mode == "reactive-rainbow"@ {
                reactive_doc_ok(m, ReactiveLayout::Rainbow, false, doc)
            } else if mode == "reactive-voltex"@ {
                reactive_doc_ok(m, ReactiveLayout::Voltex, false, doc)
            } else if mode == "reactive-hori"@ {
                reactive_doc_ok(m, ReactiveLayout::Hori, false, doc)
            } else if mode == "attract"@ {
                m == (match faster {
                    Some(f) => Some(LightsMode::Attract { faster: f }),
                    None => None,
                })
            } else if mode == "websocket"@ {
                match (faster, json_str_of(doc, "ledWebsocketUrl"@)) {
                    (Some(f), Some(u)) => m matches Some(LightsMode::Websocket { faster: fs, url })
                        && fs == f && url@ == u,
                    _ => m is None,
                }
            } else if mode == "umgr-websocket"@ {
                match (faster, json_i64_of(doc, "ledUmgrWebsocketPort"@)) {
                    (Some(f), Some(p)) => if 0 <= p <= 65535 {
                        m == Some(LightsMode::UmgrWebsocket { faster: f, port: p as u16 })
                    } else {
                        m is None
                    },
                    _ => m is None,
                }
            } else if mode == "serial"@ {
                match (faster, json_str_of(doc, "ledSerialPort"@)) {
                    (Some(f), Some(p)) => m matches Some(LightsMode::Serial { faster: fs, port })
                        && fs == f && port@ == p,
                    _ => m is None,
                }
            } else {
                m is None
            }
        },
    }
}

/// One parsed configuration: the raw document it came from and the three
/// modes it selects.
#[derive(Clone, Debug)]
pub struct Config {
    /// The raw configuration document.
    pub raw: String,
    /// Which device feeds the input slot.
    pub device_mode: DeviceMode,
    /// Which output emulation consumes the input slot.
    pub output_mode: OutputMode,
    /// Which lighting producer feeds the lighting slot.
    pub lights_mode: LightsMode,
}

impl Config {
    /// Parses a configuration document. Succeeds exactly when the text is
    /// valid JSON and all three modes can be decided from it; the raw text is
    /// kept verbatim and each mode is the one the document spells through the
    /// named lookups.
    pub fn from_str(s: &str) -> (r: Option<Config>)
        ensures
            match r {
                Some(c) => {
                    &&& json_is_doc(s@)
                    &&& c.raw@ == s@
                    &&& device_mode_doc_ok(Some(c.device_mode), s@)
                    &&& output_mode_doc_ok(Some(c.output_mode), s@)
                    &&& lights_mode_doc_ok(Some(c.lights_mode), s@)
                },
                None => {
                    ||| !json_is_doc(s@)
                    ||| device_mode_doc_ok(None::<DeviceMode>, s@)
                    ||| output_mode_doc_ok(None::<OutputMode>, s@)
                    ||| lights_mode_doc_ok(None::<LightsMode>, s@)
                },
            },
    {
        if !json_doc_ok(s) {
            return None;
        }
        let device_mode = match DeviceMode::from_document(s) {
            Some(m) => m,
            None => {
                return None;
            },
        };
        let output_mode = match OutputMode::from_document(s) {
            Some(m) => m,
            None => {
                return None;
            },
        };
        let lights_mode = match LightsMode::from_document(s) {
            Some(m) => m,
            None => {
                return None;
            },
        };
        Some(Config { raw: s.to_owned(), device_mode, output_mode, lights_mode })
    }

    /// The fallback configuration document: every mode off, with the usual
    /// defaults filled in for the remaining keys so that an editor of the
    /// saved file starts from a complete surface.
    pub fn default_document() -> (r: &'static str)
        ensures
            r@ == default_document_view(),
    {
        "{\n  \"deviceMode\": \"none\",\n  \"outputMode\": \"none\",\n  \"ledMode\": \"none\",\n  \"disableAirStrings\": false,\n  \"divaSerialPort\": \"COM1\",\n  \"divaBrightness\": 63,\n  \"brokenithmPort\": 1606,\n  \"keyboardSensitivity\": 20,\n  \"keyboardDirectInput\": false,\n  \"outputPolling\": \"100\",\n  \"outputWebsocketUrl\": \"localhost:3000\",\n  \"ledFaster\": false,\n  \"ledColorActive\": \"#ff00ff\",\n  \"ledColorInactive\": \"#ffff00\",\n  \"ledColorAirActive\": \"#0086ed\",\n  \"ledColorAirInactive\": \"#000000\",\n  \"ledSensitivity\": 20,\n  \"ledWebsocketUrl\": \"localhost:3001\",\n  \"ledSerialPort\": \"COM5\"\n}"
    }

    /// The fallback configuration: everything off, the raw text held
    /// verbatim so that saving it writes the full default document.
    pub fn default() -> (r: Config)
        ensures
            r.raw@ == default_document_view(),
            r.device_mode is Off,
            r.output_mode is Off,
            r.lights_mode is Off,
    {
        Config {
            raw: Self::default_document().to_owned(),
            device_mode: DeviceMode::Off,
            output_mode: OutputMode::Off,
            lights_mode: LightsMode::Off,
        }
    }
}

/// The character sequence of the fallback configuration document.
pub open spec fn default_document_view() -> Seq<char> {
    "{\n  \"deviceMode\": \"none\",\n  \"outputMode\": \"none\",\n  \"ledMode\": \"none\",\n  \"disableAirStrings\": false,\n  \"divaSerialPort\": \"COM1\",\n  \"divaBrightness\": 63,\n  \"brokenithmPort\": 1606,\n  \"keyboardSensitivity\": 20,\n  \"keyboardDirectInput\": false,\n  \"outputPolling\": \"100\",\n  \"outputWebsocketUrl\": \"localhost:3000\",\n  \"ledFaster\": false,\n  \"ledColorActive\": \"#ff00ff\",\n  \"ledColorInactive\": \"#ffff00\",\n  \"ledColorAirActive\": \"#0086ed\",\n  \"ledColorAirInactive\": \"#000000\",\n  \"ledSensitivity\": 20,\n  \"ledWebsocketUrl\": \"localhost:3001\",\n  \"ledSerialPort\": \"COM5\"\n}"@
}

} // verus!
