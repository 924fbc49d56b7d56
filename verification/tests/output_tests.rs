use slider_io::gamepad::{GamepadCore, LastWind, XBTN_A, XBTN_LB, XBTN_START};
use slider_io::hori::{hori_report, HoriState};
use slider_io::keyboard::{kb_map, KeyboardCore};
use slider_io::output::{KeyboardLayout, PollingRate};
use slider_io::voltex::VoltexState;

fn flat_with(pressed: &[usize]) -> Vec<bool> {
    let mut flat = vec![false; 41];
    for i in pressed {
        flat[*i] = true;
    }
    flat
}

#[test]
fn voltex_projection() {
    let flat = flat_with(&[0, 9, 16, 38]);
    let v = VoltexState::from_flat(&flat);
    assert_eq!(v.laser, vec![true, false, false, false]);
    assert_eq!(v.bt, vec![true, false, false, false]);
    assert_eq!(v.fx, vec![false, true]);
    assert_eq!(v.extra, vec![true, false, false]);
}

#[test]
fn laser_wind_precedence() {
    // Holding left, then pressing right as well: the side that became active
    // later takes precedence while both are held.
    let mut wind = LastWind::new();
    assert_eq!(wind.update(true, false), -1);
    assert_eq!(wind.update(true, true), 1);
    assert_eq!(wind.update(false, true), 1);

    // The same start, but left alone remains at the end.
    let mut wind = LastWind::new();
    assert_eq!(wind.update(true, false), -1);
    assert_eq!(wind.update(true, true), 1);
    assert_eq!(wind.update(true, false), -1);

    // While both stay held the direction persists.
    let mut wind = LastWind::new();
    assert_eq!(wind.update(true, false), -1);
    assert_eq!(wind.update(true, true), 1);
    assert_eq!(wind.update(true, true), 1);

    // Both sides arriving at once from rest stay neutral.
    let mut wind = LastWind::new();
    assert_eq!(wind.update(false, false), 0);
    assert_eq!(wind.update(true, true), 0);
}

#[test]
fn voltex_axis_scenario() {
    // flat[0] pressed, flat[4] released: the left wind sees only its left
    // side and the left stick reads full negative.
    let flat = flat_with(&[0]);
    let mut core = GamepadCore::new(false);
    let report = core.tick(&flat).expect("first tick must push");
    assert_eq!(report.thumb_lx, -20000);
    assert_eq!(report.thumb_rx, 0);
}

#[test]
fn gamepad_buttons_and_dirty() {
    let flat = flat_with(&[9, 8, 38]);
    let mut core = GamepadCore::new(false);
    let report = core.tick(&flat).expect("changed report must push");
    assert_eq!(report.buttons, XBTN_A | XBTN_LB | XBTN_START);
    // The same input again changes nothing, so nothing is pushed.
    assert!(core.tick(&flat).is_none());
    // Releasing everything pushes again.
    let report = core.tick(&flat_with(&[])).expect("release must push");
    assert_eq!(report.buttons, 0);
    assert_eq!(report.thumb_lx, 0);
}

#[test]
fn neardayo_uses_air() {
    let flat = flat_with(&[32]);
    let mut core = GamepadCore::new(true);
    let report = core.tick(&flat).expect("air laser must push");
    assert_eq!(report.thumb_lx, -20000);
    let mut plain = GamepadCore::new(false);
    assert!(plain.tick(&flat).is_none());
}

#[test]
fn hori_projection_and_report() {
    // Bottom pad 0 feeds button 0; top pad 1 feeds slider column 0.
    let flat = flat_with(&[0, 1]);
    let state = HoriState::from_flat(&flat);
    assert_eq!(state.bt, vec![true, false, false, false]);
    assert!(state.slider[0]);
    assert!(!state.slider[1]);

    let report = hori_report(&state);
    // Triangle over the hat-switch base.
    assert_eq!(report.buttons, 0x8 | 0x80);
    // Column 0 contributes the two top bits, then the XOR mask flips the high
    // bit of every byte.
    assert_eq!(report.thumb_lx, 0b1100_0000 ^ 0x80);
    assert_eq!(report.thumb_ly, 0x80);
    assert_eq!(report.thumb_rx, 0x80);
    assert_eq!(report.thumb_ry, 0x80);

    let wide = HoriState::from_flat_to_wide(&flat);
    assert_eq!(wide.bt, vec![false; 4]);
    assert!(wide.slider[0]);
}

#[test]
fn key_set_derivation_dedups() {
    let map = kb_map(KeyboardLayout::FourK);
    assert_eq!(map.len(), 41);
    let core = KeyboardCore::new(&map);
    // Four wide keys, space, and the disabled zero code.
    assert_eq!(core.key_idx_to_keycode.len(), 6);
    assert_eq!(core.input_to_idx[0], core.input_to_idx[7]);
    assert_ne!(core.input_to_idx[0], core.input_to_idx[8]);
    // The zero keycode starts disabled, everything else enabled.
    for (i, code) in core.key_idx_to_keycode.iter().enumerate() {
        assert_eq!(core.enabled[i], *code != 0);
    }
}

#[test]
fn key_diffing_counts_changes() {
    let map = kb_map(KeyboardLayout::FourK);
    let mut core = KeyboardCore::new(&map);
    // Press pads 0 and 8: keys D and F go down.
    let events = core.tick(&flat_with(&[0, 8]));
    assert_eq!(events.len(), 2);
    assert!(events.iter().all(|e| e.down));
    assert_eq!(events[0].code, 0x44);
    assert_eq!(events[1].code, 0x46);
    // Keep D, release F, press J: one up and one down.
    let events = core.tick(&flat_with(&[1, 16]));
    assert_eq!(events.len(), 2);
    let down: Vec<_> = events.iter().filter(|e| e.down).collect();
    let up: Vec<_> = events.iter().filter(|e| !e.down).collect();
    assert_eq!(down.len(), 1);
    assert_eq!(down[0].code, 0x4a);
    assert_eq!(up.len(), 1);
    assert_eq!(up[0].code, 0x46);
    // No change, no events.
    assert!(core.tick(&flat_with(&[1, 16])).is_empty());
    // Reset releases everything still down.
    let events = core.reset();
    assert_eq!(events.len(), 2);
    assert!(events.iter().all(|e| !e.down));
}

#[test]
fn disabled_keys_emit_nothing() {
    let map = kb_map(KeyboardLayout::FourK);
    let mut core = KeyboardCore::new(&map);
    // Pads 38..41 map to the disabled zero keycode.
    let events = core.tick(&flat_with(&[38, 39, 40]));
    assert!(events.is_empty());
}

#[test]
fn polling_rates() {
    assert_eq!(PollingRate::from_str("60"), Some(PollingRate::Sixty));
    assert_eq!(PollingRate::from_str("100"), Some(PollingRate::Hundred));
    assert_eq!(PollingRate::from_str("250"), Some(PollingRate::TwoHundredFifty));
    assert_eq!(PollingRate::from_str("500"), Some(PollingRate::FiveHundred));
    assert_eq!(PollingRate::from_str("1000"), Some(PollingRate::Thousand));
    assert_eq!(PollingRate::from_str("144"), None);
    assert_eq!(PollingRate::Sixty.to_t_u64(), 16666);
    assert_eq!(PollingRate::Hundred.to_t_u64(), 10000);
    assert_eq!(PollingRate::TwoHundredFifty.to_t_u64(), 4000);
    assert_eq!(PollingRate::FiveHundred.to_t_u64(), 2000);
    assert_eq!(PollingRate::Thousand.to_t_u64(), 1000);
}

#[test]
fn keyboard_maps_have_expected_key_counts() {
    // The 32-zone Tasoller map never repeats a keycode.
    let core = KeyboardCore::new(&kb_map(KeyboardLayout::Tasoller));
    assert_eq!(core.key_idx_to_keycode.len(), 41);
    // The half map shares one key per column: 16 letters, 6 punctuation keys
    // and the 3 extras.
    let core = KeyboardCore::new(&kb_map(KeyboardLayout::TasollerHalf));
    assert_eq!(core.key_idx_to_keycode.len(), 25);
    // Every layout maps all 41 flat indices.
    for layout in [
        KeyboardLayout::Tasoller,
        KeyboardLayout::Yuancon,
        KeyboardLayout::Umiguri,
        KeyboardLayout::TasollerHalf,
        KeyboardLayout::EightK,
        KeyboardLayout::SixK,
        KeyboardLayout::FourK,
        KeyboardLayout::Voltex,
        KeyboardLayout::Neardayo,
        KeyboardLayout::PDFTA,
    ] {
        assert_eq!(kb_map(layout).len(), 41);
    }
}

#[test]
fn disabled_key_can_be_turned_off_later() {
    let map = kb_map(KeyboardLayout::FourK);
    let mut core = KeyboardCore::new(&map);
    let d_key = core.input_to_idx[0];
    core.disable_key(d_key);
    let events = core.tick(&flat_with(&[0]));
    assert!(events.is_empty());
}

#[test]
fn key_indices_follow_first_appearance() {
    let core = KeyboardCore::new(&kb_map(KeyboardLayout::FourK));
    assert_eq!(core.key_idx_to_keycode, vec![0x44, 0x46, 0x4a, 0x4b, 0x20, 0x00]);
    assert_eq!(core.input_to_idx[0], 0);
    assert_eq!(core.input_to_idx[8], 1);
    assert_eq!(core.input_to_idx[16], 2);
    assert_eq!(core.input_to_idx[24], 3);
    assert_eq!(core.input_to_idx[32], 4);
    assert_eq!(core.input_to_idx[38], 5);
}
