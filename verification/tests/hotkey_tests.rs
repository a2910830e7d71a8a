use hermes::config::HotkeyConfig;
use hermes::hotkey::KeyEvent::{Press, Release};
use hermes::hotkey::{
    is_ctrl_token, is_shift_token, HotkeyEvent, HotkeyMode, HotkeyModeConfig, HotkeyTracker,
    KeyEvent, KeyKind,
};

fn mode_of(modifier: &str, key: &str) -> HotkeyModeConfig {
    HotkeyConfig {
        modifier: modifier.to_string(),
        key: key.to_string(),
    }
    .mode()
}

#[test]
fn f8_without_modifier_is_f8_hold() {
    assert_eq!(mode_of("none", "f8"), HotkeyModeConfig::Known(HotkeyMode::F8Hold));
    assert_eq!(mode_of("", " F8 "), HotkeyModeConfig::Known(HotkeyMode::F8Hold));
    assert_eq!(mode_of("NULL", "f8"), HotkeyModeConfig::Known(HotkeyMode::F8Hold));
    assert_eq!(mode_of("ctrl", "f8"), HotkeyModeConfig::Unknown);
}

#[test]
fn ctrl_and_shift_in_either_order() {
    let chord = HotkeyModeConfig::Known(HotkeyMode::CtrlShiftHold);
    assert_eq!(mode_of("rctrl", "rshift"), chord);
    assert_eq!(mode_of("shift", "ctrl"), chord);
    assert_eq!(mode_of("alt + Left_Control", "SHIFT_RIGHT"), chord);
    assert_eq!(mode_of("ctrl", "ctrl"), HotkeyModeConfig::Unknown);
    assert_eq!(mode_of("ctrl", "a"), HotkeyModeConfig::Unknown);
}

#[test]
fn unknown_modes_fall_back_to_f8() {
    let m = mode_of("alt", "space");
    assert!(m.is_unknown());
    assert_eq!(m.effective(), HotkeyMode::F8Hold);
    let k = mode_of("rctrl", "rshift");
    assert!(!k.is_unknown());
    assert_eq!(k.effective(), HotkeyMode::CtrlShiftHold);
}

#[test]
fn token_spellings() {
    for t in ["ctrl", "control", "lctrl", "rctrl", "leftctrl", "rightctrl", "left_control",
        "right_control", "control_left", "control_right"] {
        assert!(is_ctrl_token(t), "{t}");
        assert!(!is_shift_token(t), "{t}");
    }
    for t in ["shift", "lshift", "rshift", "leftshift", "rightshift", "left_shift", "right_shift",
        "shift_left", "shift_right"] {
        assert!(is_shift_token(t), "{t}");
        assert!(!is_ctrl_token(t), "{t}");
    }
    assert!(!is_ctrl_token("Ctrl"));
}

fn feed(mode: HotkeyMode, events: &[KeyEvent]) -> Vec<&'static str> {
    let mut t = HotkeyTracker::new();
    let mut out = Vec::new();
    for e in events {
        match t.on_key(mode, *e) {
            Some(HotkeyEvent::Pressed) => out.push("pressed"),
            Some(HotkeyEvent::Released) => out.push("released"),
            Some(HotkeyEvent::ListenerError(_)) => out.push("error"),
            None => {}
        }
    }
    out
}

#[test]
fn f8_hold_ignores_auto_repeat() {
    let out = feed(
        HotkeyMode::F8Hold,
        &[Press(KeyKind::F8), Press(KeyKind::F8), Press(KeyKind::F8), Release(KeyKind::F8),
          Release(KeyKind::F8)],
    );
    assert_eq!(out, vec!["pressed", "released"]);
}

#[test]
fn ctrl_shift_chord_in_either_order() {
    let out = feed(
        HotkeyMode::CtrlShiftHold,
        &[Press(KeyKind::ControlRight), Press(KeyKind::ShiftRight), Release(KeyKind::ShiftRight),
          Release(KeyKind::ControlRight), Press(KeyKind::ShiftLeft), Press(KeyKind::ControlLeft),
          Release(KeyKind::ControlLeft)],
    );
    assert_eq!(out, vec!["pressed", "released", "pressed", "released"]);
    let none = feed(HotkeyMode::CtrlShiftHold, &[Press(KeyKind::F8), Release(KeyKind::F8)]);
    assert!(none.is_empty());
}

#[test]
fn f8_mode_ignores_ctrl_shift_chord_but_release_ends_gesture() {
    let out = feed(
        HotkeyMode::F8Hold,
        &[Press(KeyKind::ControlLeft), Press(KeyKind::ShiftLeft), Release(KeyKind::ShiftLeft)],
    );
    assert!(out.is_empty());
    let out = feed(
        HotkeyMode::F8Hold,
        &[Press(KeyKind::F8), Press(KeyKind::ControlLeft), Release(KeyKind::ControlLeft),
          Release(KeyKind::F8)],
    );
    assert_eq!(out, vec!["pressed", "released"]);
}

#[test]
fn f8_hold_survives_shift_and_ctrl_releases() {
    let mut t = HotkeyTracker::new();
    let mode = HotkeyMode::F8Hold;
    assert!(matches!(t.on_key(mode, Press(KeyKind::F8)), Some(HotkeyEvent::Pressed)));
    assert!(t.on_key(mode, Press(KeyKind::ShiftLeft)).is_none());
    assert!(t.on_key(mode, Release(KeyKind::ShiftLeft)).is_none());
    assert!(t.on_key(mode, Press(KeyKind::ControlRight)).is_none());
    assert!(t.on_key(mode, Release(KeyKind::ControlRight)).is_none());
    assert!(t.ptt_down);
    assert!(matches!(t.on_key(mode, Release(KeyKind::F8)), Some(HotkeyEvent::Released)));
    assert!(!t.ptt_down);
}

#[test]
fn events_alternate_on_a_long_sequence() {
    let keys = [KeyKind::F8, KeyKind::ControlLeft, KeyKind::ShiftRight, KeyKind::Other];
    let mut seq = Vec::new();
    for i in 0..64usize {
        let k = keys[(i * 7 + i / 3) % 4];
        seq.push(if i % 3 == 0 { Release(k) } else { Press(k) });
    }
    for mode in [HotkeyMode::F8Hold, HotkeyMode::CtrlShiftHold] {
        let out = feed(mode, &seq);
        for (i, e) in out.iter().enumerate() {
            assert_eq!(*e, if i % 2 == 0 { "pressed" } else { "released" });
        }
    }
}
