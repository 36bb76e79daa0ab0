use openwispr::hotkey::{
    fallback_hands_free_spec, fallback_push_spec, is_shortcut_active, load_shortcuts,
    HotkeyState, KeyState, RecordingAction,
};
use openwispr::settings::Settings;
use openwispr::shortcut::parse_shortcut;

#[test]
fn fallbacks() {
    let p = fallback_push_spec();
    assert!(p.fn_key && !p.ctrl && p.key.is_none());
    let h = fallback_hands_free_spec();
    assert!(h.fn_key && h.key.as_deref() == Some("space"));
}

#[test]
fn load_shortcuts_falls_back() {
    let mut s = Settings::default();
    s.shortcuts.push_to_talk = "a+b".to_string();
    s.shortcuts.hands_free_toggle = "ctrl+k".to_string();
    let (push, hands) = load_shortcuts(&s);
    assert_eq!(push, fallback_push_spec());
    assert_eq!(hands, parse_shortcut("ctrl+k").unwrap());
}

#[test]
fn key_state_is_a_set() {
    let mut k = KeyState::new();
    k.press_key("a".to_string());
    k.press_key("a".to_string());
    assert_eq!(k.pressed_keys.len(), 1);
    k.press_key("b".to_string());
    assert!(k.is_pressed("b"));
    k.release_key("a");
    assert!(!k.is_pressed("a"));
    assert_eq!(k.pressed_keys, vec!["b".to_string()]);
    k.release_key("zz");
    assert_eq!(k.pressed_keys.len(), 1);
}

#[test]
fn shortcut_activity() {
    let spec = parse_shortcut("fn+space").unwrap();
    let mut k = KeyState::new();
    assert!(!is_shortcut_active(&spec, &k));
    k.fn_down = true;
    assert!(!is_shortcut_active(&spec, &k));
    k.press_key("space".to_string());
    assert!(is_shortcut_active(&spec, &k));
    k.press_key("x".to_string());
    assert!(!is_shortcut_active(&spec, &k));
    let fn_only = parse_shortcut("fn").unwrap();
    assert!(is_shortcut_active(&fn_only, &k));
}

#[test]
fn push_to_talk_cycle() {
    let push = parse_shortcut("fn").unwrap();
    let hands = parse_shortcut("fn+space").unwrap();
    let mut s = HotkeyState::new();
    s.keys.fn_down = true;
    assert_eq!(s.update_shortcuts(&push, &hands), None);
    assert!(s.is_push_active);
    assert_eq!(s.recording_action(), RecordingAction::Start);
    s.finish_start(&Ok(()));
    assert!(s.is_recording_active);
    assert_eq!(s.take_hold_signal(), Some(true));
    assert_eq!(s.take_hold_signal(), None);
    s.keys.fn_down = false;
    s.update_shortcuts(&push, &hands);
    assert_eq!(s.recording_action(), RecordingAction::Stop);
    s.finish_stop();
    assert_eq!(s.recording_action(), RecordingAction::Keep);
    assert_eq!(s.take_hold_signal(), Some(false));
}

#[test]
fn hands_free_toggles_on_press_only() {
    let push = parse_shortcut("fn").unwrap();
    let hands = parse_shortcut("fn+space").unwrap();
    let mut s = HotkeyState::new();
    s.keys.fn_down = true;
    s.keys.press_key("space".to_string());
    assert_eq!(s.update_shortcuts(&push, &hands), Some(true));
    assert!(s.is_hands_free && !s.is_push_active);
    assert_eq!(s.update_shortcuts(&push, &hands), None);
    assert!(s.is_hands_free);
    s.keys.release_key("space");
    s.keys.fn_down = false;
    assert_eq!(s.update_shortcuts(&push, &hands), None);
    s.keys.fn_down = true;
    s.keys.press_key("space".to_string());
    assert_eq!(s.update_shortcuts(&push, &hands), Some(false));
}

#[test]
fn start_failures() {
    let mut s = HotkeyState::new();
    s.finish_start(&Err("Already recording".to_string()));
    assert!(s.is_recording_active);
    s.finish_start(&Err("no device".to_string()));
    assert!(!s.is_recording_active);
}
