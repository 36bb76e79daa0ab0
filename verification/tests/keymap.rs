use openwispr::hotkey::KeyState;
use openwispr::keymap::{
    apply_mac_event, key_token_from_event, raw_key_is_down, MacEventKind,
    apply_mac_fn_event, apply_mac_modifier_flags, apply_windows_key, is_fn_key,
    key_token_from_keycode, key_token_from_unicode, mac_key_down, mac_key_up, parse_hex_u16,
    vkey_to_key_token, wide, KeycodeTokens,
};

#[test]
fn mac_keycodes() {
    assert_eq!(key_token_from_keycode(49).as_deref(), Some("space"));
    assert_eq!(key_token_from_keycode(36).as_deref(), Some("enter"));
    assert_eq!(key_token_from_keycode(111).as_deref(), Some("f12"));
    assert_eq!(key_token_from_keycode(0), None);
}

#[test]
fn windows_vkeys() {
    assert_eq!(vkey_to_key_token(0x41).as_deref(), Some("a"));
    assert_eq!(vkey_to_key_token(0x5A).as_deref(), Some("z"));
    assert_eq!(vkey_to_key_token(0x35).as_deref(), Some("5"));
    assert_eq!(vkey_to_key_token(0x70).as_deref(), Some("f1"));
    assert_eq!(vkey_to_key_token(0x79).as_deref(), Some("f10"));
    assert_eq!(vkey_to_key_token(0x7B).as_deref(), Some("f12"));
    assert_eq!(vkey_to_key_token(0x20).as_deref(), Some("space"));
    assert_eq!(vkey_to_key_token(0xDC).as_deref(), Some("\\"));
    assert_eq!(vkey_to_key_token(0xDE).as_deref(), Some("'"));
    assert_eq!(vkey_to_key_token(0x11), None);
}

#[test]
fn fn_key_detection() {
    assert!(is_fn_key(0x87, 0, None, None));
    assert!(!is_fn_key(0x41, 0, None, None));
    assert!(is_fn_key(0x41, 0, Some(0x41), Some(5)));
    assert!(!is_fn_key(0x87, 0, Some(0x41), None));
    assert!(is_fn_key(0, 7, None, Some(7)));
}

#[test]
fn windows_key_events() {
    let mut k = KeyState::new();
    apply_windows_key(&mut k, 0xA2, 0, true, None, None);
    assert!(k.ctrl_down);
    apply_windows_key(&mut k, 0x4B, 0, true, None, None);
    assert!(k.is_pressed("k"));
    apply_windows_key(&mut k, 0x4B, 0, false, None, None);
    assert!(!k.is_pressed("k"));
    apply_windows_key(&mut k, 0x86, 0, true, None, None);
    assert!(k.fn_down);
    apply_windows_key(&mut k, 0x11, 0, false, None, None);
    assert!(!k.ctrl_down);
}

#[test]
fn mac_flags() {
    let mut k = KeyState::new();
    apply_mac_modifier_flags(&mut k, 0x0004_0000 | 0x0010_0000);
    assert!(k.ctrl_down && k.meta_down && !k.shift_down && !k.alt_down);
    apply_mac_fn_event(&mut k, 63, 0, 0x0080_0000);
    assert!(k.fn_down);
    apply_mac_fn_event(&mut k, 12, 0, 0);
    assert!(k.fn_down);
    apply_mac_fn_event(&mut k, 63, 0, 0);
    assert!(!k.fn_down);
}

#[test]
fn mac_key_up_uses_remembered_name() {
    let mut k = KeyState::new();
    let mut t = KeycodeTokens::new();
    mac_key_down(&mut k, &mut t, 40, Some("k".to_string()));
    assert!(k.is_pressed("k"));
    assert!(mac_key_up(&mut k, &mut t, 40));
    assert!(!k.is_pressed("k"));
    assert!(!mac_key_up(&mut k, &mut t, 40));
}

#[test]
fn hex_overrides() {
    assert_eq!(parse_hex_u16(" 0x87 "), Some(0x87));
    assert_eq!(parse_hex_u16("0x0xFF"), Some(0xFF));
    assert_eq!(parse_hex_u16("ffff"), Some(0xFFFF));
    assert_eq!(parse_hex_u16("10000"), None);
    assert_eq!(parse_hex_u16("+1a"), Some(0x1A));
    assert_eq!(parse_hex_u16("+"), None);
    assert_eq!(parse_hex_u16("-1"), None);
    assert_eq!(parse_hex_u16(""), None);
    assert_eq!(parse_hex_u16("0x"), None);
    assert_eq!(parse_hex_u16("g1"), None);
}

#[test]
fn wide_strings() {
    assert_eq!(wide("Ab"), vec![0x41, 0x62, 0]);
    assert_eq!(wide("😀"), vec![0xD83D, 0xDE00, 0]);
    assert_eq!(wide(""), vec![0]);
}

#[test]
fn typed_key_names() {
    assert_eq!(key_token_from_unicode(&[0x41]).as_deref(), Some("a"));
    assert_eq!(key_token_from_unicode(&[0x20]).as_deref(), Some("space"));
    assert_eq!(key_token_from_unicode(&[0x0D]), None);
    assert_eq!(key_token_from_unicode(&[]), None);
    assert_eq!(key_token_from_unicode(&[0xD83D, 0xDE00]).as_deref(), Some("😀"));
    assert_eq!(key_token_from_unicode(&[0xDC00]).as_deref(), Some("\u{FFFD}"));
}

#[test]
fn mac_event_names() {
    assert_eq!(key_token_from_event(49, &[0x61]).as_deref(), Some("space"));
    assert_eq!(key_token_from_event(0, &[0x51]).as_deref(), Some("q"));
    assert_eq!(key_token_from_event(0, &[]), None);
}

#[test]
fn mac_event_dispatch() {
    let mut k = KeyState::new();
    let mut t = KeycodeTokens::new();
    apply_mac_event(&mut k, &mut t, MacEventKind::FlagsChanged, 63, 0x0080_0000, 0, None);
    assert!(k.fn_down);
    apply_mac_event(&mut k, &mut t, MacEventKind::KeyDown, 49, 0x0080_0000, 0, Some("space".into()));
    assert!(k.is_pressed("space"));
    apply_mac_event(&mut k, &mut t, MacEventKind::KeyUp, 49, 0x0080_0000, 0, Some("other".into()));
    assert!(!k.is_pressed("space"));
    apply_mac_event(&mut k, &mut t, MacEventKind::KeyDown, 1, 0x0002_0000, 0, Some("s".into()));
    assert!(k.shift_down && k.fn_down);
    t.map.clear();
    apply_mac_event(&mut k, &mut t, MacEventKind::KeyUp, 1, 0, 0, Some("s".into()));
    assert!(!k.is_pressed("s"));
}

#[test]
fn raw_flags() {
    assert!(raw_key_is_down(0));
    assert!(!raw_key_is_down(1));
    assert!(raw_key_is_down(2));
}

#[test]
fn every_windows_key_name_can_be_a_shortcut() {
    for vkey in 0u16..=255 {
        if let Some(name) = vkey_to_key_token(vkey) {
            let spec = openwispr::shortcut::parse_shortcut(&name).unwrap();
            assert_eq!(spec.key.as_deref(), Some(name.as_str()));
            assert_eq!(openwispr::shortcut::format_shortcut(&spec), name);
        }
    }
}

#[test]
fn every_mac_keycode_name_can_be_a_shortcut() {
    for code in 0i64..=200 {
        if let Some(name) = key_token_from_keycode(code) {
            let spec = openwispr::shortcut::parse_shortcut(&name).unwrap();
            assert_eq!(spec.key.as_deref(), Some(name.as_str()));
            assert!(!spec.fn_key && !spec.ctrl && !spec.shift && !spec.alt && !spec.meta);
        }
    }
}
