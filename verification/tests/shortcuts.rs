use openwispr::settings::{
    get_input_device_id, get_system_llm_model, hands_free_toggle_shortcut, push_to_talk_shortcut,
    set_formatting_settings, set_input_device_id, set_language, set_llm_settings, set_shortcuts,
    set_system_llm_model, set_transcription_enabled, Settings, ShortcutSettings,
};
use openwispr::shortcut::{format_shortcut, normalize_shortcut, parse_shortcut, ShortcutSpec};

#[test]
fn normalize_shortcut_compacts_and_lowercases() {
    assert_eq!(normalize_shortcut(" Fn +  Space "), "fn+space");
    assert_eq!(normalize_shortcut("FN+ENTER"), "fn+enter");
}

#[test]
fn parse_shortcut_canonicalizes_modifiers() {
    let parsed = parse_shortcut("shift+ctrl+space+fn").unwrap();
    assert_eq!(format_shortcut(&parsed), "fn+ctrl+shift+space");
}

#[test]
fn parse_shortcut_supports_free_form_combo() {
    let parsed = parse_shortcut(" Ctrl + Shift + K ").unwrap();
    assert!(parsed.ctrl);
    assert!(parsed.shift);
    assert_eq!(parsed.key.as_deref(), Some("k"));
}

#[test]
fn parse_shortcut_rejects_multiple_non_modifier_keys() {
    assert!(parse_shortcut("ctrl+k+m").is_err());
}

#[test]
fn normalize_drops_empty_parts() {
    assert_eq!(normalize_shortcut("++ctrl+ +K+"), "ctrl+k");
    assert_eq!(normalize_shortcut("   "), "");
    assert_eq!(normalize_shortcut(""), "");
}

#[test]
fn normalize_is_idempotent_on_examples() {
    for raw in [" Fn +  Space ", "SHIFT + ctrl+x", "+ + +", "Cmd+Option+\tQ"] {
        let once = normalize_shortcut(raw);
        assert_eq!(normalize_shortcut(&once), once);
        assert_eq!(parse_shortcut(&once), parse_shortcut(raw));
    }
}

#[test]
fn parse_shortcut_error_messages() {
    assert_eq!(parse_shortcut(" + ").unwrap_err(), "Shortcut cannot be empty");
    assert_eq!(parse_shortcut("").unwrap_err(), "Shortcut cannot be empty");
    assert_eq!(
        parse_shortcut("a+b").unwrap_err(),
        "Shortcut can include only one non-modifier key"
    );
}

#[test]
fn parse_shortcut_aliases() {
    let parsed = parse_shortcut("Control+Option+Command").unwrap();
    assert_eq!(
        parsed,
        ShortcutSpec { fn_key: false, ctrl: true, shift: false, alt: true, meta: true, key: None }
    );
    for alias in ["meta", "cmd", "command", "win", "super"] {
        assert!(parse_shortcut(alias).unwrap().meta);
    }
    assert_eq!(format_shortcut(&parse_shortcut("super+alt").unwrap()), "alt+meta");
}

#[test]
fn format_parse_roundtrip_examples() {
    for raw in ["fn", "fn+space", "shift+ctrl+space+fn", " Ctrl + Shift + K ", "win+F5"] {
        let spec = parse_shortcut(raw).unwrap();
        let text = format_shortcut(&spec);
        assert_eq!(normalize_shortcut(&text), text);
        assert_eq!(parse_shortcut(&text).unwrap(), spec);
    }
}

#[test]
fn format_shortcut_orders_modifiers() {
    let spec = ShortcutSpec {
        fn_key: true,
        ctrl: true,
        shift: true,
        alt: true,
        meta: true,
        key: Some("k".to_string()),
    };
    assert_eq!(format_shortcut(&spec), "fn+ctrl+shift+alt+meta+k");
    assert_eq!(format_shortcut(&ShortcutSpec::default()), "");
}

#[test]
fn set_shortcuts_stores_canonical_forms() {
    let mut settings = Settings::default();
    let stored = set_shortcuts(&mut settings, "Space+FN", "fn + ctrl", "ctrl+fn+shift").unwrap();
    assert_eq!(stored.push_to_talk, "fn+space");
    assert_eq!(stored.hands_free_toggle, "fn+ctrl");
    assert_eq!(stored.command_mode, "fn+ctrl+shift");
    assert_eq!(settings.shortcuts.push_to_talk, "fn+space");
    assert_eq!(settings.shortcuts.hands_free_toggle, "fn+ctrl");
    assert_eq!(settings.shortcuts.command_mode, "fn+ctrl+shift");
}

#[test]
fn set_shortcuts_rejects_and_leaves_settings() {
    let mut settings = Settings::default();
    let err = set_shortcuts(&mut settings, "ctrl+fn", "FN+CTRL", "fn").unwrap_err();
    assert_eq!(err, "Push-to-talk and hands-free shortcuts must be different");
    assert_eq!(settings.shortcuts.push_to_talk, "fn");
    assert_eq!(settings.shortcuts.hands_free_toggle, "fn+space");
    let err = set_shortcuts(&mut settings, "", "fn", "fn").unwrap_err();
    assert_eq!(err, "Shortcut cannot be empty");
    let err = set_shortcuts(&mut settings, "fn", "a+b", "fn").unwrap_err();
    assert_eq!(err, "Shortcut can include only one non-modifier key");
    let err = set_shortcuts(&mut settings, "fn", "fn+space", " ").unwrap_err();
    assert_eq!(err, "Shortcut cannot be empty");
    assert_eq!(settings.shortcuts.command_mode, "fn+ctrl");
}

#[test]
fn default_settings_values() {
    let s = Settings::default();
    assert_eq!(s.input_device, None);
    assert_eq!(s.language.as_deref(), Some("en"));
    assert!(s.local_transcription_enabled);
    assert_eq!(s.llm_provider.as_deref(), Some("system"));
    assert_eq!(s.ollama_base_url.as_deref(), Some("http://localhost:11434"));
    assert_eq!(s.ollama_model, None);
    assert_eq!(s.system_llm_model.as_deref(), Some("SmolLM2-135M-Instruct-Q4_K_M"));
    assert!(!s.text_formatting_enabled);
    assert_eq!(s.text_formatting_mode, "standard");
    let d = ShortcutSettings::default();
    assert_eq!(d.push_to_talk, "fn");
    assert_eq!(d.hands_free_toggle, "fn+space");
    assert_eq!(d.command_mode, "fn+ctrl");
}

#[test]
fn settings_setters_and_getters() {
    let mut s = Settings::default();
    set_input_device_id(&mut s, "mic-2".to_string());
    assert_eq!(get_input_device_id(&s).as_deref(), Some("mic-2"));
    set_system_llm_model(&mut s, "SmolLM2-360M-Instruct-Q4_K_M".to_string());
    assert_eq!(get_system_llm_model(&s).as_deref(), Some("SmolLM2-360M-Instruct-Q4_K_M"));
    set_transcription_enabled(&mut s, false);
    assert!(!s.local_transcription_enabled);
    set_language(&mut s, "de".to_string());
    assert_eq!(s.language.as_deref(), Some("de"));
    set_llm_settings(&mut s, "ollama".into(), "http://h:1".into(), "llama3".into());
    assert_eq!(s.llm_provider.as_deref(), Some("ollama"));
    assert_eq!(s.ollama_base_url.as_deref(), Some("http://h:1"));
    assert_eq!(s.ollama_model.as_deref(), Some("llama3"));
    assert!(set_formatting_settings(&mut s, true, "smart".into()).is_ok());
    assert!(s.text_formatting_enabled);
    assert_eq!(s.text_formatting_mode, "smart");
    assert_eq!(push_to_talk_shortcut(&s), "fn");
    assert_eq!(hands_free_toggle_shortcut(&s), "fn+space");
}

#[test]
fn normalized_shortcut_shape() {
    let r = normalize_shortcut("++ Ctrl ++ SHIFT + +K+ ");
    assert_eq!(r, "ctrl+shift+k");
    assert!(!r.starts_with('+') && !r.ends_with('+') && !r.contains("++"));
    assert_eq!(normalize_shortcut(&r), r);
    assert_eq!(normalize_shortcut(" + \t+ "), "");
}

#[test]
fn parse_ignores_part_order() {
    let a = parse_shortcut("Shift+ctrl+K").unwrap();
    let b = parse_shortcut("k + CTRL + shift").unwrap();
    assert_eq!(a, b);
    assert_eq!(
        parse_shortcut("a+ctrl+b").unwrap_err(),
        parse_shortcut("ctrl+b+a").unwrap_err()
    );
}

#[test]
fn hand_built_shortcut_round_trips() {
    let spec = ShortcutSpec {
        fn_key: false,
        ctrl: true,
        shift: false,
        alt: true,
        meta: true,
        key: Some("f5".to_string()),
    };
    let text = format_shortcut(&spec);
    assert_eq!(text, "ctrl+alt+meta+f5");
    assert_eq!(normalize_shortcut(&text), text);
    assert_eq!(parse_shortcut(&text).unwrap(), spec);
}
