use openwispr::desktop::model_list;
use openwispr::desktop::verbose_logs_enabled;
use openwispr::analytics::{next_day_streak, streak_for_days, try_next_day_streak};
use openwispr::desktop::{active_model_value, check_model_selection, ollama_tags_url, overlay_position, ActiveModelStore};
use openwispr::platform::platform_name;

#[test]
fn active_model_defaults_to_base() {
    assert_eq!(active_model_value(None), "base");
    assert_eq!(active_model_value(Some("small".into())), "small");
}

#[test]
fn model_selection_rules() {
    assert_eq!(
        check_model_selection(false, false, true).unwrap_err(),
        "Model must be downloaded before selection"
    );
    assert_eq!(
        check_model_selection(true, true, false).unwrap_err(),
        "MLX models are only supported on macOS"
    );
    assert!(check_model_selection(true, true, true).is_ok());
    assert!(check_model_selection(true, false, false).is_ok());
}

#[test]
fn overlay_is_centred_above_bottom() {
    assert_eq!(overlay_position(0, 0, 1920, 1080, 400, 200, 200), (760, 680));
    assert_eq!(overlay_position(0, 0, 1920, 1080, 0, 0, 200), (760, 680));
    assert_eq!(overlay_position(100, 50, 300, 150, 400, 200, 200), (100, 50));
    assert_eq!(overlay_position(0, 0, 1000, 300, 400, 200, 200), (300, 0));
}

#[test]
fn ollama_urls() {
    assert_eq!(ollama_tags_url("localhost:11434"), "http://localhost:11434/api/tags");
    assert_eq!(ollama_tags_url("http://h:1//"), "http://h:1/api/tags");
    assert_eq!(ollama_tags_url("https://x"), "https://x/api/tags");
}

#[test]
fn streak_rules() {
    assert_eq!(next_day_streak(5, &None, "2024-03-01"), 1);
    assert_eq!(next_day_streak(5, &Some("2024-03-01".into()), "2024-03-01"), 5);
    assert_eq!(next_day_streak(5, &Some("2024-02-29".into()), "2024-03-01"), 6);
    assert_eq!(next_day_streak(5, &Some("2023-12-31".into()), "2024-01-01"), 6);
    assert_eq!(next_day_streak(5, &Some("2024-02-27".into()), "2024-03-01"), 1);
    assert_eq!(next_day_streak(5, &Some("2024-03-02".into()), "2024-03-01"), 5);
    assert_eq!(next_day_streak(5, &Some("garbage".into()), "2024-03-01"), 1);
    assert_eq!(streak_for_days(3, Some(10), Some(11)), 4);
    assert_eq!(streak_for_days(3, Some(10), Some(10)), 3);
    assert_eq!(streak_for_days(3, None, Some(10)), 1);
}

#[test]
fn platform() {
    assert_eq!(platform_name(), "generic-platform");
}

#[test]
fn verbose_switch() {
    assert!(verbose_logs_enabled(Some("1")));
    assert!(!verbose_logs_enabled(Some("true")));
    assert!(!verbose_logs_enabled(None));
}

#[test]
fn model_manager_list() {
    let names = vec!["tiny".to_string(), "base".to_string()];
    let list = model_list(&names, &[false, true], "sherpa-x".into(), true, Some(("mlx-y".into(), false)));
    assert_eq!(list.len(), 4);
    assert_eq!(list[1].name, "base");
    assert!(list[1].downloaded);
    assert_eq!(list[0].runtime, "whisper.cpp");
    assert_eq!(list[2].runtime, "sherpa-onnx");
    assert_eq!(list[2].note.as_deref(), Some("NVIDIA Parakeet TDT v2 int8"));
    assert_eq!(list[3].runtime, "mlx-parakeet");
    assert_eq!(list[3].note.as_deref(), Some("Parakeet MLX community model"));
    let list = model_list(&names, &[false, false], "s".into(), false, None);
    assert_eq!(list.len(), 3);
}

#[test]
fn active_model_store_keeps_last_accepted_selection() {
    let mut store = ActiveModelStore::new();
    assert_eq!(store.get_active_model().unwrap(), "base");
    assert!(store.set_active_model("small".to_string(), true, false, false).is_ok());
    assert_eq!(store.get_active_model().unwrap(), "small");
    assert_eq!(
        store.set_active_model("medium".to_string(), false, false, true).unwrap_err(),
        "Model must be downloaded before selection"
    );
    assert_eq!(store.get_active_model().unwrap(), "small");
    assert_eq!(
        store
            .set_active_model("mlx-community/parakeet-tdt-0.6b-v2".to_string(), true, true, false)
            .unwrap_err(),
        "MLX models are only supported on macOS"
    );
    assert_eq!(store.get_active_model().unwrap(), "small");
    assert!(store
        .set_active_model("mlx-community/parakeet-tdt-0.6b-v2".to_string(), true, true, true)
        .is_ok());
    assert_eq!(store.get_active_model().unwrap(), "mlx-community/parakeet-tdt-0.6b-v2");
}

#[test]
fn overlay_handles_large_offsets_and_negative_positions() {
    assert_eq!(overlay_position(-1920, -100, 1920, 1080, 400, 200, 48), (-1160, 732));
    assert_eq!(
        overlay_position(2_000_000_000, 0, 100_000_000, 1080, 400, 200, 48),
        (2_049_999_800, 832)
    );
    assert_eq!(overlay_position(0, 0, 1920, 1080, 400, 200, -100), (760, 880));
}

#[test]
fn streak_at_the_maximum() {
    assert_eq!(next_day_streak(u64::MAX, &Some("2024-03-01".into()), "2024-03-01"), u64::MAX);
    assert_eq!(next_day_streak(u64::MAX, &Some("2024-02-20".into()), "2024-03-01"), 1);
    assert_eq!(try_next_day_streak(u64::MAX, &Some("2024-03-01".into()), "2024-03-01"), Some(u64::MAX));
    assert_eq!(try_next_day_streak(u64::MAX, &Some("2024-02-29".into()), "2024-03-01"), None);
    assert_eq!(try_next_day_streak(u64::MAX, &None, "2024-03-01"), Some(1));
    assert_eq!(try_next_day_streak(7, &Some("2024-02-29".into()), "2024-03-01"), Some(8));
    assert_eq!(try_next_day_streak(u64::MAX, &Some("bad".into()), "2024-03-01"), Some(1));
}
