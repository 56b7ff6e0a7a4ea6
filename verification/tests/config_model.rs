use parakeet_writer::input::{
    hotkey_event_of_value, is_event_device_name, parse_hotkey, should_rescan, Hotkey,
    LISTENER_SLEEP_MS, RESCAN_INTERVAL_MS,
};
use parakeet_writer::model::{
    default_model_path, ensure_model, ensure_model_after_download, ensure_model_after_verify,
    progress_bar_filled, progress_percent, verify_model, EnsureStep, ModelError,
};
use parakeet_writer::session::HotkeyEvent;
use parakeet_writer::text::{eq_ignore_ascii_case, str_eq, trim};

#[test]
fn parse_hotkey_function_keys() {
    assert_eq!(parse_hotkey("F1").unwrap(), Hotkey::F1);
    assert_eq!(parse_hotkey("F9").unwrap(), Hotkey::F9);
    assert_eq!(parse_hotkey("F12").unwrap(), Hotkey::F12);
}

#[test]
fn parse_hotkey_is_case_insensitive() {
    assert_eq!(parse_hotkey("f9").unwrap(), Hotkey::F9);
    assert_eq!(parse_hotkey("pause").unwrap(), Hotkey::Pause);
    assert_eq!(parse_hotkey("Insert").unwrap(), Hotkey::Insert);
}

#[test]
fn parse_hotkey_scroll_lock_spellings() {
    assert_eq!(parse_hotkey("SCROLLLOCK").unwrap(), Hotkey::ScrollLock);
    assert_eq!(parse_hotkey("scroll_lock").unwrap(), Hotkey::ScrollLock);
}

#[test]
fn parse_hotkey_rejects_unknown_names() {
    let e = parse_hotkey("Q").unwrap_err();
    assert_eq!(e.key, "Q");
    assert!(parse_hotkey("").is_err());
    assert!(parse_hotkey("F13").is_err());
}

#[test]
fn key_event_values() {
    assert_eq!(hotkey_event_of_value(1), Some(HotkeyEvent::Pressed));
    assert_eq!(hotkey_event_of_value(0), Some(HotkeyEvent::Released));
    assert_eq!(hotkey_event_of_value(2), None);
    assert_eq!(hotkey_event_of_value(-1), None);
}

#[test]
fn rescan_policy() {
    assert!(should_rescan(true, RESCAN_INTERVAL_MS));
    assert!(!should_rescan(true, RESCAN_INTERVAL_MS - 1));
    assert!(!should_rescan(false, RESCAN_INTERVAL_MS * 2));
    assert_eq!(LISTENER_SLEEP_MS, 10);
}

#[test]
fn event_device_names() {
    assert!(is_event_device_name("event0"));
    assert!(is_event_device_name("event17"));
    assert!(is_event_device_name("event"));
    assert!(!is_event_device_name("mouse0"));
    assert!(!is_event_device_name("eve"));
    assert!(!is_event_device_name(""));
}

#[test]
fn default_model_path_joins_cache_dir() {
    assert_eq!(
        default_model_path(Some("/home/u/.cache".to_string())),
        "/home/u/.cache/parakeet-writer/parakeet-tdt-0.6b-v3-int8"
    );
    assert_eq!(
        default_model_path(None),
        "./parakeet-writer/parakeet-tdt-0.6b-v3-int8"
    );
}

#[test]
fn verify_model_requires_all_three_files() {
    let full = vec![
        "encoder-model.int8.onnx".to_string(),
        "decoder_joint-model.int8.onnx".to_string(),
        "vocab.txt".to_string(),
        "README".to_string(),
    ];
    assert!(verify_model(&Some(full)));
    let missing_vocab = vec![
        "encoder-model.int8.onnx".to_string(),
        "decoder_joint-model.int8.onnx".to_string(),
    ];
    assert!(!verify_model(&Some(missing_vocab)));
    assert!(!verify_model(&Some(Vec::new())));
    assert!(!verify_model(&None));
}

#[test]
fn ensure_model_prefers_user_path() {
    let plan = ensure_model(Some("/models/p".to_string()), "/default".to_string());
    assert_eq!(plan.path, "/models/p");
    assert!(plan.user_provided);
    // A verified path is ready as it stands.
    match ensure_model_after_verify(plan, true) {
        EnsureStep::Ready(p) => assert_eq!(p, "/models/p"),
        _ => panic!("expected ready"),
    }
}

#[test]
fn ensure_model_user_path_is_never_downloaded_over() {
    let plan = ensure_model(Some("/models/p".to_string()), "/default".to_string());
    match ensure_model_after_verify(plan, false) {
        EnsureStep::Failed(ModelError::NotFound(p)) => assert_eq!(p, "/models/p"),
        _ => panic!("expected not-found failure"),
    }
}

#[test]
fn ensure_model_downloads_into_default_path() {
    let plan = ensure_model(None, "/default".to_string());
    assert!(!plan.user_provided);
    match ensure_model_after_verify(plan, false) {
        EnsureStep::Download(p) => assert_eq!(p, "/default"),
        _ => panic!("expected download"),
    }
}

#[test]
fn ensure_model_after_download_outcomes() {
    match ensure_model_after_download("/d".to_string(), Ok(()), true) {
        Ok(p) => assert_eq!(p, "/d"),
        Err(_) => panic!("expected success"),
    }
    assert!(matches!(
        ensure_model_after_download("/d".to_string(), Ok(()), false),
        Err(ModelError::VerificationFailed)
    ));
    match ensure_model_after_download("/d".to_string(), Err("timeout".to_string()), false) {
        Err(ModelError::DownloadFailed(m)) => assert_eq!(m, "timeout"),
        _ => panic!("expected download failure"),
    }
}

#[test]
fn download_progress_arithmetic() {
    assert_eq!(progress_percent(0, 100), 0);
    assert_eq!(progress_percent(50, 200), 25);
    assert_eq!(progress_percent(199, 200), 99);
    assert_eq!(progress_percent(200, 200), 100);
    assert_eq!(progress_bar_filled(0), 0);
    assert_eq!(progress_bar_filled(37), 7);
    assert_eq!(progress_bar_filled(100), 20);
    assert_eq!(progress_bar_filled(250), 20);
}

#[test]
fn trim_removes_surrounding_whitespace() {
    assert_eq!(trim("  a b \t\n"), "a b");
    assert_eq!(trim(""), "");
    assert_eq!(trim(" \t "), "");
    assert_eq!(trim("\u{00A0}x\u{00A0}"), "x");
    assert_eq!(trim("no-trim"), "no-trim");
}

#[test]
fn string_comparisons() {
    assert!(str_eq("abc", "abc"));
    assert!(!str_eq("abc", "abd"));
    assert!(!str_eq("abc", "ab"));
    assert!(eq_ignore_ascii_case("f9", "F9"));
    assert!(eq_ignore_ascii_case("Scroll_Lock", "SCROLL_LOCK"));
    assert!(!eq_ignore_ascii_case("F9", "F8"));
}
