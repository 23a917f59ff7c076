use evervoice::global_hotkey::{
    check_hotkey, fallback_hotkey, parse_failure, registration_failure, startup_hotkey,
    HotkeyError, HotkeyEventPayload, HotkeyResult, GLOBAL_HOTKEY_EVENT,
};

#[test]
fn test_hotkey_error_display() {
    let err = HotkeyError::InvalidFormat("test".to_string());
    assert!(err.to_string().contains("Invalid hotkey format"));

    let err = HotkeyError::Conflict("Ctrl+R".to_string());
    assert!(err.to_string().contains("conflict"));
}

#[test]
fn test_hotkey_result_ok() {
    let result = HotkeyResult::ok();
    assert!(result.success);
    assert!(result.message.is_none());
    assert!(result.error_type.is_none());
}

#[test]
fn test_hotkey_result_error() {
    let error = HotkeyError::InvalidFormat("test error".to_string());
    let result = HotkeyResult::error(error);
    assert!(!result.success);
    assert!(result.message.is_some());
    assert_eq!(result.error_type, Some("invalid_format".to_string()));
}

#[test]
fn hotkey_errors_have_exact_texts_and_tags() {
    let cases = [
        (HotkeyError::InvalidFormat("m".to_string()), "Invalid hotkey format: m", "invalid_format"),
        (HotkeyError::Conflict("m".to_string()), "Hotkey conflict: m", "conflict"),
        (
            HotkeyError::RegistrationFailed("m".to_string()),
            "Failed to register hotkey: m",
            "registration_failed",
        ),
        (
            HotkeyError::UnregistrationFailed("m".to_string()),
            "Failed to unregister hotkey: m",
            "unregistration_failed",
        ),
    ];
    for (err, text, tag) in cases {
        assert_eq!(err.to_string(), text);
        assert_eq!(err.error_type(), tag);
        let r = HotkeyResult::error(err);
        assert!(!r.success);
        assert_eq!(r.message.as_deref(), Some(text));
        assert_eq!(r.error_type.as_deref(), Some(tag));
    }
}

#[test]
fn check_hotkey_wraps_the_format_fault() {
    assert!(check_hotkey("Ctrl+Shift+R").is_ok());
    match check_hotkey("R") {
        Err(HotkeyError::InvalidFormat(m)) => {
            assert_eq!(m, "Hotkey must have at least one modifier and a key")
        }
        other => panic!("{:?}", other),
    }
    match check_hotkey("") {
        Err(HotkeyError::InvalidFormat(m)) => assert_eq!(m, "Hotkey cannot be empty"),
        other => panic!("{:?}", other),
    }
}

#[test]
fn registration_failures_are_told_apart_by_their_detail() {
    match registration_failure("Ctrl+R", "HotKey already registered".to_string()) {
        HotkeyError::Conflict(m) => {
            assert_eq!(m, "The hotkey 'Ctrl+R' is already in use by another application")
        }
        other => panic!("{:?}", other),
    }
    assert!(matches!(
        registration_failure("Ctrl+R", "a conflict arose".to_string()),
        HotkeyError::Conflict(_)
    ));
    match registration_failure("Ctrl+R", "no display".to_string()) {
        HotkeyError::RegistrationFailed(m) => assert_eq!(m, "no display"),
        other => panic!("{:?}", other),
    }
    match registration_failure("Ctrl+R", "Already".to_string()) {
        HotkeyError::RegistrationFailed(m) => assert_eq!(m, "Already"),
        other => panic!("{:?}", other),
    }
}

#[test]
fn parse_failure_names_the_hotkey_and_the_reason() {
    match parse_failure("Ctrl+?", "unknown key") {
        HotkeyError::InvalidFormat(m) => assert_eq!(m, "Failed to parse 'Ctrl+?': unknown key"),
        other => panic!("{:?}", other),
    }
}

#[test]
fn startup_and_fallback_hotkeys() {
    assert_eq!(startup_hotkey(None), "Ctrl+Shift+R");
    assert_eq!(startup_hotkey(Some("Alt+R".to_string())), "Alt+R");
    assert_eq!(fallback_hotkey("Alt+R"), Some("Ctrl+Shift+R"));
    assert_eq!(fallback_hotkey("Ctrl+Shift+R"), None);
    assert_eq!(fallback_hotkey(""), Some("Ctrl+Shift+R"));
}

#[test]
fn hotkey_event_payload_holds_its_fields() {
    let p = HotkeyEventPayload { timestamp: 42, hotkey: "Ctrl+R".to_string() };
    let q = p.clone();
    assert_eq!(q.timestamp, 42);
    assert_eq!(q.hotkey, "Ctrl+R");
    assert_eq!(GLOBAL_HOTKEY_EVENT, "global-hotkey-triggered");
}
