use evervoice::settings::{
    default_language, is_modifier, is_valid_special_key, validate_hotkey_format, CustomAction,
    Settings, DEFAULT_GLOBAL_HOTKEY, DEFAULT_LANGUAGE, DEFAULT_MAX_DURATION_MINUTES,
};

#[test]
fn test_default_settings() {
    let settings = Settings::default();
    assert_eq!(settings.max_duration, 5);
    assert!(settings.api_key.is_none());
    assert_eq!(settings.language, "de");
    assert!(settings.custom_actions.is_empty());
    assert!(settings.global_hotkey.is_none());
}

#[test]
fn test_validate_valid_settings() {
    let settings = Settings {
        max_duration: 30,
        api_key: Some("test-key".to_string()),
        language: "en".to_string(),
        custom_actions: Vec::new(),
        global_hotkey: Some("Ctrl+Shift+R".to_string()),
    };
    assert!(settings.validate().is_ok());
}

#[test]
fn test_validate_zero_duration() {
    let settings = Settings {
        max_duration: 0,
        api_key: None,
        language: "de".to_string(),
        custom_actions: Vec::new(),
        global_hotkey: None,
    };
    assert!(settings.validate().is_err());
}

#[test]
fn test_validate_excessive_duration() {
    let settings = Settings {
        max_duration: 200,
        api_key: None,
        language: "de".to_string(),
        custom_actions: Vec::new(),
        global_hotkey: None,
    };
    assert!(settings.validate().is_err());
}

#[test]
fn test_effective_global_hotkey_with_custom() {
    let settings = Settings {
        max_duration: 5,
        api_key: None,
        language: "de".to_string(),
        custom_actions: Vec::new(),
        global_hotkey: Some("Alt+R".to_string()),
    };
    assert_eq!(settings.effective_global_hotkey(), "Alt+R");
}

#[test]
fn test_effective_global_hotkey_with_default() {
    let settings = Settings::default();
    assert_eq!(settings.effective_global_hotkey(), DEFAULT_GLOBAL_HOTKEY);
}

#[test]
fn test_validate_hotkey_format_valid() {
    assert!(validate_hotkey_format("Ctrl+Shift+R").is_ok());
    assert!(validate_hotkey_format("Alt+R").is_ok());
    assert!(validate_hotkey_format("Ctrl+Alt+Shift+V").is_ok());
    assert!(validate_hotkey_format("Meta+Space").is_ok());
    assert!(validate_hotkey_format("Ctrl+F1").is_ok());
}

#[test]
fn test_validate_hotkey_format_invalid() {
    // No modifier
    assert!(validate_hotkey_format("R").is_err());
    // Empty string
    assert!(validate_hotkey_format("").is_err());
    // Invalid modifier
    assert!(validate_hotkey_format("Control+R").is_err());
    // No key
    assert!(validate_hotkey_format("Ctrl+").is_err());
}

fn fault(hotkey: &str) -> Option<String> {
    validate_hotkey_format(hotkey).err()
}

#[test]
fn hotkey_faults_are_named_exactly() {
    assert_eq!(fault("").as_deref(), Some("Hotkey cannot be empty"));
    assert_eq!(fault("R").as_deref(), Some("Hotkey must have at least one modifier and a key"));
    assert_eq!(fault("Ctrl").as_deref(), Some("Hotkey must have at least one modifier and a key"));
    assert_eq!(fault("Ctrl+").as_deref(), Some("Hotkey contains empty segment"));
    assert_eq!(fault("+R").as_deref(), Some("Hotkey contains empty segment"));
    assert_eq!(fault("Ctrl+ +R").as_deref(), Some("Hotkey contains empty segment"));
    assert_eq!(fault("Ctrl++R").as_deref(), Some("Hotkey contains empty segment"));
    assert_eq!(fault("Control+R").as_deref(), Some("Invalid modifier: Control"));
    assert_eq!(fault("R+Ctrl").as_deref(), Some("Invalid modifier: R"));
    assert_eq!(fault("ctrl+R").as_deref(), Some("Invalid modifier: ctrl"));
    assert_eq!(fault("Ctrl+AB").as_deref(), Some("Invalid key: AB"));
    assert_eq!(fault("Ctrl+space").as_deref(), Some("Invalid key: space"));
    assert_eq!(fault("Ctrl+F13").as_deref(), Some("Invalid key: F13"));
    assert_eq!(fault("Ctrl+é").as_deref(), Some("Invalid key: é"));
    assert_eq!(fault("Ctrl+Shift").as_deref(), Some("Hotkey must end with a valid key"));
    assert_eq!(fault("Ctrl+Alt+Meta").as_deref(), Some("Hotkey must end with a valid key"));
    assert_eq!(fault("Ctrl+X+Y").as_deref(), Some("Invalid modifier: X"));
    assert_eq!(fault("Ctrl+ Foo +R").as_deref(), Some("Invalid modifier: Foo"));
    assert_eq!(fault("Ctrl+\u{a0}").as_deref(), Some("Hotkey contains empty segment"));
}

#[test]
fn hotkey_segments_are_trimmed() {
    assert!(validate_hotkey_format(" Ctrl + Shift + R ").is_ok());
    assert!(validate_hotkey_format("Ctrl+\tF12\n").is_ok());
    assert!(validate_hotkey_format("\u{2003}Alt\u{3000}+ 1").is_ok());
    assert!(validate_hotkey_format("Ctrl+~").is_ok());
    assert!(validate_hotkey_format("Ctrl+Ctrl+a").is_ok());
}

#[test]
fn every_special_key_is_accepted() {
    let keys = [
        "Space", "Tab", "Enter", "Escape", "Backspace", "Delete", "Insert", "Home", "End",
        "PageUp", "PageDown", "Up", "Down", "Left", "Right", "F1", "F2", "F3", "F4", "F5", "F6",
        "F7", "F8", "F9", "F10", "F11", "F12",
    ];
    for key in keys {
        assert!(is_valid_special_key(key), "{}", key);
        assert!(validate_hotkey_format(&format!("Meta+{}", key)).is_ok(), "{}", key);
    }
    for key in ["", "space", "F0", "F13", "Ctrl", "R", "Page Up", "Esc"] {
        assert!(!is_valid_special_key(key), "{}", key);
    }
    for m in ["Ctrl", "Alt", "Shift", "Meta"] {
        assert!(is_modifier(m));
    }
    for m in ["", "ctrl", "Control", "Cmd", "Super", "Ctrl "] {
        assert!(!is_modifier(m));
    }
}

#[test]
fn hotkey_validation_agrees_with_splitting_and_trimming() {
    let modifiers = ["Ctrl", "Alt", "Shift", "Meta"];
    let pieces = ["Ctrl", "Alt", "R", "F1", "", " ", "Space", "x", "Foo", " Shift ", "é", "F12 "];
    for a in pieces {
        for b in pieces {
            for c in pieces {
                for hotkey in [format!("{}+{}", a, b), format!("{}+{}+{}", a, b, c)] {
                    let parts: Vec<&str> = hotkey.split('+').collect();
                    let mut expected = parts.len() >= 2 && !hotkey.is_empty();
                    for (i, part) in parts.iter().enumerate() {
                        let part = part.trim();
                        let last = i == parts.len() - 1;
                        if last {
                            let special = is_valid_special_key(part);
                            expected = expected && (part.len() == 1 || special);
                        } else {
                            expected = expected && modifiers.contains(&part);
                        }
                    }
                    assert_eq!(validate_hotkey_format(&hotkey).is_ok(), expected, "{:?}", hotkey);
                }
            }
        }
    }
}

fn settings_with(max_duration: u32, hotkey: Option<&str>) -> Settings {
    Settings {
        max_duration,
        api_key: None,
        language: "de".to_string(),
        custom_actions: vec![CustomAction {
            id: "1".to_string(),
            name: "Post".to_string(),
            url: "https://example.com".to_string(),
        }],
        global_hotkey: hotkey.map(|h| h.to_string()),
    }
}

#[test]
fn settings_faults_are_named_exactly() {
    assert_eq!(
        settings_with(0, None).validate().err().as_deref(),
        Some("Max duration must be greater than 0")
    );
    assert_eq!(
        settings_with(0, Some("bad")).validate().err().as_deref(),
        Some("Max duration must be greater than 0")
    );
    assert_eq!(
        settings_with(181, None).validate().err().as_deref(),
        Some("Max duration cannot exceed 180 minutes")
    );
    assert_eq!(
        settings_with(u32::MAX, None).validate().err().as_deref(),
        Some("Max duration cannot exceed 180 minutes")
    );
    assert!(settings_with(1, None).validate().is_ok());
    assert!(settings_with(180, None).validate().is_ok());
    assert!(settings_with(180, Some("Alt+R")).validate().is_ok());
    assert_eq!(
        settings_with(5, Some("Control+R")).validate().err().as_deref(),
        Some("Invalid modifier: Control")
    );
    assert_eq!(
        settings_with(5, Some("")).validate().err().as_deref(),
        Some("Hotkey cannot be empty")
    );
}

#[test]
fn setting_defaults() {
    assert_eq!(DEFAULT_MAX_DURATION_MINUTES, 5);
    assert_eq!(DEFAULT_LANGUAGE, "de");
    assert_eq!(DEFAULT_GLOBAL_HOTKEY, "Ctrl+Shift+R");
    assert_eq!(default_language(), "de");
    assert!(Settings::default().validate().is_ok());
    assert!(validate_hotkey_format(DEFAULT_GLOBAL_HOTKEY).is_ok());
}
