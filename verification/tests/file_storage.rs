use evervoice::file_storage::{
    generate_recording_filename, recording_filename, should_clean_up, APP_DIR_NAME,
    FILE_STAMP_PATTERN, RECORDINGS_DIR_NAME,
};

#[test]
fn test_file_naming_convention() {
    let filename = generate_recording_filename();

    // Should start with "recording-"
    assert!(filename.starts_with("recording-"));

    // Should end with ".webm"
    assert!(filename.ends_with(".webm"));

    // Should contain timestamp pattern (YYYY-MM-DDTHH-MM-SS)
    // Format: recording-2024-01-21T14-30-00-{uuid}.webm
    let parts: Vec<&str> = filename.split('-').collect();
    assert!(parts.len() >= 7, "Filename should have expected format");

    // Year should be 4 digits
    assert_eq!(parts[1].len(), 4);

    // Month and day should be 2 digits
    assert_eq!(parts[2].len(), 2);

    // Day part contains 'T' and hour
    assert!(parts[3].contains('T'));
}

#[test]
fn test_file_naming_generates_unique_names() {
    let name1 = generate_recording_filename();
    let name2 = generate_recording_filename();

    // Names should be different due to UUID
    assert_ne!(name1, name2);
}

#[test]
fn recording_names_are_exact() {
    assert_eq!(
        recording_filename("2024-01-21T14-30-00", "123e4567-e89b-42d3-a456-426614174000"),
        "recording-2024-01-21T14-30-00-123e4567-e89b-42d3-a456-426614174000.webm"
    );
    assert_eq!(recording_filename("", ""), "recording--.webm");
    let name = generate_recording_filename();
    assert_eq!(name.len(), "recording-".len() + 19 + 1 + 36 + ".webm".len());
    assert_eq!(FILE_STAMP_PATTERN, "%Y-%m-%dT%H-%M-%S");
    let stamp = &name["recording-".len().."recording-".len() + 19];
    let shape: String =
        stamp.chars().map(|c| if c.is_ascii_digit() { '9' } else { c }).collect();
    assert_eq!(shape, "9999-99-99T99-99-99");
    assert_eq!(APP_DIR_NAME, "EverVoice");
    assert_eq!(RECORDINGS_DIR_NAME, "recordings");
}

#[test]
fn only_old_webm_files_are_cleaned_up() {
    let hour: u128 = 3600 * 1_000_000_000;
    assert!(should_clean_up(Some("webm"), Some(hour + 1), 1));
    assert!(!should_clean_up(Some("webm"), Some(hour), 1));
    assert!(!should_clean_up(Some("webm"), Some(hour - 1), 1));
    assert!(should_clean_up(Some("webm"), Some(1), 0));
    assert!(!should_clean_up(Some("webm"), Some(0), 0));
    assert!(!should_clean_up(Some("webm"), None, 0));
    assert!(!should_clean_up(Some("mp3"), Some(u128::MAX), 0));
    assert!(!should_clean_up(Some("WEBM"), Some(u128::MAX), 0));
    assert!(!should_clean_up(None, Some(u128::MAX), 0));
    let longest: u128 = u32::MAX as u128 * hour;
    assert!(!should_clean_up(Some("webm"), Some(longest), u32::MAX));
    assert!(should_clean_up(Some("webm"), Some(longest + 1), u32::MAX));
}
