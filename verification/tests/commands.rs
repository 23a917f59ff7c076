use evervoice::commands::{
    configured_api_key, summarization_credentials, transcription_credentials,
    SummarizationResponse, TranscriptionResponse,
};
use evervoice::settings::Settings;
use evervoice::summarization::{SummarizationError, SummarizationResult};
use evervoice::transcription::{TranscriptionError, TranscriptionResult};

#[test]
fn successful_transcription_response() {
    let r = TranscriptionResponse::from(Ok(TranscriptionResult { text: "hello".to_string() }));
    assert!(r.success);
    assert_eq!(r.text.as_deref(), Some("hello"));
    assert!(r.error_type.is_none());
    assert!(r.error_message.is_none());
    assert!(r.retryable.is_none());
}

#[test]
fn failed_transcription_responses() {
    let d = || "d".to_string();
    let cases = [
        (TranscriptionError::ApiKeyNotConfigured, "api_key_not_configured", false),
        (TranscriptionError::InvalidApiKey, "invalid_api_key", false),
        (TranscriptionError::FileNotFound(d()), "file_not_found", false),
        (TranscriptionError::FileReadError(d()), "file_read_error", false),
        (TranscriptionError::InvalidAudioFormat(d()), "invalid_audio_format", false),
        (TranscriptionError::NetworkError(d()), "network_error", true),
        (TranscriptionError::RateLimitExceeded, "rate_limit_exceeded", true),
        (TranscriptionError::ApiError(d()), "api_error", false),
        (TranscriptionError::Unknown(d()), "unknown", false),
    ];
    for (err, tag, retryable) in cases {
        let message = err.user_message();
        let r = TranscriptionResponse::from(Err(err));
        assert!(!r.success);
        assert!(r.text.is_none());
        assert_eq!(r.error_type.as_deref(), Some(tag));
        assert_eq!(r.error_message, Some(message));
        assert!(!r.error_message.unwrap().is_empty());
        assert_eq!(r.retryable, Some(retryable));
    }
}

#[test]
fn summarization_responses() {
    let r = SummarizationResponse::from(Ok(SummarizationResult { summary: "- a".to_string() }));
    assert!(r.success);
    assert_eq!(r.summary.as_deref(), Some("- a"));
    assert!(r.error_type.is_none());
    assert!(r.error_message.is_none());

    let cases = [
        (SummarizationError::ApiKeyNotConfigured, "api_key_not_configured"),
        (SummarizationError::InvalidApiKey, "invalid_api_key"),
        (SummarizationError::NetworkError("d".to_string()), "network_error"),
        (SummarizationError::RateLimitExceeded, "rate_limit_exceeded"),
        (SummarizationError::ApiError("d".to_string()), "api_error"),
        (SummarizationError::EmptyText, "empty_text"),
    ];
    for (err, tag) in cases {
        let message = err.user_message();
        let r = SummarizationResponse::from(Err(err));
        assert!(!r.success);
        assert!(r.summary.is_none());
        assert_eq!(r.error_type.as_deref(), Some(tag));
        assert_eq!(r.error_message, Some(message));
        assert!(!r.error_message.unwrap().is_empty());
    }
}

fn settings(api_key: Option<&str>, language: &str) -> Settings {
    Settings {
        max_duration: 5,
        api_key: api_key.map(|k| k.to_string()),
        language: language.to_string(),
        custom_actions: Vec::new(),
        global_hotkey: None,
    }
}

#[test]
fn blank_api_keys_count_as_missing() {
    assert_eq!(configured_api_key(&settings(None, "de")), None);
    assert_eq!(configured_api_key(&settings(Some(""), "de")), None);
    assert_eq!(configured_api_key(&settings(Some("  \t"), "de")), None);
    assert_eq!(configured_api_key(&settings(Some(" sk-1 "), "de")).as_deref(), Some(" sk-1 "));
}

#[test]
fn credentials_for_a_transcription() {
    let c = transcription_credentials(Ok(settings(Some("sk-1"), "en"))).unwrap();
    assert_eq!(c.api_key, "sk-1");
    assert_eq!(c.language, "en");
    assert!(matches!(
        transcription_credentials(Ok(settings(None, "en"))),
        Err(TranscriptionError::ApiKeyNotConfigured)
    ));
    assert!(matches!(
        transcription_credentials(Ok(settings(Some(" "), "en"))),
        Err(TranscriptionError::ApiKeyNotConfigured)
    ));
    match transcription_credentials(Err("Failed to open settings store: x".to_string())) {
        Err(TranscriptionError::Unknown(d)) => assert_eq!(d, "Failed to open settings store: x"),
        other => panic!("{:?}", other),
    }
}

#[test]
fn credentials_for_a_summarization() {
    let c = summarization_credentials(Ok(settings(Some("sk-1"), "de"))).unwrap();
    assert_eq!(c.api_key, "sk-1");
    assert_eq!(c.language, "de");
    assert!(matches!(
        summarization_credentials(Ok(settings(None, "de"))),
        Err(SummarizationError::ApiKeyNotConfigured)
    ));
    match summarization_credentials(Err("broken".to_string())) {
        Err(SummarizationError::ApiError(d)) => assert_eq!(d, "broken"),
        other => panic!("{:?}", other),
    }
}
