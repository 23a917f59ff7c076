//! What the commands of the user interface get back from a transcription and
//! a summarization, and what the commands decide before they start one.

use vstd::prelude::*;
use vstd::std_specs::convert::FromSpecImpl;
use crate::settings::Settings;
use crate::summarization::{SummarizationError, SummarizationErrorView, SummarizationResult};
use crate::text::{is_blank, is_blank_text};
use crate::transcription::{TranscriptionError, TranscriptionErrorView, TranscriptionResult};

verus! {

/// An optional string, taken by its characters.
pub open spec fn optional_text(s: Option<String>) -> Option<Seq<char>> {
    match s {
        Some(t) => Some(t@),
        None => None,
    }
}

/// What a transcription reports to the user interface.
#[derive(Debug, Clone)]
pub struct TranscriptionResponse {
    /// Whether the transcription succeeded.
    pub success: bool,
    /// The transcribed text, after a success.
    pub text: Option<String>,
    /// The tag of the error, after a failure.
    pub error_type: Option<String>,
    /// The sentence for the user, after a failure.
    pub error_message: Option<String>,
    /// Whether trying again may help, after a failure.
    pub retryable: Option<bool>,
}

/// The mathematical value of a `TranscriptionResponse`.
pub struct TranscriptionResponseView {
    pub success: bool,
    pub text: Option<Seq<char>>,
    pub error_type: Option<Seq<char>>,
    pub error_message: Option<Seq<char>>,
    pub retryable: Option<bool>,
}

impl View for TranscriptionResponse {
    type V = TranscriptionResponseView;

    open spec fn view(&self) -> TranscriptionResponseView {
        TranscriptionResponseView {
            success: self.success,
            text: optional_text(self.text),
            error_type: optional_text(self.error_type),
            error_message: optional_text(self.error_message),
            retryable: self.retryable,
        }
    }
}

/// The response for what a transcription ended with. A success carries the
/// text and nothing else; a failure carries the tag of the error, its
/// sentence for the user and whether the error is transient.
pub open spec fn transcription_response(
    outcome: Result<Seq<char>, TranscriptionErrorView>,
) -> TranscriptionResponseView {
    match outcome {
        Ok(text) => TranscriptionResponseView {
            success: true,
            text: Some(text),
            error_type: None,
            error_message: None,
            retryable: None,
        },
        Err(e) => TranscriptionResponseView {
            success: false,
            text: None,
            error_type: Some(e.error_type()),
            error_message: Some(e.user_message()),
            retryable: Some(e.is_transient()),
        },
    }
}

impl From<Result<TranscriptionResult, TranscriptionError>> for TranscriptionResponse {
    fn from(result: Result<TranscriptionResult, TranscriptionError>) -> (r: Self)
        ensures
            r@ == transcription_response(crate::transcription::outcome_view(result)),
    {
        match result {
            Ok(transcription) => TranscriptionResponse {
                success: true,
                text: Some(transcription.text),
                error_type: None,
                error_message: None,
                retryable: None,
            },
            Err(error) => TranscriptionResponse {
                success: false,
                text: None,
                error_type: Some(error.error_type()),
                error_message: Some(error.user_message()),
                retryable: Some(error.is_transient()),
            },
        }
    }
}

impl FromSpecImpl<Result<TranscriptionResult, TranscriptionError>> for TranscriptionResponse {
    open spec fn obeys_from_spec() -> bool {
        false
    }

    open spec fn from_spec(v: Result<TranscriptionResult, TranscriptionError>) -> Self {
        arbitrary()
    }
}

/// What a summarization reports to the user interface.
#[derive(Debug, Clone)]
pub struct SummarizationResponse {
    /// Whether the summarization succeeded.
    pub success: bool,
    /// The summary, after a success.
    pub summary: Option<String>,
    /// The tag of the error, after a failure.
    pub error_type: Option<String>,
    /// The sentence for the user, after a failure.
    pub error_message: Option<String>,
}

/// The mathematical value of a `SummarizationResponse`.
pub struct SummarizationResponseView {
    pub success: bool,
    pub summary: Option<Seq<char>>,
    pub error_type: Option<Seq<char>>,
    pub error_message: Option<Seq<char>>,
}

impl View for SummarizationResponse {
    type V = SummarizationResponseView;

    open spec fn view(&self) -> SummarizationResponseView {
        SummarizationResponseView {
            success: self.success,
            summary: optional_text(self.summary),
            error_type: optional_text(self.error_type),
            error_message: optional_text(self.error_message),
        }
    }
}

/// The response for what a summarization ended with. A success carries the
/// summary and nothing else; a failure carries the tag of the error and its
/// sentence for the user.
pub open spec fn summarization_response(
    outcome: Result<Seq<char>, SummarizationErrorView>,
) -> SummarizationResponseView {
    match outcome {
        Ok(summary) => SummarizationResponseView {
            success: true,
            summary: Some(summary),
            error_type: None,
            error_message: None,
        },
        Err(e) => SummarizationResponseView {
            success: false,
            summary: None,
            error_type: Some(e.error_type()),
            error_message: Some(e.user_message()),
        },
    }
}

impl From<Result<SummarizationResult, SummarizationError>> for SummarizationResponse {
    fn from(result: Result<SummarizationResult, SummarizationError>) -> (r: Self)
        ensures
            r@ == summarization_response(crate::summarization::outcome_view(result)),
    {
        match result {
            Ok(summarization) => SummarizationResponse {
                success: true,
                summary: Some(summarization.summary),
                error_type: None,
                error_message: None,
            },
            Err(error) => SummarizationResponse {
                success: false,
                summary: None,
                error_type: Some(error.error_type()),
                error_message: Some(error.user_message()),
            },
        }
    }
}

impl FromSpecImpl<Result<SummarizationResult, SummarizationError>> for SummarizationResponse {
    open spec fn obeys_from_spec() -> bool {
        false
    }

    open spec fn from_spec(v: Result<SummarizationResult, SummarizationError>) -> Self {
        arbitrary()
    }
}

/// The API key that settings provide: the one they hold, unless it is empty
/// once trimmed.
pub open spec fn usable_api_key(api_key: Option<Seq<char>>) -> Option<Seq<char>> {
    match api_key {
        Some(key) => if is_blank(key) {
            None
        } else {
            Some(key)
        },
        None => None,
    }
}

/// Takes the API key out of the settings, if they hold one that can be used.
pub fn configured_api_key(settings: &Settings) -> (r: Option<String>)
    ensures
        optional_text(r) == usable_api_key(optional_text(settings.api_key)),
{
    match &settings.api_key {
        Some(key) => {
            if is_blank_text(key.as_str()) {
                None
            } else {
                Some(key.clone())
            }
        },
        None => None,
    }
}

/// What a client is called with: the API key and the language.
#[derive(Debug, Clone)]
pub struct Credentials {
    pub api_key: String,
    pub language: String,
}

/// What a transcription is called with, given how loading the settings went:
/// settings that could not be loaded are an unknown error with the reason,
/// settings without a usable API key an unconfigured key.
pub open spec fn transcription_credentials_of(
    loaded: Result<(Option<Seq<char>>, Seq<char>), Seq<char>>,
) -> Result<(Seq<char>, Seq<char>), TranscriptionErrorView> {
    match loaded {
        Err(reason) => Err(TranscriptionErrorView::Unknown(reason)),
        Ok(pair) => match usable_api_key(pair.0) {
            Some(key) => Ok((key, pair.1)),
            None => Err(TranscriptionErrorView::ApiKeyNotConfigured),
        },
    }
}

/// What a summarization is called with, given how loading the settings went:
/// settings that could not be loaded are an API error with the reason,
/// settings without a usable API key an unconfigured key.
pub open spec fn summarization_credentials_of(
    loaded: Result<(Option<Seq<char>>, Seq<char>), Seq<char>>,
) -> Result<(Seq<char>, Seq<char>), SummarizationErrorView> {
    match loaded {
        Err(reason) => Err(SummarizationErrorView::ApiError(reason)),
        Ok(pair) => match usable_api_key(pair.0) {
            Some(key) => Ok((key, pair.1)),
            None => Err(SummarizationErrorView::ApiKeyNotConfigured),
        },
    }
}

/// What loading the settings gave, as far as the clients read it: the API
/// key and the language, or the reason for the failure.
pub open spec fn loaded_view(loaded: Result<Settings, String>) -> Result<
    (Option<Seq<char>>, Seq<char>),
    Seq<char>,
> {
    match loaded {
        Ok(settings) => Ok((optional_text(settings.api_key), settings.language@)),
        Err(reason) => Err(reason@),
    }
}

/// Decides what a transcription is called with.
pub fn transcription_credentials(loaded: Result<Settings, String>) -> (r: Result<
    Credentials,
    TranscriptionError,
>)
    ensures
        match r {
            Ok(c) => transcription_credentials_of(loaded_view(loaded)) == Ok::<
                (Seq<char>, Seq<char>),
                TranscriptionErrorView,
            >((c.api_key@, c.language@)),
            Err(e) => transcription_credentials_of(loaded_view(loaded)) == Err::<
                (Seq<char>, Seq<char>),
                TranscriptionErrorView,
            >(e@),
        },
{
    match loaded {
        Err(reason) => Err(TranscriptionError::Unknown(reason)),
        Ok(settings) => match configured_api_key(&settings) {
            Some(api_key) => Ok(Credentials { api_key, language: settings.language }),
            None => Err(TranscriptionError::ApiKeyNotConfigured),
        },
    }
}

/// Decides what a summarization is called with.
pub fn summarization_credentials(loaded: Result<Settings, String>) -> (r: Result<
    Credentials,
    SummarizationError,
>)
    ensures
        match r {
            Ok(c) => summarization_credentials_of(loaded_view(loaded)) == Ok::<
                (Seq<char>, Seq<char>),
                SummarizationErrorView,
            >((c.api_key@, c.language@)),
            Err(e) => summarization_credentials_of(loaded_view(loaded)) == Err::<
                (Seq<char>, Seq<char>),
                SummarizationErrorView,
            >(e@),
        },
{
    match loaded {
        Err(reason) => Err(SummarizationError::ApiError(reason)),
        Ok(settings) => match configured_api_key(&settings) {
            Some(api_key) => Ok(Credentials { api_key, language: settings.language }),
            None => Err(SummarizationError::ApiKeyNotConfigured),
        },
    }
}

/// Every response to a failed transcription reports the failure, names the
/// kind of the error and carries a sentence for the user that is not empty;
/// every response to a success reports the success, carries the text and no
/// error.
pub proof fn lemma_transcription_response_is_consistent(
    outcome: Result<Seq<char>, TranscriptionErrorView>,
)
    ensures
        outcome is Ok ==> {
            &&& transcription_response(outcome).success
            &&& transcription_response(outcome).text == Some(outcome->Ok_0)
            &&& transcription_response(outcome).error_type is None
            &&& transcription_response(outcome).error_message is None
            &&& transcription_response(outcome).retryable is None
        },
        outcome is Err ==> {
            &&& !transcription_response(outcome).success
            &&& transcription_response(outcome).text is None
            &&& transcription_response(outcome).error_type is Some
            &&& transcription_response(outcome).error_type->0.len() > 0
            &&& transcription_response(outcome).error_message is Some
            &&& transcription_response(outcome).error_message->0.len() > 0
            &&& transcription_response(outcome).retryable == Some(outcome->Err_0.is_transient())
        },
{
    reveal_strlit("API key not configured. Please add your OpenAI API key in Settings.");
    reveal_strlit("Invalid API key. Please check your OpenAI API key in Settings.");
    reveal_strlit("Recording file not found: ");
    reveal_strlit("Failed to read recording file. Please try recording again.");
    reveal_strlit("Invalid audio format. Please try recording again.");
    reveal_strlit("Transcription failed - please try again. Check your internet connection.");
    reveal_strlit("Rate limit exceeded - please wait a moment and try again.");
    reveal_strlit("Transcription failed: ");
    reveal_strlit("An unexpected error occurred: ");
    reveal_strlit("api_key_not_configured");
    reveal_strlit("invalid_api_key");
    reveal_strlit("file_not_found");
    reveal_strlit("file_read_error");
    reveal_strlit("invalid_audio_format");
    reveal_strlit("network_error");
    reveal_strlit("rate_limit_exceeded");
    reveal_strlit("api_error");
    reveal_strlit("unknown");
}

/// Every response to a failed summarization reports the failure, names the
/// kind of the error and carries a sentence for the user that is not empty;
/// every response to a success reports the success, carries the summary and
/// no error.
pub proof fn lemma_summarization_response_is_consistent(
    outcome: Result<Seq<char>, SummarizationErrorView>,
)
    ensures
        outcome is Ok ==> {
            &&& summarization_response(outcome).success
            &&& summarization_response(outcome).summary == Some(outcome->Ok_0)
            &&& summarization_response(outcome).error_type is None
            &&& summarization_response(outcome).error_message is None
        },
        outcome is Err ==> {
            &&& !summarization_response(outcome).success
            &&& summarization_response(outcome).summary is None
            &&& summarization_response(outcome).error_type is Some
            &&& summarization_response(outcome).error_type->0.len() > 0
            &&& summarization_response(outcome).error_message is Some
            &&& summarization_response(outcome).error_message->0.len() > 0
        },
{
    reveal_strlit("API key not configured. Please add your OpenAI API key in Settings.");
    reveal_strlit("Invalid API key. Please check your OpenAI API key in Settings.");
    reveal_strlit("Summarization failed - please try again. Check your internet connection.");
    reveal_strlit("Rate limit exceeded - please wait a moment and try again.");
    reveal_strlit("Summarization failed: ");
    reveal_strlit("Cannot summarize empty text.");
    reveal_strlit("api_key_not_configured");
    reveal_strlit("invalid_api_key");
    reveal_strlit("network_error");
    reveal_strlit("rate_limit_exceeded");
    reveal_strlit("api_error");
    reveal_strlit("empty_text");
}

/// The kinds that transcription and summarization share carry the same tag
/// in both.
pub proof fn lemma_shared_kinds_share_tags(detail: Seq<char>)
    ensures
        TranscriptionErrorView::ApiKeyNotConfigured.error_type()
            == SummarizationErrorView::ApiKeyNotConfigured.error_type(),
        TranscriptionErrorView::InvalidApiKey.error_type()
            == SummarizationErrorView::InvalidApiKey.error_type(),
        TranscriptionErrorView::NetworkError(detail).error_type()
            == SummarizationErrorView::NetworkError(detail).error_type(),
        TranscriptionErrorView::RateLimitExceeded.error_type()
            == SummarizationErrorView::RateLimitExceeded.error_type(),
        TranscriptionErrorView::ApiError(detail).error_type() == SummarizationErrorView::ApiError(
            detail,
        ).error_type(),
        TranscriptionErrorView::NetworkError(detail).error_type()
            == crate::external_service::ExternalServiceErrorView::NetworkError(detail).error_type(),
{
}

} // verus!
