//! The speech-to-text client: its error kinds, the request it sends, how it
//! reads what comes back, and when it tries again.
//!
//! The network call and the waiting between attempts are not made here. A
//! caller sends the request that `start_transcription` builds, hands each
//! reply to `classify_reply` and the outcome to `after_attempt`, and does
//! what the returned step says.

use vstd::prelude::*;
use vstd::arithmetic::power2::{pow2, lemma_pow2_unfold, lemma_pow2_pos};
use crate::json::{JsonValue, json_parse, parse};
use crate::text::join;
use crate::transport::{
    HttpReply, HttpReplyView, bearer, bearer_text, is_server_error_status, parsed_view,
    status_is_server_error,
};

verus! {

/// The most attempts that one transcription makes.
pub const MAX_RETRY_ATTEMPTS: u32 = 3;

/// The wait after the first failed attempt, in milliseconds; each later wait
/// is twice the one before.
pub const BASE_DELAY_MS: u64 = 1000;

/// The endpoint that transcriptions are posted to.
pub open spec fn whisper_api_url() -> Seq<char> {
    "https://api.openai.com/v1/audio/transcriptions"@
}

/// Why a transcription failed.
#[derive(Debug, Clone)]
pub enum TranscriptionError {
    ApiKeyNotConfigured,
    InvalidApiKey,
    FileNotFound(String),
    FileReadError(String),
    InvalidAudioFormat(String),
    NetworkError(String),
    RateLimitExceeded,
    ApiError(String),
    Unknown(String),
}

/// The mathematical value of a `TranscriptionError`.
pub enum TranscriptionErrorView {
    ApiKeyNotConfigured,
    InvalidApiKey,
    FileNotFound(Seq<char>),
    FileReadError(Seq<char>),
    InvalidAudioFormat(Seq<char>),
    NetworkError(Seq<char>),
    RateLimitExceeded,
    ApiError(Seq<char>),
    Unknown(Seq<char>),
}

impl View for TranscriptionError {
    type V = TranscriptionErrorView;

    open spec fn view(&self) -> TranscriptionErrorView {
        match *self {
            TranscriptionError::ApiKeyNotConfigured => TranscriptionErrorView::ApiKeyNotConfigured,
            TranscriptionError::InvalidApiKey => TranscriptionErrorView::InvalidApiKey,
            TranscriptionError::FileNotFound(s) => TranscriptionErrorView::FileNotFound(s@),
            TranscriptionError::FileReadError(s) => TranscriptionErrorView::FileReadError(s@),
            TranscriptionError::InvalidAudioFormat(s) => TranscriptionErrorView::InvalidAudioFormat(
                s@,
            ),
            TranscriptionError::NetworkError(s) => TranscriptionErrorView::NetworkError(s@),
            TranscriptionError::RateLimitExceeded => TranscriptionErrorView::RateLimitExceeded,
            TranscriptionError::ApiError(s) => TranscriptionErrorView::ApiError(s@),
            TranscriptionError::Unknown(s) => TranscriptionErrorView::Unknown(s@),
        }
    }
}

impl TranscriptionErrorView {
    /// Whether another attempt may succeed without anyone stepping in: true
    /// of network errors and of an exceeded rate limit, of nothing else.
    pub open spec fn is_transient(self) -> bool {
        self is NetworkError || self is RateLimitExceeded
    }

    /// The sentence shown to the user.
    pub open spec fn user_message(self) -> Seq<char> {
        match self {
            TranscriptionErrorView::ApiKeyNotConfigured => {
                "API key not configured. Please add your OpenAI API key in Settings."@
            },
            TranscriptionErrorView::InvalidApiKey => {
                "Invalid API key. Please check your OpenAI API key in Settings."@
            },
            TranscriptionErrorView::FileNotFound(path) => "Recording file not found: "@ + path,
            TranscriptionErrorView::FileReadError(_) => {
                "Failed to read recording file. Please try recording again."@
            },
            TranscriptionErrorView::InvalidAudioFormat(_) => {
                "Invalid audio format. Please try recording again."@
            },
            TranscriptionErrorView::NetworkError(_) => {
                "Transcription failed - please try again. Check your internet connection."@
            },
            TranscriptionErrorView::RateLimitExceeded => {
                "Rate limit exceeded - please wait a moment and try again."@
            },
            TranscriptionErrorView::ApiError(msg) => "Transcription failed: "@ + msg,
            TranscriptionErrorView::Unknown(msg) => "An unexpected error occurred: "@ + msg,
        }
    }

    /// The short description of the error, with its detail.
    pub open spec fn description(self) -> Seq<char> {
        match self {
            TranscriptionErrorView::ApiKeyNotConfigured => "API key not configured"@,
            TranscriptionErrorView::InvalidApiKey => "Invalid API key"@,
            TranscriptionErrorView::FileNotFound(s) => "Audio file not found: "@ + s,
            TranscriptionErrorView::FileReadError(s) => "Failed to read audio file: "@ + s,
            TranscriptionErrorView::InvalidAudioFormat(s) => "Invalid audio format: "@ + s,
            TranscriptionErrorView::NetworkError(s) => "Network error: "@ + s,
            TranscriptionErrorView::RateLimitExceeded => "Rate limit exceeded"@,
            TranscriptionErrorView::ApiError(s) => "API error: "@ + s,
            TranscriptionErrorView::Unknown(s) => "Unknown error: "@ + s,
        }
    }

    /// The tag by which the user interface tells the kinds apart.
    pub open spec fn error_type(self) -> Seq<char> {
        match self {
            TranscriptionErrorView::ApiKeyNotConfigured => "api_key_not_configured"@,
            TranscriptionErrorView::InvalidApiKey => "invalid_api_key"@,
            TranscriptionErrorView::FileNotFound(_) => "file_not_found"@,
            TranscriptionErrorView::FileReadError(_) => "file_read_error"@,
            TranscriptionErrorView::InvalidAudioFormat(_) => "invalid_audio_format"@,
            TranscriptionErrorView::NetworkError(_) => "network_error"@,
            TranscriptionErrorView::RateLimitExceeded => "rate_limit_exceeded"@,
            TranscriptionErrorView::ApiError(_) => "api_error"@,
            TranscriptionErrorView::Unknown(_) => "unknown"@,
        }
    }
}

impl TranscriptionError {
    /// Whether the error is transient, so that the call may be tried again.
    pub fn is_transient(&self) -> (r: bool)
        ensures
            r == self@.is_transient(),
    {
        match self {
            TranscriptionError::NetworkError(_) => true,
            TranscriptionError::RateLimitExceeded => true,
            _ => false,
        }
    }

    /// The sentence to show to the user.
    pub fn user_message(&self) -> (r: String)
        ensures
            r@ == self@.user_message(),
    {
        match self {
            TranscriptionError::ApiKeyNotConfigured => {
                "API key not configured. Please add your OpenAI API key in Settings.".to_owned()
            },
            TranscriptionError::InvalidApiKey => {
                "Invalid API key. Please check your OpenAI API key in Settings.".to_owned()
            },
            TranscriptionError::FileNotFound(path) => join(
                "Recording file not found: ",
                path.as_str(),
            ),
            TranscriptionError::FileReadError(_) => {
                "Failed to read recording file. Please try recording again.".to_owned()
            },
            TranscriptionError::InvalidAudioFormat(_) => {
                "Invalid audio format. Please try recording again.".to_owned()
            },
            TranscriptionError::NetworkError(_) => {
                "Transcription failed - please try again. Check your internet connection.".to_owned()
            },
            TranscriptionError::RateLimitExceeded => {
                "Rate limit exceeded - please wait a moment and try again.".to_owned()
            },
            TranscriptionError::ApiError(msg) => join("Transcription failed: ", msg.as_str()),
            TranscriptionError::Unknown(msg) => join(
                "An unexpected error occurred: ",
                msg.as_str(),
            ),
        }
    }

    /// The short description of the error, with its detail.
    pub fn to_string(&self) -> (r: String)
        ensures
            r@ == self@.description(),
    {
        match self {
            TranscriptionError::ApiKeyNotConfigured => "API key not configured".to_owned(),
            TranscriptionError::InvalidApiKey => "Invalid API key".to_owned(),
            TranscriptionError::FileNotFound(s) => join("Audio file not found: ", s.as_str()),
            TranscriptionError::FileReadError(s) => join("Failed to read audio file: ", s.as_str()),
            TranscriptionError::InvalidAudioFormat(s) => join(
                "Invalid audio format: ",
                s.as_str(),
            ),
            TranscriptionError::NetworkError(s) => join("Network error: ", s.as_str()),
            TranscriptionError::RateLimitExceeded => "Rate limit exceeded".to_owned(),
            TranscriptionError::ApiError(s) => join("API error: ", s.as_str()),
            TranscriptionError::Unknown(s) => join("Unknown error: ", s.as_str()),
        }
    }

    /// The tag by which the user interface tells the kinds apart.
    pub fn error_type(&self) -> (r: String)
        ensures
            r@ == self@.error_type(),
    {
        match self {
            TranscriptionError::ApiKeyNotConfigured => "api_key_not_configured".to_owned(),
            TranscriptionError::InvalidApiKey => "invalid_api_key".to_owned(),
            TranscriptionError::FileNotFound(_) => "file_not_found".to_owned(),
            TranscriptionError::FileReadError(_) => "file_read_error".to_owned(),
            TranscriptionError::InvalidAudioFormat(_) => "invalid_audio_format".to_owned(),
            TranscriptionError::NetworkError(_) => "network_error".to_owned(),
            TranscriptionError::RateLimitExceeded => "rate_limit_exceeded".to_owned(),
            TranscriptionError::ApiError(_) => "api_error".to_owned(),
            TranscriptionError::Unknown(_) => "unknown".to_owned(),
        }
    }
}

/// A finished transcription.
#[derive(Debug, Clone)]
pub struct TranscriptionResult {
    /// The transcribed text.
    pub text: String,
}

impl View for TranscriptionResult {
    type V = Seq<char>;

    open spec fn view(&self) -> Seq<char> {
        self.text@
    }
}

/// The mathematical value of what a transcription ends with: the text, or the
/// error.
pub open spec fn outcome_view(r: Result<TranscriptionResult, TranscriptionError>) -> Result<
    Seq<char>,
    TranscriptionErrorView,
> {
    match r {
        Ok(t) => Ok(t@),
        Err(e) => Err(e@),
    }
}

/// What was found at the path of the recording.
#[derive(Debug)]
pub enum AudioFile {
    /// No file is there.
    Missing,
    /// A file is there and could not be read; the reason.
    Unreadable(String),
    /// The file's bytes, and the last component of its path where it has one
    /// that is text.
    Loaded { data: Vec<u8>, file_name: Option<String> },
}

/// The multipart request of one transcription.
#[derive(Debug)]
pub struct WhisperRequest {
    pub url: String,
    /// The value of the `Authorization` header.
    pub authorization: String,
    /// The name given to the file part.
    pub file_name: String,
    /// The bytes of the file part.
    pub file_data: Vec<u8>,
    /// The content type of the file part.
    pub content_type: String,
    /// The `model` field.
    pub model: String,
    /// The `language` field.
    pub language: String,
}

/// The name under which a recording is sent: its own, or `recording.webm`.
pub open spec fn upload_name(file_name: Option<String>) -> Seq<char> {
    match file_name {
        Some(n) => n@,
        None => "recording.webm"@,
    }
}

impl WhisperRequest {
    /// Whether the request is the one that carries `data` under `file_name`
    /// for this key and language.
    pub open spec fn is_for(
        self,
        data: Seq<u8>,
        file_name: Option<String>,
        api_key: Seq<char>,
        language: Seq<char>,
    ) -> bool {
        &&& self.url@ == whisper_api_url()
        &&& self.authorization@ == bearer_text(api_key)
        &&& self.file_name@ == upload_name(file_name)
        &&& self.file_data@ == data
        &&& self.content_type@ == "audio/webm"@
        &&& self.model@ == "whisper-1"@
        &&& self.language@ == language
    }
}

/// How a transcription starts: with a request to send, or with the error that
/// ends it before anything is sent.
#[derive(Debug)]
pub enum TranscriptionStart {
    Rejected(TranscriptionError),
    Ready(WhisperRequest),
}

/// Decides how a transcription starts from what was found at `file_path`. A
/// missing file and an unreadable one end it at once; a loaded one gives the
/// request.
pub fn start_transcription(
    file_path: &str,
    file: AudioFile,
    api_key: &str,
    language: &str,
) -> (r: TranscriptionStart)
    ensures
        match file {
            AudioFile::Missing => r matches TranscriptionStart::Rejected(e) && e@
                == TranscriptionErrorView::FileNotFound(file_path@),
            AudioFile::Unreadable(detail) => r matches TranscriptionStart::Rejected(e) && e@
                == TranscriptionErrorView::FileReadError(detail@),
            AudioFile::Loaded { data, file_name } => r matches TranscriptionStart::Ready(request)
                && request.is_for(data@, file_name, api_key@, language@),
        },
{
    match file {
        AudioFile::Missing => TranscriptionStart::Rejected(
            TranscriptionError::FileNotFound(file_path.to_owned()),
        ),
        AudioFile::Unreadable(detail) => TranscriptionStart::Rejected(
            TranscriptionError::FileReadError(detail),
        ),
        AudioFile::Loaded { data, file_name } => {
            let name = match file_name {
                Some(n) => n,
                None => "recording.webm".to_owned(),
            };
            TranscriptionStart::Ready(
                WhisperRequest {
                    url: "https://api.openai.com/v1/audio/transcriptions".to_owned(),
                    authorization: bearer(api_key),
                    file_name: name,
                    file_data: data,
                    content_type: "audio/webm".to_owned(),
                    model: "whisper-1".to_owned(),
                    language: language.to_owned(),
                },
            )
        },
    }
}

/// What a success body holds: the text of its `text` member, or a
/// description of why the body is no transcription.
pub open spec fn transcript_of(parsed: Result<JsonValue, Seq<char>>) -> Result<
    Seq<char>,
    Seq<char>,
> {
    match parsed {
        Err(e) => Err(e),
        Ok(doc) => if !(doc is Object) {
            Err("invalid type: expected a JSON object"@)
        } else {
            match doc.get("text"@) {
                None => Err("missing field `text`"@),
                Some(v) => match v.text() {
                    Some(t) => Ok(t),
                    None => Err("invalid type: field `text` is not a string"@),
                },
            }
        },
    }
}

/// The error for a body that is no transcription.
pub open spec fn unparsed(detail: Seq<char>) -> TranscriptionErrorView {
    TranscriptionErrorView::ApiError("Failed to parse response: "@ + detail)
}

/// What a response with status 200 means, given its parsed body.
pub open spec fn success_outcome(parsed: Result<JsonValue, Seq<char>>) -> Result<
    Seq<char>,
    TranscriptionErrorView,
> {
    match transcript_of(parsed) {
        Ok(t) => Ok(t),
        Err(detail) => Err(unparsed(detail)),
    }
}

/// What a response with any status but 200, 401 and 429 means: a fault
/// of the server is a network error, anything else an API error, each with
/// the body as its detail.
pub open spec fn other_status_error(
    status: u16,
    body: Result<Seq<char>, Seq<char>>,
) -> TranscriptionErrorView {
    let detail = match body {
        Ok(t) => t,
        Err(_) => "Unknown error"@,
    };
    if is_server_error_status(status) {
        TranscriptionErrorView::NetworkError(detail)
    } else {
        TranscriptionErrorView::ApiError(detail)
    }
}

/// What a failure to get any response means: a network error where it was
/// one of connecting or of time, an unknown error otherwise.
pub open spec fn failure_error(connect: bool, timeout: bool, detail: Seq<char>) -> TranscriptionErrorView {
    if connect || timeout {
        TranscriptionErrorView::NetworkError(detail)
    } else {
        TranscriptionErrorView::Unknown(detail)
    }
}

/// What one reply means for the attempt that got it.
pub open spec fn reply_outcome(reply: HttpReplyView) -> Result<Seq<char>, TranscriptionErrorView> {
    match reply {
        HttpReplyView::Failure { connect, timeout, detail } => Err(
            failure_error(connect, timeout, detail),
        ),
        HttpReplyView::Response { status, body } => if status == 200 {
            match body {
                Ok(text) => success_outcome(json_parse(text)),
                Err(detail) => Err(unparsed(detail)),
            }
        } else if status == 401 {
            Err(TranscriptionErrorView::InvalidApiKey)
        } else if status == 429 {
            Err(TranscriptionErrorView::RateLimitExceeded)
        } else {
            Err(other_status_error(status, body))
        },
    }
}

/// Reads the transcription out of the parsed body of a response with status
/// 200.
pub fn transcript_from_document(parsed: Result<JsonValue, String>) -> (r: Result<
    TranscriptionResult,
    TranscriptionError,
>)
    ensures
        outcome_view(r) == success_outcome(parsed_view(parsed)),
{
    match parsed {
        Err(e) => Err(TranscriptionError::ApiError(join("Failed to parse response: ", e.as_str()))),
        Ok(doc) => {
            let is_object = match &doc {
                JsonValue::Object(_) => true,
                _ => false,
            };
            if !is_object {
                Err(
                    TranscriptionError::ApiError(
                        join("Failed to parse response: ", "invalid type: expected a JSON object"),
                    ),
                )
            } else {
                match doc.field("text") {
                    None => Err(
                        TranscriptionError::ApiError(
                            join("Failed to parse response: ", "missing field `text`"),
                        ),
                    ),
                    Some(v) => match v.as_text() {
                        Some(t) => Ok(TranscriptionResult { text: t.clone() }),
                        None => Err(
                            TranscriptionError::ApiError(
                                join(
                                    "Failed to parse response: ",
                                    "invalid type: field `text` is not a string",
                                ),
                            ),
                        ),
                    },
                }
            }
        },
    }
}

/// Says what one reply means for the attempt that got it: the transcription,
/// or the error and with it whether another attempt is worth making.
pub fn classify_reply(reply: HttpReply) -> (r: Result<TranscriptionResult, TranscriptionError>)
    ensures
        outcome_view(r) == reply_outcome(reply@),
{
    match reply {
        HttpReply::Failure { connect, timeout, detail } => {
            if connect || timeout {
                Err(TranscriptionError::NetworkError(detail))
            } else {
                Err(TranscriptionError::Unknown(detail))
            }
        },
        HttpReply::Response { status, body } => {
            if status == 200 {
                match body {
                    Ok(text) => transcript_from_document(parse(text.as_str())),
                    Err(detail) => Err(
                        TranscriptionError::ApiError(
                            join("Failed to parse response: ", detail.as_str()),
                        ),
                    ),
                }
            } else if status == 401 {
                Err(TranscriptionError::InvalidApiKey)
            } else if status == 429 {
                Err(TranscriptionError::RateLimitExceeded)
            } else {
                let detail = match body {
                    Ok(t) => t,
                    Err(_) => "Unknown error".to_owned(),
                };
                if status_is_server_error(status) {
                    Err(TranscriptionError::NetworkError(detail))
                } else {
                    Err(TranscriptionError::ApiError(detail))
                }
            }
        },
    }
}

/// A response with any status but 200, 401 and 429 that is no fault of the
/// server is an API error that carries the body as it is, and is not tried
/// again; a fault of the server carries the body too, as a network error.
pub proof fn lemma_other_statuses_carry_the_body(status: u16, body: Seq<char>)
    requires
        status != 200,
        status != 401,
        status != 429,
    ensures
        !is_server_error_status(status) ==> reply_outcome(
            HttpReplyView::Response { status, body: Ok(body) },
        ) == Err::<Seq<char>, TranscriptionErrorView>(TranscriptionErrorView::ApiError(body)),
        is_server_error_status(status) ==> reply_outcome(
            HttpReplyView::Response { status, body: Ok(body) },
        ) == Err::<Seq<char>, TranscriptionErrorView>(TranscriptionErrorView::NetworkError(body)),
        !TranscriptionErrorView::ApiError(body).is_transient(),
        TranscriptionErrorView::NetworkError(body).is_transient(),
{
}

/// The wait after the failed attempt `attempt` (counted from zero), in
/// milliseconds: the base delay doubled once for each attempt before it.
pub open spec fn backoff_delay(attempt: nat) -> nat {
    BASE_DELAY_MS as nat * pow2(attempt)
}

/// Computes the wait after the failed attempt `attempt`.
pub fn backoff_delay_ms(attempt: u32) -> (d: u64)
    requires
        backoff_delay(attempt as nat) <= u64::MAX,
    ensures
        d == backoff_delay(attempt as nat),
{
    let mut d: u64 = BASE_DELAY_MS;
    let mut i: u32 = 0;
    proof {
        assert(pow2(0) == 1) by {
            lemma_pow2_unfold(1);
            vstd::arithmetic::power2::lemma2_to64();
        }
    }
    while i < attempt
        invariant
            i <= attempt,
            d == backoff_delay(i as nat),
            backoff_delay(attempt as nat) <= u64::MAX,
        decreases attempt - i,
    {
        proof {
            lemma_backoff_grows((i + 1) as nat, attempt as nat);
            lemma_pow2_unfold((i + 1) as nat);
        }
        d = d * 2;
        i = i + 1;
    }
    d
}

/// A later attempt never waits less than an earlier one.
pub proof fn lemma_backoff_grows(earlier: nat, later: nat)
    requires
        earlier <= later,
    ensures
        backoff_delay(earlier) <= backoff_delay(later),
    decreases later - earlier,
{
    if earlier < later {
        lemma_backoff_grows(earlier, (later - 1) as nat);
        lemma_pow2_unfold(later);
        lemma_pow2_pos((later - 1) as nat);
    }
}

/// What to do once an attempt is over.
#[derive(Debug)]
pub enum RetryStep {
    /// The transcription is over, with this result.
    Finish(Result<TranscriptionResult, TranscriptionError>),
    /// Wait `delay_ms` milliseconds, then make the attempt numbered `attempt`.
    RetryAfter { delay_ms: u64, attempt: u32 },
}

/// The mathematical value of a `RetryStep`.
pub enum RetryStepView {
    Finish(Result<Seq<char>, TranscriptionErrorView>),
    RetryAfter { delay_ms: nat, attempt: nat },
}

impl View for RetryStep {
    type V = RetryStepView;

    open spec fn view(&self) -> RetryStepView {
        match *self {
            RetryStep::Finish(r) => RetryStepView::Finish(outcome_view(r)),
            RetryStep::RetryAfter { delay_ms, attempt } => RetryStepView::RetryAfter {
                delay_ms: delay_ms as nat,
                attempt: attempt as nat,
            },
        }
    }
}

/// The step that follows the attempt numbered `attempt` (from zero) with the
/// given outcome. A success ends the call, and so does an error that is not
/// transient or that comes from the last attempt allowed; after any other
/// error the next attempt follows once the backoff delay has passed.
pub open spec fn retry_step(
    attempt: nat,
    outcome: Result<Seq<char>, TranscriptionErrorView>,
) -> RetryStepView {
    match outcome {
        Ok(_) => RetryStepView::Finish(outcome),
        Err(e) => if e.is_transient() && attempt + 1 < MAX_RETRY_ATTEMPTS {
            RetryStepView::RetryAfter { delay_ms: backoff_delay(attempt), attempt: attempt + 1 }
        } else {
            RetryStepView::Finish(outcome)
        },
    }
}

/// Decides what follows the attempt numbered `attempt` (from zero).
pub fn after_attempt(
    attempt: u32,
    outcome: Result<TranscriptionResult, TranscriptionError>,
) -> (step: RetryStep)
    ensures
        step@ == retry_step(attempt as nat, outcome_view(outcome)),
{
    match outcome {
        Ok(t) => RetryStep::Finish(Ok(t)),
        Err(e) => {
            if e.is_transient() && attempt < MAX_RETRY_ATTEMPTS - 1 {
                proof {
                    lemma_small_delays(attempt as nat);
                }
                RetryStep::RetryAfter { delay_ms: backoff_delay_ms(attempt), attempt: attempt + 1 }
            } else {
                RetryStep::Finish(Err(e))
            }
        },
    }
}

/// The waits that can occur: one second after the first attempt, two after
/// the second.
pub proof fn lemma_small_delays(attempt: nat)
    requires
        attempt + 1 < MAX_RETRY_ATTEMPTS,
    ensures
        attempt == 0 ==> backoff_delay(attempt) == 1000,
        attempt == 1 ==> backoff_delay(attempt) == 2000,
        backoff_delay(attempt) <= 2000,
{
    vstd::arithmetic::power2::lemma2_to64();
}

/// The course of one transcription: how many attempts were made, the waits
/// between them, and what it ended with.
pub struct RetryRun {
    pub attempts: nat,
    pub delays: Seq<nat>,
    pub result: Result<Seq<char>, TranscriptionErrorView>,
}

impl RetryRun {
    /// The time spent waiting between attempts, in milliseconds.
    pub open spec fn waited_ms(self) -> nat {
        self.delays.fold_left(0nat, |sum: nat, delay: nat| sum + delay)
    }
}

/// The course of a transcription from the attempt numbered `attempt` on,
/// where `script(i)` is the outcome of the attempt numbered `i`. Each step is
/// the one that `retry_step` names.
pub open spec fn run_from(
    script: spec_fn(nat) -> Result<Seq<char>, TranscriptionErrorView>,
    attempt: nat,
) -> RetryRun
    decreases MAX_RETRY_ATTEMPTS - attempt,
{
    match retry_step(attempt, script(attempt)) {
        RetryStepView::Finish(result) => RetryRun { attempts: attempt + 1, delays: seq![], result },
        RetryStepView::RetryAfter { delay_ms, attempt: next } => {
            if attempt + 1 < MAX_RETRY_ATTEMPTS {
                let rest = run_from(script, attempt + 1);
                RetryRun {
                    attempts: rest.attempts,
                    delays: seq![delay_ms] + rest.delays,
                    result: rest.result,
                }
            } else {
                RetryRun { attempts: attempt + 1, delays: seq![], result: script(attempt) }
            }
        },
    }
}

/// The course of a whole transcription, from its first attempt.
pub open spec fn run(script: spec_fn(nat) -> Result<Seq<char>, TranscriptionErrorView>) -> RetryRun {
    run_from(script, 0)
}

/// Against a transport that fails transiently every time, a transcription
/// makes exactly three attempts, waits the base delay after the first and
/// twice the base delay after the second, does not wait after the third, and
/// ends with the third error.
pub proof fn lemma_transient_failures_exhaust_attempts(
    script: spec_fn(nat) -> Result<Seq<char>, TranscriptionErrorView>,
)
    requires
        forall|i: nat|
            i < MAX_RETRY_ATTEMPTS ==> (#[trigger] script(i)) is Err && script(i)->Err_0.is_transient(),
    ensures
        run(script).attempts == 3,
        run(script).delays == seq![backoff_delay(0), backoff_delay(1)],
        run(script).delays == seq![1000nat, 2000nat],
        run(script).waited_ms() == BASE_DELAY_MS * pow2(0) + BASE_DELAY_MS * pow2(1),
        run(script).waited_ms() == 3000,
        run(script).result == script(2),
{
    vstd::arithmetic::power2::lemma2_to64();
    assert(script(0) is Err && script(0)->Err_0.is_transient());
    assert(script(1) is Err && script(1)->Err_0.is_transient());
    assert(script(2) is Err && script(2)->Err_0.is_transient());
    let last = run_from(script, 2);
    assert(last.attempts == 3 && last.delays == Seq::<nat>::empty() && last.result == script(2));
    let middle = run_from(script, 1);
    assert(middle.delays =~= seq![2000nat]);
    let whole = run_from(script, 0);
    assert(whole.delays =~= seq![1000nat, 2000nat]);
    let add = |sum: nat, delay: nat| sum + delay;
    assert(seq![1000nat, 2000nat].fold_left(0nat, add) == 3000) by {
        let s = seq![1000nat, 2000nat];
        assert(s.drop_last() =~= seq![1000nat]);
        assert(seq![1000nat].drop_last() =~= Seq::<nat>::empty());
        reveal_with_fuel(Seq::fold_left, 3);
    }
}

/// An error that is not transient ends the transcription with the attempt
/// that met it: after such an error on the first attempt there is no second
/// attempt and no wait.
pub proof fn lemma_permanent_error_ends_at_once(
    script: spec_fn(nat) -> Result<Seq<char>, TranscriptionErrorView>,
)
    requires
        script(0) is Err,
        !script(0)->Err_0.is_transient(),
    ensures
        run(script).attempts == 1,
        run(script).delays == Seq::<nat>::empty(),
        run(script).waited_ms() == 0,
        run(script).result == script(0),
{
}

/// A response with status 401 is an invalid API key whatever its body, and
/// ends the transcription with the attempt that got it.
pub proof fn lemma_unauthorized_is_not_retried(
    script: spec_fn(nat) -> Result<Seq<char>, TranscriptionErrorView>,
    body: Result<Seq<char>, Seq<char>>,
)
    requires
        script(0) == reply_outcome(HttpReplyView::Response { status: 401, body }),
    ensures
        run(script).attempts == 1,
        run(script).delays == Seq::<nat>::empty(),
        run(script).result == Err::<Seq<char>, TranscriptionErrorView>(
            TranscriptionErrorView::InvalidApiKey,
        ),
{
}

/// Whatever the transport does, a transcription makes at least one attempt
/// and at most three, waits once between any two attempts, and ends with the
/// outcome of its last attempt; every attempt before the last met a
/// transient error.
pub proof fn lemma_run_shape(script: spec_fn(nat) -> Result<Seq<char>, TranscriptionErrorView>)
    ensures
        1 <= run(script).attempts <= MAX_RETRY_ATTEMPTS,
        run(script).delays.len() + 1 == run(script).attempts,
        run(script).result == script((run(script).attempts - 1) as nat),
        forall|i: nat|
            i + 1 < run(script).attempts ==> (#[trigger] script(i)) is Err
                && script(i)->Err_0.is_transient(),
        forall|i: int|
            0 <= i < run(script).delays.len() ==> #[trigger] run(script).delays[i]
                == backoff_delay(i as nat),
{
    let r2 = run_from(script, 2);
    assert(r2.attempts == 3 && r2.delays.len() == 0);
    let r1 = run_from(script, 1);
    let r0 = run_from(script, 0);
    assert(r1.attempts == 2 || r1.attempts == 3);
    assert(r0.attempts == 1 || r0.attempts == 2 || r0.attempts == 3);
}

} // verus!
