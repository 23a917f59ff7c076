//! The summarization client: its error kinds, the prompt and request body it
//! sends, and how it reads what comes back. One attempt is made, whatever
//! its outcome.

use vstd::prelude::*;
use vstd::string::StringExecFns;
use crate::json::{JsonValue, json_parse, json_string_text, parse, quote};
use crate::text::{is_blank, is_blank_text, join, same_text};
use crate::transport::{envelope_message, error_envelope_message, parsed_view};

verus! {

/// The endpoint that summaries are asked of.
pub open spec fn chat_api_url() -> Seq<char> {
    "https://api.openai.com/v1/chat/completions"@
}

/// The English name of the language with the ISO 639-1 code `code`; for a
/// code that is not in the table, words that ask for the language of the
/// transcription.
pub open spec fn language_name(code: Seq<char>) -> Seq<char> {
    if code == "de"@ {
        "German"@
    } else if code == "en"@ {
        "English"@
    } else if code == "es"@ {
        "Spanish"@
    } else if code == "fr"@ {
        "French"@
    } else if code == "it"@ {
        "Italian"@
    } else if code == "pt"@ {
        "Portuguese"@
    } else if code == "nl"@ {
        "Dutch"@
    } else if code == "pl"@ {
        "Polish"@
    } else if code == "ru"@ {
        "Russian"@
    } else if code == "ja"@ {
        "Japanese"@
    } else if code == "zh"@ {
        "Chinese"@
    } else if code == "ko"@ {
        "Korean"@
    } else {
        "the same language as the transcription"@
    }
}

/// The instruction given to the model for a transcription in `language`.
pub open spec fn prompt_text(language: Seq<char>) -> Seq<char> {
    "Summarize the following transcription into concise Markdown-formatted bullet points. Respond in "@
        + language_name(language) + "."@
}

/// The request body for summarizing `text` in `language`: the model, a system
/// message with the prompt and a user message with the text as it is.
pub open spec fn chat_body_text(text: Seq<char>, language: Seq<char>) -> Seq<char> {
    "{\"model\":\"gpt-4o-mini\",\"messages\":[{\"role\":\"system\",\"content\":"@
        + json_string_text(prompt_text(language)) + "},{\"role\":\"user\",\"content\":"@
        + json_string_text(text) + "}]}"@
}

/// Why a summarization failed.
#[derive(Debug, Clone)]
pub enum SummarizationError {
    ApiKeyNotConfigured,
    InvalidApiKey,
    NetworkError(String),
    RateLimitExceeded,
    ApiError(String),
    EmptyText,
}

/// The mathematical value of a `SummarizationError`.
pub enum SummarizationErrorView {
    ApiKeyNotConfigured,
    InvalidApiKey,
    NetworkError(Seq<char>),
    RateLimitExceeded,
    ApiError(Seq<char>),
    EmptyText,
}

impl View for SummarizationError {
    type V = SummarizationErrorView;

    open spec fn view(&self) -> SummarizationErrorView {
        match *self {
            SummarizationError::ApiKeyNotConfigured => SummarizationErrorView::ApiKeyNotConfigured,
            SummarizationError::InvalidApiKey => SummarizationErrorView::InvalidApiKey,
            SummarizationError::NetworkError(s) => SummarizationErrorView::NetworkError(s@),
            SummarizationError::RateLimitExceeded => SummarizationErrorView::RateLimitExceeded,
            SummarizationError::ApiError(s) => SummarizationErrorView::ApiError(s@),
            SummarizationError::EmptyText => SummarizationErrorView::EmptyText,
        }
    }
}

impl SummarizationErrorView {
    /// The sentence shown to the user.
    pub open spec fn user_message(self) -> Seq<char> {
        match self {
            SummarizationErrorView::ApiKeyNotConfigured => {
                "API key not configured. Please add your OpenAI API key in Settings."@
            },
            SummarizationErrorView::InvalidApiKey => {
                "Invalid API key. Please check your OpenAI API key in Settings."@
            },
            SummarizationErrorView::NetworkError(_) => {
                "Summarization failed - please try again. Check your internet connection."@
            },
            SummarizationErrorView::RateLimitExceeded => {
                "Rate limit exceeded - please wait a moment and try again."@
            },
            SummarizationErrorView::ApiError(msg) => "Summarization failed: "@ + msg,
            SummarizationErrorView::EmptyText => "Cannot summarize empty text."@,
        }
    }

    /// The short description of the error, with its detail.
    pub open spec fn description(self) -> Seq<char> {
        match self {
            SummarizationErrorView::ApiKeyNotConfigured => "API key not configured"@,
            SummarizationErrorView::InvalidApiKey => "Invalid API key"@,
            SummarizationErrorView::NetworkError(s) => "Network error: "@ + s,
            SummarizationErrorView::RateLimitExceeded => "Rate limit exceeded"@,
            SummarizationErrorView::ApiError(s) => "API error: "@ + s,
            SummarizationErrorView::EmptyText => "Empty transcription text"@,
        }
    }

    /// The tag by which the user interface tells the kinds apart.
    pub open spec fn error_type(self) -> Seq<char> {
        match self {
            SummarizationErrorView::ApiKeyNotConfigured => "api_key_not_configured"@,
            SummarizationErrorView::InvalidApiKey => "invalid_api_key"@,
            SummarizationErrorView::NetworkError(_) => "network_error"@,
            SummarizationErrorView::RateLimitExceeded => "rate_limit_exceeded"@,
            SummarizationErrorView::ApiError(_) => "api_error"@,
            SummarizationErrorView::EmptyText => "empty_text"@,
        }
    }
}

impl SummarizationError {
    /// The sentence to show to the user.
    pub fn user_message(&self) -> (r: String)
        ensures
            r@ == self@.user_message(),
    {
        match self {
            SummarizationError::ApiKeyNotConfigured => {
                "API key not configured. Please add your OpenAI API key in Settings.".to_owned()
            },
            SummarizationError::InvalidApiKey => {
                "Invalid API key. Please check your OpenAI API key in Settings.".to_owned()
            },
            SummarizationError::NetworkError(_) => {
                "Summarization failed - please try again. Check your internet connection.".to_owned()
            },
            SummarizationError::RateLimitExceeded => {
                "Rate limit exceeded - please wait a moment and try again.".to_owned()
            },
            SummarizationError::ApiError(msg) => join("Summarization failed: ", msg.as_str()),
            SummarizationError::EmptyText => "Cannot summarize empty text.".to_owned(),
        }
    }

    /// The short description of the error, with its detail.
    pub fn to_string(&self) -> (r: String)
        ensures
            r@ == self@.description(),
    {
        match self {
            SummarizationError::ApiKeyNotConfigured => "API key not configured".to_owned(),
            SummarizationError::InvalidApiKey => "Invalid API key".to_owned(),
            SummarizationError::NetworkError(s) => join("Network error: ", s.as_str()),
            SummarizationError::RateLimitExceeded => "Rate limit exceeded".to_owned(),
            SummarizationError::ApiError(s) => join("API error: ", s.as_str()),
            SummarizationError::EmptyText => "Empty transcription text".to_owned(),
        }
    }

    /// The tag by which the user interface tells the kinds apart.
    pub fn error_type(&self) -> (r: String)
        ensures
            r@ == self@.error_type(),
    {
        match self {
            SummarizationError::ApiKeyNotConfigured => "api_key_not_configured".to_owned(),
            SummarizationError::InvalidApiKey => "invalid_api_key".to_owned(),
            SummarizationError::NetworkError(_) => "network_error".to_owned(),
            SummarizationError::RateLimitExceeded => "rate_limit_exceeded".to_owned(),
            SummarizationError::ApiError(_) => "api_error".to_owned(),
            SummarizationError::EmptyText => "empty_text".to_owned(),
        }
    }
}

/// A finished summarization.
#[derive(Debug, Clone)]
pub struct SummarizationResult {
    /// The summary, in Markdown.
    pub summary: String,
}

impl View for SummarizationResult {
    type V = Seq<char>;

    open spec fn view(&self) -> Seq<char> {
        self.summary@
    }
}

/// The mathematical value of what a summarization ends with: the summary, or
/// the error.
pub open spec fn outcome_view(r: Result<SummarizationResult, SummarizationError>) -> Result<
    Seq<char>,
    SummarizationErrorView,
> {
    match r {
        Ok(s) => Ok(s@),
        Err(e) => Err(e@),
    }
}

/// What the transport gave back, strings taken by their characters.
pub open spec fn post_view(reply: Result<(u16, String), String>) -> Result<
    (u16, Seq<char>),
    Seq<char>,
> {
    match reply {
        Ok(pair) => Ok((pair.0, pair.1@)),
        Err(e) => Err(e@),
    }
}

/// The capability to POST a JSON body with an API key. An implementation
/// returns the status code and the body of the response that arrived, or a
/// description of why none did.
pub trait HttpClient {
    fn post_json(&self, url: &str, api_key: &str, body: &str) -> Result<(u16, String), String>;
}

/// Builds the instruction for the model: to summarize into Markdown bullet
/// points, in the language that `language` names.
pub fn get_summarization_prompt(language: &str) -> (r: String)
    ensures
        r@ == prompt_text(language@),
{
    let language_name = if same_text(language, "de") {
        "German"
    } else if same_text(language, "en") {
        "English"
    } else if same_text(language, "es") {
        "Spanish"
    } else if same_text(language, "fr") {
        "French"
    } else if same_text(language, "it") {
        "Italian"
    } else if same_text(language, "pt") {
        "Portuguese"
    } else if same_text(language, "nl") {
        "Dutch"
    } else if same_text(language, "pl") {
        "Polish"
    } else if same_text(language, "ru") {
        "Russian"
    } else if same_text(language, "ja") {
        "Japanese"
    } else if same_text(language, "zh") {
        "Chinese"
    } else if same_text(language, "ko") {
        "Korean"
    } else {
        "the same language as the transcription"
    };
    join(
        "Summarize the following transcription into concise Markdown-formatted bullet points. Respond in ",
        language_name,
    ).concat(".")
}

/// Builds the request body for summarizing `text` in `language`.
pub fn chat_request_body(text: &str, language: &str) -> (r: String)
    ensures
        r@ == chat_body_text(text@, language@),
{
    let prompt = get_summarization_prompt(language);
    let quoted_prompt = quote(prompt.as_str());
    let quoted_text = quote(text);
    join(
        "{\"model\":\"gpt-4o-mini\",\"messages\":[{\"role\":\"system\",\"content\":",
        quoted_prompt.as_str(),
    ).concat("},{\"role\":\"user\",\"content\":").concat(quoted_text.as_str()).concat("}]}")
}

/// What a summarization does first: nothing but fail, or post one request.
#[derive(Debug)]
pub enum SummaryPlan {
    Rejected(SummarizationError),
    Post { url: String, body: String },
}

/// The mathematical value of a `SummaryPlan`.
pub enum SummaryPlanView {
    Rejected(SummarizationErrorView),
    Post { url: Seq<char>, body: Seq<char> },
}

impl View for SummaryPlan {
    type V = SummaryPlanView;

    open spec fn view(&self) -> SummaryPlanView {
        match *self {
            SummaryPlan::Rejected(e) => SummaryPlanView::Rejected(e@),
            SummaryPlan::Post { url, body } => SummaryPlanView::Post { url: url@, body: body@ },
        }
    }
}

/// What a summarization of `text` in `language` does first. A text that is
/// empty once trimmed is rejected and nothing is sent; any other text is
/// posted to the chat endpoint, as it is, with the prompt for `language`.
pub open spec fn summary_plan(text: Seq<char>, language: Seq<char>) -> SummaryPlanView {
    if is_blank(text) {
        SummaryPlanView::Rejected(SummarizationErrorView::EmptyText)
    } else {
        SummaryPlanView::Post { url: chat_api_url(), body: chat_body_text(text, language) }
    }
}

/// Decides what a summarization does first.
pub fn plan_summary(text: &str, language: &str) -> (plan: SummaryPlan)
    ensures
        plan@ == summary_plan(text@, language@),
{
    if is_blank_text(text) {
        SummaryPlan::Rejected(SummarizationError::EmptyText)
    } else {
        SummaryPlan::Post {
            url: "https://api.openai.com/v1/chat/completions".to_owned(),
            body: chat_request_body(text, language),
        }
    }
}

/// The content of one choice: the text under `message.content`.
pub open spec fn choice_content(choice: JsonValue) -> Option<Seq<char>> {
    match choice.get("message"@) {
        Some(message) => match message.get("content"@) {
            Some(content) => content.text(),
            None => None,
        },
        None => None,
    }
}

/// What a success body holds: the content of its first choice, the empty
/// text where it lists no choice, or a description of why the body is no
/// list of choices with contents.
pub open spec fn summary_of(parsed: Result<JsonValue, Seq<char>>) -> Result<Seq<char>, Seq<char>> {
    match parsed {
        Err(e) => Err(e),
        Ok(doc) => if !(doc is Object) {
            Err("invalid type: expected a JSON object"@)
        } else {
            match doc.get("choices"@) {
                None => Err("missing field `choices`"@),
                Some(choices) => match choices.items() {
                    None => Err("invalid type: field `choices` is not an array"@),
                    Some(items) => if exists|i: int|
                        0 <= i < items.len() && choice_content(#[trigger] items[i]) is None {
                        Err("invalid type: a choice without `message.content`"@)
                    } else if items.len() == 0 {
                        Ok(Seq::<char>::empty())
                    } else {
                        Ok(choice_content(items[0])->0)
                    },
                },
            }
        },
    }
}

/// What a response with status 200 means, given its parsed body.
pub open spec fn success_outcome(parsed: Result<JsonValue, Seq<char>>) -> Result<
    Seq<char>,
    SummarizationErrorView,
> {
    match summary_of(parsed) {
        Ok(s) => Ok(s),
        Err(detail) => Err(
            SummarizationErrorView::ApiError("Failed to parse response: "@ + detail),
        ),
    }
}

/// The error for a response with a status other than 200, 401 and 429: the
/// message of its error envelope where the body is one, else the body as it
/// is.
pub open spec fn other_status_error(
    body: Seq<char>,
    parsed: Result<JsonValue, Seq<char>>,
) -> SummarizationErrorView {
    match envelope_message(parsed) {
        Some(m) => SummarizationErrorView::ApiError(m),
        None => SummarizationErrorView::ApiError(body),
    }
}

/// What the transport's answer means.
pub open spec fn reply_outcome(reply: Result<(u16, Seq<char>), Seq<char>>) -> Result<
    Seq<char>,
    SummarizationErrorView,
> {
    match reply {
        Err(detail) => Err(SummarizationErrorView::NetworkError(detail)),
        Ok(pair) => {
            let status = pair.0;
            let body = pair.1;
            if status == 200 {
                success_outcome(json_parse(body))
            } else if status == 401 {
                Err(SummarizationErrorView::InvalidApiKey)
            } else if status == 429 {
                Err(SummarizationErrorView::RateLimitExceeded)
            } else {
                Err(other_status_error(body, json_parse(body)))
            }
        },
    }
}

/// Reads the content of one choice.
fn content_of_choice(choice: &JsonValue) -> (r: Option<&String>)
    ensures
        match r {
            Some(s) => choice_content(*choice) == Some(s@),
            None => choice_content(*choice) is None,
        },
{
    match choice.field("message") {
        Some(message) => match message.field("content") {
            Some(content) => content.as_text(),
            None => None,
        },
        None => None,
    }
}

/// Reads the summary out of the parsed body of a response with status 200.
#[verifier::loop_isolation(false)]
pub fn summary_from_document(parsed: Result<JsonValue, String>) -> (r: Result<
    SummarizationResult,
    SummarizationError,
>)
    ensures
        outcome_view(r) == success_outcome(parsed_view(parsed)),
{
    match parsed {
        Err(e) => Err(SummarizationError::ApiError(join("Failed to parse response: ", e.as_str()))),
        Ok(doc) => {
            let is_object = match &doc {
                JsonValue::Object(_) => true,
                _ => false,
            };
            if !is_object {
                return Err(
                    SummarizationError::ApiError(
                        join("Failed to parse response: ", "invalid type: expected a JSON object"),
                    ),
                );
            }
            let choices = match doc.field("choices") {
                Some(c) => c,
                None => {
                    return Err(
                        SummarizationError::ApiError(
                            join("Failed to parse response: ", "missing field `choices`"),
                        ),
                    );
                },
            };
            let items = match choices.as_items() {
                Some(items) => items,
                None => {
                    return Err(
                        SummarizationError::ApiError(
                            join(
                                "Failed to parse response: ",
                                "invalid type: field `choices` is not an array",
                            ),
                        ),
                    );
                },
            };
            let mut i: usize = 0;
            while i < items.len()
                invariant
                    i <= items.len(),
                    forall|j: int| 0 <= j < i ==> choice_content(#[trigger] items@[j]) is Some,
                decreases items.len() - i,
            {
                if content_of_choice(&items[i]).is_none() {
                    assert(choice_content(items@[i as int]) is None);
                    return Err(
                        SummarizationError::ApiError(
                            join(
                                "Failed to parse response: ",
                                "invalid type: a choice without `message.content`",
                            ),
                        ),
                    );
                }
                i = i + 1;
            }
            if items.len() == 0 {
                Ok(SummarizationResult { summary: String::new() })
            } else {
                match content_of_choice(&items[0]) {
                    Some(s) => Ok(SummarizationResult { summary: s.clone() }),
                    None => Ok(SummarizationResult { summary: String::new() }),
                }
            }
        },
    }
}

/// Names the error of a response with a status other than 200, 401 and 429
/// from its body and what parsing the body gave.
pub fn api_error_from_body(body: String, parsed: Result<JsonValue, String>) -> (r:
    SummarizationError)
    ensures
        r@ == other_status_error(body@, parsed_view(parsed)),
{
    match error_envelope_message(&parsed) {
        Some(m) => SummarizationError::ApiError(m),
        None => SummarizationError::ApiError(body),
    }
}

/// Says what the transport's answer means: the summary, or the error.
pub fn classify_reply(reply: Result<(u16, String), String>) -> (r: Result<
    SummarizationResult,
    SummarizationError,
>)
    ensures
        outcome_view(r) == reply_outcome(post_view(reply)),
{
    match reply {
        Err(detail) => Err(SummarizationError::NetworkError(detail)),
        Ok(pair) => {
            let status = pair.0;
            let body = pair.1;
            if status == 200 {
                summary_from_document(parse(body.as_str()))
            } else if status == 401 {
                Err(SummarizationError::InvalidApiKey)
            } else if status == 429 {
                Err(SummarizationError::RateLimitExceeded)
            } else {
                let parsed = parse(body.as_str());
                Err(api_error_from_body(body, parsed))
            }
        },
    }
}

/// Summarizes `text` through `client`. A text that is empty once trimmed
/// fails with `EmptyText` and the client is not called. For any other text
/// the client is called once, with the chat endpoint, the key and the body
/// for `text` and `language`, and the result is what its answer means.
pub fn summarize_text_with_client<C: HttpClient>(
    text: &str,
    api_key: &str,
    language: &str,
    client: &C,
) -> (r: Result<SummarizationResult, SummarizationError>)
    ensures
        is_blank(text@) ==> outcome_view(r) == Err::<Seq<char>, SummarizationErrorView>(
            SummarizationErrorView::EmptyText,
        ),
        !is_blank(text@) ==> exists|reply: Result<(u16, Seq<char>), Seq<char>>|
            outcome_view(r) == #[trigger] reply_outcome(reply),
{
    match plan_summary(text, language) {
        SummaryPlan::Rejected(e) => Err(e),
        SummaryPlan::Post { url, body } => {
            let reply = client.post_json(url.as_str(), api_key, body.as_str());
            let ghost answer = post_view(reply);
            let r = classify_reply(reply);
            assert(outcome_view(r) == reply_outcome(answer));
            r
        },
    }
}

} // verus!
