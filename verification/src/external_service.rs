//! The webhook relay: posts a transcription to an endpoint that the user has
//! configured and reports how that went.

use vstd::prelude::*;
use vstd::string::StringExecFns;
use crate::json::{json_string_text, quote};
use crate::text::{
    decimal, decimal_text, join, starts_with_ignore_ascii_case, starts_with_ignoring_ascii_case,
};
use crate::transport::{
    HttpReply, HttpReplyView, is_success_status, status_is_success,
};

verus! {

/// Why a relay failed.
#[derive(Debug, Clone)]
pub enum ExternalServiceError {
    InvalidUrl(String),
    NetworkError(String),
    ServiceError(String),
}

/// The mathematical value of an `ExternalServiceError`.
pub enum ExternalServiceErrorView {
    InvalidUrl(Seq<char>),
    NetworkError(Seq<char>),
    ServiceError(Seq<char>),
}

impl View for ExternalServiceError {
    type V = ExternalServiceErrorView;

    open spec fn view(&self) -> ExternalServiceErrorView {
        match *self {
            ExternalServiceError::InvalidUrl(s) => ExternalServiceErrorView::InvalidUrl(s@),
            ExternalServiceError::NetworkError(s) => ExternalServiceErrorView::NetworkError(s@),
            ExternalServiceError::ServiceError(s) => ExternalServiceErrorView::ServiceError(s@),
        }
    }
}

impl ExternalServiceErrorView {
    /// The sentence shown to the user.
    pub open spec fn user_message(self) -> Seq<char> {
        match self {
            ExternalServiceErrorView::InvalidUrl(url) => "Invalid URL '"@ + url
                + "'. URL must start with http:// or https://"@,
            ExternalServiceErrorView::NetworkError(_) => {
                "Failed to connect to external service. Please check your internet connection."@
            },
            ExternalServiceErrorView::ServiceError(msg) => "External service returned an error: "@
                + msg,
        }
    }

    /// The short description of the error, with its detail.
    pub open spec fn description(self) -> Seq<char> {
        match self {
            ExternalServiceErrorView::InvalidUrl(s) => "Invalid URL: "@ + s,
            ExternalServiceErrorView::NetworkError(s) => "Network error: "@ + s,
            ExternalServiceErrorView::ServiceError(s) => "Service error: "@ + s,
        }
    }

    /// The tag by which the user interface tells the kinds apart.
    pub open spec fn error_type(self) -> Seq<char> {
        match self {
            ExternalServiceErrorView::InvalidUrl(_) => "invalid_url"@,
            ExternalServiceErrorView::NetworkError(_) => "network_error"@,
            ExternalServiceErrorView::ServiceError(_) => "service_error"@,
        }
    }
}

impl ExternalServiceError {
    /// The sentence to show to the user.
    pub fn user_message(&self) -> (r: String)
        ensures
            r@ == self@.user_message(),
    {
        match self {
            ExternalServiceError::InvalidUrl(url) => join("Invalid URL '", url.as_str()).concat(
                "'. URL must start with http:// or https://",
            ),
            ExternalServiceError::NetworkError(_) => {
                "Failed to connect to external service. Please check your internet connection.".to_owned()
            },
            ExternalServiceError::ServiceError(msg) => join(
                "External service returned an error: ",
                msg.as_str(),
            ),
        }
    }

    /// The short description of the error, with its detail.
    pub fn to_string(&self) -> (r: String)
        ensures
            r@ == self@.description(),
    {
        match self {
            ExternalServiceError::InvalidUrl(s) => join("Invalid URL: ", s.as_str()),
            ExternalServiceError::NetworkError(s) => join("Network error: ", s.as_str()),
            ExternalServiceError::ServiceError(s) => join("Service error: ", s.as_str()),
        }
    }

    /// The tag by which the user interface tells the kinds apart.
    pub fn error_type(&self) -> (r: String)
        ensures
            r@ == self@.error_type(),
    {
        match self {
            ExternalServiceError::InvalidUrl(_) => "invalid_url".to_owned(),
            ExternalServiceError::NetworkError(_) => "network_error".to_owned(),
            ExternalServiceError::ServiceError(_) => "service_error".to_owned(),
        }
    }
}

/// What a relay reports to the user interface.
#[derive(Debug, Clone)]
pub struct ExternalServiceResponse {
    /// Whether the call succeeded.
    pub success: bool,
    /// The body of the response, or the sentence that describes the error.
    pub message: Option<String>,
    /// The tag of the error, if the call failed.
    pub error_type: Option<String>,
}

/// The mathematical value of an `ExternalServiceResponse`.
pub struct ExternalServiceResponseView {
    pub success: bool,
    pub message: Option<Seq<char>>,
    pub error_type: Option<Seq<char>>,
}

/// An optional string, taken by its characters.
pub open spec fn optional_text(s: Option<String>) -> Option<Seq<char>> {
    match s {
        Some(t) => Some(t@),
        None => None,
    }
}

impl View for ExternalServiceResponse {
    type V = ExternalServiceResponseView;

    open spec fn view(&self) -> ExternalServiceResponseView {
        ExternalServiceResponseView {
            success: self.success,
            message: optional_text(self.message),
            error_type: optional_text(self.error_type),
        }
    }
}

/// The response that reports a success with `message`.
pub open spec fn success_response(message: Option<Seq<char>>) -> ExternalServiceResponseView {
    ExternalServiceResponseView { success: true, message, error_type: None }
}

/// The response that reports `err`: its tag, and its sentence as the message.
pub open spec fn error_response(err: ExternalServiceErrorView) -> ExternalServiceResponseView {
    ExternalServiceResponseView {
        success: false,
        message: Some(err.user_message()),
        error_type: Some(err.error_type()),
    }
}

/// The response for what a POST ended with.
pub open spec fn relay_response(
    outcome: Result<Seq<char>, ExternalServiceErrorView>,
) -> ExternalServiceResponseView {
    match outcome {
        Ok(body) => success_response(Some(body)),
        Err(e) => error_response(e),
    }
}

impl ExternalServiceResponse {
    /// Reports a success, with the message given.
    pub fn success(message: Option<String>) -> (r: Self)
        ensures
            r@ == success_response(optional_text(message)),
    {
        ExternalServiceResponse { success: true, message, error_type: None }
    }

    /// Reports an error: its tag, and its sentence as the message.
    pub fn error(err: ExternalServiceError) -> (r: Self)
        ensures
            r@ == error_response(err@),
    {
        let error_type = err.error_type();
        ExternalServiceResponse {
            success: false,
            message: Some(err.user_message()),
            error_type: Some(error_type),
        }
    }
}

/// Whether `url` starts with `http://` or `https://`, letters compared
/// without regard to case.
pub open spec fn has_http_scheme(url: Seq<char>) -> bool {
    starts_with_ignoring_ascii_case(url, "http://"@) || starts_with_ignoring_ascii_case(
        url,
        "https://"@,
    )
}

/// What validating a URL ends with, the error taken by its view.
pub open spec fn validation_view(r: Result<(), ExternalServiceError>) -> Result<
    (),
    ExternalServiceErrorView,
> {
    match r {
        Ok(u) => Ok(u),
        Err(e) => Err(e@),
    }
}

/// Accepts a URL that starts with `http://` or `https://`, in any mix of
/// capital and small letters, and rejects every other as `InvalidUrl`.
pub fn validate_url(url: &str) -> (r: Result<(), ExternalServiceError>)
    ensures
        has_http_scheme(url@) ==> r is Ok,
        !has_http_scheme(url@) ==> validation_view(r) == Err::<(), ExternalServiceErrorView>(
            ExternalServiceErrorView::InvalidUrl(url@),
        ),
{
    if starts_with_ignore_ascii_case(url, "http://") || starts_with_ignore_ascii_case(
        url,
        "https://",
    ) {
        Ok(())
    } else {
        Err(ExternalServiceError::InvalidUrl(url.to_owned()))
    }
}

/// The capability to POST a JSON body to a URL. An implementation returns
/// the body of a response that reports success, and the error otherwise.
pub trait HttpClient {
    fn post_json(&self, url: &str, body: &str) -> Result<String, ExternalServiceError>;
}

/// The request body that carries `text`: a JSON object with the one member
/// `text`.
pub open spec fn relay_body_text(text: Seq<char>) -> Seq<char> {
    "{\"text\":"@ + json_string_text(text) + "}"@
}

/// Builds the request body that carries `text`.
pub fn relay_request_body(text: &str) -> (r: String)
    ensures
        r@ == relay_body_text(text@),
{
    let quoted = quote(text);
    join("{\"text\":", quoted.as_str()).concat("}")
}

/// What one reply means for a relay. A response that reports success gives
/// its body, or `OK` where the body could not be read. Any other response is
/// a service error with the body as its detail, or with `HTTP` and the
/// status where the body could not be read. No response at all is a network
/// error, whatever kept it from arriving.
pub open spec fn reply_outcome(reply: HttpReplyView) -> Result<Seq<char>, ExternalServiceErrorView> {
    match reply {
        HttpReplyView::Failure { connect, timeout, detail } => Err(
            ExternalServiceErrorView::NetworkError(detail),
        ),
        HttpReplyView::Response { status, body } => if is_success_status(status) {
            match body {
                Ok(text) => Ok(text),
                Err(_) => Ok("OK"@),
            }
        } else {
            match body {
                Ok(text) => Err(ExternalServiceErrorView::ServiceError(text)),
                Err(_) => Err(
                    ExternalServiceErrorView::ServiceError("HTTP "@ + decimal(status as nat)),
                ),
            }
        },
    }
}

/// What a POST ended with, strings taken by their characters.
pub open spec fn outcome_view(r: Result<String, ExternalServiceError>) -> Result<
    Seq<char>,
    ExternalServiceErrorView,
> {
    match r {
        Ok(body) => Ok(body@),
        Err(e) => Err(e@),
    }
}

/// Says what one reply means for a relay: the body to report, or the error.
pub fn classify_reply(reply: HttpReply) -> (r: Result<String, ExternalServiceError>)
    ensures
        outcome_view(r) == reply_outcome(reply@),
{
    match reply {
        HttpReply::Failure { connect, timeout, detail } => Err(
            ExternalServiceError::NetworkError(detail),
        ),
        HttpReply::Response { status, body } => {
            if status_is_success(status) {
                match body {
                    Ok(text) => Ok(text),
                    Err(_) => Ok("OK".to_owned()),
                }
            } else {
                match body {
                    Ok(text) => Err(ExternalServiceError::ServiceError(text)),
                    Err(_) => {
                        let status_text = decimal_text(status);
                        Err(ExternalServiceError::ServiceError(join("HTTP ", status_text.as_str())))
                    },
                }
            }
        },
    }
}

/// What a relay does first: nothing but report an error, or post one
/// request.
#[derive(Debug)]
pub enum RelayPlan {
    Rejected(ExternalServiceError),
    Post { url: String, body: String },
}

/// The mathematical value of a `RelayPlan`.
pub enum RelayPlanView {
    Rejected(ExternalServiceErrorView),
    Post { url: Seq<char>, body: Seq<char> },
}

impl View for RelayPlan {
    type V = RelayPlanView;

    open spec fn view(&self) -> RelayPlanView {
        match *self {
            RelayPlan::Rejected(e) => RelayPlanView::Rejected(e@),
            RelayPlan::Post { url, body } => RelayPlanView::Post { url: url@, body: body@ },
        }
    }
}

/// What relaying `text` to `url` does first. A URL without an HTTP scheme is
/// rejected as `InvalidUrl` and nothing is sent; to any other URL the body
/// that carries `text` is posted.
pub open spec fn relay_plan(url: Seq<char>, text: Seq<char>) -> RelayPlanView {
    if has_http_scheme(url) {
        RelayPlanView::Post { url, body: relay_body_text(text) }
    } else {
        RelayPlanView::Rejected(ExternalServiceErrorView::InvalidUrl(url))
    }
}

/// Decides what a relay does first.
pub fn plan_relay(url: &str, text: &str) -> (plan: RelayPlan)
    ensures
        plan@ == relay_plan(url@, text@),
{
    match validate_url(url) {
        Err(e) => RelayPlan::Rejected(e),
        Ok(_) => RelayPlan::Post { url: url.to_owned(), body: relay_request_body(text) },
    }
}

/// Builds the response for what a POST ended with.
pub fn respond(outcome: Result<String, ExternalServiceError>) -> (r: ExternalServiceResponse)
    ensures
        r@ == relay_response(outcome_view(outcome)),
{
    match outcome {
        Ok(body) => ExternalServiceResponse::success(Some(body)),
        Err(e) => ExternalServiceResponse::error(e),
    }
}

/// Relays `text` to `url` through `client`. A URL without an HTTP scheme is
/// reported as `invalid_url` and the client is not called. For any other URL
/// the client is called once, with the URL and the body that carries `text`,
/// and the response is the one for what the call ended with.
pub fn call_external_service_impl<C: HttpClient>(client: &C, url: &str, text: &str) -> (r:
    ExternalServiceResponse)
    ensures
        !has_http_scheme(url@) ==> r@ == error_response(ExternalServiceErrorView::InvalidUrl(url@)),
        has_http_scheme(url@) ==> exists|outcome: Result<Seq<char>, ExternalServiceErrorView>|
            r@ == #[trigger] relay_response(outcome),
{
    match plan_relay(url, text) {
        RelayPlan::Rejected(e) => ExternalServiceResponse::error(e),
        RelayPlan::Post { url: target, body } => {
            let outcome = client.post_json(target.as_str(), body.as_str());
            let ghost ended = outcome_view(outcome);
            let r = respond(outcome);
            assert(r@ == relay_response(ended));
            r
        },
    }
}

/// Every response to a failed relay reports the failure, names the kind of
/// the error and carries a sentence for the user that is not empty; every
/// response to a success reports the success and names no error.
pub proof fn lemma_relay_response_is_consistent(
    outcome: Result<Seq<char>, ExternalServiceErrorView>,
)
    ensures
        outcome is Ok ==> {
            &&& relay_response(outcome).success
            &&& relay_response(outcome).message == Some(outcome->Ok_0)
            &&& relay_response(outcome).error_type is None
        },
        outcome is Err ==> {
            &&& !relay_response(outcome).success
            &&& relay_response(outcome).error_type is Some
            &&& relay_response(outcome).error_type->0.len() > 0
            &&& relay_response(outcome).message is Some
            &&& relay_response(outcome).message->0.len() > 0
        },
{
    reveal_strlit("Invalid URL '");
    reveal_strlit("Failed to connect to external service. Please check your internet connection.");
    reveal_strlit("External service returned an error: ");
    reveal_strlit("invalid_url");
    reveal_strlit("network_error");
    reveal_strlit("service_error");
}

/// A URL without an HTTP scheme is never posted to: the relay is planned as
/// rejected, and its report names an invalid URL and says what a URL must
/// start with.
pub proof fn lemma_invalid_url_is_rejected(url: Seq<char>, text: Seq<char>)
    requires
        !has_http_scheme(url),
    ensures
        relay_plan(url, text) == RelayPlanView::Rejected(ExternalServiceErrorView::InvalidUrl(url)),
        error_response(ExternalServiceErrorView::InvalidUrl(url)).error_type == Some(
            "invalid_url"@,
        ),
        error_response(ExternalServiceErrorView::InvalidUrl(url)).message == Some(
            "Invalid URL '"@ + url + "'. URL must start with http:// or https://"@,
        ),
{
}

/// What kept a response from arriving does not matter to a relay: every
/// failure of the transport is a network error with the description of the
/// failure, whether it was one of connecting, of time or of anything else.
pub proof fn lemma_transport_failure_is_network_error(
    connect: bool,
    timeout: bool,
    detail: Seq<char>,
)
    ensures
        reply_outcome(HttpReplyView::Failure { connect, timeout, detail }) == Err::<
            Seq<char>,
            ExternalServiceErrorView,
        >(ExternalServiceErrorView::NetworkError(detail)),
        relay_response(reply_outcome(HttpReplyView::Failure { connect, timeout, detail })).error_type
            == Some("network_error"@),
{
}

/// Every response whose status is not one of success is a service error,
/// never a network error: with the body as its detail, or with `HTTP` and
/// the status where the body could not be read. Every response whose status
/// is one of success gives its body.
pub proof fn lemma_response_is_told_by_its_status(status: u16, body: Result<Seq<char>, Seq<char>>)
    ensures
        !is_success_status(status) && body is Ok ==> reply_outcome(
            HttpReplyView::Response { status, body },
        ) == Err::<Seq<char>, ExternalServiceErrorView>(
            ExternalServiceErrorView::ServiceError(body->Ok_0),
        ),
        !is_success_status(status) && body is Err ==> reply_outcome(
            HttpReplyView::Response { status, body },
        ) == Err::<Seq<char>, ExternalServiceErrorView>(
            ExternalServiceErrorView::ServiceError("HTTP "@ + decimal(status as nat)),
        ),
        !is_success_status(status) ==> relay_response(
            reply_outcome(HttpReplyView::Response { status, body }),
        ).error_type == Some("service_error"@),
        is_success_status(status) && body is Ok ==> reply_outcome(
            HttpReplyView::Response { status, body },
        ) == Ok::<Seq<char>, ExternalServiceErrorView>(body->Ok_0),
        is_success_status(status) && body is Err ==> reply_outcome(
            HttpReplyView::Response { status, body },
        ) == Ok::<Seq<char>, ExternalServiceErrorView>("OK"@),
{
}

} // verus!
