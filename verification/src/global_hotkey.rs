//! The global key combination that toggles recording: what went wrong with
//! it, what is reported to the user interface, and the decisions around
//! registering it. The registration itself is the caller's.

use vstd::prelude::*;
use vstd::string::StringExecFns;
use crate::settings::{DEFAULT_GLOBAL_HOTKEY, hotkey_format_error, validate_hotkey_format};
use crate::text::{contains, contains_text, join, same_text};

verus! {

/// The name of the event that tells the user interface of a key press.
pub const GLOBAL_HOTKEY_EVENT: &'static str = "global-hotkey-triggered";

/// What the event carries.
#[derive(Debug, Clone)]
pub struct HotkeyEventPayload {
    /// When the combination was pressed, in milliseconds since the epoch.
    pub timestamp: u64,
    /// The combination that was pressed.
    pub hotkey: String,
}

/// Why an operation on the key combination failed.
#[derive(Debug, Clone)]
pub enum HotkeyError {
    /// The combination is not well formed.
    InvalidFormat(String),
    /// Another application holds the combination.
    Conflict(String),
    /// The combination could not be registered.
    RegistrationFailed(String),
    /// The combination could not be released.
    UnregistrationFailed(String),
}

/// The mathematical value of a `HotkeyError`.
pub enum HotkeyErrorView {
    InvalidFormat(Seq<char>),
    Conflict(Seq<char>),
    RegistrationFailed(Seq<char>),
    UnregistrationFailed(Seq<char>),
}

impl View for HotkeyError {
    type V = HotkeyErrorView;

    open spec fn view(&self) -> HotkeyErrorView {
        match *self {
            HotkeyError::InvalidFormat(s) => HotkeyErrorView::InvalidFormat(s@),
            HotkeyError::Conflict(s) => HotkeyErrorView::Conflict(s@),
            HotkeyError::RegistrationFailed(s) => HotkeyErrorView::RegistrationFailed(s@),
            HotkeyError::UnregistrationFailed(s) => HotkeyErrorView::UnregistrationFailed(s@),
        }
    }
}

impl HotkeyErrorView {
    /// The description of the error, with its detail.
    pub open spec fn description(self) -> Seq<char> {
        match self {
            HotkeyErrorView::InvalidFormat(msg) => "Invalid hotkey format: "@ + msg,
            HotkeyErrorView::Conflict(msg) => "Hotkey conflict: "@ + msg,
            HotkeyErrorView::RegistrationFailed(msg) => "Failed to register hotkey: "@ + msg,
            HotkeyErrorView::UnregistrationFailed(msg) => "Failed to unregister hotkey: "@ + msg,
        }
    }

    /// The tag by which the user interface tells the kinds apart.
    pub open spec fn error_type(self) -> Seq<char> {
        match self {
            HotkeyErrorView::InvalidFormat(_) => "invalid_format"@,
            HotkeyErrorView::Conflict(_) => "conflict"@,
            HotkeyErrorView::RegistrationFailed(_) => "registration_failed"@,
            HotkeyErrorView::UnregistrationFailed(_) => "unregistration_failed"@,
        }
    }
}

impl HotkeyError {
    /// The description of the error, with its detail.
    pub fn to_string(&self) -> (r: String)
        ensures
            r@ == self@.description(),
    {
        match self {
            HotkeyError::InvalidFormat(msg) => join("Invalid hotkey format: ", msg.as_str()),
            HotkeyError::Conflict(msg) => join("Hotkey conflict: ", msg.as_str()),
            HotkeyError::RegistrationFailed(msg) => join(
                "Failed to register hotkey: ",
                msg.as_str(),
            ),
            HotkeyError::UnregistrationFailed(msg) => join(
                "Failed to unregister hotkey: ",
                msg.as_str(),
            ),
        }
    }

    /// The tag by which the user interface tells the kinds apart.
    pub fn error_type(&self) -> (r: String)
        ensures
            r@ == self@.error_type(),
    {
        match self {
            HotkeyError::InvalidFormat(_) => "invalid_format".to_owned(),
            HotkeyError::Conflict(_) => "conflict".to_owned(),
            HotkeyError::RegistrationFailed(_) => "registration_failed".to_owned(),
            HotkeyError::UnregistrationFailed(_) => "unregistration_failed".to_owned(),
        }
    }
}

/// What an operation on the key combination reports to the user interface.
#[derive(Debug, Clone)]
pub struct HotkeyResult {
    pub success: bool,
    pub message: Option<String>,
    pub error_type: Option<String>,
}

/// The mathematical value of a `HotkeyResult`.
pub struct HotkeyResultView {
    pub success: bool,
    pub message: Option<Seq<char>>,
    pub error_type: Option<Seq<char>>,
}

impl View for HotkeyResult {
    type V = HotkeyResultView;

    open spec fn view(&self) -> HotkeyResultView {
        HotkeyResultView {
            success: self.success,
            message: match self.message {
                Some(m) => Some(m@),
                None => None,
            },
            error_type: match self.error_type {
                Some(t) => Some(t@),
                None => None,
            },
        }
    }
}

impl HotkeyResult {
    /// Reports a success.
    pub fn ok() -> (r: Self)
        ensures
            r@ == (HotkeyResultView { success: true, message: None, error_type: None }),
    {
        HotkeyResult { success: true, message: None, error_type: None }
    }

    /// Reports an error: its tag, and its description as the message.
    pub fn error(error: HotkeyError) -> (r: Self)
        ensures
            r@ == (HotkeyResultView {
                success: false,
                message: Some(error@.description()),
                error_type: Some(error@.error_type()),
            }),
    {
        let error_type = error.error_type();
        HotkeyResult {
            success: false,
            message: Some(error.to_string()),
            error_type: Some(error_type),
        }
    }
}

/// What is wrong with registering `hotkey` before anything is tried: its
/// format, if that is at fault.
pub open spec fn format_fault(hotkey: Seq<char>) -> Option<HotkeyErrorView> {
    match hotkey_format_error(hotkey) {
        Some(fault) => Some(HotkeyErrorView::InvalidFormat(fault)),
        None => None,
    }
}

/// What checking a combination ends with, as the error found if any.
pub open spec fn check_view(r: Result<(), HotkeyError>) -> Option<HotkeyErrorView> {
    match r {
        Ok(_) => None,
        Err(e) => Some(e@),
    }
}

/// Checks the format of a combination that is about to be registered.
pub fn check_hotkey(hotkey: &str) -> (r: Result<(), HotkeyError>)
    ensures
        check_view(r) == format_fault(hotkey@),
{
    match validate_hotkey_format(hotkey) {
        Ok(_) => Ok(()),
        Err(fault) => Err(HotkeyError::InvalidFormat(fault)),
    }
}

/// The error for a combination that the operating system's shortcut parser
/// refused with `detail`.
pub open spec fn parse_fault(hotkey: Seq<char>, detail: Seq<char>) -> HotkeyErrorView {
    HotkeyErrorView::InvalidFormat("Failed to parse '"@ + hotkey + "': "@ + detail)
}

/// Names the error for a combination that the shortcut parser refused.
pub fn parse_failure(hotkey: &str, detail: &str) -> (r: HotkeyError)
    ensures
        r@ == parse_fault(hotkey@, detail@),
{
    HotkeyError::InvalidFormat(join("Failed to parse '", hotkey).concat("': ").concat(detail))
}

/// The error for a registration of `hotkey` that failed with `detail`: a
/// conflict where the detail speaks of one, a failed registration otherwise.
pub open spec fn registration_fault(hotkey: Seq<char>, detail: Seq<char>) -> HotkeyErrorView {
    if contains_text(detail, "already"@) || contains_text(detail, "conflict"@) {
        HotkeyErrorView::Conflict(
            "The hotkey '"@ + hotkey + "' is already in use by another application"@,
        )
    } else {
        HotkeyErrorView::RegistrationFailed(detail)
    }
}

/// Names the error for a registration that failed.
pub fn registration_failure(hotkey: &str, detail: String) -> (r: HotkeyError)
    ensures
        r@ == registration_fault(hotkey@, detail@),
{
    if contains(detail.as_str(), "already") || contains(detail.as_str(), "conflict") {
        HotkeyError::Conflict(
            join("The hotkey '", hotkey).concat("' is already in use by another application"),
        )
    } else {
        HotkeyError::RegistrationFailed(detail)
    }
}

/// The combination to register when the application starts: the one from
/// the settings, or the default.
pub fn startup_hotkey(configured: Option<String>) -> (r: String)
    ensures
        r@ == match configured {
            Some(h) => h@,
            None => DEFAULT_GLOBAL_HOTKEY@,
        },
{
    match configured {
        Some(h) => h,
        None => DEFAULT_GLOBAL_HOTKEY.to_owned(),
    }
}

/// The combination to try after `failed` could not be registered at start:
/// the default, unless it was the default that failed.
pub fn fallback_hotkey(failed: &str) -> (r: Option<&'static str>)
    ensures
        failed@ == DEFAULT_GLOBAL_HOTKEY@ ==> r is None,
        failed@ != DEFAULT_GLOBAL_HOTKEY@ ==> r == Some(DEFAULT_GLOBAL_HOTKEY),
{
    if same_text(failed, DEFAULT_GLOBAL_HOTKEY) {
        None
    } else {
        Some(DEFAULT_GLOBAL_HOTKEY)
    }
}

} // verus!
