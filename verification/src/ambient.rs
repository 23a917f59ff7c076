//! What the library takes from the machine it runs on: fresh identifiers and
//! the time of day. Nothing here can be foretold, so the contracts say only
//! what holds of every outcome.

use vstd::prelude::*;

verus! {

/// Calls `uuid::Uuid::new_v4` and writes the identifier with its `Display`,
/// which is the hyphenated form. The contract claims the length of that
/// form, 36 characters, and nothing of the digits. The call panics where the
/// operating system hands out no random bytes.
#[verifier::external_body]
pub(crate) fn fresh_uuid() -> (r: String)
    ensures
        r@.len() == 36,
{
    uuid::Uuid::new_v4().to_string()
}

/// Calls `chrono::Utc::now` and `DateTime::to_rfc3339` on the result. Nothing
/// is claimed of the text. The call panics where the system clock stands
/// before 1970.
#[verifier::external_body]
pub(crate) fn utc_now_rfc3339() -> (r: String) {
    chrono::Utc::now().to_rfc3339()
}

/// Calls `chrono::Local::now` and writes the result with
/// `DateTime::format` and the pattern given. Nothing is claimed of the text,
/// which depends on the clock and on the time zone of the machine. Writing
/// with a pattern that chrono cannot read panics, so the one pattern that
/// the library uses is required.
#[verifier::external_body]
pub(crate) fn local_now_formatted(pattern: &str) -> (r: String)
    requires
        pattern@ == "%Y-%m-%dT%H-%M-%S"@,
{
    chrono::Local::now().format(pattern).to_string()
}

} // verus!
