//! The names of recording files and the rule by which old ones are cleaned
//! up. Reading and writing the files is the caller's.

use vstd::prelude::*;
use vstd::string::StringExecFns;
use crate::ambient::{fresh_uuid, local_now_formatted};
use crate::text::{join, same_text};

verus! {

/// The name of the folder of the application below the data directory.
pub const APP_DIR_NAME: &'static str = "EverVoice";

/// The name of the folder of the recordings below that of the application.
pub const RECORDINGS_DIR_NAME: &'static str = "recordings";

/// How the time is written into the name of a recording: year, month and
/// day, the letter `T`, then hour, minute and second, all joined by hyphens.
pub const FILE_STAMP_PATTERN: &'static str = "%Y-%m-%dT%H-%M-%S";

/// The name of a recording made at `stamp` with the identifier `id`.
pub open spec fn recording_name(stamp: Seq<char>, id: Seq<char>) -> Seq<char> {
    "recording-"@ + stamp + "-"@ + id + ".webm"@
}

/// Builds the name of a recording from its time stamp and its identifier.
pub fn recording_filename(stamp: &str, id: &str) -> (r: String)
    ensures
        r@ == recording_name(stamp@, id@),
{
    join("recording-", stamp).concat("-").concat(id).concat(".webm")
}

/// Makes up the name of a new recording: the local time, written by
/// `FILE_STAMP_PATTERN`, and a fresh UUID, so that no two names are alike.
pub fn generate_recording_filename() -> (r: String)
    ensures
        exists|stamp: Seq<char>, id: Seq<char>|
            id.len() == 36 && r@ == #[trigger] recording_name(stamp, id),
{
    let stamp = local_now_formatted(FILE_STAMP_PATTERN);
    let id = fresh_uuid();
    recording_filename(stamp.as_str(), id.as_str())
}

/// The number of nanoseconds in `hours` hours.
pub open spec fn hours_in_nanos(hours: u32) -> int {
    hours * 3600 * 1_000_000_000
}

/// Whether a file is a recording that has outlived `max_age_hours`, given its
/// extension and, where its time of change is known and not in the future,
/// its age in nanoseconds.
pub open spec fn is_expired_recording(
    extension: Option<Seq<char>>,
    age_nanos: Option<u128>,
    max_age_hours: u32,
) -> bool {
    &&& extension == Some("webm"@)
    &&& age_nanos matches Some(age)
    &&& age > hours_in_nanos(max_age_hours)
}

/// An optional text, taken by its characters.
pub open spec fn optional_str(s: Option<&str>) -> Option<Seq<char>> {
    match s {
        Some(t) => Some(t@),
        None => None,
    }
}

/// Decides whether the clean-up removes a file: only a `webm` file whose age
/// is known and greater than `max_age_hours`.
pub fn should_clean_up(extension: Option<&str>, age_nanos: Option<u128>, max_age_hours: u32) -> (r:
    bool)
    ensures
        r == is_expired_recording(optional_str(extension), age_nanos, max_age_hours),
{
    let is_recording = match extension {
        Some(e) => same_text(e, "webm"),
        None => false,
    };
    if !is_recording {
        return false;
    }
    match age_nanos {
        Some(age) => {
            let hours: u128 = max_age_hours as u128;
            let limit: u128 = hours * 3600 * 1_000_000_000;
            age > limit
        },
        None => false,
    }
}

} // verus!
