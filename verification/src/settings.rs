//! The user's settings and the rules they must meet.

use vstd::prelude::*;
use vstd::string::StrSliceExecFns;
use crate::text::{
    chars_of, is_whitespace_char, join, same_text, skip_whitespace, skip_whitespace_back, trimmed,
};

verus! {

/// The longest recording allowed unless the user says otherwise, in minutes.
pub const DEFAULT_MAX_DURATION_MINUTES: u32 = 5;

/// The longest recording that can be configured, in minutes.
pub const MAX_DURATION_LIMIT_MINUTES: u32 = 180;

/// The language of transcriptions unless the user says otherwise, as an ISO
/// 639-1 code.
pub const DEFAULT_LANGUAGE: &'static str = "de";

/// The key combination that toggles recording unless the user says otherwise.
pub const DEFAULT_GLOBAL_HOTKEY: &'static str = "Ctrl+Shift+R";

/// A button that posts the transcription to an endpoint of the user's choice.
#[derive(Debug, Clone)]
pub struct CustomAction {
    /// What tells this action from the others.
    pub id: String,
    /// The label of the button.
    pub name: String,
    /// The endpoint that the transcription is posted to.
    pub url: String,
}

/// The settings of the application.
#[derive(Debug, Clone)]
pub struct Settings {
    /// The longest recording allowed, in minutes.
    pub max_duration: u32,
    /// The API key for transcription and summarization.
    pub api_key: Option<String>,
    /// The language of transcriptions, as an ISO 639-1 code.
    pub language: String,
    /// The buttons for external services.
    pub custom_actions: Vec<CustomAction>,
    /// The key combination that toggles recording.
    pub global_hotkey: Option<String>,
}

/// The language of transcriptions for settings that name none.
pub fn default_language() -> (r: String)
    ensures
        r@ == DEFAULT_LANGUAGE@,
{
    DEFAULT_LANGUAGE.to_owned()
}

impl Default for Settings {
    fn default() -> (r: Settings)
        ensures
            r.max_duration == DEFAULT_MAX_DURATION_MINUTES,
            r.api_key is None,
            r.language@ == DEFAULT_LANGUAGE@,
            r.custom_actions@.len() == 0,
            r.global_hotkey is None,
    {
        Settings {
            max_duration: DEFAULT_MAX_DURATION_MINUTES,
            api_key: None,
            language: DEFAULT_LANGUAGE.to_owned(),
            custom_actions: Vec::new(),
            global_hotkey: None,
        }
    }
}

/// The index of the first `c` in `s` at or after `from`, or `s.len()` if
/// there is none.
pub open spec fn find_char(s: Seq<char>, c: char, from: int) -> int
    decreases s.len() - from,
{
    if from < 0 || from >= s.len() {
        s.len() as int
    } else if s[from] == c {
        from
    } else {
        find_char(s, c, from + 1)
    }
}

/// The pieces of `s` between the occurrences of `sep`: one more piece than
/// there are occurrences, empty pieces included.
pub open spec fn split_on(s: Seq<char>, sep: char) -> Seq<Seq<char>>
    decreases s.len(),
{
    let at = find_char(s, sep, 0);
    if 0 <= at < s.len() {
        seq![s.take(at)] + split_on(s.skip(at + 1), sep)
    } else {
        seq![s]
    }
}

/// Whether `name` is one of the four modifiers.
pub open spec fn is_modifier_name(name: Seq<char>) -> bool {
    name == "Ctrl"@ || name == "Alt"@ || name == "Shift"@ || name == "Meta"@
}

/// Whether `name` is one of the keys that are written with a name of more
/// than one character.
pub open spec fn is_special_key_name(name: Seq<char>) -> bool {
    ||| name == "Space"@
    ||| name == "Tab"@
    ||| name == "Enter"@
    ||| name == "Escape"@
    ||| name == "Backspace"@
    ||| name == "Delete"@
    ||| name == "Insert"@
    ||| name == "Home"@
    ||| name == "End"@
    ||| name == "PageUp"@
    ||| name == "PageDown"@
    ||| name == "Up"@
    ||| name == "Down"@
    ||| name == "Left"@
    ||| name == "Right"@
    ||| name == "F1"@
    ||| name == "F2"@
    ||| name == "F3"@
    ||| name == "F4"@
    ||| name == "F5"@
    ||| name == "F6"@
    ||| name == "F7"@
    ||| name == "F8"@
    ||| name == "F9"@
    ||| name == "F10"@
    ||| name == "F11"@
    ||| name == "F12"@
}

/// Whether `name` can stand for the key of a combination: one character of
/// one byte, or the name of a special key.
pub open spec fn is_key_name(name: Seq<char>) -> bool {
    (name.len() == 1 && (name[0] as u32) < 0x80) || is_special_key_name(name)
}

/// What is wrong with the segments of a combination from the one numbered
/// `i` on, if anything: the fault of the first segment that has one, read
/// from left to right. Every segment is read without the white space around
/// it. A segment may not be empty; every segment but the last is a modifier;
/// the last is a key.
pub open spec fn segments_error(parts: Seq<Seq<char>>, i: int) -> Option<Seq<char>>
    decreases parts.len() - i,
{
    if i < 0 || i >= parts.len() {
        if parts.len() > 0 && is_modifier_name(trimmed(parts.last())) {
            Some("Hotkey must end with a valid key"@)
        } else {
            None
        }
    } else {
        let part = trimmed(parts[i]);
        if part.len() == 0 {
            Some("Hotkey contains empty segment"@)
        } else if is_modifier_name(part) {
            segments_error(parts, i + 1)
        } else if i == parts.len() - 1 {
            if is_key_name(part) {
                segments_error(parts, i + 1)
            } else {
                Some("Invalid key: "@ + part)
            }
        } else {
            Some("Invalid modifier: "@ + part)
        }
    }
}

/// What is wrong with a key combination, if anything. A combination is
/// written as segments joined by `+`: one modifier or more (`Ctrl`, `Alt`,
/// `Shift`, `Meta`), then one key.
pub open spec fn hotkey_format_error(hotkey: Seq<char>) -> Option<Seq<char>> {
    if hotkey.len() == 0 {
        Some("Hotkey cannot be empty"@)
    } else if split_on(hotkey, '+').len() < 2 {
        Some("Hotkey must have at least one modifier and a key"@)
    } else {
        segments_error(split_on(hotkey, '+'), 0)
    }
}

/// What is wrong with settings that allow `max_duration` minutes and toggle
/// recording with `global_hotkey`, if anything.
pub open spec fn settings_error(max_duration: u32, global_hotkey: Option<Seq<char>>) -> Option<
    Seq<char>,
> {
    if max_duration == 0 {
        Some("Max duration must be greater than 0"@)
    } else if max_duration > MAX_DURATION_LIMIT_MINUTES {
        Some("Max duration cannot exceed 180 minutes"@)
    } else {
        match global_hotkey {
            Some(hotkey) => hotkey_format_error(hotkey),
            None => None,
        }
    }
}

/// What a validation ends with, as the fault found if any.
pub open spec fn fault_of(r: Result<(), String>) -> Option<Seq<char>> {
    match r {
        Ok(_) => None,
        Err(e) => Some(e@),
    }
}

impl Settings {
    /// The key combination of these settings, taken by its characters.
    pub open spec fn hotkey_text(&self) -> Option<Seq<char>> {
        match self.global_hotkey {
            Some(h) => Some(h@),
            None => None,
        }
    }

    /// Checks the settings: the longest recording lasts from 1 to 180
    /// minutes, and the key combination, if there is one, is well formed.
    pub fn validate(&self) -> (r: Result<(), String>)
        ensures
            fault_of(r) == settings_error(self.max_duration, self.hotkey_text()),
    {
        if self.max_duration == 0 {
            return Err("Max duration must be greater than 0".to_owned());
        }
        if self.max_duration > MAX_DURATION_LIMIT_MINUTES {
            return Err("Max duration cannot exceed 180 minutes".to_owned());
        }
        match &self.global_hotkey {
            Some(hotkey) => validate_hotkey_format(hotkey.as_str()),
            None => Ok(()),
        }
    }

    /// The key combination in force: the user's, or the default.
    pub fn effective_global_hotkey(&self) -> (r: &str)
        ensures
            r@ == match self.hotkey_text() {
                Some(h) => h,
                None => DEFAULT_GLOBAL_HOTKEY@,
            },
    {
        match &self.global_hotkey {
            Some(hotkey) => hotkey.as_str(),
            None => DEFAULT_GLOBAL_HOTKEY,
        }
    }
}

/// Tests a name for one of the four modifiers.
pub fn is_modifier(name: &str) -> (r: bool)
    ensures
        r == is_modifier_name(name@),
{
    same_text(name, "Ctrl") || same_text(name, "Alt") || same_text(name, "Shift") || same_text(
        name,
        "Meta",
    )
}

/// Tests a name for one of the special keys.
pub fn is_valid_special_key(key: &str) -> (r: bool)
    ensures
        r == is_special_key_name(key@),
{
    same_text(key, "Space") || same_text(key, "Tab") || same_text(key, "Enter") || same_text(
        key,
        "Escape",
    ) || same_text(key, "Backspace") || same_text(key, "Delete") || same_text(key, "Insert")
        || same_text(key, "Home") || same_text(key, "End") || same_text(key, "PageUp")
        || same_text(key, "PageDown") || same_text(key, "Up") || same_text(key, "Down")
        || same_text(key, "Left") || same_text(key, "Right") || same_text(key, "F1") || same_text(
        key,
        "F2",
    ) || same_text(key, "F3") || same_text(key, "F4") || same_text(key, "F5") || same_text(
        key,
        "F6",
    ) || same_text(key, "F7") || same_text(key, "F8") || same_text(key, "F9") || same_text(
        key,
        "F10",
    ) || same_text(key, "F11") || same_text(key, "F12")
}

/// Where `c` first stands in `s` at or after `from`, given that it does not
/// stand before `at` and that `at` is the end of `s` or holds `c`.
proof fn lemma_find_char(s: Seq<char>, c: char, from: int, at: int)
    requires
        0 <= from <= at <= s.len(),
        forall|k: int| from <= k < at ==> s[k] != c,
        at == s.len() || s[at] == c,
    ensures
        find_char(s, c, from) == at,
    decreases at - from,
{
    if from < at {
        lemma_find_char(s, c, from + 1, at);
    }
}

/// The bounds of the pieces of `v` between the occurrences of `sep`: piece
/// `k` runs from `ranges[k].0` up to `ranges[k].1`.
fn split_ranges(v: &Vec<char>, sep: char) -> (ranges: Vec<(usize, usize)>)
    ensures
        ranges@.len() == split_on(v@, sep).len(),
        forall|k: int|
            0 <= k < ranges@.len() ==> {
                &&& (#[trigger] ranges@[k]).0 <= ranges@[k].1 <= v@.len()
                &&& v@.subrange(ranges@[k].0 as int, ranges@[k].1 as int) == split_on(v@, sep)[k]
            },
{
    let mut ranges: Vec<(usize, usize)> = Vec::new();
    let mut start: usize = 0;
    let mut j: usize = 0;
    let ghost mut done: Seq<Seq<char>> = Seq::empty();
    proof {
        assert(v@.skip(0) =~= v@);
    }
    while j < v.len()
        invariant
            start <= j <= v.len(),
            forall|k: int| start <= k < j ==> v@[k] != sep,
            split_on(v@, sep) == done + split_on(v@.skip(start as int), sep),
            ranges@.len() == done.len(),
            forall|k: int|
                0 <= k < ranges@.len() ==> {
                    &&& (#[trigger] ranges@[k]).0 <= ranges@[k].1 <= v@.len()
                    &&& v@.subrange(ranges@[k].0 as int, ranges@[k].1 as int) == done[k]
                },
        decreases v.len() - j,
    {
        if v[j] == sep {
            proof {
                let rest = v@.skip(start as int);
                lemma_find_char(rest, sep, 0, j - start);
                assert(rest.take(j - start) =~= v@.subrange(start as int, j as int));
                assert(rest.skip(j - start + 1) =~= v@.skip(j + 1));
                let piece = v@.subrange(start as int, j as int);
                assert(split_on(rest, sep) == seq![piece] + split_on(v@.skip(j + 1), sep));
                assert(done + (seq![piece] + split_on(v@.skip(j + 1), sep)) =~= done.push(piece)
                    + split_on(v@.skip(j + 1), sep));
                done = done.push(piece);
            }
            ranges.push((start, j));
            start = j + 1;
        }
        j = j + 1;
    }
    proof {
        let rest = v@.skip(start as int);
        lemma_find_char(rest, sep, 0, rest.len() as int);
        assert(rest =~= v@.subrange(start as int, v@.len() as int));
        assert(split_on(rest, sep) == seq![rest]);
        assert(done + seq![rest] =~= done.push(rest));
        done = done.push(rest);
    }
    ranges.push((start, v.len()));
    ranges
}

/// The bounds of the piece of `v` from `start` up to `end` without the white
/// space around it.
fn trim_range(v: &Vec<char>, start: usize, end: usize) -> (r: (usize, usize))
    requires
        start <= end <= v.len(),
    ensures
        start <= r.0 <= r.1 <= end,
        v@.subrange(r.0 as int, r.1 as int) == trimmed(v@.subrange(start as int, end as int)),
{
    let ghost seg = v@.subrange(start as int, end as int);
    let mut a: usize = start;
    while a < end && is_whitespace_char(v[a])
        invariant
            start <= a <= end <= v.len(),
            seg == v@.subrange(start as int, end as int),
            skip_whitespace(seg, 0) == skip_whitespace(seg, a - start),
        decreases end - a,
    {
        assert(seg[a - start] == v@[a as int]);
        a = a + 1;
    }
    proof {
        if a < end {
            assert(seg[a - start] == v@[a as int]);
        }
        assert(skip_whitespace(seg, 0) == a - start);
    }
    let mut b: usize = end;
    while b > a && is_whitespace_char(v[b - 1])
        invariant
            start <= a <= b <= end <= v.len(),
            seg == v@.subrange(start as int, end as int),
            skip_whitespace_back(seg, a - start, seg.len() as int) == skip_whitespace_back(
                seg,
                a - start,
                b - start,
            ),
        decreases b - a,
    {
        assert(seg[b - 1 - start] == v@[b - 1]);
        b = b - 1;
    }
    proof {
        if b > a {
            assert(seg[b - 1 - start] == v@[b - 1]);
        }
        assert(skip_whitespace_back(seg, a - start, seg.len() as int) == b - start);
        assert(seg.subrange(a - start, b - start) =~= v@.subrange(a as int, b as int));
    }
    (a, b)
}

/// Checks that a key combination is well formed: segments joined by `+`, one
/// modifier or more (`Ctrl`, `Alt`, `Shift`, `Meta`) and then one key, white
/// space around a segment set aside. The error names the first fault.
pub fn validate_hotkey_format(hotkey: &str) -> (r: Result<(), String>)
    ensures
        fault_of(r) == hotkey_format_error(hotkey@),
{
    let v = chars_of(hotkey);
    if v.len() == 0 {
        return Err("Hotkey cannot be empty".to_owned());
    }
    let ranges = split_ranges(&v, '+');
    if ranges.len() < 2 {
        return Err("Hotkey must have at least one modifier and a key".to_owned());
    }
    let ghost parts = split_on(hotkey@, '+');
    let mut ends_with_modifier: bool = false;
    let mut i: usize = 0;
    while i < ranges.len()
        invariant
            v@ == hotkey@,
            hotkey@.len() > 0,
            parts == split_on(hotkey@, '+'),
            parts.len() >= 2,
            ranges@.len() == parts.len(),
            i <= ranges@.len(),
            forall|k: int|
                0 <= k < ranges@.len() ==> {
                    &&& (#[trigger] ranges@[k]).0 <= ranges@[k].1 <= v@.len()
                    &&& v@.subrange(ranges@[k].0 as int, ranges@[k].1 as int) == parts[k]
                },
            segments_error(parts, 0) == segments_error(parts, i as int),
            i > 0 ==> ends_with_modifier == is_modifier_name(trimmed(parts[i - 1])),
        decreases ranges.len() - i,
    {
        let range = ranges[i];
        let bounds = trim_range(&v, range.0, range.1);
        let part = hotkey.substring_char(bounds.0, bounds.1);
        assert(part@ == trimmed(parts[i as int]));
        if bounds.0 == bounds.1 {
            return Err("Hotkey contains empty segment".to_owned());
        }
        if is_modifier(part) {
            ends_with_modifier = true;
        } else if i == ranges.len() - 1 {
            let one_byte = bounds.1 - bounds.0 == 1 && (v[bounds.0] as u32) < 0x80;
            assert(part@.len() == bounds.1 - bounds.0);
            assert(part@.len() > 0 ==> part@[0] == v@[bounds.0 as int]);
            if one_byte || is_valid_special_key(part) {
                ends_with_modifier = false;
            } else {
                return Err(join("Invalid key: ", part));
            }
        } else {
            return Err(join("Invalid modifier: ", part));
        }
        i = i + 1;
    }
    if ends_with_modifier {
        Err("Hotkey must end with a valid key".to_owned())
    } else {
        Ok(())
    }
}

} // verus!
