//! JSON documents as plain data, and the two calls into `serde_json` that turn
//! text into a document and a string into its JSON form.

use vstd::prelude::*;
use crate::text::same_text;

verus! {

/// A JSON document.
#[derive(Debug)]
pub enum JsonValue {
    Null,
    Bool(bool),
    /// A number, kept as the digits it is written with.
    Number(String),
    String(String),
    Array(Vec<JsonValue>),
    /// The members of an object, each name once.
    Object(Vec<JsonField>),
}

/// One member of a JSON object.
#[derive(Debug)]
pub struct JsonField {
    pub name: String,
    pub value: JsonValue,
}

#[verifier::external_type_specification]
#[verifier::external_body]
pub struct ExSerdeValue(serde_json::Value);

/// The small hexadecimal digit for `d`, which is below sixteen.
pub open spec fn hex_digit(d: nat) -> char {
    if d < 10 {
        (('0' as u32) + d) as char
    } else {
        (('a' as u32) + d - 10) as char
    }
}

/// How one character stands inside a JSON string. The double quote and the
/// backslash get a backslash before them; backspace, tab, line feed, form
/// feed and carriage return are written `\b`, `\t`, `\n`, `\f`, `\r`;
/// every other character below the space is written `\u00` and its two
/// hexadecimal digits; every other character stands for itself.
pub open spec fn json_escape(c: char) -> Seq<char> {
    let n = c as u32;
    if c == '"' {
        seq!['\\', '"']
    } else if c == '\\' {
        seq!['\\', '\\']
    } else if n == 0x08 {
        seq!['\\', 'b']
    } else if n == 0x09 {
        seq!['\\', 't']
    } else if n == 0x0A {
        seq!['\\', 'n']
    } else if n == 0x0C {
        seq!['\\', 'f']
    } else if n == 0x0D {
        seq!['\\', 'r']
    } else if n < 0x20 {
        seq!['\\', 'u', '0', '0', hex_digit((n / 16) as nat), hex_digit((n % 16) as nat)]
    } else {
        seq![c]
    }
}

/// The characters of `s`, each as it stands inside a JSON string.
pub open spec fn json_escaped(s: Seq<char>) -> Seq<char>
    decreases s.len(),
{
    if s.len() == 0 {
        Seq::empty()
    } else {
        json_escaped(s.drop_last()) + json_escape(s.last())
    }
}

/// The JSON form of a string: its characters, escaped, between two double
/// quotes.
pub open spec fn json_string_text(s: Seq<char>) -> Seq<char> {
    seq!['"'] + json_escaped(s) + seq!['"']
}

/// Whether `c` stands for itself inside a JSON string.
pub open spec fn is_plain_in_json(c: char) -> bool {
    c != '"' && c != '\\' && (c as u32) >= 0x20
}

/// A text of characters that all stand for themselves is written as it is,
/// between two double quotes.
pub proof fn lemma_plain_text_is_quoted_as_it_is(s: Seq<char>)
    requires
        forall|i: int| 0 <= i < s.len() ==> is_plain_in_json(#[trigger] s[i]),
    ensures
        json_escaped(s) == s,
        json_string_text(s) == seq!['"'] + s + seq!['"'],
    decreases s.len(),
{
    if s.len() > 0 {
        lemma_plain_text_is_quoted_as_it_is(s.drop_last());
        assert(is_plain_in_json(s.last()));
        assert(s.drop_last() + seq![s.last()] =~= s);
    }
}

/// What parsing a text as one JSON document gives: the document, or the
/// parser's description of what is wrong with the text.
pub uninterp spec fn json_parse(text: Seq<char>) -> Result<JsonValue, Seq<char>>;

/// The document that a parsed `serde_json::Value` stands for.
pub uninterp spec fn json_model(value: serde_json::Value) -> JsonValue;

/// Calls `serde_json::to_string` on a string slice. The contract claims that
/// the call succeeds: `serde_json` documents two causes of failure, a
/// `Serialize` impl that fails and a map whose keys are not strings, and
/// neither exists for a `str`. It claims that the result is the string
/// between double quotes, with the escapes of `serde_json`'s table: `\"`,
/// `\\`, the five short escapes, `\u00` with two small hexadecimal digits for
/// the other characters below the space, and nothing else escaped.
#[verifier::external_body]
fn serde_quote(s: &str) -> (r: Result<String, String>)
    ensures
        match r {
            Ok(t) => t@ == json_string_text(s@),
            Err(_) => false,
        },
{
    serde_json::to_string(s).map_err(|e| e.to_string())
}

/// Calls `serde_json::from_str` for a `serde_json::Value`. The contract claims
/// that the outcome depends on the text alone: either the value for the
/// document that the text spells, or the error's `Display` text.
#[verifier::external_body]
fn serde_parse(text: &str) -> (r: Result<serde_json::Value, String>)
    ensures
        match r {
            Ok(v) => json_parse(text@) == Ok::<JsonValue, Seq<char>>(json_model(v)),
            Err(e) => json_parse(text@) == Err::<JsonValue, Seq<char>>(e@),
        },
{
    serde_json::from_str::<serde_json::Value>(text).map_err(|e| e.to_string())
}

/// Copies a `serde_json::Value` into a `JsonValue`, variant by variant; a
/// number through `Number`'s `Display`, an object's members in the order in
/// which `serde_json::Map` hands them out.
#[verifier::external_body]
fn serde_model(value: serde_json::Value) -> (r: JsonValue)
    ensures
        r == json_model(value),
{
    match value {
        serde_json::Value::Null => JsonValue::Null,
        serde_json::Value::Bool(b) => JsonValue::Bool(b),
        serde_json::Value::Number(n) => JsonValue::Number(n.to_string()),
        serde_json::Value::String(s) => JsonValue::String(s),
        serde_json::Value::Array(items) => JsonValue::Array(
            items.into_iter().map(serde_model).collect(),
        ),
        serde_json::Value::Object(members) => JsonValue::Object(
            members.into_iter().map(|(name, v)| JsonField { name, value: serde_model(v) }).collect(),
        ),
    }
}

/// The value of the first member of `fields` named `name`.
pub open spec fn member(fields: Seq<JsonField>, name: Seq<char>) -> Option<JsonValue>
    decreases fields.len(),
{
    if fields.len() == 0 {
        None
    } else if fields[0].name@ == name {
        Some(fields[0].value)
    } else {
        member(fields.drop_first(), name)
    }
}

impl JsonValue {
    /// The member `name` of an object; `None` for a value that is no object
    /// or has no such member.
    pub open spec fn get(self, name: Seq<char>) -> Option<JsonValue> {
        match self {
            JsonValue::Object(fields) => member(fields@, name),
            _ => None,
        }
    }

    /// The text of a JSON string; `None` for any other value.
    pub open spec fn text(self) -> Option<Seq<char>> {
        match self {
            JsonValue::String(s) => Some(s@),
            _ => None,
        }
    }

    /// The items of a JSON array; `None` for any other value.
    pub open spec fn items(self) -> Option<Seq<JsonValue>> {
        match self {
            JsonValue::Array(items) => Some(items@),
            _ => None,
        }
    }

    /// Looks up a member of an object by name.
    pub fn field(&self, name: &str) -> (r: Option<&JsonValue>)
        ensures
            match r {
                Some(v) => self.get(name@) == Some(*v),
                None => self.get(name@) is None,
            },
    {
        match self {
            JsonValue::Object(fields) => {
                let mut i: usize = 0;
                assert(fields@.skip(0) =~= fields@);
                while i < fields.len()
                    invariant
                        i <= fields.len(),
                        self.get(name@) == member(fields@.skip(i as int), name@),
                    decreases fields.len() - i,
                {
                    assert(fields@.skip(i as int).drop_first() =~= fields@.skip(i + 1));
                    assert(fields@.skip(i as int)[0] == fields@[i as int]);
                    if same_text(fields[i].name.as_str(), name) {
                        return Some(&fields[i].value);
                    }
                    i = i + 1;
                }
                None
            },
            _ => None,
        }
    }

    /// The text of a JSON string.
    pub fn as_text(&self) -> (r: Option<&String>)
        ensures
            match r {
                Some(s) => self.text() == Some(s@),
                None => self.text() is None,
            },
    {
        match self {
            JsonValue::String(s) => Some(s),
            _ => None,
        }
    }

    /// The items of a JSON array.
    pub fn as_items(&self) -> (r: Option<&Vec<JsonValue>>)
        ensures
            match r {
                Some(items) => self.items() == Some(items@),
                None => self.items() is None,
            },
    {
        match self {
            JsonValue::Array(items) => Some(items),
            _ => None,
        }
    }
}

/// Writes a string as a JSON string.
pub fn quote(s: &str) -> (r: String)
    ensures
        r@ == json_string_text(s@),
{
    match serde_quote(s) {
        Ok(t) => t,
        // Writing a string slice never fails.
        Err(_) => String::new(),
    }
}

/// Parses a text as one JSON document; on failure gives the parser's
/// description of the fault.
pub fn parse(text: &str) -> (r: Result<JsonValue, String>)
    ensures
        match r {
            Ok(v) => json_parse(text@) == Ok::<JsonValue, Seq<char>>(v),
            Err(e) => json_parse(text@) == Err::<JsonValue, Seq<char>>(e@),
        },
{
    match serde_parse(text) {
        Ok(value) => Ok(serde_model(value)),
        Err(e) => Err(e),
    }
}

} // verus!
