//! `package.json`-style files: the top-level `version` member.

use vstd::prelude::*;
use crate::text::{opt_view, push_all};
use super::{FormatError, VersionFile};

verus! {

/// The kinds of JSON value.
#[derive(Debug, Clone, Copy, PartialEq, Eq, Structural)]
pub enum JsonKind {
    Null,
    Bool,
    Number,
    Text,
    Array,
    Object,
}

/// Whether `serde_json::from_str` accepts the text as a JSON value.
pub uninterp spec fn json_parses(content: Seq<char>) -> bool;

/// The message of the error `serde_json::from_str` gives for text it does
/// not accept.
pub uninterp spec fn json_parse_error(content: Seq<char>) -> Seq<char>;

/// The kind of the value `serde_json::from_str` parses the text into.
pub uninterp spec fn json_kind(content: Seq<char>) -> JsonKind;

/// What indexing the parsed value with `key` and taking it as a string
/// gives (`None` when it is absent or not a string).
pub uninterp spec fn json_string_member(content: Seq<char>, key: Seq<char>) -> Option<Seq<char>>;

/// What `serde_json::to_string_pretty` renders after the parsed value's
/// `key` member is set to the string `value`.
pub uninterp spec fn json_pretty_with_member(
    content: Seq<char>,
    key: Seq<char>,
    value: Seq<char>,
) -> Seq<char>;

/// Parses the text with `serde_json::from_str` into a `serde_json::Value`,
/// indexes it with `key` and takes the member as a string; an error becomes
/// its message. Claims: it fails exactly when the text is not JSON, with
/// the named message, and otherwise gives the named member.
#[verifier::external_body]
fn parse_string_member(content: &str, key: &str) -> (res: Result<Option<String>, String>)
    ensures
        res is Ok <==> json_parses(content@),
        res matches Ok(m) ==> opt_view(m) == json_string_member(content@, key@),
        res matches Err(e) ==> e@ == json_parse_error(content@),
{
    serde_json::from_str::<serde_json::Value>(content).map(
        |v| v[key].as_str().map(|s| s.to_string()),
    ).map_err(|e| e.to_string())
}

/// Parses the text with `serde_json::from_str` and gives the kind of the
/// value; an error becomes its message. Claims: it fails exactly when the
/// text is not JSON, with the named message, and otherwise gives the named
/// kind.
#[verifier::external_body]
fn parse_kind(content: &str) -> (res: Result<JsonKind, String>)
    ensures
        res is Ok <==> json_parses(content@),
        res matches Ok(k) ==> k == json_kind(content@),
        res matches Err(e) ==> e@ == json_parse_error(content@),
{
    serde_json::from_str::<serde_json::Value>(content).map(|v| match v {
        serde_json::Value::Null => JsonKind::Null,
        serde_json::Value::Bool(_) => JsonKind::Bool,
        serde_json::Value::Number(_) => JsonKind::Number,
        serde_json::Value::String(_) => JsonKind::Text,
        serde_json::Value::Array(_) => JsonKind::Array,
        serde_json::Value::Object(_) => JsonKind::Object,
    }).map_err(|e| e.to_string())
}

/// Whether indexing a value of this kind by a key can insert a member:
/// objects, and `null`, which becomes an empty object.
pub open spec fn takes_members(k: JsonKind) -> bool {
    k == JsonKind::Object || k == JsonKind::Null
}

/// Parses the text with `serde_json::from_str`, sets the `key` member to
/// the string `value` through `IndexMut` and renders the result with
/// `serde_json::to_string_pretty`; an error becomes its message. Indexing
/// panics on values that are neither objects nor `null`, so those are left
/// out. Rendering a `Value` cannot fail (its map keys are strings and its
/// `Serialize` impl never errors), so JSON text always gives the named
/// rendering, and other text the parser's named message.
#[verifier::external_body]
fn render_with_member(content: &str, key: &str, value: &str) -> (res: Result<String, String>)
    requires
        json_parses(content@) ==> takes_members(json_kind(content@)),
    ensures
        res is Ok <==> json_parses(content@),
        res matches Ok(s) ==> s@ == json_pretty_with_member(content@, key@, value@),
        res matches Err(e) ==> e@ == json_parse_error(content@),
{
    let mut v: serde_json::Value = serde_json::from_str(content).map_err(|e| e.to_string())?;
    v[key] = serde_json::Value::String(value.to_string());
    serde_json::to_string_pretty(&v).map_err(|e| e.to_string())
}

/// Files whose version is the top-level `version` member of a JSON object.
pub struct JsonVersionFile;

/// Reading: text that is not JSON is an `InvalidJson` error carrying the
/// parser's message, a document without a string `version` member a
/// `NoVersionField` error; otherwise the member is the version.
pub open spec fn json_read_outcome(content: Seq<char>, res: Result<String, FormatError>) -> bool {
    if !json_parses(content) {
        res matches Err(FormatError::InvalidJson(m)) && m@ == json_parse_error(content)
    } else {
        match json_string_member(content, "version"@) {
            Some(v) => res matches Ok(s) && s@ == v,
            None => res matches Err(FormatError::NoVersionField),
        }
    }
}

/// A version can be written into text that is not JSON (the parser's
/// error is reported) or into an object or `null`; any other JSON value
/// cannot take a member.
pub open spec fn json_writable(content: Seq<char>) -> bool {
    json_parses(content) ==> takes_members(json_kind(content))
}

/// Whether a version can be written into `content` (see [`json_writable`]).
pub fn json_accepts_version(content: &str) -> (res: bool)
    ensures
        res == json_writable(content@),
{
    match parse_kind(content) {
        Err(_) => true,
        Ok(JsonKind::Object) => true,
        Ok(JsonKind::Null) => true,
        Ok(_) => false,
    }
}

/// Writing (into an object or `null`): text that is not JSON fails with
/// the parser's message; otherwise the result is the document with
/// `version` set to the string, pretty-printed and followed by a newline.
pub open spec fn json_write_outcome(
    content: Seq<char>,
    version: Seq<char>,
    res: Result<String, FormatError>,
) -> bool {
    if !json_parses(content) {
        res matches Err(FormatError::Json(m)) && m@ == json_parse_error(content)
    } else {
        res matches Ok(s) && s@ == json_pretty_with_member(content, "version"@, version) + "\n"@
    }
}

impl VersionFile for JsonVersionFile {
    open spec fn writable(&self, content: Seq<char>) -> bool {
        json_writable(content)
    }

    fn read_version(&self, content: &str) -> (res: Result<String, FormatError>)
        ensures
            json_read_outcome(content@, res),
    {
        match parse_string_member(content, "version") {
            Err(m) => Err(FormatError::InvalidJson(m)),
            Ok(Some(v)) => Ok(v),
            Ok(None) => Err(FormatError::NoVersionField),
        }
    }

    fn write_version(&self, content: &str, version: &str) -> (res: Result<String, FormatError>)
        ensures
            json_write_outcome(content@, version@, res),
    {
        match render_with_member(content, "version", version) {
            Ok(s) => {
                let mut out = s;
                push_all(&mut out, "\n");
                Ok(out)
            },
            Err(m) => Err(FormatError::Json(m)),
        }
    }
}

} // verus!
