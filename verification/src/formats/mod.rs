//! Version files: reading the version a file declares and rewriting it.
//!
//! Handlers work on file contents; reading and writing the files is the
//! caller's part.

pub mod gomod;
pub mod json;
pub mod xml;

use vstd::prelude::*;
use crate::text::push_all;
use self::json::{JsonVersionFile, json_accepts_version, json_read_outcome, json_writable, json_write_outcome};
use self::xml::{XmlVersionFile, xml_read_outcome, xml_write_outcome};

verus! {

/// Why a version could not be read or written.
pub enum FormatError {
    /// The JSON document has no string `version` member.
    NoVersionField,
    /// The content is not JSON; holds the parser's message.
    InvalidJson(String),
    /// The JSON document could not be rewritten; holds the parser's message.
    Json(String),
    /// The JSON document is neither an object nor `null`, so it cannot take
    /// a `version` member (reported by [`write_version`]).
    NotAnObject,
    /// The XML content has no `<version>` element.
    NoVersionTag,
    /// The XML content has no `<version>` element to update.
    NoVersionTagToUpdate,
    /// `git describe` found no tag matching `v*`.
    NoVersionGitTag,
}

/// The text reported for each error about the file at `path`.
pub open spec fn format_error_text(e: FormatError, path: Seq<char>) -> Seq<char> {
    match e {
        FormatError::NoVersionField => "No 'version' field in "@ + path,
        FormatError::InvalidJson(_) => "Invalid JSON in "@ + path,
        FormatError::Json(cause) => cause@,
        FormatError::NotAnObject => "Cannot set 'version' in "@ + path
            + ": the JSON document is not an object"@,
        FormatError::NoVersionTag => "No <version> tag found in "@ + path,
        FormatError::NoVersionTagToUpdate => "No <version> tag found to update in "@ + path,
        FormatError::NoVersionGitTag =>
            "No git tag matching 'v*' found. Create an initial tag first (e.g. git tag v0.1.0)."@,
    }
}

impl FormatError {
    /// The message reported for this error about the file at `path`.
    /// `InvalidJson` reports its cause separately, below this message.
    pub fn message(&self, path: &str) -> (res: String)
        ensures
            res@ == format_error_text(*self, path@),
    {
        let (lead, with_path) = match self {
            FormatError::NoVersionField => ("No 'version' field in ", true),
            FormatError::InvalidJson(_) => ("Invalid JSON in ", true),
            FormatError::Json(cause) => {
                return cause.clone();
            },
            FormatError::NotAnObject => ("Cannot set 'version' in ", true),
            FormatError::NoVersionTag => ("No <version> tag found in ", true),
            FormatError::NoVersionTagToUpdate => ("No <version> tag found to update in ", true),
            FormatError::NoVersionGitTag => (
                "No git tag matching 'v*' found. Create an initial tag first (e.g. git tag v0.1.0).",
                false,
            ),
        };
        let mut out = lead.to_owned();
        if with_path {
            push_all(&mut out, path);
        }
        if let FormatError::NotAnObject = self {
            push_all(&mut out, ": the JSON document is not an object");
        }
        out
    }
}

/// A format that declares a version in a file's contents.
pub trait VersionFile {
    /// Whether the format can take a version written into `content`.
    spec fn writable(&self, content: Seq<char>) -> bool;

    /// The version declared in `content`.
    fn read_version(&self, content: &str) -> Result<String, FormatError>;

    /// `content` with its version replaced by `version`.
    fn write_version(&self, content: &str, version: &str) -> Result<String, FormatError>
        requires
            self.writable(content@),
    ;
}

/// The formats of configured version files.
#[derive(Debug, Clone, Copy, PartialEq, Eq, Structural)]
pub enum FileFormat {
    Json,
    Xml,
}

/// A configured version file: its path below the repository root and its
/// format.
pub struct VersionedFile {
    pub path: String,
    pub format: FileFormat,
}

/// The handler of a format.
pub enum Handler {
    Json(JsonVersionFile),
    Xml(XmlVersionFile),
}

/// The handler for each format.
pub fn get_handler(format: &FileFormat) -> (res: Handler)
    ensures
        *format == FileFormat::Json <==> res is Json,
        *format == FileFormat::Xml <==> res is Xml,
{
    match format {
        FileFormat::Json => Handler::Json(JsonVersionFile),
        FileFormat::Xml => Handler::Xml(XmlVersionFile),
    }
}

/// What reading a version of the given format from `content` may give.
pub open spec fn read_outcome(
    format: FileFormat,
    content: Seq<char>,
    res: Result<String, FormatError>,
) -> bool {
    match format {
        FileFormat::Json => json_read_outcome(content, res),
        FileFormat::Xml => xml_read_outcome(content, res),
    }
}

/// What writing `version` into `content` of the given format may give.
pub open spec fn write_outcome(
    format: FileFormat,
    content: Seq<char>,
    version: Seq<char>,
    res: Result<String, FormatError>,
) -> bool {
    match format {
        FileFormat::Json => if !json_writable(content) {
            res matches Err(FormatError::NotAnObject)
        } else {
            json_write_outcome(content, version, res)
        },
        FileFormat::Xml => xml_write_outcome(content, version, res),
    }
}

impl VersionFile for Handler {
    open spec fn writable(&self, content: Seq<char>) -> bool {
        match self {
            Handler::Json(h) => h.writable(content),
            Handler::Xml(h) => h.writable(content),
        }
    }

    fn read_version(&self, content: &str) -> (res: Result<String, FormatError>)
        ensures
            read_outcome(
                match self {
                    Handler::Json(_) => FileFormat::Json,
                    Handler::Xml(_) => FileFormat::Xml,
                },
                content@,
                res,
            ),
    {
        match self {
            Handler::Json(h) => h.read_version(content),
            Handler::Xml(h) => h.read_version(content),
        }
    }

    fn write_version(&self, content: &str, version: &str) -> (res: Result<String, FormatError>)
        ensures
            write_outcome(
                match self {
                    Handler::Json(_) => FileFormat::Json,
                    Handler::Xml(_) => FileFormat::Xml,
                },
                content@,
                version@,
                res,
            ),
    {
        match self {
            Handler::Json(h) => h.write_version(content, version),
            Handler::Xml(h) => h.write_version(content, version),
        }
    }
}

/// Two errors are the same error with the same text.
pub open spec fn same_error(a: FormatError, b: FormatError) -> bool {
    match (a, b) {
        (FormatError::NoVersionField, FormatError::NoVersionField) => true,
        (FormatError::InvalidJson(x), FormatError::InvalidJson(y)) => x@ == y@,
        (FormatError::Json(x), FormatError::Json(y)) => x@ == y@,
        (FormatError::NotAnObject, FormatError::NotAnObject) => true,
        (FormatError::NoVersionTag, FormatError::NoVersionTag) => true,
        (FormatError::NoVersionTagToUpdate, FormatError::NoVersionTagToUpdate) => true,
        (FormatError::NoVersionGitTag, FormatError::NoVersionGitTag) => true,
        _ => false,
    }
}

/// Two results report the same: the same text, or the same error.
pub open spec fn same_result(a: Result<String, FormatError>, b: Result<String, FormatError>) -> bool {
    match (a, b) {
        (Ok(x), Ok(y)) => x@ == y@,
        (Err(x), Err(y)) => same_error(x, y),
        _ => false,
    }
}

/// Reading is determined by the format and the content: any two results
/// allowed for the same content report the same. So the handler of a
/// format reads exactly as that format's own reader does, and
/// [`read_version`] exactly as the handler.
pub proof fn read_outcome_is_unique(
    format: FileFormat,
    content: Seq<char>,
    a: Result<String, FormatError>,
    b: Result<String, FormatError>,
)
    requires
        read_outcome(format, content, a),
        read_outcome(format, content, b),
    ensures
        same_result(a, b),
{
}

/// Writing is determined by the format, the content and the version: any
/// two results allowed for the same inputs report the same. So the handler
/// of a format writes exactly as that format's own writer does, and
/// [`write_version`] exactly as the handler.
pub proof fn write_outcome_is_unique(
    format: FileFormat,
    content: Seq<char>,
    version: Seq<char>,
    a: Result<String, FormatError>,
    b: Result<String, FormatError>,
)
    requires
        write_outcome(format, content, version, a),
        write_outcome(format, content, version, b),
    ensures
        same_result(a, b),
{
}

/// The version declared by a configured file, given its contents.
pub fn read_version(vf: &VersionedFile, content: &str) -> (res: Result<String, FormatError>)
    ensures
        read_outcome(vf.format, content@, res),
{
    let handler = get_handler(&vf.format);
    handler.read_version(content)
}

/// A configured file's contents with the version replaced. A JSON document
/// that is neither an object nor `null` cannot take a `version` member; it
/// is answered with `NotAnObject`.
pub fn write_version(vf: &VersionedFile, content: &str, version: &str) -> (res: Result<
    String,
    FormatError,
>)
    ensures
        write_outcome(vf.format, content@, version@, res),
{
    let handler = get_handler(&vf.format);
    if let FileFormat::Json = vf.format {
        if !json_accepts_version(content) {
            return Err(FormatError::NotAnObject);
        }
    }
    handler.write_version(content, version)
}

} // verus!
