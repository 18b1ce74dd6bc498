//! The failures that the store reports, each with the context that a caller
//! needs to tell it from the others: a path, a key, or the offending token.

use vstd::prelude::*;
use vstd::std_specs::convert::FromSpecImpl;
use vstd::string::to_string_from_display_ensures;

verus! {

/// What went wrong in the file system, as far as the store tells causes
/// apart.
#[derive(Clone, Copy, Debug, PartialEq, Eq, Structural)]
pub enum IoKind {
    /// Nothing exists at the path.
    NotFound,
    /// The path exists and may not be used.
    PermissionDenied,
    /// What was read is not data of the expected kind.
    InvalidData,
    /// Any other failure.
    Other,
}

/// A failure of the file system: its kind and the system's own words.
#[derive(Clone, Debug, PartialEq, Eq)]
pub struct IoFailure {
    pub kind: IoKind,
    pub message: String,
}

/// The mathematical value of an [`IoFailure`].
pub struct IoFailureView {
    pub kind: IoKind,
    pub message: Seq<char>,
}

impl View for IoFailure {
    type V = IoFailureView;

    open spec fn view(&self) -> IoFailureView {
        IoFailureView { kind: self.kind, message: self.message@ }
    }
}

/// Why a line is no command.
#[derive(Clone, Debug, PartialEq, Eq)]
pub enum ParseError {
    /// The line holds no token.
    Empty,
    /// The first token, here in lower case, names no command.
    UnknownCommand(String),
    /// The command `command` takes `expected` arguments and got `found`.
    WrongArity { command: String, expected: &'static str, found: usize },
}

/// The mathematical value of a [`ParseError`].
pub enum ParseErrorView {
    Empty,
    UnknownCommand(Seq<char>),
    WrongArity { command: Seq<char>, expected: Seq<char>, found: nat },
}

impl View for ParseError {
    type V = ParseErrorView;

    open spec fn view(&self) -> ParseErrorView {
        match self {
            ParseError::Empty => ParseErrorView::Empty,
            ParseError::UnknownCommand(token) => ParseErrorView::UnknownCommand(token@),
            ParseError::WrongArity { command, expected, found } => ParseErrorView::WrongArity {
                command: command@,
                expected: expected@,
                found: *found as nat,
            },
        }
    }
}

/// A failure of the store.
#[allow(inconsistent_fields)]
#[derive(Clone, Debug, PartialEq, Eq)]
pub enum MyError {
    /// The file system failed at `path`, for another reason than a missing
    /// snapshot on loading.
    Io { path: String, source: IoFailure },
    /// The snapshot at `path` does not hold a mapping; `source` is the
    /// decoder's complaint.
    Parse { path: String, source: String },
    /// The mapping could not be encoded for `path`; `source` is the
    /// encoder's complaint.
    Serialize { path: String, source: String },
    /// The store holds nothing under `key`.
    NotFound { key: String },
    /// The line is no command.
    InvalidCommand(ParseError),
}

/// The mathematical value of a [`MyError`].
#[allow(inconsistent_fields)]
pub enum MyErrorView {
    Io { path: Seq<char>, source: IoFailureView },
    Parse { path: Seq<char>, source: Seq<char> },
    Serialize { path: Seq<char>, source: Seq<char> },
    NotFound { key: Seq<char> },
    InvalidCommand(ParseErrorView),
}

impl View for MyError {
    type V = MyErrorView;

    open spec fn view(&self) -> MyErrorView {
        match self {
            MyError::Io { path, source } => MyErrorView::Io { path: path@, source: source@ },
            MyError::Parse { path, source } => MyErrorView::Parse { path: path@, source: source@ },
            MyError::Serialize { path, source } => MyErrorView::Serialize {
                path: path@,
                source: source@,
            },
            MyError::NotFound { key } => MyErrorView::NotFound { key: key@ },
            MyError::InvalidCommand(error) => MyErrorView::InvalidCommand(error@),
        }
    }
}

impl From<ParseError> for MyError {
    fn from(error: ParseError) -> (r: MyError) {
        MyError::InvalidCommand(error)
    }
}

impl FromSpecImpl<ParseError> for MyError {
    open spec fn obeys_from_spec() -> bool {
        true
    }

    open spec fn from_spec(error: ParseError) -> MyError {
        MyError::InvalidCommand(error)
    }
}

/// The error type of `serde_json`. Nothing is known of a value of it but
/// the text that it prints as.
#[verifier::external_type_specification]
#[verifier::external_body]
pub struct ExJsonError(serde_json::Error);

/// A failure sorted by where it comes from, without a path or a key: the
/// file system, a text that could not be read as JSON, or data that is not
/// what it should be.
#[derive(Clone, Debug, PartialEq, Eq)]
pub enum KvError {
    /// The file system failed.
    Io(IoFailure),
    /// A text is not JSON; the decoder's complaint.
    Parse(String),
    /// The bytes were read and are not data of the expected kind.
    InvalidData { reason: String },
}

impl KvError {
    /// The failure that a complaint of the JSON decoder stands for: `Parse`,
    /// with the complaint as text.
    pub fn from_json(error: &serde_json::Error) -> (r: KvError)
        ensures
            match r {
                KvError::Parse(text) => to_string_from_display_ensures::<serde_json::Error>(
                    error,
                    text,
                ),
                _ => false,
            },
    {
        KvError::Parse(error.to_string())
    }
}

/// The type of a JSON value in `serde_json`. Nothing is known of a value
/// of it.
#[verifier::external_type_specification]
#[verifier::external_body]
pub struct ExJsonValue(serde_json::Value);

/// Whether `serde_json::from_str` reads a JSON value from `text`.
pub uninterp spec fn json_value(text: Seq<char>) -> bool;

/// `serde_json::from_str` at the type `serde_json::Value`. Whether it
/// succeeds depends on the text alone; the contract gives that the name
/// `json_value`, and says nothing of the value or of the error.
#[verifier::external_body]
fn value_from_json(text: &str) -> (r: Result<serde_json::Value, serde_json::Error>)
    ensures
        r is Ok <==> json_value(text@),
{
    serde_json::from_str::<serde_json::Value>(text)
}

/// The text that `parse_fail` reads.
pub open spec fn invalid_json() -> Seq<char> {
    "{ invalid json }"@
}

/// Reads a text that is no JSON, and reports the decoder's complaint as
/// `Parse`.
pub fn parse_fail() -> (r: Result<(), KvError>)
    ensures
        r is Ok <==> json_value(invalid_json()),
        r matches Err(error) ==> error is Parse,
{
    let value = "{ invalid json }";
    match value_from_json(value) {
        Ok(_) => Ok(()),
        Err(error) => Err(KvError::from_json(&error)),
    }
}

impl From<IoFailure> for KvError {
    /// A failure of the file system is `Io`, but for one of the kind
    /// `InvalidData`, which says that the data is at fault: that is
    /// `InvalidData`, with the system's words as the reason.
    fn from(error: IoFailure) -> (r: KvError) {
        match error.kind {
            IoKind::InvalidData => KvError::InvalidData { reason: error.message },
            _ => KvError::Io(error),
        }
    }
}

impl FromSpecImpl<IoFailure> for KvError {
    open spec fn obeys_from_spec() -> bool {
        true
    }

    open spec fn from_spec(error: IoFailure) -> KvError {
        if error.kind == IoKind::InvalidData {
            KvError::InvalidData { reason: error.message }
        } else {
            KvError::Io(error)
        }
    }
}

/// The mathematical value of a result, taken side by side.
pub open spec fn result_view<T: View, E: View>(r: Result<T, E>) -> Result<T::V, E::V> {
    match r {
        Ok(value) => Ok(value@),
        Err(error) => Err(error@),
    }
}

} // verus!
