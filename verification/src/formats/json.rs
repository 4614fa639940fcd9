//! JSON documents: reading one into a value, and the category of a failure.

use serde_json::error::Category;
use vstd::prelude::*;
use crate::error::HasOtherError;
use crate::fs::read::{read_error_message, FileReadError, FileReadErrorView};
use crate::text::{contains_text, join, lemma_middle_is_contained};

verus! {

/// A JSON document as serde_json holds it. Nothing is known of what is
/// inside.
#[verifier::external_type_specification]
#[verifier::external_body]
pub struct ExJsonValue(serde_json::Value);

/// The categories of a failed read of a JSON document.
#[derive(Debug, Clone, Copy, PartialEq, Eq, Structural)]
#[non_exhaustive]
pub enum JsonErrorKind {
    /// The document is valid JSON of the wrong shape.
    Data,
    /// The document ends too early.
    Eof,
    /// The bytes of the document could not be read.
    Io,
    /// The document is not valid JSON.
    Syntax,
    /// The file could not be read; the error wraps the failure.
    Other,
}

/// The categories into which the parser sorts its failures.
#[derive(Debug, Clone, Copy, PartialEq, Eq, Structural)]
pub enum JsonCategory {
    /// Valid JSON of the wrong shape.
    Data,
    /// An unexpected end of the input.
    Eof,
    /// A failure to read or write bytes.
    Io,
    /// Input that is not valid JSON.
    Syntax,
}

/// What the parser reports of a document that it cannot read.
#[derive(Debug)]
pub struct JsonFailure {
    category: JsonCategory,
    message: String,
    line: usize,
    column: usize,
}

/// The mathematical content of a [`JsonFailure`].
pub struct JsonFailureView {
    pub category: JsonCategory,
    pub message: Seq<char>,
    pub line: nat,
    pub column: nat,
}

impl View for JsonFailure {
    type V = JsonFailureView;

    closed spec fn view(&self) -> JsonFailureView {
        JsonFailureView {
            category: self.category,
            message: self.message@,
            line: self.line as nat,
            column: self.column as nat,
        }
    }
}

impl JsonFailure {
    /// A failure of `category` that the parser describes by `message` and
    /// places at `line` and `column`.
    pub fn new(category: JsonCategory, message: &str, line: usize, column: usize) -> (failure:
        JsonFailure)
        ensures
            failure@ == (JsonFailureView {
                category,
                message: message@,
                line: line as nat,
                column: column as nat,
            }),
    {
        JsonFailure { category, message: message.to_owned(), line, column }
    }
}

/// A failed read of a JSON document.
#[derive(Debug)]
pub struct JsonError(JsonErrorImpl);

#[derive(Debug)]
enum JsonErrorImpl {
    Parse { failure: JsonFailure, path: String },
    Other(FileReadError),
}

/// The mathematical content of a [`JsonError`].
pub enum JsonErrorView {
    /// The parser refused the document at `path`.
    Parse { failure: JsonFailureView, path: Seq<char> },
    /// The file could not be read.
    Other { cause: FileReadErrorView },
}

impl View for JsonError {
    type V = JsonErrorView;

    closed spec fn view(&self) -> JsonErrorView {
        match self.0 {
            JsonErrorImpl::Parse { failure, path } => JsonErrorView::Parse {
                failure: failure@,
                path: path@,
            },
            JsonErrorImpl::Other(cause) => JsonErrorView::Other { cause: cause@ },
        }
    }
}

/// The category of a failed read of a JSON document.
pub open spec fn json_error_kind(error: JsonErrorView) -> JsonErrorKind {
    match error {
        JsonErrorView::Parse { failure, .. } => match failure.category {
            JsonCategory::Data => JsonErrorKind::Data,
            JsonCategory::Eof => JsonErrorKind::Eof,
            JsonCategory::Io => JsonErrorKind::Io,
            JsonCategory::Syntax => JsonErrorKind::Syntax,
        },
        JsonErrorView::Other { .. } => JsonErrorKind::Other,
    }
}

/// The text that a failed read of a JSON document shows to a user.
pub open spec fn json_error_message(error: JsonErrorView) -> Seq<char> {
    match error {
        JsonErrorView::Parse { failure, path } => failure.message + " in "@ + path,
        JsonErrorView::Other { cause } => read_error_message(cause),
    }
}

/// What serde_json reports of `text` where it cannot read it as a JSON
/// document, and nothing where it can.
pub uninterp spec fn json_failure_of(text: Seq<char>) -> Option<JsonFailureView>;

/// `serde_json::from_str` at the type `serde_json::Value`, with `classify`,
/// `line`, `column` and the `Display` text of the error that it may return.
/// Whether the text is refused, and with what report, depends on the text
/// alone; the contract gives the report the name [`json_failure_of`] and
/// claims nothing else.
#[verifier::external_body]
fn parse_json(text: &str) -> (parsed: Result<serde_json::Value, JsonFailure>)
    ensures
        parsed.is_err() == json_failure_of(text@).is_some(),
        parsed matches Err(failure) ==> failure@ == json_failure_of(text@).unwrap(),
{
    match serde_json::from_str::<serde_json::Value>(text) {
        Ok(value) => Ok(value),
        Err(e) => {
            let category = match e.classify() {
                Category::Data => JsonCategory::Data,
                Category::Eof => JsonCategory::Eof,
                Category::Io => JsonCategory::Io,
                Category::Syntax => JsonCategory::Syntax,
            };
            Err(JsonFailure { category, message: e.to_string(), line: e.line(), column: e.column() })
        },
    }
}

impl JsonError {
    /// The category of the error.
    pub fn kind(&self) -> (kind: JsonErrorKind)
        ensures
            kind == json_error_kind(self@),
    {
        match &self.0 {
            JsonErrorImpl::Parse { failure, .. } => match failure.category {
                JsonCategory::Data => JsonErrorKind::Data,
                JsonCategory::Eof => JsonErrorKind::Eof,
                JsonCategory::Io => JsonErrorKind::Io,
                JsonCategory::Syntax => JsonErrorKind::Syntax,
            },
            JsonErrorImpl::Other(_) => JsonErrorKind::Other,
        }
    }

    /// Whether the document is valid JSON of the wrong shape.
    pub fn is_data(&self) -> (yes: bool)
        ensures
            yes == (json_error_kind(self@) == JsonErrorKind::Data),
    {
        self.kind() == JsonErrorKind::Data
    }

    /// Whether the document ends too early.
    pub fn is_eof(&self) -> (yes: bool)
        ensures
            yes == (json_error_kind(self@) == JsonErrorKind::Eof),
    {
        self.kind() == JsonErrorKind::Eof
    }

    /// Whether the bytes of the document could not be read.
    pub fn is_io(&self) -> (yes: bool)
        ensures
            yes == (json_error_kind(self@) == JsonErrorKind::Io),
    {
        self.kind() == JsonErrorKind::Io
    }

    /// Whether the document is not valid JSON.
    pub fn is_syntax(&self) -> (yes: bool)
        ensures
            yes == (json_error_kind(self@) == JsonErrorKind::Syntax),
    {
        self.kind() == JsonErrorKind::Syntax
    }

    /// Whether the error wraps a failure to read the file.
    pub fn is_other(&self) -> (yes: bool)
        ensures
            yes == (json_error_kind(self@) == JsonErrorKind::Other),
    {
        self.kind() == JsonErrorKind::Other
    }

    /// Wraps `cause` untouched.
    pub fn other(cause: FileReadError) -> (error: JsonError)
        ensures
            error@ == (JsonErrorView::Other { cause: cause@ }),
    {
        JsonError(JsonErrorImpl::Other(cause))
    }

    /// The error that stands for `failure`, met in the document at `path`.
    pub fn convert(failure: JsonFailure, path: &str) -> (error: JsonError)
        ensures
            error@ == (JsonErrorView::Parse { failure: failure@, path: path@ }),
    {
        JsonError(JsonErrorImpl::Parse { failure, path: path.to_owned() })
    }

    /// The path of the document that the parser refused, unless the error
    /// wraps a failure to read the file.
    pub fn path(&self) -> (path: Option<&str>)
        ensures
            match self@ {
                JsonErrorView::Parse { path: p, .. } => path matches Some(q) && q@ == p,
                JsonErrorView::Other { .. } => path is None,
            },
    {
        match &self.0 {
            JsonErrorImpl::Parse { path, .. } => Some(path.as_str()),
            JsonErrorImpl::Other(_) => None,
        }
    }

    /// The line and the column at which the parser stopped, unless the error
    /// wraps a failure to read the file.
    pub fn location(&self) -> (place: Option<(usize, usize)>)
        ensures
            match self@ {
                JsonErrorView::Parse { failure, .. } => place matches Some(at) && at.0
                    == failure.line && at.1 == failure.column,
                JsonErrorView::Other { .. } => place is None,
            },
    {
        match &self.0 {
            JsonErrorImpl::Parse { failure, .. } => Some((failure.line, failure.column)),
            JsonErrorImpl::Other(_) => None,
        }
    }

    /// The text that the error shows to a user.
    pub fn message(&self) -> (text: String)
        ensures
            text@ == json_error_message(self@),
    {
        match &self.0 {
            JsonErrorImpl::Parse { failure, path } => {
                let mut text = join(failure.message.as_str(), " in ");
                text.append(path.as_str());
                text
            },
            JsonErrorImpl::Other(cause) => cause.message(),
        }
    }
}

impl HasOtherError for JsonError {
    type Cause = FileReadError;

    closed spec fn wrapped(&self) -> Option<FileReadError> {
        match self.0 {
            JsonErrorImpl::Other(cause) => Some(cause),
            _ => None,
        }
    }

    fn is_other(&self) -> (other: bool)
        ensures
            other == (json_error_kind(self@) == JsonErrorKind::Other),
    {
        self.kind() == JsonErrorKind::Other
    }

    fn downcast_other_ref(&self) -> (cause: Option<&FileReadError>)
        ensures
            match self@ {
                JsonErrorView::Other { cause: wrapped } => cause matches Some(inner) && inner@ == wrapped,
                _ => cause is None,
            },
    {
        match &self.0 {
            JsonErrorImpl::Other(inner) => Some(inner),
            _ => None,
        }
    }
}

/// What reading `text` as the JSON document at `path` reports where the
/// parser refuses it.
pub open spec fn json_text_error(text: Seq<char>, path: Seq<char>) -> Option<JsonErrorView> {
    match json_failure_of(text) {
        Some(failure) => Some(JsonErrorView::Parse { failure, path }),
        None => None,
    }
}

/// Reads `text`, the contents of the file at `path`, as a JSON document.
pub fn read_json_text(text: &str, path: &str) -> (document: Result<serde_json::Value, JsonError>)
    ensures
        document.is_err() == json_text_error(text@, path@).is_some(),
        document matches Err(error) ==> error@ == json_text_error(text@, path@).unwrap(),
{
    match parse_json(text) {
        Ok(value) => Ok(value),
        Err(failure) => Err(JsonError::convert(failure, path)),
    }
}

/// Reads the JSON document at `path`, given what reading the file as text
/// gave: a failed read is wrapped untouched, and a text that the parser
/// refuses is classified.
pub fn read_json_file(contents: Result<String, FileReadError>, path: &str) -> (document: Result<
    serde_json::Value,
    JsonError,
>)
    ensures
        match contents {
            Ok(text) => {
                &&& document.is_err() == json_text_error(text@, path@).is_some()
                &&& document matches Err(error) ==> error@ == json_text_error(
                    text@,
                    path@,
                ).unwrap()
            },
            Err(cause) => document matches Err(error) && error@ == (JsonErrorView::Other {
                cause: cause@,
            }),
        },
{
    match contents {
        Ok(text) => read_json_text(text.as_str(), path),
        Err(cause) => Err(JsonError::other(cause)),
    }
}

/// The message of an error that the parser raised contains the path of the
/// document.
pub proof fn lemma_json_error_message_names_path(error: JsonErrorView)
    ensures
        error matches JsonErrorView::Parse { path, .. } ==> contains_text(
            json_error_message(error),
            path,
        ),
{
    if let JsonErrorView::Parse { failure, path } = error {
        lemma_middle_is_contained(failure.message + " in "@, path, Seq::empty());
        assert(failure.message + " in "@ + path + Seq::<char>::empty() =~= failure.message
            + " in "@ + path);
    }
}

} // verus!
