//! YAML documents: reading one into a value, and the category of a failure.

use vstd::prelude::*;
use crate::error::HasOtherError;
use crate::fs::read::{read_error_message, FileReadError, FileReadErrorView};
use crate::text::{contains_text, join, lemma_middle_is_contained};

verus! {

/// A YAML document as serde_yaml holds it. Nothing is known of what is
/// inside.
#[verifier::external_type_specification]
#[verifier::external_body]
pub struct ExYamlValue(serde_yaml::Value);

/// The categories of a failed read of a YAML document.
#[derive(Debug, Clone, Copy, PartialEq, Eq, Structural)]
#[non_exhaustive]
pub enum YamlErrorKind {
    /// The parser refused the document.
    Syntax,
    /// The file could not be read; the error wraps the failure.
    Other,
}

/// A place in a YAML document: the index of a byte, and its line and column,
/// both counted from one.
#[derive(Debug, Clone, Copy, PartialEq, Eq, Structural)]
pub struct YamlLocation {
    pub index: usize,
    pub line: usize,
    pub column: usize,
}

/// What the parser reports of a document that it cannot read.
#[derive(Debug)]
pub struct YamlFailure {
    message: String,
    location: Option<YamlLocation>,
}

/// The mathematical content of a [`YamlFailure`].
pub struct YamlFailureView {
    pub message: Seq<char>,
    pub location: Option<YamlLocation>,
}

impl View for YamlFailure {
    type V = YamlFailureView;

    closed spec fn view(&self) -> YamlFailureView {
        YamlFailureView { message: self.message@, location: self.location }
    }
}

impl YamlFailure {
    /// A failure that the parser describes by `message` and places at
    /// `location`, where it knows the place.
    pub fn new(message: &str, location: Option<YamlLocation>) -> (failure: YamlFailure)
        ensures
            failure@ == (YamlFailureView { message: message@, location }),
    {
        YamlFailure { message: message.to_owned(), location }
    }
}

/// A failed read of a YAML document.
#[derive(Debug)]
pub struct YamlError(YamlErrorImpl);

#[derive(Debug)]
enum YamlErrorImpl {
    Syntax { failure: YamlFailure, path: String },
    Other(FileReadError),
}

/// The mathematical content of a [`YamlError`].
pub enum YamlErrorView {
    /// The parser refused the document at `path`.
    Syntax { failure: YamlFailureView, path: Seq<char> },
    /// The file could not be read.
    Other { cause: FileReadErrorView },
}

impl View for YamlError {
    type V = YamlErrorView;

    closed spec fn view(&self) -> YamlErrorView {
        match self.0 {
            YamlErrorImpl::Syntax { failure, path } => YamlErrorView::Syntax {
                failure: failure@,
                path: path@,
            },
            YamlErrorImpl::Other(cause) => YamlErrorView::Other { cause: cause@ },
        }
    }
}

/// The category of a failed read of a YAML document.
pub open spec fn yaml_error_kind(error: YamlErrorView) -> YamlErrorKind {
    match error {
        YamlErrorView::Syntax { .. } => YamlErrorKind::Syntax,
        YamlErrorView::Other { .. } => YamlErrorKind::Other,
    }
}

/// The text that a failed read of a YAML document shows to a user.
pub open spec fn yaml_error_message(error: YamlErrorView) -> Seq<char> {
    match error {
        YamlErrorView::Syntax { failure, path } => failure.message + " in "@ + path,
        YamlErrorView::Other { cause } => read_error_message(cause),
    }
}

/// What serde_yaml reports of `text` where it cannot read it as a YAML
/// document, and nothing where it can.
pub uninterp spec fn yaml_failure_of(text: Seq<char>) -> Option<YamlFailureView>;

/// `serde_yaml::from_str` at the type `serde_yaml::Value`, with `location`
/// and the `Display` text of the error that it may return. Whether the text
/// is refused, and with what report, depends on the text alone; the contract
/// gives the report the name [`yaml_failure_of`] and claims nothing else.
#[verifier::external_body]
fn parse_yaml(text: &str) -> (parsed: Result<serde_yaml::Value, YamlFailure>)
    ensures
        parsed.is_err() == yaml_failure_of(text@).is_some(),
        parsed matches Err(failure) ==> failure@ == yaml_failure_of(text@).unwrap(),
{
    match serde_yaml::from_str::<serde_yaml::Value>(text) {
        Ok(value) => Ok(value),
        Err(e) => {
            let location = match e.location() {
                Some(at) => Some(
                    YamlLocation { index: at.index(), line: at.line(), column: at.column() },
                ),
                None => None,
            };
            Err(YamlFailure { message: e.to_string(), location })
        },
    }
}

impl YamlError {
    /// The category of the error.
    pub fn kind(&self) -> (kind: YamlErrorKind)
        ensures
            kind == yaml_error_kind(self@),
    {
        match self.0 {
            YamlErrorImpl::Syntax { .. } => YamlErrorKind::Syntax,
            YamlErrorImpl::Other(_) => YamlErrorKind::Other,
        }
    }

    /// Whether the parser refused the document.
    pub fn is_syntax(&self) -> (yes: bool)
        ensures
            yes == (yaml_error_kind(self@) == YamlErrorKind::Syntax),
    {
        self.kind() == YamlErrorKind::Syntax
    }

    /// Whether the error wraps a failure to read the file.
    pub fn is_other(&self) -> (yes: bool)
        ensures
            yes == (yaml_error_kind(self@) == YamlErrorKind::Other),
    {
        self.kind() == YamlErrorKind::Other
    }

    /// Wraps `cause` untouched.
    pub fn other(cause: FileReadError) -> (error: YamlError)
        ensures
            error@ == (YamlErrorView::Other { cause: cause@ }),
    {
        YamlError(YamlErrorImpl::Other(cause))
    }

    /// The error that stands for `failure`, met in the document at `path`.
    pub fn convert(failure: YamlFailure, path: &str) -> (error: YamlError)
        ensures
            error@ == (YamlErrorView::Syntax { failure: failure@, path: path@ }),
    {
        YamlError(YamlErrorImpl::Syntax { failure, path: path.to_owned() })
    }

    /// The path of the document that the parser refused, unless the error
    /// wraps a failure to read the file.
    pub fn path(&self) -> (path: Option<&str>)
        ensures
            match self@ {
                YamlErrorView::Syntax { path: p, .. } => path matches Some(q) && q@ == p,
                YamlErrorView::Other { .. } => path is None,
            },
    {
        match &self.0 {
            YamlErrorImpl::Syntax { path, .. } => Some(path.as_str()),
            YamlErrorImpl::Other(_) => None,
        }
    }

    /// The place at which the parser stopped, where it reported one.
    pub fn location(&self) -> (place: Option<YamlLocation>)
        ensures
            place == match self@ {
                YamlErrorView::Syntax { failure, .. } => failure.location,
                YamlErrorView::Other { .. } => None,
            },
    {
        match &self.0 {
            YamlErrorImpl::Syntax { failure, .. } => failure.location,
            YamlErrorImpl::Other(_) => None,
        }
    }

    /// The text that the error shows to a user.
    pub fn message(&self) -> (text: String)
        ensures
            text@ == yaml_error_message(self@),
    {
        match &self.0 {
            YamlErrorImpl::Syntax { failure, path } => {
                let mut text = join(failure.message.as_str(), " in ");
                text.append(path.as_str());
                text
            },
            YamlErrorImpl::Other(cause) => cause.message(),
        }
    }
}

impl HasOtherError for YamlError {
    type Cause = FileReadError;

    closed spec fn wrapped(&self) -> Option<FileReadError> {
        match self.0 {
            YamlErrorImpl::Other(cause) => Some(cause),
            _ => None,
        }
    }

    fn is_other(&self) -> (other: bool)
        ensures
            other == (yaml_error_kind(self@) == YamlErrorKind::Other),
    {
        self.kind() == YamlErrorKind::Other
    }

    fn downcast_other_ref(&self) -> (cause: Option<&FileReadError>)
        ensures
            match self@ {
                YamlErrorView::Other { cause: wrapped } => cause matches Some(inner) && inner@ == wrapped,
                _ => cause is None,
            },
    {
        match &self.0 {
            YamlErrorImpl::Other(inner) => Some(inner),
            _ => None,
        }
    }
}

/// What reading `text` as the YAML document at `path` reports where the
/// parser refuses it.
pub open spec fn yaml_text_error(text: Seq<char>, path: Seq<char>) -> Option<YamlErrorView> {
    match yaml_failure_of(text) {
        Some(failure) => Some(YamlErrorView::Syntax { failure, path }),
        None => None,
    }
}

/// Reads `text`, the contents of the file at `path`, as a YAML document.
pub fn read_yaml_text(text: &str, path: &str) -> (document: Result<serde_yaml::Value, YamlError>)
    ensures
        document.is_err() == yaml_text_error(text@, path@).is_some(),
        document matches Err(error) ==> error@ == yaml_text_error(text@, path@).unwrap(),
{
    match parse_yaml(text) {
        Ok(value) => Ok(value),
        Err(failure) => Err(YamlError::convert(failure, path)),
    }
}

/// Reads the YAML document at `path`, given what reading the file as text
/// gave: a failed read is wrapped untouched, and a text that the parser
/// refuses is classified.
pub fn read_yaml_file(contents: Result<String, FileReadError>, path: &str) -> (document: Result<
    serde_yaml::Value,
    YamlError,
>)
    ensures
        match contents {
            Ok(text) => {
                &&& document.is_err() == yaml_text_error(text@, path@).is_some()
                &&& document matches Err(error) ==> error@ == yaml_text_error(
                    text@,
                    path@,
                ).unwrap()
            },
            Err(cause) => document matches Err(error) && error@ == (YamlErrorView::Other {
                cause: cause@,
            }),
        },
{
    match contents {
        Ok(text) => read_yaml_text(text.as_str(), path),
        Err(cause) => Err(YamlError::other(cause)),
    }
}

/// The message of an error that the parser raised contains the path of the
/// document.
pub proof fn lemma_yaml_error_message_names_path(error: YamlErrorView)
    ensures
        error matches YamlErrorView::Syntax { path, .. } ==> contains_text(
            yaml_error_message(error),
            path,
        ),
{
    if let YamlErrorView::Syntax { failure, path } = error {
        lemma_middle_is_contained(failure.message + " in "@, path, Seq::empty());
        assert(failure.message + " in "@ + path + Seq::<char>::empty() =~= failure.message
            + " in "@ + path);
    }
}

} // verus!
