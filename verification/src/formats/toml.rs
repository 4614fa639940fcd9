//! TOML documents: reading one into a value or into a document that can be
//! edited, and the category of a failure.

use vstd::prelude::*;
use crate::error::HasOtherError;
use crate::fs::read::{read_error_message, FileReadError, FileReadErrorView};
use crate::text::{contains_text, decimal, decimal_text, lemma_middle_is_contained};

verus! {

/// A TOML value as the toml crate holds it. Nothing is known of what is
/// inside.
#[verifier::external_type_specification]
#[verifier::external_body]
pub struct ExTomlValue(toml::Value);

/// A TOML document as toml_edit holds it, with its layout. Nothing is known
/// of what is inside.
#[verifier::external_type_specification]
#[verifier::external_body]
pub struct ExTomlDocument(toml_edit::DocumentMut);

/// The categories of a failed read of a TOML document.
#[derive(Debug, Clone, Copy, PartialEq, Eq, Structural)]
#[non_exhaustive]
pub enum TomlErrorKind {
    /// The parser refused the document.
    Syntax,
    /// The file could not be read; the error wraps the failure.
    Other,
}

/// A stretch of a TOML document: the indices of its first byte and of the
/// byte after its last.
#[derive(Debug, Clone, Copy, PartialEq, Eq, Structural)]
pub struct TomlSpan {
    pub start: usize,
    pub end: usize,
}

/// What a parser reports of a document that it cannot read.
#[derive(Debug)]
pub struct TomlFailure {
    message: String,
    span: Option<TomlSpan>,
}

/// The mathematical content of a [`TomlFailure`].
pub struct TomlFailureView {
    pub message: Seq<char>,
    pub span: Option<TomlSpan>,
}

impl View for TomlFailure {
    type V = TomlFailureView;

    closed spec fn view(&self) -> TomlFailureView {
        TomlFailureView { message: self.message@, span: self.span }
    }
}

impl TomlFailure {
    /// A failure that the parser describes by `message` and places at `span`,
    /// where it knows the place.
    pub fn new(message: &str, span: Option<TomlSpan>) -> (failure: TomlFailure)
        ensures
            failure@ == (TomlFailureView { message: message@, span }),
    {
        TomlFailure { message: message.to_owned(), span }
    }
}

/// A failed read of a TOML document.
#[derive(Debug)]
pub struct TomlError(TomlErrorImpl);

#[derive(Debug)]
enum TomlErrorImpl {
    Syntax { message: String, path: String, span: Option<TomlSpan> },
    Other(FileReadError),
}

/// The mathematical content of a [`TomlError`].
pub enum TomlErrorView {
    /// The parser refused the document at `path`; `message` is the text to
    /// show.
    Syntax { message: Seq<char>, path: Seq<char>, span: Option<TomlSpan> },
    /// The file could not be read.
    Other { cause: FileReadErrorView },
}

impl View for TomlError {
    type V = TomlErrorView;

    closed spec fn view(&self) -> TomlErrorView {
        match self.0 {
            TomlErrorImpl::Syntax { message, path, span } => TomlErrorView::Syntax {
                message: message@,
                path: path@,
                span,
            },
            TomlErrorImpl::Other(cause) => TomlErrorView::Other { cause: cause@ },
        }
    }
}

/// The category of a failed read of a TOML document.
pub open spec fn toml_error_kind(error: TomlErrorView) -> TomlErrorKind {
    match error {
        TomlErrorView::Syntax { .. } => TomlErrorKind::Syntax,
        TomlErrorView::Other { .. } => TomlErrorKind::Other,
    }
}

/// The text that a failed read of a TOML document shows to a user.
pub open spec fn toml_error_message(error: TomlErrorView) -> Seq<char> {
    match error {
        TomlErrorView::Syntax { message, .. } => message,
        TomlErrorView::Other { cause } => read_error_message(cause),
    }
}

/// The text to show for what the parser reported of the document at `path`:
/// the parser's words, the span where it gave one, and the path.
pub open spec fn toml_syntax_message(failure: TomlFailureView, path: Seq<char>) -> Seq<char> {
    match failure.span {
        Some(span) => failure.message + " at span "@ + decimal_text(span.start as nat) + ":"@
            + decimal_text(span.end as nat) + " in "@ + path,
        None => failure.message + " in "@ + path,
    }
}

/// The error that stands for what the parser reported of the document at
/// `path`.
pub open spec fn toml_syntax_error(failure: TomlFailureView, path: Seq<char>) -> TomlErrorView {
    TomlErrorView::Syntax {
        message: toml_syntax_message(failure, path),
        path,
        span: failure.span,
    }
}

/// What the toml crate reports of `text` where it cannot read it as a TOML
/// value, and nothing where it can.
pub uninterp spec fn toml_failure_of(text: Seq<char>) -> Option<TomlFailureView>;

/// What toml_edit reports of `text` where it cannot read it as a TOML
/// document, and nothing where it can.
pub uninterp spec fn toml_document_failure_of(text: Seq<char>) -> Option<TomlFailureView>;

/// `toml::from_str` at the type `toml::Value`, with `message` and `span` of
/// the error that it may return. Whether the text is refused, and with what
/// report, depends on the text alone; the contract gives the report the name
/// [`toml_failure_of`] and claims nothing else.
#[verifier::external_body]
fn parse_toml(text: &str) -> (parsed: Result<toml::Value, TomlFailure>)
    ensures
        parsed.is_err() == toml_failure_of(text@).is_some(),
        parsed matches Err(failure) ==> failure@ == toml_failure_of(text@).unwrap(),
{
    match toml::from_str::<toml::Value>(text) {
        Ok(value) => Ok(value),
        Err(e) => {
            let span = match e.span() {
                Some(range) => Some(TomlSpan { start: range.start, end: range.end }),
                None => None,
            };
            Err(TomlFailure { message: e.message().to_owned(), span })
        },
    }
}

/// `str::parse` at the type `toml_edit::DocumentMut`, with `message` and
/// `span` of the error that it may return. Whether the text is refused, and
/// with what report, depends on the text alone; the contract gives the report
/// the name [`toml_document_failure_of`] and claims nothing else.
#[verifier::external_body]
fn parse_toml_document(text: &str) -> (parsed: Result<toml_edit::DocumentMut, TomlFailure>)
    ensures
        parsed.is_err() == toml_document_failure_of(text@).is_some(),
        parsed matches Err(failure) ==> failure@ == toml_document_failure_of(text@).unwrap(),
{
    match text.parse::<toml_edit::DocumentMut>() {
        Ok(document) => Ok(document),
        Err(e) => {
            let span = match e.span() {
                Some(range) => Some(TomlSpan { start: range.start, end: range.end }),
                None => None,
            };
            Err(TomlFailure { message: e.message().to_owned(), span })
        },
    }
}

impl TomlError {
    /// The category of the error.
    pub fn kind(&self) -> (kind: TomlErrorKind)
        ensures
            kind == toml_error_kind(self@),
    {
        match self.0 {
            TomlErrorImpl::Syntax { .. } => TomlErrorKind::Syntax,
            TomlErrorImpl::Other(_) => TomlErrorKind::Other,
        }
    }

    /// Whether the parser refused the document.
    pub fn is_syntax(&self) -> (yes: bool)
        ensures
            yes == (toml_error_kind(self@) == TomlErrorKind::Syntax),
    {
        self.kind() == TomlErrorKind::Syntax
    }

    /// Whether the error wraps a failure to read the file.
    pub fn is_other(&self) -> (yes: bool)
        ensures
            yes == (toml_error_kind(self@) == TomlErrorKind::Other),
    {
        self.kind() == TomlErrorKind::Other
    }

    /// Wraps `cause` untouched.
    pub fn other(cause: FileReadError) -> (error: TomlError)
        ensures
            error@ == (TomlErrorView::Other { cause: cause@ }),
    {
        TomlError(TomlErrorImpl::Other(cause))
    }

    /// The error that stands for `failure`, met in the document at `path`.
    /// Its message names the span, where the parser gave one, and the path.
    pub fn convert(failure: &TomlFailure, path: &str) -> (error: TomlError)
        ensures
            error@ == toml_syntax_error(failure@, path@),
    {
        let mut message = failure.message.clone();
        if let Some(span) = failure.span {
            message.append(" at span ");
            message.append(decimal(span.start).as_str());
            message.append(":");
            message.append(decimal(span.end).as_str());
        }
        message.append(" in ");
        message.append(path);
        TomlError(TomlErrorImpl::Syntax { message, path: path.to_owned(), span: failure.span })
    }

    /// The path of the document that the parser refused, unless the error
    /// wraps a failure to read the file.
    pub fn path(&self) -> (path: Option<&str>)
        ensures
            match self@ {
                TomlErrorView::Syntax { path: p, .. } => path matches Some(q) && q@ == p,
                TomlErrorView::Other { .. } => path is None,
            },
    {
        match &self.0 {
            TomlErrorImpl::Syntax { path, .. } => Some(path.as_str()),
            TomlErrorImpl::Other(_) => None,
        }
    }

    /// The stretch of the document that the parser refused, where it
    /// reported one.
    pub fn span(&self) -> (span: Option<TomlSpan>)
        ensures
            span == match self@ {
                TomlErrorView::Syntax { span: s, .. } => s,
                TomlErrorView::Other { .. } => None,
            },
    {
        match &self.0 {
            TomlErrorImpl::Syntax { span, .. } => *span,
            TomlErrorImpl::Other(_) => None,
        }
    }

    /// The text that the error shows to a user.
    pub fn message(&self) -> (text: String)
        ensures
            text@ == toml_error_message(self@),
    {
        match &self.0 {
            TomlErrorImpl::Syntax { message, .. } => message.clone(),
            TomlErrorImpl::Other(cause) => cause.message(),
        }
    }
}

impl HasOtherError for TomlError {
    type Cause = FileReadError;

    closed spec fn wrapped(&self) -> Option<FileReadError> {
        match self.0 {
            TomlErrorImpl::Other(cause) => Some(cause),
            _ => None,
        }
    }

    fn is_other(&self) -> (other: bool)
        ensures
            other == (toml_error_kind(self@) == TomlErrorKind::Other),
    {
        self.kind() == TomlErrorKind::Other
    }

    fn downcast_other_ref(&self) -> (cause: Option<&FileReadError>)
        ensures
            match self@ {
                TomlErrorView::Other { cause: wrapped } => cause matches Some(inner) && inner@ == wrapped,
                _ => cause is None,
            },
    {
        match &self.0 {
            TomlErrorImpl::Other(inner) => Some(inner),
            _ => None,
        }
    }
}

/// What reading a text as the TOML document at `path` reports where the
/// parser refuses it with `failure`.
pub open spec fn toml_text_error(failure: Option<TomlFailureView>, path: Seq<char>) -> Option<
    TomlErrorView,
> {
    match failure {
        Some(met) => Some(toml_syntax_error(met, path)),
        None => None,
    }
}

/// Reads `text`, the contents of the file at `path`, as a TOML value.
pub fn read_toml_text(text: &str, path: &str) -> (document: Result<toml::Value, TomlError>)
    ensures
        document.is_err() == toml_failure_of(text@).is_some(),
        document matches Err(error) ==> error@ == toml_text_error(
            toml_failure_of(text@),
            path@,
        ).unwrap(),
{
    match parse_toml(text) {
        Ok(value) => Ok(value),
        Err(failure) => Err(TomlError::convert(&failure, path)),
    }
}

/// Reads `text`, the contents of the file at `path`, as a TOML document that
/// keeps its layout.
pub fn read_toml_text_edit(text: &str, path: &str) -> (document: Result<
    toml_edit::DocumentMut,
    TomlError,
>)
    ensures
        document.is_err() == toml_document_failure_of(text@).is_some(),
        document matches Err(error) ==> error@ == toml_text_error(
            toml_document_failure_of(text@),
            path@,
        ).unwrap(),
{
    match parse_toml_document(text) {
        Ok(value) => Ok(value),
        Err(failure) => Err(TomlError::convert(&failure, path)),
    }
}

/// Reads the TOML value at `path`, given what reading the file as text gave:
/// a failed read is wrapped untouched, and a text that the parser refuses is
/// classified.
pub fn read_toml_file(contents: Result<String, FileReadError>, path: &str) -> (document: Result<
    toml::Value,
    TomlError,
>)
    ensures
        match contents {
            Ok(text) => {
                &&& document.is_err() == toml_failure_of(text@).is_some()
                &&& document matches Err(error) ==> error@ == toml_text_error(
                    toml_failure_of(text@),
                    path@,
                ).unwrap()
            },
            Err(cause) => document matches Err(error) && error@ == (TomlErrorView::Other {
                cause: cause@,
            }),
        },
{
    match contents {
        Ok(text) => read_toml_text(text.as_str(), path),
        Err(cause) => Err(TomlError::other(cause)),
    }
}

/// Reads the TOML document at `path` with its layout, given what reading the
/// file as text gave: a failed read is wrapped untouched, and a text that the
/// parser refuses is classified.
pub fn read_toml_file_edit(contents: Result<String, FileReadError>, path: &str) -> (document:
    Result<toml_edit::DocumentMut, TomlError>)
    ensures
        match contents {
            Ok(text) => {
                &&& document.is_err() == toml_document_failure_of(text@).is_some()
                &&& document matches Err(error) ==> error@ == toml_text_error(
                    toml_document_failure_of(text@),
                    path@,
                ).unwrap()
            },
            Err(cause) => document matches Err(error) && error@ == (TomlErrorView::Other {
                cause: cause@,
            }),
        },
{
    match contents {
        Ok(text) => read_toml_text_edit(text.as_str(), path),
        Err(cause) => Err(TomlError::other(cause)),
    }
}

/// The message of an error that a parser raised contains the path of the
/// document.
pub proof fn lemma_toml_error_message_names_path(failure: TomlFailureView, path: Seq<char>)
    ensures
        contains_text(toml_error_message(toml_syntax_error(failure, path)), path),
{
    let before = match failure.span {
        Some(span) => failure.message + " at span "@ + decimal_text(span.start as nat) + ":"@
            + decimal_text(span.end as nat) + " in "@,
        None => failure.message + " in "@,
    };
    lemma_middle_is_contained(before, path, Seq::empty());
    assert(before + path + Seq::<char>::empty() =~= toml_syntax_message(failure, path));
}

} // verus!
