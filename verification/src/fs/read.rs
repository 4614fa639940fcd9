//! Failures to read a file, by category.

use vstd::prelude::*;
use crate::error::HasOtherError;
use crate::fs::failure::{IoFailure, IoFailureKind, IoFailureView};
use crate::text::{contains_text, join, lemma_middle_is_contained};

verus! {

/// The categories of a failed read.
#[derive(Debug, Clone, Copy, PartialEq, Eq, Structural)]
#[non_exhaustive]
pub enum FileReadErrorKind {
    /// The path names a directory.
    IsADirectory,
    /// The path names nothing.
    NotFound,
    /// Any other failure; the error wraps it.
    Other,
}

/// The family of platforms, by how each reports a read of a directory.
#[derive(Debug, Clone, Copy, PartialEq, Eq, Structural)]
pub enum Platform {
    /// Reports "permission denied"; the path has to be probed as well.
    Windows,
    /// Reports a category of its own.
    Posix,
}

/// A failed read of the file at a path.
#[derive(Debug)]
pub struct FileReadError(FileReadErrorImpl);

#[derive(Debug)]
enum FileReadErrorImpl {
    IsADirectory(String),
    NotFound(String),
    Other(IoFailure),
}

/// The mathematical content of a [`FileReadError`].
pub enum FileReadErrorView {
    /// The path names a directory.
    IsADirectory { path: Seq<char> },
    /// The path names nothing.
    NotFound { path: Seq<char> },
    /// Another failure, kept as it was reported.
    Other { cause: IoFailureView },
}

impl View for FileReadError {
    type V = FileReadErrorView;

    closed spec fn view(&self) -> FileReadErrorView {
        match self.0 {
            FileReadErrorImpl::IsADirectory(path) => FileReadErrorView::IsADirectory {
                path: path@,
            },
            FileReadErrorImpl::NotFound(path) => FileReadErrorView::NotFound { path: path@ },
            FileReadErrorImpl::Other(cause) => FileReadErrorView::Other { cause: cause@ },
        }
    }
}

/// The category of a failed read.
pub open spec fn read_error_kind(error: FileReadErrorView) -> FileReadErrorKind {
    match error {
        FileReadErrorView::IsADirectory { .. } => FileReadErrorKind::IsADirectory,
        FileReadErrorView::NotFound { .. } => FileReadErrorKind::NotFound,
        FileReadErrorView::Other { .. } => FileReadErrorKind::Other,
    }
}

/// The text that a failed read shows to a user.
pub open spec fn read_error_message(error: FileReadErrorView) -> Seq<char> {
    match error {
        FileReadErrorView::IsADirectory { path } => "File system object "@ + path
            + " is a directory not a file"@,
        FileReadErrorView::NotFound { path } => "File "@ + path + " not found"@,
        FileReadErrorView::Other { cause } => cause.description,
    }
}

/// Whether a failure of category `kind` says that the path names a directory.
/// `path_is_directory` is the result of probing the path, which only Windows
/// needs.
pub open spec fn reports_directory(
    platform: Platform,
    kind: IoFailureKind,
    path_is_directory: bool,
) -> bool {
    match platform {
        Platform::Windows => kind == IoFailureKind::PermissionDenied && path_is_directory,
        Platform::Posix => kind == IoFailureKind::IsADirectory,
    }
}

/// The error that stands for `failure`, met while reading `path`.
pub open spec fn classify_read_failure(
    platform: Platform,
    failure: IoFailureView,
    path: Seq<char>,
    path_is_directory: bool,
) -> FileReadErrorView {
    if reports_directory(platform, failure.kind, path_is_directory) {
        FileReadErrorView::IsADirectory { path }
    } else if failure.kind == IoFailureKind::NotFound {
        FileReadErrorView::NotFound { path }
    } else {
        FileReadErrorView::Other { cause: failure }
    }
}

impl Platform {
    /// Whether the path has to be probed for being a directory before a
    /// failure of category `kind` can be classified.
    pub fn needs_directory_probe(self, kind: IoFailureKind) -> (needed: bool)
        ensures
            needed == (self == Platform::Windows && kind == IoFailureKind::PermissionDenied),
            !needed ==> reports_directory(self, kind, true) == reports_directory(
                self,
                kind,
                false,
            ),
    {
        match self {
            Platform::Windows => match kind {
                IoFailureKind::PermissionDenied => true,
                _ => false,
            },
            Platform::Posix => false,
        }
    }

    /// Whether a failure of category `kind` says that the path names a
    /// directory, given the result of probing the path.
    pub fn is_is_a_directory(self, kind: IoFailureKind, path_is_directory: bool) -> (directory:
        bool)
        ensures
            directory == reports_directory(self, kind, path_is_directory),
    {
        match self {
            Platform::Windows => match kind {
                IoFailureKind::PermissionDenied => path_is_directory,
                _ => false,
            },
            Platform::Posix => match kind {
                IoFailureKind::IsADirectory => true,
                _ => false,
            },
        }
    }
}

impl FileReadError {
    /// The category of the error.
    pub fn kind(&self) -> (kind: FileReadErrorKind)
        ensures
            kind == read_error_kind(self@),
    {
        match self.0 {
            FileReadErrorImpl::IsADirectory(_) => FileReadErrorKind::IsADirectory,
            FileReadErrorImpl::NotFound(_) => FileReadErrorKind::NotFound,
            FileReadErrorImpl::Other(_) => FileReadErrorKind::Other,
        }
    }

    /// Whether the path names a directory.
    pub fn is_is_a_directory(&self) -> (yes: bool)
        ensures
            yes == (read_error_kind(self@) == FileReadErrorKind::IsADirectory),
    {
        self.kind() == FileReadErrorKind::IsADirectory
    }

    /// Whether the path names nothing.
    pub fn is_not_found(&self) -> (yes: bool)
        ensures
            yes == (read_error_kind(self@) == FileReadErrorKind::NotFound),
    {
        self.kind() == FileReadErrorKind::NotFound
    }

    /// Whether the error wraps another failure.
    pub fn is_other(&self) -> (yes: bool)
        ensures
            yes == (read_error_kind(self@) == FileReadErrorKind::Other),
    {
        self.kind() == FileReadErrorKind::Other
    }

    /// Wraps `cause` untouched.
    pub fn other(cause: IoFailure) -> (error: FileReadError)
        ensures
            error@ == (FileReadErrorView::Other { cause: cause@ }),
    {
        FileReadError(FileReadErrorImpl::Other(cause))
    }

    /// Classifies `failure`, met while reading `path`. `path_is_directory` is
    /// the result of probing the path where
    /// [`needs_directory_probe`](Platform::needs_directory_probe) asks for it,
    /// and is not looked at elsewhere.
    pub fn convert(
        platform: Platform,
        failure: IoFailure,
        path: &str,
        path_is_directory: bool,
    ) -> (error: FileReadError)
        ensures
            error@ == classify_read_failure(platform, failure@, path@, path_is_directory),
    {
        let kind = failure.kind();
        if platform.is_is_a_directory(kind, path_is_directory) {
            return FileReadError(FileReadErrorImpl::IsADirectory(path.to_owned()));
        }
        if kind == IoFailureKind::NotFound {
            return FileReadError(FileReadErrorImpl::NotFound(path.to_owned()));
        }
        Self::other(failure)
    }

    /// The path that could not be read, unless the error wraps another
    /// failure.
    pub fn path(&self) -> (path: Option<&str>)
        ensures
            match self@ {
                FileReadErrorView::IsADirectory { path: p } => path matches Some(q) && q@ == p,
                FileReadErrorView::NotFound { path: p } => path matches Some(q) && q@ == p,
                FileReadErrorView::Other { .. } => path is None,
            },
    {
        match &self.0 {
            FileReadErrorImpl::IsADirectory(path) => Some(path.as_str()),
            FileReadErrorImpl::NotFound(path) => Some(path.as_str()),
            FileReadErrorImpl::Other(_) => None,
        }
    }

    /// The text that the error shows to a user.
    pub fn message(&self) -> (text: String)
        ensures
            text@ == read_error_message(self@),
    {
        match &self.0 {
            FileReadErrorImpl::IsADirectory(path) => {
                let mut text = join("File system object ", path.as_str());
                text.append(" is a directory not a file");
                text
            },
            FileReadErrorImpl::NotFound(path) => {
                let mut text = join("File ", path.as_str());
                text.append(" not found");
                text
            },
            FileReadErrorImpl::Other(cause) => cause.description().to_owned(),
        }
    }
}

impl HasOtherError for FileReadError {
    type Cause = IoFailure;

    closed spec fn wrapped(&self) -> Option<IoFailure> {
        match self.0 {
            FileReadErrorImpl::Other(cause) => Some(cause),
            _ => None,
        }
    }

    fn is_other(&self) -> (other: bool)
        ensures
            other == (read_error_kind(self@) == FileReadErrorKind::Other),
    {
        self.kind() == FileReadErrorKind::Other
    }

    fn downcast_other_ref(&self) -> (cause: Option<&IoFailure>)
        ensures
            match self@ {
                FileReadErrorView::Other { cause: wrapped } => cause matches Some(inner) && inner@ == wrapped,
                _ => cause is None,
            },
    {
        match &self.0 {
            FileReadErrorImpl::Other(inner) => Some(inner),
            _ => None,
        }
    }
}

/// What a read of the file at `path` hands to its caller: the contents where
/// the file system gave them, and the classified failure where it did not.
/// `path_is_directory` is the result of probing the path where
/// [`needs_directory_probe`](Platform::needs_directory_probe) asks for it.
pub fn read_outcome<T>(
    outcome: Result<T, IoFailure>,
    path: &str,
    platform: Platform,
    path_is_directory: bool,
) -> (read: Result<T, FileReadError>)
    ensures
        match outcome {
            Ok(contents) => read == Ok::<T, FileReadError>(contents),
            Err(failure) => read matches Err(error) && error@ == classify_read_failure(
                platform,
                failure@,
                path@,
                path_is_directory,
            ),
        },
{
    match outcome {
        Ok(contents) => Ok(contents),
        Err(failure) => Err(FileReadError::convert(platform, failure, path, path_is_directory)),
    }
}

/// What a read of the whole file at `path` as text hands to its caller, given
/// what the file system gave.
pub fn read_text_file(
    outcome: Result<String, IoFailure>,
    path: &str,
    platform: Platform,
    path_is_directory: bool,
) -> (read: Result<String, FileReadError>)
    ensures
        match outcome {
            Ok(contents) => read == Ok::<String, FileReadError>(contents),
            Err(failure) => read matches Err(error) && error@ == classify_read_failure(
                platform,
                failure@,
                path@,
                path_is_directory,
            ),
        },
{
    read_outcome(outcome, path, platform, path_is_directory)
}

/// What a read of the whole file at `path` as bytes hands to its caller,
/// given what the file system gave.
pub fn read_bytes(
    outcome: Result<Vec<u8>, IoFailure>,
    path: &str,
    platform: Platform,
    path_is_directory: bool,
) -> (read: Result<Vec<u8>, FileReadError>)
    ensures
        match outcome {
            Ok(contents) => read == Ok::<Vec<u8>, FileReadError>(contents),
            Err(failure) => read matches Err(error) && error@ == classify_read_failure(
                platform,
                failure@,
                path@,
                path_is_directory,
            ),
        },
{
    read_outcome(outcome, path, platform, path_is_directory)
}

/// The message of an error that names a path contains that path.
pub proof fn lemma_read_error_message_names_path(error: FileReadErrorView)
    ensures
        error matches FileReadErrorView::IsADirectory { path } ==> contains_text(
            read_error_message(error),
            path,
        ),
        error matches FileReadErrorView::NotFound { path } ==> contains_text(
            read_error_message(error),
            path,
        ),
{
    match error {
        FileReadErrorView::IsADirectory { path } => {
            lemma_middle_is_contained("File system object "@, path, " is a directory not a file"@);
        },
        FileReadErrorView::NotFound { path } => {
            lemma_middle_is_contained("File "@, path, " not found"@);
        },
        FileReadErrorView::Other { .. } => {},
    }
}

} // verus!
