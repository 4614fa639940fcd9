//! Creating and writing files without clobbering: the plan of a write and
//! the category of its failure.

use vstd::prelude::*;
use crate::error::HasOtherError;
use crate::fs::failure::{IoFailure, IoFailureKind, IoFailureView};
use crate::fs::paths::{parent, path_parent};
use crate::fs::store::{create_exclusive, create_or_truncate, holds, write_all, FileStore};
use crate::text::{contains_text, join, lemma_middle_is_contained};

verus! {

/// The categories of a failed write.
#[derive(Debug, Clone, Copy, PartialEq, Eq, Structural)]
#[non_exhaustive]
pub enum FileWriteErrorKind {
    /// A file stands at the path and was not to be overwritten.
    AlreadyExists,
    /// Any other failure; the error wraps it.
    Other,
}

/// A failed creation or write of the file at a path.
#[derive(Debug)]
pub struct FileWriteError(FileWriteErrorImpl);

#[derive(Debug)]
enum FileWriteErrorImpl {
    AlreadyExists(String),
    Other(IoFailure),
}

/// The mathematical content of a [`FileWriteError`].
pub enum FileWriteErrorView {
    /// A file stands at the path.
    AlreadyExists { path: Seq<char> },
    /// Another failure, kept as it was reported.
    Other { cause: IoFailureView },
}

impl View for FileWriteError {
    type V = FileWriteErrorView;

    closed spec fn view(&self) -> FileWriteErrorView {
        match self.0 {
            FileWriteErrorImpl::AlreadyExists(path) => FileWriteErrorView::AlreadyExists {
                path: path@,
            },
            FileWriteErrorImpl::Other(cause) => FileWriteErrorView::Other { cause: cause@ },
        }
    }
}

/// The category of a failed write.
pub open spec fn write_error_kind(error: FileWriteErrorView) -> FileWriteErrorKind {
    match error {
        FileWriteErrorView::AlreadyExists { .. } => FileWriteErrorKind::AlreadyExists,
        FileWriteErrorView::Other { .. } => FileWriteErrorKind::Other,
    }
}

/// The text that a failed write shows to a user.
pub open spec fn write_error_message(error: FileWriteErrorView) -> Seq<char> {
    match error {
        FileWriteErrorView::AlreadyExists { path } => "File "@ + path + " already exists"@,
        FileWriteErrorView::Other { cause } => cause.description,
    }
}

/// The error that stands for `failure`, met while creating or writing the
/// file at `path`.
pub open spec fn classify_write_failure(
    failure: IoFailureView,
    path: Seq<char>,
) -> FileWriteErrorView {
    if failure.kind == IoFailureKind::AlreadyExists {
        FileWriteErrorView::AlreadyExists { path }
    } else {
        FileWriteErrorView::Other { cause: failure }
    }
}

/// The two steps of a write at which a file operation can fail.
#[derive(Debug, Clone, Copy, PartialEq, Eq, Structural)]
pub enum WriteStage {
    /// Making the chain of directories above the file.
    Directories,
    /// Creating the file or writing to it.
    File,
}

/// The error that stands for `failure`, met at `stage` of a write to `path`.
/// A failure to make the directories is never given a category of its own.
pub open spec fn classify_write_failure_at(
    stage: WriteStage,
    failure: IoFailureView,
    path: Seq<char>,
) -> FileWriteErrorView {
    match stage {
        WriteStage::Directories => FileWriteErrorView::Other { cause: failure },
        WriteStage::File => classify_write_failure(failure, path),
    }
}

impl FileWriteError {
    /// The category of the error.
    pub fn kind(&self) -> (kind: FileWriteErrorKind)
        ensures
            kind == write_error_kind(self@),
    {
        match self.0 {
            FileWriteErrorImpl::AlreadyExists(_) => FileWriteErrorKind::AlreadyExists,
            FileWriteErrorImpl::Other(_) => FileWriteErrorKind::Other,
        }
    }

    /// Whether a file stood at the path and was not to be overwritten.
    pub fn is_already_exists(&self) -> (yes: bool)
        ensures
            yes == (write_error_kind(self@) == FileWriteErrorKind::AlreadyExists),
    {
        self.kind() == FileWriteErrorKind::AlreadyExists
    }

    /// Whether the error wraps another failure.
    pub fn is_other(&self) -> (yes: bool)
        ensures
            yes == (write_error_kind(self@) == FileWriteErrorKind::Other),
    {
        self.kind() == FileWriteErrorKind::Other
    }

    /// Wraps `cause` untouched.
    pub fn other(cause: IoFailure) -> (error: FileWriteError)
        ensures
            error@ == (FileWriteErrorView::Other { cause: cause@ }),
    {
        FileWriteError(FileWriteErrorImpl::Other(cause))
    }

    /// Classifies `failure`, met while creating or writing the file at
    /// `path`.
    pub fn convert(failure: IoFailure, path: &str) -> (error: FileWriteError)
        ensures
            error@ == classify_write_failure(failure@, path@),
    {
        match failure.kind() {
            IoFailureKind::AlreadyExists => FileWriteError(
                FileWriteErrorImpl::AlreadyExists(path.to_owned()),
            ),
            _ => Self::other(failure),
        }
    }

    /// Classifies `failure`, met at `stage` of a write to `path`.
    pub fn convert_at(stage: WriteStage, failure: IoFailure, path: &str) -> (error:
        FileWriteError)
        ensures
            error@ == classify_write_failure_at(stage, failure@, path@),
    {
        match stage {
            WriteStage::Directories => Self::other(failure),
            WriteStage::File => Self::convert(failure, path),
        }
    }

    /// The path at which a file stood, unless the error wraps another
    /// failure.
    pub fn path(&self) -> (path: Option<&str>)
        ensures
            match self@ {
                FileWriteErrorView::AlreadyExists { path: p } => path matches Some(q) && q@ == p,
                FileWriteErrorView::Other { .. } => path is None,
            },
    {
        match &self.0 {
            FileWriteErrorImpl::AlreadyExists(path) => Some(path.as_str()),
            FileWriteErrorImpl::Other(_) => None,
        }
    }

    /// The text that the error shows to a user.
    pub fn message(&self) -> (text: String)
        ensures
            text@ == write_error_message(self@),
    {
        match &self.0 {
            FileWriteErrorImpl::AlreadyExists(path) => {
                let mut text = join("File ", path.as_str());
                text.append(" already exists");
                text
            },
            FileWriteErrorImpl::Other(cause) => cause.description().to_owned(),
        }
    }
}

impl HasOtherError for FileWriteError {
    type Cause = IoFailure;

    closed spec fn wrapped(&self) -> Option<IoFailure> {
        match self.0 {
            FileWriteErrorImpl::Other(cause) => Some(cause),
            _ => None,
        }
    }

    fn is_other(&self) -> (other: bool)
        ensures
            other == (write_error_kind(self@) == FileWriteErrorKind::Other),
    {
        self.kind() == FileWriteErrorKind::Other
    }

    fn downcast_other_ref(&self) -> (cause: Option<&IoFailure>)
        ensures
            match self@ {
                FileWriteErrorView::Other { cause: wrapped } => cause matches Some(inner) && inner@ == wrapped,
                _ => cause is None,
            },
    {
        match &self.0 {
            FileWriteErrorImpl::Other(inner) => Some(inner),
            _ => None,
        }
    }
}

/// What a step of a write to `path` hands to its caller: what the file
/// system gave where the step succeeded, and the classified failure where it
/// did not.
pub fn write_outcome<T>(stage: WriteStage, outcome: Result<T, IoFailure>, path: &str) -> (written:
    Result<T, FileWriteError>)
    ensures
        match outcome {
            Ok(given) => written == Ok::<T, FileWriteError>(given),
            Err(failure) => written matches Err(error) && error@ == classify_write_failure_at(
                stage,
                failure@,
                path@,
            ),
        },
{
    match outcome {
        Ok(given) => Ok(given),
        Err(failure) => Err(FileWriteError::convert_at(stage, failure, path)),
    }
}

/// How the file of a write is opened.
#[derive(Debug, Clone, Copy, PartialEq, Eq, Structural)]
pub enum OpenMode {
    /// Create the file in one step, and fail if one stands there: no test for
    /// the file comes before the creation.
    CreateNew,
    /// Create the file, or empty the one that stands there.
    Truncate,
}

/// The mode in which a write opens its file.
pub open spec fn open_mode_for(overwrite: bool) -> OpenMode {
    if overwrite {
        OpenMode::Truncate
    } else {
        OpenMode::CreateNew
    }
}

/// The directory that has to exist before the file at `file_path` can be
/// created: its parent, or the path itself where it has none.
pub open spec fn directory_of(file_path: Seq<char>) -> Seq<char> {
    match path_parent(file_path) {
        Some(dir) => dir,
        None => file_path,
    }
}

/// What a safe creation or write of a file does, in order: make
/// `directory` with all that is missing above it, then open the file in
/// `mode`.
#[derive(Debug)]
pub struct WritePlan {
    directory: String,
    mode: OpenMode,
}

/// The mathematical content of a [`WritePlan`].
pub struct WritePlanView {
    pub directory: Seq<char>,
    pub mode: OpenMode,
}

impl View for WritePlan {
    type V = WritePlanView;

    closed spec fn view(&self) -> WritePlanView {
        WritePlanView { directory: self.directory@, mode: self.mode }
    }
}

/// The plan of a creation of the file at `path`.
pub open spec fn write_plan_for(path: Seq<char>, overwrite: bool) -> WritePlanView {
    WritePlanView { directory: directory_of(path), mode: open_mode_for(overwrite) }
}

impl WritePlan {
    /// Plans the creation of the file at `path`. With `overwrite` a file that
    /// stands there is emptied, without it the creation is to fail.
    pub fn new(path: &str, overwrite: bool) -> (plan: WritePlan)
        ensures
            plan@ == write_plan_for(path@, overwrite),
    {
        let directory = match parent(path) {
            Some(dir) => dir,
            None => path.to_owned(),
        };
        let mode = if overwrite {
            OpenMode::Truncate
        } else {
            OpenMode::CreateNew
        };
        WritePlan { directory, mode }
    }

    /// The directory to make first.
    pub fn directory(&self) -> (dir: &str)
        ensures
            dir@ == self@.directory,
    {
        self.directory.as_str()
    }

    /// The mode in which to open the file.
    pub fn mode(&self) -> (mode: OpenMode)
        ensures
            mode == self@.mode,
    {
        self.mode
    }
}

/// What a planned write of `contents` to `path` leaves of an idealised store,
/// and the error that it reports, if any. `description` is the text of the
/// refusal that an exclusive creation meets.
pub open spec fn safe_write_outcome(
    store: FileStore,
    path: Seq<char>,
    contents: Seq<u8>,
    overwrite: bool,
    description: Seq<char>,
) -> (FileStore, Option<FileWriteErrorView>) {
    match write_plan_for(path, overwrite).mode {
        OpenMode::Truncate => (write_all(create_or_truncate(store, path), path, contents), None),
        OpenMode::CreateNew => match create_exclusive(store, path) {
            Some(created) => (write_all(created, path, contents), None),
            None => (
                store,
                Some(
                    classify_write_failure_at(
                        WriteStage::File,
                        IoFailureView { kind: IoFailureKind::AlreadyExists, description },
                        path,
                    ),
                ),
            ),
        },
    }
}

/// A write without `overwrite` to a path where a file stands fails with the
/// category [`AlreadyExists`](FileWriteErrorKind::AlreadyExists) and leaves the
/// store as it was; the same write with `overwrite` succeeds and leaves
/// `contents` at the path and every other file as it was.
pub proof fn lemma_safe_write_respects_existing_file(
    store: FileStore,
    path: Seq<char>,
    contents: Seq<u8>,
    description: Seq<char>,
)
    requires
        holds(store, path),
    ensures
        safe_write_outcome(store, path, contents, false, description).0 == store,
        safe_write_outcome(store, path, contents, false, description).1 matches Some(error)
            && write_error_kind(error) == FileWriteErrorKind::AlreadyExists,
        safe_write_outcome(store, path, contents, true, description).1 is None,
        safe_write_outcome(store, path, contents, true, description).0 == store.insert(
            path,
            contents,
        ),
{
    assert(store.insert(path, Seq::empty()).insert(path, contents) =~= store.insert(
        path,
        contents,
    ));
}

/// A write to a path where no file stands succeeds with or without
/// `overwrite`, and leaves `contents` at the path and every other file as it
/// was.
pub proof fn lemma_safe_write_creates_missing_file(
    store: FileStore,
    path: Seq<char>,
    contents: Seq<u8>,
    overwrite: bool,
    description: Seq<char>,
)
    requires
        !holds(store, path),
    ensures
        safe_write_outcome(store, path, contents, overwrite, description) == (
            store.insert(path, contents),
            None::<FileWriteErrorView>,
        ),
{
    assert(store.insert(path, Seq::empty()).insert(path, contents) =~= store.insert(
        path,
        contents,
    ));
}

/// The message of an error that names a path contains that path.
pub proof fn lemma_write_error_message_names_path(error: FileWriteErrorView)
    ensures
        error matches FileWriteErrorView::AlreadyExists { path } ==> contains_text(
            write_error_message(error),
            path,
        ),
{
    if let FileWriteErrorView::AlreadyExists { path } = error {
        lemma_middle_is_contained("File "@, path, " already exists"@);
    }
}

} // verus!
