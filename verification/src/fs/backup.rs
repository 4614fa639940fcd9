//! Backups under names that no file has yet: the name of a backup, and what
//! to do after each attempt to create it.
//!
//! A backup is made in steps. The caller tries to create the candidate file
//! exclusively and reports the outcome; the library answers with the next
//! step: another candidate, the copy that completes the backup, or the
//! failure to give up with. The exclusive creation alone decides whether a
//! name is free; no test for the file comes before it.

use vstd::prelude::*;
use crate::fs::failure::{IoFailure, IoFailureKind, IoFailureView};
use crate::fs::paths::{
    file_name_safe_timestamp, file_stem, is_absolute, label_file_name, labelled_path,
    path_file_stem, path_is_absolute, safe_timestamp_text, Timestamp,
};
use crate::fs::store::{copy, create_exclusive, holds, FileStore};

verus! {

/// Whether a backup of `path` can be named: `path` is absolute and has a
/// file name.
pub open spec fn can_back_up(path: Seq<char>) -> bool {
    path_is_absolute(path) && path_file_stem(path).is_some()
}

/// The name under which `path` is backed up at the instant `millis`: the
/// label of the instant comes before the extension.
pub open spec fn backup_candidate(path: Seq<char>, millis: int) -> Seq<char> {
    labelled_path(path, safe_timestamp_text(millis)).unwrap()
}

/// A backup under way: the file to back up and the name to try next.
#[derive(Debug)]
pub struct Backup {
    source: String,
    candidate: String,
}

/// The mathematical content of a [`Backup`].
pub struct BackupView {
    pub source: Seq<char>,
    pub candidate: Seq<char>,
}

impl View for Backup {
    type V = BackupView;

    closed spec fn view(&self) -> BackupView {
        BackupView { source: self.source@, candidate: self.candidate@ }
    }
}

/// What to do after an attempt to create the candidate.
#[derive(Debug)]
pub enum BackupStep {
    /// The name was taken: try to create the new candidate.
    Retry(Backup),
    /// The placeholder stands: copy the bytes of `from` into `to`, which is
    /// then the backup.
    Copy { from: String, to: String },
    /// The creation failed for another reason: give up with it.
    Fail(IoFailure),
}

/// The mathematical content of a [`BackupStep`].
pub enum BackupStepView {
    Retry(BackupView),
    Copy { from: Seq<char>, to: Seq<char> },
    Fail(IoFailureView),
}

impl View for BackupStep {
    type V = BackupStepView;

    open spec fn view(&self) -> BackupStepView {
        match self {
            BackupStep::Retry(backup) => BackupStepView::Retry(backup@),
            BackupStep::Copy { from, to } => BackupStepView::Copy { from: from@, to: to@ },
            BackupStep::Fail(failure) => BackupStepView::Fail(failure@),
        }
    }
}

/// The failure of an attempt, or nothing for a success.
pub open spec fn failure_of(outcome: Result<(), IoFailure>) -> Option<IoFailureView> {
    match outcome {
        Ok(_) => None,
        Err(failure) => Some(failure@),
    }
}

/// The step that follows an attempt to create the candidate of `backup`.
/// `failure` is what the attempt met, and `millis` the instant that labels a
/// new candidate.
pub open spec fn backup_step(
    backup: BackupView,
    failure: Option<IoFailureView>,
    millis: int,
) -> BackupStepView {
    match failure {
        None => BackupStepView::Copy { from: backup.source, to: backup.candidate },
        Some(met) => if met.kind == IoFailureKind::AlreadyExists {
            BackupStepView::Retry(
                BackupView {
                    source: backup.source,
                    candidate: backup_candidate(backup.source, millis),
                },
            )
        } else {
            BackupStepView::Fail(met)
        },
    }
}

/// Names the backup of `path` at the instant `dt`.
pub fn generate_backup_path(path: &str, dt: &Timestamp) -> (candidate: String)
    requires
        can_back_up(path@),
    ensures
        candidate@ == backup_candidate(path@, dt@),
{
    let label = file_name_safe_timestamp(dt);
    match label_file_name(path, label.as_str()) {
        Some(candidate) => candidate,
        None => vstd::pervasive::unreached(),
    }
}

/// Starts a backup of `path`. The first candidate is labelled with `now`, or
/// with the current instant where `now` is nothing.
pub fn safe_back_up_inner(path: &str, now: Option<Timestamp>) -> (backup: Backup)
    requires
        can_back_up(path@),
    ensures
        backup@.source == path@,
        now matches Some(dt) ==> backup@.candidate == backup_candidate(path@, dt@),
        now is None ==> exists|millis: int| backup@.candidate == backup_candidate(path@, millis),
{
    let dt = match now {
        Some(dt) => dt,
        None => Timestamp::now(),
    };
    let backup = Backup { source: path.to_owned(), candidate: generate_backup_path(path, &dt) };
    assert(backup@.candidate == backup_candidate(path@, dt@));
    backup
}

/// Starts a backup of `path`, with a first candidate that is labelled with
/// the current instant.
pub fn safe_back_up(path: &str) -> (backup: Backup)
    requires
        can_back_up(path@),
    ensures
        backup@.source == path@,
        exists|millis: int| backup@.candidate == backup_candidate(path@, millis),
{
    safe_back_up_inner(path, None)
}

/// Starts a backup of `path` where one can be named, and returns nothing
/// where `path` is not absolute or has no file name.
pub fn try_safe_back_up(path: &str, now: Option<Timestamp>) -> (backup: Option<Backup>)
    ensures
        backup.is_some() == can_back_up(path@),
        backup matches Some(started) ==> {
            &&& started@.source == path@
            &&& now matches Some(dt) ==> started@.candidate == backup_candidate(path@, dt@)
            &&& now is None ==> exists|millis: int|
                started@.candidate == backup_candidate(path@, millis)
        },
{
    if !is_absolute(path) {
        return None;
    }
    if file_stem(path).is_none() {
        return None;
    }
    Some(safe_back_up_inner(path, now))
}

impl Backup {
    #[verifier::type_invariant]
    spec fn nameable(self) -> bool {
        can_back_up(self.source@)
    }

    /// The file that is backed up.
    pub fn source(&self) -> (path: &str)
        ensures
            path@ == self@.source,
    {
        self.source.as_str()
    }

    /// The name to create exclusively.
    pub fn candidate(&self) -> (path: &str)
        ensures
            path@ == self@.candidate,
    {
        self.candidate.as_str()
    }

    /// Decides what follows the attempt to create the candidate. `outcome` is
    /// what the attempt met, and `now` labels the candidate of a retry.
    pub fn resolve(self, outcome: Result<(), IoFailure>, now: &Timestamp) -> (step: BackupStep)
        ensures
            step@ == backup_step(self@, failure_of(outcome), now@),
    {
        proof {
            use_type_invariant(&self);
        }
        match outcome {
            Ok(_) => BackupStep::Copy { from: self.source, to: self.candidate },
            Err(failure) => match failure.kind() {
                IoFailureKind::AlreadyExists => {
                    let candidate = generate_backup_path(self.source.as_str(), now);
                    BackupStep::Retry(Backup { source: self.source, candidate })
                },
                _ => BackupStep::Fail(failure),
            },
        }
    }

    /// Decides what follows the attempt to create the candidate, and labels
    /// the candidate of a retry with the current instant.
    pub fn advance(self, outcome: Result<(), IoFailure>) -> (step: BackupStep)
        ensures
            exists|millis: int| step@ == backup_step(self@, failure_of(outcome), millis),
    {
        let now = Timestamp::now();
        let step = self.resolve(outcome, &now);
        assert(step@ == backup_step(self@, failure_of(outcome), now@));
        step
    }
}

/// How a backup ends in an idealised store.
pub enum BackupEnd {
    /// The backup stands at `target`, in the store `after`.
    Done { target: Seq<char>, after: FileStore },
    /// The creation failed for a reason other than a taken name.
    Failed,
    /// Every candidate so far was taken.
    Colliding,
}

/// Runs a backup against an idealised store: each candidate is created
/// exclusively, the outcome is handed to [`backup_step`], and the copy is
/// made when it is asked for. `stamps` are the instants that label the
/// candidates of the retries, in order, and `refusal` is the failure that an
/// exclusive creation reports for a taken name.
pub open spec fn backup_run(
    store: FileStore,
    backup: BackupView,
    stamps: Seq<int>,
    refusal: IoFailureView,
) -> BackupEnd
    decreases stamps.len(),
{
    let attempt = create_exclusive(store, backup.candidate);
    let failure = if attempt.is_some() {
        None
    } else {
        Some(refusal)
    };
    let created = if attempt.is_some() {
        attempt.unwrap()
    } else {
        store
    };
    if stamps.len() == 0 {
        match failure {
            None => BackupEnd::Done {
                target: backup.candidate,
                after: copy(created, backup.source, backup.candidate),
            },
            Some(_) => BackupEnd::Colliding,
        }
    } else {
        match backup_step(backup, failure, stamps[0]) {
            BackupStepView::Retry(next) => backup_run(created, next, stamps.drop_first(), refusal),
            BackupStepView::Copy { from, to } => BackupEnd::Done {
                target: to,
                after: copy(created, from, to),
            },
            BackupStepView::Fail(_) => BackupEnd::Failed,
        }
    }
}

/// A backup of an existing file that comes to an end stands under a name
/// that differs from the source and that no file had before; it holds the
/// bytes of the source, and every file that stood before stands unchanged.
pub proof fn lemma_backup_is_fresh_copy(
    store: FileStore,
    backup: BackupView,
    stamps: Seq<int>,
    refusal: IoFailureView,
)
    requires
        holds(store, backup.source),
        refusal.kind == IoFailureKind::AlreadyExists,
    ensures
        backup_run(store, backup, stamps, refusal) matches BackupEnd::Done { target, after } ==> {
            &&& target != backup.source
            &&& !holds(store, target)
            &&& after == store.insert(target, store[backup.source])
            &&& after[target] == store[backup.source]
            &&& forall|path: Seq<char>| #[trigger]
                holds(store, path) ==> holds(after, path) && after[path] == store[path]
        },
        !(backup_run(store, backup, stamps, refusal) is Failed),
    decreases stamps.len(),
{
    let attempt = create_exclusive(store, backup.candidate);
    if attempt.is_some() {
        let created = attempt.unwrap();
        assert(copy(created, backup.source, backup.candidate) =~= store.insert(
            backup.candidate,
            store[backup.source],
        ));
    } else if stamps.len() > 0 {
        let next = BackupView {
            source: backup.source,
            candidate: backup_candidate(backup.source, stamps[0]),
        };
        lemma_backup_is_fresh_copy(store, next, stamps.drop_first(), refusal);
    }
}

/// Two backups that are made one after the other, even with candidates that
/// collide, end under two different names; each holds the bytes of its own
/// source, and both sources stand unchanged.
pub proof fn lemma_backups_do_not_clobber(
    store: FileStore,
    first: BackupView,
    second: BackupView,
    first_stamps: Seq<int>,
    second_stamps: Seq<int>,
    refusal: IoFailureView,
)
    requires
        holds(store, first.source),
        holds(store, second.source),
        refusal.kind == IoFailureKind::AlreadyExists,
    ensures
        backup_run(store, first, first_stamps, refusal) matches BackupEnd::Done {
            target: first_target,
            after: between,
        } ==> (backup_run(between, second, second_stamps, refusal) matches BackupEnd::Done {
            target: second_target,
            after,
        } ==> {
            &&& first_target != second_target
            &&& first_target != first.source && first_target != second.source
            &&& second_target != first.source && second_target != second.source
            &&& after[first_target] == store[first.source]
            &&& after[second_target] == store[second.source]
            &&& after[first.source] == store[first.source]
            &&& after[second.source] == store[second.source]
        }),
{
    lemma_backup_is_fresh_copy(store, first, first_stamps, refusal);
    if let BackupEnd::Done { target: first_target, after: between } = backup_run(
        store,
        first,
        first_stamps,
        refusal,
    ) {
        assert(holds(store, second.source));
        assert(holds(between, second.source));
        assert(holds(between, first_target));
        lemma_backup_is_fresh_copy(between, second, second_stamps, refusal);
        if let BackupEnd::Done { target: second_target, after } = backup_run(
            between,
            second,
            second_stamps,
            refusal,
        ) {
            assert(holds(store, first.source));
            assert(holds(between, first.source));
        }
    }
}

} // verus!
