//! Paths as texts, the instants that label them, and labelled file names.
//!
//! A path is held as a text and taken apart by the standard library, which
//! reads it as the platform does for which the crate is compiled. The
//! contracts name what the standard library returns and say nothing of how a
//! platform splits a path.

use vstd::prelude::*;

verus! {

/// The RFC 3339 text of the instant `millis` milliseconds after the start of
/// 1970 in UTC, with three digits of a second and `Z` for the offset, as
/// chrono writes it; nothing where chrono cannot represent the instant.
pub uninterp spec fn utc_rfc3339_millis(millis: int) -> Option<Seq<char>>;

/// An instant in UTC with millisecond precision that chrono can represent.
#[derive(Debug, Clone, Copy)]
pub struct Timestamp {
    millis: i64,
}

impl View for Timestamp {
    type V = int;

    closed spec fn view(&self) -> int {
        self.millis as int
    }
}

/// `DateTime::from_timestamp_millis` and `DateTime::to_rfc3339_opts` of
/// chrono, the latter with `SecondsFormat::Millis` and `Z` for UTC. The first
/// gives nothing for an instant out of chrono's range; the second writes what
/// the first gave and does not fail. The text depends on `millis` alone; the
/// contract gives it the name [`utc_rfc3339_millis`] and claims nothing else.
#[verifier::external_body]
fn rfc3339_millis(millis: i64) -> (text: Option<String>)
    ensures
        text.is_some() == utc_rfc3339_millis(millis as int).is_some(),
        text matches Some(t) ==> t@ == utc_rfc3339_millis(millis as int).unwrap(),
{
    match chrono::DateTime::from_timestamp_millis(millis) {
        Some(instant) => Some(instant.to_rfc3339_opts(chrono::SecondsFormat::Millis, true)),
        None => None,
    }
}

/// `Utc::now` and `DateTime::timestamp_millis` of chrono: the current instant
/// in milliseconds. Which instant comes back is the clock's affair; chrono
/// builds it as a `DateTime`, and documents that such an instant converts
/// back from its milliseconds, so that it has an RFC 3339 text. `Utc::now`
/// gives up only where the clock of the system stands before 1970.
#[verifier::external_body]
fn now_millis() -> (millis: i64)
    ensures
        utc_rfc3339_millis(millis as int).is_some(),
{
    chrono::Utc::now().timestamp_millis()
}

impl Timestamp {
    #[verifier::type_invariant]
    spec fn representable(self) -> bool {
        utc_rfc3339_millis(self.millis as int).is_some()
    }

    /// The instant `millis` milliseconds after the start of 1970 in UTC, or
    /// nothing where chrono cannot represent it.
    pub fn from_millis(millis: i64) -> (instant: Option<Timestamp>)
        ensures
            instant.is_some() == utc_rfc3339_millis(millis as int).is_some(),
            instant matches Some(t) ==> t@ == millis,
    {
        match rfc3339_millis(millis) {
            Some(_) => Some(Timestamp { millis }),
            None => None,
        }
    }

    /// The current instant as the clock gives it: one that has an RFC 3339 text.
    pub fn now() -> (instant: Timestamp)
        ensures
            utc_rfc3339_millis(instant@).is_some(),
    {
        Timestamp { millis: now_millis() }
    }

    /// The milliseconds between the start of 1970 in UTC and the instant.
    pub fn millis(&self) -> (millis: i64)
        ensures
            millis == self@,
    {
        self.millis
    }
}

/// The characters that a timestamp loses to become part of a file name.
pub open spec fn is_timestamp_separator(c: char) -> bool {
    c == '-' || c == ':' || c == '.'
}

/// `text` without hyphens, colons and dots.
pub open spec fn without_separators_text(text: Seq<char>) -> Seq<char> {
    text.filter(|c: char| !is_timestamp_separator(c))
}

/// The label that stands for the instant `millis` in a file name.
pub open spec fn safe_timestamp_text(millis: int) -> Seq<char> {
    without_separators_text(utc_rfc3339_millis(millis).unwrap())
}

/// Removes the hyphens, colons and dots from `text`.
pub fn without_separators(text: &str) -> (stripped: String)
    ensures
        stripped@ == without_separators_text(text@),
{
    broadcast use vstd::string::group_string_axioms;

    let ghost keep = |c: char| !is_timestamp_separator(c);
    let mut stripped = String::new();
    proof {
        reveal(Seq::filter);
        assert(text@.take(0).filter(keep) =~= Seq::<char>::empty());
    }
    for c in it: text.chars()
        invariant
            it.seq() == text@,
            keep == |c: char| !is_timestamp_separator(c),
            stripped@ == text@.take(it.index()).filter(keep),
    {
        proof {
            let longer = text@.take(it.index() + 1);
            assert(longer.drop_last() =~= text@.take(it.index()));
            assert(longer.last() == c);
            reveal(Seq::filter);
        }
        if c != '-' && c != ':' && c != '.' {
            stripped.push(c);
        }
    }
    proof {
        assert(text@.take(text@.len() as int) =~= text@);
    }
    stripped
}

/// The label that stands for `dt` in a file name: its RFC 3339 text with
/// millisecond precision, without hyphens, colons and dots.
#[must_use]
pub fn file_name_safe_timestamp(dt: &Timestamp) -> (label: String)
    ensures
        label@ == safe_timestamp_text(dt@),
{
    proof {
        use_type_invariant(dt);
    }
    match rfc3339_millis(dt.millis) {
        Some(text) => without_separators(text.as_str()),
        None => vstd::pervasive::unreached(),
    }
}

/// The parent of `path` as the platform reads paths: `path` without its final
/// component, or nothing where `path` ends in a root or is empty.
pub uninterp spec fn path_parent(path: Seq<char>) -> Option<Seq<char>>;

/// `name` appended to `base` as a further component, as the platform reads
/// paths; an absolute `name` replaces `base`.
pub uninterp spec fn path_join(base: Seq<char>, name: Seq<char>) -> Seq<char>;

/// The file name of `path` without its extension, as the platform reads
/// paths, or nothing where `path` has no file name.
pub uninterp spec fn path_file_stem(path: Seq<char>) -> Option<Seq<char>>;

/// The extension of the file name of `path`, without the dot, as the
/// platform reads paths, or nothing where the file name has none.
pub uninterp spec fn path_extension(path: Seq<char>) -> Option<Seq<char>>;

/// `path` with its file name replaced by `name`, as the platform reads paths.
pub uninterp spec fn path_with_file_name(path: Seq<char>, name: Seq<char>) -> Seq<char>;

/// Whether `path` is absolute, as the platform reads paths.
pub uninterp spec fn path_is_absolute(path: Seq<char>) -> bool;

/// `Path::parent` of the standard library, on a path given as text. The
/// result depends on the text alone; the contract gives it the name
/// [`path_parent`] and claims nothing else.
#[verifier::external_body]
pub(crate) fn parent(path: &str) -> (dir: Option<String>)
    ensures
        dir.is_some() == path_parent(path@).is_some(),
        dir matches Some(d) ==> d@ == path_parent(path@).unwrap(),
{
    match std::path::Path::new(path).parent() {
        Some(dir) => Some(dir.to_string_lossy().into_owned()),
        None => None,
    }
}

/// `Path::join` of the standard library, on paths given as text. The result
/// depends on the two texts alone; the contract gives it the name
/// [`path_join`] and claims nothing else.
#[verifier::external_body]
pub(crate) fn join_path(base: &str, name: &str) -> (joined: String)
    ensures
        joined@ == path_join(base@, name@),
{
    std::path::Path::new(base).join(name).to_string_lossy().into_owned()
}

/// `Path::file_stem` of the standard library, on a path given as text. The
/// result depends on the text alone; the contract gives it the name
/// [`path_file_stem`] and claims nothing else.
#[verifier::external_body]
pub(crate) fn file_stem(path: &str) -> (stem: Option<String>)
    ensures
        stem.is_some() == path_file_stem(path@).is_some(),
        stem matches Some(s) ==> s@ == path_file_stem(path@).unwrap(),
{
    match std::path::Path::new(path).file_stem() {
        Some(stem) => Some(stem.to_string_lossy().into_owned()),
        None => None,
    }
}

/// `Path::extension` of the standard library, on a path given as text. The
/// result depends on the text alone; the contract gives it the name
/// [`path_extension`] and claims nothing else.
#[verifier::external_body]
pub(crate) fn extension(path: &str) -> (ext: Option<String>)
    ensures
        ext.is_some() == path_extension(path@).is_some(),
        ext matches Some(e) ==> e@ == path_extension(path@).unwrap(),
{
    match std::path::Path::new(path).extension() {
        Some(ext) => Some(ext.to_string_lossy().into_owned()),
        None => None,
    }
}

/// `Path::with_file_name` of the standard library, on a path and a name given
/// as text. The result depends on the two texts alone; the contract gives it
/// the name [`path_with_file_name`] and claims nothing else.
#[verifier::external_body]
pub(crate) fn with_file_name(path: &str, name: &str) -> (renamed: String)
    ensures
        renamed@ == path_with_file_name(path@, name@),
{
    std::path::Path::new(path).with_file_name(name).to_string_lossy().into_owned()
}

/// `Path::is_absolute` of the standard library, on a path given as text. The
/// result depends on the text alone; the contract gives it the name
/// [`path_is_absolute`].
#[verifier::external_body]
pub(crate) fn is_absolute(path: &str) -> (absolute: bool)
    ensures
        absolute == path_is_absolute(path@),
{
    std::path::Path::new(path).is_absolute()
}

/// The file name made of `stem`, a hyphen, `label` and, where there is one,
/// a dot and the extension.
pub open spec fn labelled_name_text(
    stem: Seq<char>,
    label: Seq<char>,
    extension: Option<Seq<char>>,
) -> Seq<char> {
    match extension {
        Some(ext) => stem + seq!['-'] + label + seq!['.'] + ext,
        None => stem + seq!['-'] + label,
    }
}

/// `path` with `label` inserted before the extension of its file name, or
/// nothing where `path` has no file name.
pub open spec fn labelled_path(path: Seq<char>, label: Seq<char>) -> Option<Seq<char>> {
    match path_file_stem(path) {
        Some(stem) => Some(
            path_with_file_name(path, labelled_name_text(stem, label, path_extension(path))),
        ),
        None => None,
    }
}

/// Puts a file name together from its stem, a label and its extension.
pub fn labelled_name(stem: &str, label: &str, extension: Option<&str>) -> (name: String)
    ensures
        name@ == labelled_name_text(
            stem@,
            label@,
            match extension {
                Some(ext) => Some(ext@),
                None => None,
            },
        ),
{
    let mut name = stem.to_owned();
    name.push('-');
    name.append(label);
    if let Some(ext) = extension {
        name.push('.');
        name.append(ext);
    }
    name
}

/// Inserts `label` before the extension of the file name of `path`. Returns
/// nothing where `path` has no file name.
#[must_use]
pub fn label_file_name(path: &str, label: &str) -> (labelled: Option<String>)
    ensures
        labelled.is_some() == labelled_path(path@, label@).is_some(),
        labelled matches Some(p) ==> p@ == labelled_path(path@, label@).unwrap(),
{
    let stem = match file_stem(path) {
        Some(stem) => stem,
        None => {
            return None;
        },
    };
    let ext = extension(path);
    let name = match &ext {
        Some(ext) => labelled_name(stem.as_str(), label, Some(ext.as_str())),
        None => labelled_name(stem.as_str(), label, None),
    };
    Some(with_file_name(path, name.as_str()))
}

} // verus!
