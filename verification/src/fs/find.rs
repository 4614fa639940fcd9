//! Looking for a sentinel entry in a directory and in the directories above
//! it, up to a limit of hops.

use vstd::prelude::*;
use crate::fs::paths::{join_path, parent, path_join, path_parent};

verus! {

/// The number of hops of a search without a limit of its own.
pub const DEFAULT_HOP_LIMIT: u32 = 30;

/// The texts of a sequence of strings.
pub open spec fn texts(paths: Seq<String>) -> Seq<Seq<char>> {
    paths.map_values(|path: String| path@)
}

/// The number of directories that a search with `limit` looks into. The
/// counter of a search has 32 bits and stops at zero: a negative limit stands
/// for the count that has the same bits, which no chain of directories
/// reaches.
pub open spec fn hop_budget(limit: Option<i32>) -> nat {
    match limit {
        None => DEFAULT_HOP_LIMIT as nat,
        Some(n) => if n >= 0 {
            n as nat
        } else {
            (n + 0x1_0000_0000) as nat
        },
    }
}

/// The directory that stands `hops` steps above `start`, or nothing where
/// the chain of parents ends before.
pub open spec fn ancestor(start: Seq<char>, hops: nat) -> Option<Seq<char>>
    decreases hops,
{
    if hops == 0 {
        Some(start)
    } else {
        match ancestor(start, (hops - 1) as nat) {
            Some(dir) => path_parent(dir),
            None => None,
        }
    }
}

/// The places at which a search for `name` looks, in order: `name` in `dir`,
/// then in each directory above it, as long as the budget lasts and a parent
/// exists.
pub open spec fn candidates_from(name: Seq<char>, dir: Seq<char>, budget: nat) -> Seq<Seq<char>>
    decreases budget,
{
    if budget == 0 {
        Seq::empty()
    } else {
        seq![path_join(dir, name)] + match path_parent(dir) {
            Some(up) => candidates_from(name, up, (budget - 1) as nat),
            None => Seq::empty(),
        }
    }
}

/// The first of `candidates` that was found present. `present` holds the
/// results of probing the candidates in order, as far as they were probed.
pub open spec fn first_present_of(candidates: Seq<Seq<char>>, present: Seq<bool>) -> Option<
    Seq<char>,
>
    decreases candidates.len(),
{
    if candidates.len() == 0 || present.len() == 0 {
        None
    } else if present[0] {
        Some(candidates[0])
    } else {
        first_present_of(candidates.drop_first(), present.drop_first())
    }
}

/// A search looks at no more places than its budget allows, and the place
/// that it looks at after `hops` steps is the sentinel's name in the
/// directory `hops` steps above the start: it walks strictly upward.
pub proof fn lemma_candidates_walk_upward(
    name: Seq<char>,
    start: Seq<char>,
    budget: nat,
    hops: nat,
)
    ensures
        candidates_from(name, start, budget).len() <= budget,
        hops < candidates_from(name, start, budget).len() <==> hops < budget && ancestor(
            start,
            hops,
        ).is_some(),
        hops < candidates_from(name, start, budget).len() ==> candidates_from(
            name,
            start,
            budget,
        )[hops as int] == path_join(ancestor(start, hops).unwrap(), name),
    decreases budget,
{
    if budget > 0 {
        lemma_ancestor_of_parent(start, hops);
        match path_parent(start) {
            Some(up) => {
                if hops > 0 {
                    lemma_candidates_walk_upward(name, up, (budget - 1) as nat, (hops - 1) as nat);
                } else {
                    lemma_candidates_walk_upward(name, up, (budget - 1) as nat, 0);
                }
            },
            None => {},
        }
    }
}

/// The directory `hops` steps above `start` is the one `hops - 1` steps above
/// the parent of `start`.
proof fn lemma_ancestor_of_parent(start: Seq<char>, hops: nat)
    ensures
        hops > 0 ==> ancestor(start, hops) == match path_parent(start) {
            Some(up) => ancestor(up, (hops - 1) as nat),
            None => None,
        },
    decreases hops,
{
    if hops == 1 {
        assert(ancestor(start, 0) == Some(start));
    } else if hops > 1 {
        lemma_ancestor_of_parent(start, (hops - 1) as nat);
    }
}

/// The first present candidate is the one at the least position that was
/// probed and found present, and there is none exactly when no probe found
/// one.
pub proof fn lemma_first_present_is_least(candidates: Seq<Seq<char>>, present: Seq<bool>)
    ensures
        match first_present_of(candidates, present) {
            Some(found) => exists|k: int|
                0 <= k < candidates.len() && k < present.len() && #[trigger] present[k] && found
                    == candidates[k] && forall|j: int| 0 <= j < k ==> !#[trigger] present[j],
            None => forall|k: int|
                0 <= k < candidates.len() && k < present.len() ==> !#[trigger] present[k],
        },
    decreases candidates.len(),
{
    if candidates.len() == 0 || present.len() == 0 {
    } else if present[0] {
    } else {
        let rest = candidates.drop_first();
        let later = present.drop_first();
        lemma_first_present_is_least(rest, later);
        match first_present_of(rest, later) {
            Some(found) => {
                let k = choose|k: int|
                    0 <= k < rest.len() && k < later.len() && #[trigger] later[k] && found
                        == rest[k] && forall|j: int| 0 <= j < k ==> !#[trigger] later[j];
                assert(present[k + 1] == later[k]);
                assert forall|j: int| 0 <= j < k + 1 implies !#[trigger] present[j] by {
                    if j > 0 {
                        assert(present[j] == later[j - 1]);
                    }
                }
            },
            None => {
                assert forall|k: int|
                    0 <= k < candidates.len() && k < present.len() implies !#[trigger] present[k] by {
                    if k > 0 {
                        assert(present[k] == later[k - 1]);
                    }
                }
            },
        }
    }
}

/// The number of directories that a search with `limit` looks into.
pub fn hop_limit(limit: Option<i32>) -> (budget: u32)
    ensures
        budget == hop_budget(limit),
{
    match limit {
        None => DEFAULT_HOP_LIMIT,
        Some(n) => {
            if n >= 0 {
                n as u32
            } else {
                let wrapped: i64 = n as i64 + 0x1_0000_0000i64;
                wrapped as u32
            }
        },
    }
}

/// Lists the places at which a search for `sentinel_name` looks, in order,
/// starting in `start_dir`.
pub fn sentinel_candidates(sentinel_name: &str, start_dir: &str, limit: Option<i32>) -> (places:
    Vec<String>)
    ensures
        texts(places@) == candidates_from(sentinel_name@, start_dir@, hop_budget(limit)),
{
    let mut places: Vec<String> = Vec::new();
    let mut dir: String = start_dir.to_owned();
    let mut count: u32 = hop_limit(limit);
    let ghost all = candidates_from(sentinel_name@, start_dir@, hop_budget(limit));
    assert(texts(places@) + candidates_from(sentinel_name@, dir@, count as nat) =~= all);
    while count != 0
        invariant
            all == candidates_from(sentinel_name@, start_dir@, hop_budget(limit)),
            texts(places@) + candidates_from(sentinel_name@, dir@, count as nat) == all,
        decreases count,
    {
        let ghost before = places@;
        let ghost ahead = candidates_from(sentinel_name@, dir@, count as nat);
        places.push(join_path(dir.as_str(), sentinel_name));
        count -= 1;
        assert(texts(places@) =~= texts(before) + seq![path_join(dir@, sentinel_name@)]);
        match parent(dir.as_str()) {
            Some(up) => {
                assert(ahead == seq![path_join(dir@, sentinel_name@)] + candidates_from(
                    sentinel_name@,
                    up@,
                    count as nat,
                ));
                assert(texts(places@) + candidates_from(sentinel_name@, up@, count as nat)
                    =~= all);
                dir = up;
            },
            None => {
                assert(ahead =~= seq![path_join(dir@, sentinel_name@)]);
                assert(texts(places@) =~= all);
                return places;
            },
        }
    }
    assert(texts(places@) =~= all);
    places
}

/// Picks the first of `candidates` that was found present. `present` holds
/// the results of probing the candidates in order, as far as they were
/// probed.
pub fn first_present(candidates: &Vec<String>, present: &Vec<bool>) -> (found: Option<String>)
    ensures
        found.is_some() == first_present_of(texts(candidates@), present@).is_some(),
        found matches Some(path) ==> path@ == first_present_of(
            texts(candidates@),
            present@,
        ).unwrap(),
{
    let mut i: usize = 0;
    assert(texts(candidates@).skip(0) =~= texts(candidates@));
    assert(present@.skip(0) =~= present@);
    while i < candidates.len() && i < present.len()
        invariant
            i <= candidates.len(),
            i <= present.len(),
            first_present_of(texts(candidates@), present@) == first_present_of(
                texts(candidates@).skip(i as int),
                present@.skip(i as int),
            ),
        decreases candidates.len() - i,
    {
        let ghost rest = texts(candidates@).skip(i as int);
        let ghost later = present@.skip(i as int);
        assert(rest[0] == candidates@[i as int]@);
        assert(later[0] == present@[i as int]);
        if present[i] {
            return Some(candidates[i].clone());
        }
        assert(rest.drop_first() =~= texts(candidates@).skip(i + 1));
        assert(later.drop_first() =~= present@.skip(i + 1));
        i += 1;
    }
    None
}

/// The two kinds of sentinel.
#[derive(Debug, Clone, Copy, PartialEq, Eq, Structural)]
pub enum SentinelKind {
    /// A directory of the sentinel's name.
    Directory,
    /// A file of the sentinel's name.
    File,
}

/// `Path::is_dir` of the standard library: whether a directory stands at
/// `path` at the moment of the call. The answer is read from the file system,
/// so nothing is claimed of it.
#[verifier::external_body]
fn is_dir(path: &str) -> bool {
    std::path::Path::new(path).is_dir()
}

/// `Path::is_file` of the standard library: whether a regular file stands at
/// `path` at the moment of the call. The answer is read from the file system,
/// so nothing is claimed of it.
#[verifier::external_body]
fn is_file(path: &str) -> bool {
    std::path::Path::new(path).is_file()
}

/// Probes `candidates` in order for a sentinel of `kind` and stops after the
/// first that is present.
fn probe_until_present(candidates: &Vec<String>, kind: SentinelKind) -> (present: Vec<bool>)
    ensures
        stops_at_first_present(present@, candidates.len() as nat),
{
    let mut present: Vec<bool> = Vec::new();
    let mut i: usize = 0;
    while i < candidates.len()
        invariant
            i == present.len(),
            i <= candidates.len(),
            forall|k: int| 0 <= k < i ==> !#[trigger] present@[k],
        decreases candidates.len() - i,
    {
        let found = match kind {
            SentinelKind::Directory => is_dir(candidates[i].as_str()),
            SentinelKind::File => is_file(candidates[i].as_str()),
        };
        present.push(found);
        if found {
            return present;
        }
        i += 1;
    }
    present
}

/// Whether `present` records a run of probes through `count` places in
/// order that stopped after the first place found present: no place before
/// the last probed was present, and a run that did not reach the last place
/// ended on one that was.
spec fn stops_at_first_present(present: Seq<bool>, count: nat) -> bool {
    &&& present.len() <= count
    &&& forall|k: int| 0 <= k < present.len() - 1 ==> !#[trigger] present[k]
    &&& present.len() < count ==> present.len() > 0 && present[present.len() - 1]
}

/// Whether `found` is what a search gives for some run of probes: the places
/// of the search are probed in order, `present` holds what the probes said,
/// and `found` is the first place that a probe found present. In
/// particular a search finds nothing outside its places, and nothing at all
/// where its budget is zero.
pub open spec fn is_search_outcome(
    name: Seq<char>,
    start: Seq<char>,
    limit: Option<i32>,
    found: Option<String>,
) -> bool {
    let places = candidates_from(name, start, hop_budget(limit));
    exists|present: Seq<bool>|
        {
            &&& present.len() <= places.len()
            &&& found.is_some() == (#[trigger] first_present_of(places, present)).is_some()
            &&& found matches Some(path) ==> path@ == first_present_of(places, present).unwrap()
        }
}

/// What a search finds is one of its places, and a search without budget
/// finds nothing.
pub proof fn lemma_search_outcome_is_a_place(
    name: Seq<char>,
    start: Seq<char>,
    limit: Option<i32>,
    found: Option<String>,
)
    requires
        is_search_outcome(name, start, limit, found),
    ensures
        found matches Some(path) ==> candidates_from(name, start, hop_budget(limit)).contains(
            path@,
        ),
        hop_budget(limit) == 0 ==> found is None,
{
    let places = candidates_from(name, start, hop_budget(limit));
    let present = choose|present: Seq<bool>|
        {
            &&& present.len() <= places.len()
            &&& found.is_some() == (#[trigger] first_present_of(places, present)).is_some()
            &&& found matches Some(path) ==> path@ == first_present_of(places, present).unwrap()
        };
    lemma_first_present_is_least(places, present);
}

/// Looks for a sentinel of `kind`: probes the places of the search in order
/// and returns the first at which the sentinel is present.
pub fn find_sentinel(
    sentinel_name: &str,
    start_dir: &str,
    limit: Option<i32>,
    kind: SentinelKind,
) -> (found: Option<String>)
    ensures
        is_search_outcome(sentinel_name@, start_dir@, limit, found),
{
    let candidates = sentinel_candidates(sentinel_name, start_dir, limit);
    let present = probe_until_present(&candidates, kind);
    let found = first_present(&candidates, &present);
    assert(found.is_some() == first_present_of(texts(candidates@), present@).is_some());
    found
}

/// Looks for the directory `sentinel_name` in `start_dir` and in the
/// directories above it, nearest first, in at most `limit` directories
/// ([`DEFAULT_HOP_LIMIT`] without a limit). Returns the path of the first
/// that exists, and nothing where the limit or the root is reached first.
#[must_use]
pub fn find_sentinel_dir(sentinel_name: &str, start_dir: &str, limit: Option<i32>) -> (found:
    Option<String>)
    ensures
        is_search_outcome(sentinel_name@, start_dir@, limit, found),
{
    find_sentinel(sentinel_name, start_dir, limit, SentinelKind::Directory)
}

/// Looks for the file `sentinel_name` in `start_dir` and in the directories
/// above it, nearest first, in at most `limit` directories
/// ([`DEFAULT_HOP_LIMIT`] without a limit). Returns the path of the first
/// that exists, and nothing where the limit or the root is reached first.
#[must_use]
pub fn find_sentinel_file(sentinel_name: &str, start_dir: &str, limit: Option<i32>) -> (found:
    Option<String>)
    ensures
        is_search_outcome(sentinel_name@, start_dir@, limit, found),
{
    find_sentinel(sentinel_name, start_dir, limit, SentinelKind::File)
}

} // verus!
