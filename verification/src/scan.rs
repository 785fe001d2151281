//! The two inverse scans over a symlink directory listing, and the bounded
//! retry policy that smooths a transiently inconsistent directory.
//!
//! The filesystem itself is read by the caller, who hands each observed
//! directory entry in as a [`ScanEntry`]: the entry's file name, the
//! canonicalized path its symlink resolves to (absent when canonicalization
//! failed), and the entry's own path as a fallback.

use vstd::prelude::*;

verus! {

/// Number of times a transiently failing filesystem operation is attempted
/// before its absence is accepted.
pub const RETRY_ATTEMPTS: u8 = 10;

/// Milliseconds to wait between two such attempts.
pub const RETRY_WAIT_MS: u64 = 1;

/// One entry of a symlink directory listing, as observed by the caller.
#[derive(Clone, Debug)]
pub struct ScanEntry {
    /// The entry's file name: the identifier value it carries.
    pub name: String,
    /// The canonicalized path the entry resolves to, or `None` when
    /// canonicalization failed.
    pub target: Option<String>,
    /// The entry's own path, compared in place of the target when
    /// canonicalization failed.
    pub fallback: String,
}

/// The path an entry is taken to resolve to: its canonicalized target, or
/// the entry's own path when canonicalization failed.
pub open spec fn spec_entry_target(entry: ScanEntry) -> Seq<char> {
    match entry.target {
        Some(target) => target@,
        None => entry.fallback@,
    }
}

/// The identifier value the listing holds for a device path: the name of
/// the first entry resolving to that path, if any.
pub open spec fn spec_find_id(path: Seq<char>, entries: Seq<ScanEntry>) -> Option<Seq<char>>
    decreases entries.len(),
{
    if entries.len() == 0 {
        None
    } else if spec_entry_target(entries[0]) == path {
        Some(entries[0].name@)
    } else {
        spec_find_id(path, entries.skip(1))
    }
}

/// The device path the listing holds for an identifier value: the
/// canonicalized target of the first entry named by that value whose
/// canonicalization succeeded, if any.
pub open spec fn spec_from_id(value: Seq<char>, entries: Seq<ScanEntry>) -> Option<Seq<char>>
    decreases entries.len(),
{
    if entries.len() == 0 {
        None
    } else {
        match entries[0].target {
            Some(target) => {
                if entries[0].name@ == value {
                    Some(target@)
                } else {
                    spec_from_id(value, entries.skip(1))
                }
            },
            None => spec_from_id(value, entries.skip(1)),
        }
    }
}

/// Dropping a non-matching head leaves the result of the path scan as it
/// was.
proof fn lemma_find_id_skip(path: Seq<char>, entries: Seq<ScanEntry>, i: int)
    requires
        0 <= i < entries.len(),
        spec_entry_target(entries[i]) != path,
    ensures
        spec_find_id(path, entries.skip(i)) == spec_find_id(path, entries.skip(i + 1)),
{
    assert(entries.skip(i)[0] == entries[i]);
    assert(entries.skip(i).skip(1) =~= entries.skip(i + 1));
}

/// Dropping a head that carries no match leaves the result of the value
/// scan as it was.
proof fn lemma_from_id_skip(value: Seq<char>, entries: Seq<ScanEntry>, i: int)
    requires
        0 <= i < entries.len(),
        entries[i].target is Some ==> entries[i].name@ != value,
    ensures
        spec_from_id(value, entries.skip(i)) == spec_from_id(value, entries.skip(i + 1)),
{
    assert(entries.skip(i)[0] == entries[i]);
    assert(entries.skip(i).skip(1) =~= entries.skip(i + 1));
}

/// Attempts to find the ID from the given path: the name of the first
/// listed entry that resolves to `path`.
pub fn find_id(path: &String, entries: &Vec<ScanEntry>) -> (r: Option<String>)
    ensures
        r.deep_view() == spec_find_id(path@, entries@),
{
    let mut i: usize = 0;
    proof {
        assert(entries@.skip(0) =~= entries@);
    }
    while i < entries.len()
        invariant
            i <= entries@.len(),
            spec_find_id(path@, entries@) == spec_find_id(path@, entries@.skip(i as int)),
        decreases entries@.len() - i,
    {
        let entry = &entries[i];
        let resolved: &String = match &entry.target {
            Some(target) => target,
            None => &entry.fallback,
        };
        proof {
            assert(resolved@ == spec_entry_target(entries@[i as int]));
            assert(entries@.skip(i as int)[0] == entries@[i as int]);
        }
        if *resolved == *path {
            return Some(entry.name.clone());
        }
        proof {
            lemma_find_id_skip(path@, entries@, i as int);
        }
        i += 1;
    }
    proof {
        assert(entries@.skip(i as int) =~= Seq::<ScanEntry>::empty());
    }
    None
}

/// Attempts to find the device path of the given ID: the canonicalized
/// target of the first listed entry named `value`.
pub fn from_id(value: &String, entries: &Vec<ScanEntry>) -> (r: Option<String>)
    ensures
        r.deep_view() == spec_from_id(value@, entries@),
{
    let mut i: usize = 0;
    proof {
        assert(entries@.skip(0) =~= entries@);
    }
    while i < entries.len()
        invariant
            i <= entries@.len(),
            spec_from_id(value@, entries@) == spec_from_id(value@, entries@.skip(i as int)),
        decreases entries@.len() - i,
    {
        let entry = &entries[i];
        proof {
            assert(entries@.skip(i as int)[0] == entries@[i as int]);
        }
        if let Some(target) = &entry.target {
            if entry.name == *value {
                return Some(target.clone());
            }
        }
        proof {
            lemma_from_id_skip(value@, entries@, i as int);
        }
        i += 1;
    }
    proof {
        assert(entries@.skip(i as int) =~= Seq::<ScanEntry>::empty());
    }
    None
}

/// Decide whether a failed attempt is followed by another one: retry while
/// no result has come and the budget of `attempts` further tries is not
/// exhausted.
pub fn retry_continue(tried: u8, attempts: u8, have_result: bool) -> (r: bool)
    ensures
        r == (!have_result && tried != attempts),
{
    !have_result && tried != attempts
}

} // verus!
