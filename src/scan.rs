//! The initialization scan: recovering the entry count from the names found under the root.
use vstd::prelude::*;
use vstd::string::StrSliceExecFns;
use crate::paths::key_suffix;

verus! {

/// Whether `s` ends with `suffix`.
pub open spec fn has_suffix(s: Seq<char>, suffix: Seq<char>) -> bool {
    s.len() >= suffix.len() && s.subrange(s.len() - suffix.len(), s.len() as int) == suffix
}

/// A name that ends in the key-file suffix.
pub open spec fn is_key_file_name(name: Seq<char>) -> bool {
    has_suffix(name, key_suffix())
}

/// An entry found by the scan (a path, and whether it is a regular file) that counts
/// as a mapping: a regular file whose name ends in the key-file suffix.
pub open spec fn is_key_file(entry: (String, bool)) -> bool {
    entry.1 && is_key_file_name(entry.0@)
}

/// How many of `entries` (a path, and whether the entry is a regular file) are key files.
pub open spec fn key_file_count(entries: Seq<(String, bool)>) -> nat
    decreases entries.len(),
{
    if entries.len() == 0 {
        0
    } else {
        let rest = key_file_count(entries.drop_last());
        if is_key_file(entries.last()) {
            rest + 1
        } else {
            rest
        }
    }
}

/// Whether `s` ends with `suffix`.
pub fn ends_with(s: &str, suffix: &str) -> (r: bool)
    ensures
        r == has_suffix(s@, suffix@),
{
    let n = s.unicode_len();
    let m = suffix.unicode_len();
    if n < m {
        return false;
    }
    let start = n - m;
    let mut i: usize = 0;
    while i < m
        invariant
            n == s@.len(),
            m == suffix@.len(),
            start == n - m,
            i <= m,
            forall|j: int| 0 <= j < i ==> s@[start + j] == suffix@[j],
        decreases m - i,
    {
        if s.get_char(start + i) != suffix.get_char(i) {
            assert(s@.subrange(start as int, n as int)[i as int] != suffix@[i as int]);
            return false;
        }
        i = i + 1;
    }
    assert(s@.subrange(start as int, n as int) =~= suffix@);
    true
}

/// Counts the key files among `entries`, each a path and whether the entry is a
/// regular file: the entry count of a store whose root holds these entries.
/// Directories and other non-files are never counted, whatever their names.
pub fn count_key_files(entries: &Vec<(String, bool)>) -> (count: usize)
    ensures
        count == key_file_count(entries@),
{
    proof {
        reveal_strlit(".key");
        assert(".key"@ =~= key_suffix());
    }
    let mut count: usize = 0;
    let mut i: usize = 0;
    while i < entries.len()
        invariant
            i <= entries@.len(),
            count == key_file_count(entries@.subrange(0, i as int)),
            count <= i,
            ".key"@ == key_suffix(),
        decreases entries@.len() - i,
    {
        assert(entries@.subrange(0, i as int + 1).drop_last() =~= entries@.subrange(0, i as int));
        if entries[i].1 && ends_with(entries[i].0.as_str(), ".key") {
            count = count + 1;
        }
        i = i + 1;
    }
    assert(entries@.subrange(0, entries@.len() as int) =~= entries@);
    count
}

/// The paths of the key files among `entries`.
pub open spec fn listed_key_files(entries: Seq<(String, bool)>) -> Set<Seq<char>>
    decreases entries.len(),
{
    if entries.len() == 0 {
        Set::empty()
    } else {
        let rest = listed_key_files(entries.drop_last());
        if is_key_file(entries.last()) {
            rest.insert(entries.last().0@)
        } else {
            rest
        }
    }
}

/// No regular file is listed twice among `entries`.
pub open spec fn files_listed_once(entries: Seq<(String, bool)>) -> bool {
    forall|i: int, j: int|
        0 <= i < j < entries.len() && (#[trigger] entries[i]).1 && (#[trigger] entries[j]).1
            ==> entries[i].0@ != entries[j].0@
}

/// Where no file is listed twice, the key files counted are as many as the distinct
/// key-file paths listed.
pub proof fn count_is_listed_key_files(entries: Seq<(String, bool)>)
    requires
        files_listed_once(entries),
    ensures
        listed_key_files(entries).finite(),
        listed_key_files(entries).len() == key_file_count(entries),
        forall|p: Seq<char>| #[trigger] listed_key_files(entries).contains(p)
            <==> exists|i: int| 0 <= i < entries.len() && is_key_file(entries[i]) && entries[i].0@ == p,
    decreases entries.len(),
{
    if entries.len() > 0 {
        let rest = entries.drop_last();
        assert(files_listed_once(rest)) by {
            assert forall|i: int, j: int|
                0 <= i < j < rest.len() && (#[trigger] rest[i]).1 && (#[trigger] rest[j]).1
                implies rest[i].0@ != rest[j].0@ by {
                assert(rest[i] == entries[i] && rest[j] == entries[j]);
            }
        }
        count_is_listed_key_files(rest);
        let last = entries.last();
        if is_key_file(last) {
            assert(!listed_key_files(rest).contains(last.0@)) by {
                if listed_key_files(rest).contains(last.0@) {
                    let i = choose|i: int| 0 <= i < rest.len() && is_key_file(rest[i]) && rest[i].0@ == last.0@;
                    assert(entries[i] == rest[i]);
                    assert(entries[entries.len() - 1] == last);
                }
            }
        }
        assert forall|p: Seq<char>| #[trigger] listed_key_files(entries).contains(p)
            <==> exists|i: int| 0 <= i < entries.len() && is_key_file(entries[i]) && entries[i].0@ == p by {
            if listed_key_files(rest).contains(p) {
                let i = choose|i: int| 0 <= i < rest.len() && is_key_file(rest[i]) && rest[i].0@ == p;
                assert(entries[i] == rest[i]);
            }
            if exists|i: int| 0 <= i < entries.len() && is_key_file(entries[i]) && entries[i].0@ == p {
                let i = choose|i: int| 0 <= i < entries.len() && is_key_file(entries[i]) && entries[i].0@ == p;
                if i < entries.len() - 1 {
                    assert(rest[i] == entries[i]);
                }
            }
        }
    }
}

} // verus!
