//! Picking the replacement binary out of a downloaded archive.
//!
//! An archive is a forward-only stream of named entries. An entry is the
//! binary being looked for when the final segment of its path (the part
//! after the last `/`) contains one of the two substrings of the
//! application's binary naming convention. The first matching entry wins;
//! nothing after it is inspected, and a stream with no match is a failure.

use vstd::prelude::*;

use crate::errors::UpdateError;

verus! {

/// `needle` occurs in `hay` starting at position `i`.
pub open spec fn spec_match_at(hay: Seq<char>, needle: Seq<char>, i: int) -> bool {
    0 <= i && i + needle.len() <= hay.len() && hay.subrange(i, i + needle.len()) == needle
}

/// `needle` occurs somewhere in `hay`.
pub open spec fn spec_contains(hay: Seq<char>, needle: Seq<char>) -> bool {
    exists|i: int| spec_match_at(hay, needle, i)
}

/// The position right after the last `/` of `p`, or `0` if `p` has none:
/// where the final path segment starts.
pub open spec fn spec_base_start(p: Seq<char>) -> int
    decreases p.len(),
{
    if p.len() == 0 {
        0
    } else if p[p.len() - 1] == '/' {
        p.len() as int
    } else {
        spec_base_start(p.drop_last())
    }
}

/// The final segment of the path `p`: everything after its last `/`.
pub open spec fn spec_base_name(p: Seq<char>) -> Seq<char> {
    p.skip(spec_base_start(p))
}

/// A file name following the application's binary naming convention: it
/// contains `"universal-android-debloater"` or `"uadng"`.
pub open spec fn spec_is_binary_name(name: Seq<char>) -> bool {
    spec_contains(name, "universal-android-debloater"@) || spec_contains(name, "uadng"@)
}

/// An archive entry holding the replacement binary: the final segment of its
/// path is a binary name.
pub open spec fn spec_entry_matches(path: Seq<char>) -> bool {
    spec_is_binary_name(spec_base_name(path))
}

proof fn lemma_base_start_bounds(p: Seq<char>)
    ensures
        0 <= spec_base_start(p) <= p.len(),
    decreases p.len(),
{
    if p.len() != 0 && p[p.len() - 1] != '/' {
        lemma_base_start_bounds(p.drop_last());
    }
}

/// Whether `needle` occurs in `hay` starting exactly at position `i`.
fn match_at(hay: &str, needle: &str, i: usize) -> (r: bool)
    requires
        i + needle@.len() <= hay@.len(),
    ensures
        r == spec_match_at(hay@, needle@, i as int),
{
    let h_len = hay.unicode_len();
    let n_len = needle.unicode_len();
    let mut j: usize = 0;
    while j < n_len
        invariant
            j <= n_len,
            h_len == hay@.len(),
            n_len == needle@.len(),
            i + needle@.len() <= hay@.len(),
            forall|k: int| 0 <= k < j ==> hay@[i + k] == needle@[k],
        decreases n_len - j,
    {
        if hay.get_char(i + j) != needle.get_char(j) {
            proof {
                assert(hay@.subrange(i as int, i + needle@.len())[j as int] == hay@[i + j]);
            }
            return false;
        }
        j = j + 1;
    }
    proof {
        assert(hay@.subrange(i as int, i + needle@.len()) =~= needle@);
    }
    true
}

/// Whether `needle` occurs anywhere in `hay`.
fn contains_sub(hay: &str, needle: &str) -> (r: bool)
    ensures
        r == spec_contains(hay@, needle@),
{
    let h_len = hay.unicode_len();
    let n_len = needle.unicode_len();
    if n_len > h_len {
        proof {
            assert(forall|i: int| !spec_match_at(hay@, needle@, i));
        }
        return false;
    }
    if n_len == 0 {
        proof {
            assert(hay@.subrange(0, 0) =~= needle@);
            assert(spec_match_at(hay@, needle@, 0));
        }
        return true;
    }
    let mut i: usize = 0;
    while i <= h_len - n_len
        invariant
            h_len == hay@.len(),
            n_len == needle@.len(),
            1 <= n_len <= h_len,
            i <= h_len - n_len + 1,
            forall|k: int| 0 <= k < i ==> !spec_match_at(hay@, needle@, k),
        decreases h_len + 1 - i,
    {
        if match_at(hay, needle, i) {
            return true;
        }
        i = i + 1;
    }
    proof {
        assert forall|k: int| !spec_match_at(hay@, needle@, k) by {
            if 0 <= k < i {
            } else if k > h_len - n_len {
                assert(k + needle@.len() > hay@.len());
            }
        }
    }
    false
}

/// Whether `name` follows the application's binary naming convention.
pub fn is_binary_name(name: &str) -> (r: bool)
    ensures
        r == spec_is_binary_name(name@),
{
    contains_sub(name, "universal-android-debloater") || contains_sub(name, "uadng")
}

/// The final segment of `path`: everything after its last `/`, or all of
/// `path` if it has no `/`.
pub fn base_name(path: &str) -> (r: &str)
    ensures
        r@ == spec_base_name(path@),
{
    let n = path.unicode_len();
    let mut start: usize = 0;
    let mut i: usize = 0;
    proof {
        assert(path@.take(0) =~= Seq::<char>::empty());
    }
    while i < n
        invariant
            n == path@.len(),
            start <= i <= n,
            start as int == spec_base_start(path@.take(i as int)),
        decreases n - i,
    {
        proof {
            lemma_base_start_bounds(path@.take(i as int));
            assert(path@.take(i + 1).drop_last() =~= path@.take(i as int));
        }
        if path.get_char(i) == '/' {
            start = i + 1;
        }
        i = i + 1;
    }
    proof {
        assert(path@.take(n as int) =~= path@);
        assert(path@.subrange(start as int, n as int) =~= path@.skip(start as int));
    }
    path.substring_char(start, n)
}

/// Whether the archive entry at `path` holds the replacement binary: the
/// final segment of its path is a binary name.
pub fn entry_matches(path: &str) -> (r: bool)
    ensures
        r == spec_entry_matches(path@),
{
    is_binary_name(base_name(path))
}

/// Scans entry paths in stream order and selects the entry to unpack: the
/// first whose final path segment follows the binary naming convention. On
/// success the result carries that entry's position and its bare file name
/// (what the entry is unpacked as); a stream with no match is
/// `InvalidBinary`.
pub fn select_binary_entry(paths: &Vec<String>) -> (r: Result<(usize, String), UpdateError>)
    ensures
        match r {
            Ok((i, name)) => {
                &&& i < paths@.len()
                &&& spec_entry_matches(paths@[i as int]@)
                &&& forall|j: int| 0 <= j < i ==> !spec_entry_matches(#[trigger] paths@[j]@)
                &&& name@ == spec_base_name(paths@[i as int]@)
            },
            Err(e) => {
                &&& e == UpdateError::InvalidBinary
                &&& forall|j: int|
                    0 <= j < paths@.len() ==> !spec_entry_matches(#[trigger] paths@[j]@)
            },
        },
{
    let mut i: usize = 0;
    while i < paths.len()
        invariant
            i <= paths@.len(),
            forall|j: int| 0 <= j < i ==> !spec_entry_matches(#[trigger] paths@[j]@),
        decreases paths@.len() - i,
    {
        let path = &paths[i];
        if entry_matches(path.as_str()) {
            let name = String::from_str(base_name(path.as_str()));
            return Ok((i, name));
        }
        i = i + 1;
    }
    Err(UpdateError::InvalidBinary)
}

} // verus!
