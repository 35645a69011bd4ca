//! The naming convention for stored files.
//!
//! A compressed file is stored under its original name with a fixed marker
//! appended. Stripping the marker restores the original name, so one
//! compress pass followed by one decompress pass is the identity on names.

use vstd::prelude::*;
use vstd::string::StrSliceExecFns;
use vstd::string::StringExecFns;

verus! {

/// The fixed marker appended to a file's stored name when its contents are
/// compressed.
pub open spec fn suffix_spec() -> Seq<char> {
    "-gzipped.txt"@
}

/// True when the path ends with the compression marker. The marker contains
/// no path separator, so a trailing match on the whole path is a trailing
/// match on the final name component.
pub open spec fn has_suffix_spec(p: Seq<char>) -> bool {
    &&& p.len() >= suffix_spec().len()
    &&& p.subrange(p.len() - suffix_spec().len(), p.len() as int) == suffix_spec()
}

/// The stored form of a path under compression: the marker is appended to
/// the final name component.
pub open spec fn stored_path_spec(p: Seq<char>) -> Seq<char> {
    p + suffix_spec()
}

/// The original form of a stored path: the marker is stripped when present,
/// otherwise the path is unchanged.
pub open spec fn restored_path_spec(p: Seq<char>) -> Seq<char> {
    if has_suffix_spec(p) {
        p.subrange(0, p.len() - suffix_spec().len())
    } else {
        p
    }
}

/// True when `s` ends with `suffix`, compared character by character.
fn ends_with(s: &str, suffix: &str) -> (r: bool)
    ensures
        r == (s@.len() >= suffix@.len() && s@.subrange(
            s@.len() - suffix@.len(),
            s@.len() as int,
        ) == suffix@),
{
    let n = s.unicode_len();
    let m = suffix.unicode_len();
    if n < m {
        return false;
    }
    let mut j: usize = 0;
    while j < m
        invariant
            m <= n,
            n == s@.len(),
            m == suffix@.len(),
            j <= m,
            forall|k: int| 0 <= k < j ==> s@[n - m + k] == suffix@[k],
        decreases m - j,
    {
        if s.get_char(n - m + j) != suffix.get_char(j) {
            proof {
                assert(s@.subrange(n - m, n as int)[j as int] != suffix@[j as int]);
            }
            return false;
        }
        j += 1;
    }
    proof {
        assert(s@.subrange(n - m, n as int) =~= suffix@);
    }
    true
}

/// True when the path's final name component carries the compression marker.
pub fn is_gzipped_file(rel_path: &str) -> (r: bool)
    ensures
        r == has_suffix_spec(rel_path@),
{
    ends_with(rel_path, "-gzipped.txt")
}

/// The stored path for a file that is compressed on its way in: the marker
/// is appended to the name.
pub fn compress_relative_path(rel_path: &str) -> (r: String)
    ensures
        r@ == stored_path_spec(rel_path@),
{
    let mut r = rel_path.to_owned();
    r.append("-gzipped.txt");
    r
}

/// The original name of a stored file, or `None` when the name does not
/// carry the compression marker.
pub fn original_file_name(rel_path: &str) -> (r: Option<String>)
    ensures
        match r {
            Some(s) => has_suffix_spec(rel_path@) && s@ == restored_path_spec(rel_path@),
            None => !has_suffix_spec(rel_path@),
        },
{
    if is_gzipped_file(rel_path) {
        proof {
            reveal_strlit("-gzipped.txt");
        }
        let n = rel_path.unicode_len();
        let stripped = rel_path.substring_char(0, n - 12);
        Some(stripped.to_owned())
    } else {
        None
    }
}

/// The original path for a stored file: the marker is stripped when present,
/// otherwise the path is returned unchanged.
pub fn decompress_relative_path(rel_path: &str) -> (r: String)
    ensures
        r@ == restored_path_spec(rel_path@),
{
    match original_file_name(rel_path) {
        Some(s) => s,
        None => rel_path.to_owned(),
    }
}

/// A fresh path gains the marker exactly once and stripping it restores the
/// path: for every relative path without the marker, the stored form carries
/// the marker and restoring the stored form is the identity.
pub proof fn lemma_path_round_trip(p: Seq<char>)
    requires
        !has_suffix_spec(p),
    ensures
        has_suffix_spec(stored_path_spec(p)),
        restored_path_spec(stored_path_spec(p)) == p,
{
    let sp = stored_path_spec(p);
    assert(sp.subrange(sp.len() - suffix_spec().len(), sp.len() as int) =~= suffix_spec());
    assert(restored_path_spec(sp) =~= p);
}

/// A path already carrying the marker is never given a second one: restoring
/// it and storing the result is the identity, so a compress pass over stored
/// names is idempotent.
pub proof fn lemma_stored_path_round_trip(p: Seq<char>)
    requires
        has_suffix_spec(p),
    ensures
        stored_path_spec(restored_path_spec(p)) == p,
{
    assert forall|i: int| 0 <= i < p.len() implies stored_path_spec(restored_path_spec(p))[i]
        == p[i] by {
        let m = suffix_spec().len();
        if i >= p.len() - m {
            assert(p.subrange(p.len() - m, p.len() as int)[i - (p.len() - m)] == p[i]);
        }
    }
    assert(stored_path_spec(restored_path_spec(p)) =~= p);
}

} // verus!
