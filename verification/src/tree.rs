//! The walked tree and the metadata-directory exclusion rule.
//!
//! A walk of the sync root yields one record per directory and file, as
//! slash-normalized relative paths. The VCS metadata directory is excluded
//! only when it is the first path segment, so a same-named directory nested
//! deeper is still walked.

use vstd::prelude::*;
use vstd::string::StrSliceExecFns;

use crate::text::str_eq;

verus! {

/// What a walked entry is: a directory or a regular file.
#[derive(Debug, Clone, Copy, PartialEq, Eq, Structural)]
pub enum EntryKind {
    Directory,
    File,
}

/// One walked entry: its slash-normalized path relative to the sync root,
/// its kind, and its permission bits.
#[derive(Debug, PartialEq, Eq)]
pub struct FileRecord {
    pub rel_path: String,
    pub kind: EntryKind,
    pub permissions: u32,
}

impl Clone for FileRecord {
    fn clone(&self) -> (r: Self)
        ensures
            r == *self,
    {
        FileRecord {
            rel_path: self.rel_path.clone(),
            kind: self.kind,
            permissions: self.permissions,
        }
    }
}

/// True when the path's first segment is the VCS metadata directory: the
/// path is `.git` itself or starts with `.git/`. A same-named directory
/// deeper in the tree does not match.
pub open spec fn is_metadata_path_spec(p: Seq<char>) -> bool {
    &&& p.len() >= 4
    &&& p.subrange(0, 4) == ".git"@
    &&& (p.len() == 4 || p[4] == '/')
}

/// Decides the exclusion rule for one walked path.
pub fn is_metadata_path(rel_path: &str) -> (r: bool)
    ensures
        r == is_metadata_path_spec(rel_path@),
{
    let n = rel_path.unicode_len();
    if n < 4 {
        return false;
    }
    let head = rel_path.substring_char(0, 4);
    if !str_eq(head, ".git") {
        return false;
    }
    if n == 4 {
        true
    } else {
        rel_path.get_char(4) == '/'
    }
}

/// The records of a walk that one sync pass processes: every record whose
/// path does not begin with the metadata directory, in walk order.
pub open spec fn filtered_records_spec(rs: Seq<FileRecord>) -> Seq<FileRecord>
    decreases rs.len(),
{
    if rs.len() == 0 {
        Seq::empty()
    } else {
        filtered_records_spec(rs.drop_last()) + if !is_metadata_path_spec(rs.last().rel_path@) {
            seq![rs.last()]
        } else {
            Seq::empty()
        }
    }
}

/// Drops every walked record under the metadata directory, keeping all
/// others in walk order.
pub fn filter_walk_records(records: &Vec<FileRecord>) -> (r: Vec<FileRecord>)
    ensures
        r@ == filtered_records_spec(records@),
{
    let mut r: Vec<FileRecord> = Vec::new();
    let mut i: usize = 0;
    while i < records.len()
        invariant
            i <= records@.len(),
            r@ == filtered_records_spec(records@.subrange(0, i as int)),
        decreases records@.len() - i,
    {
        let ghost pre = records@.subrange(0, i as int);
        let ghost cur = records@.subrange(0, i + 1);
        proof {
            assert(cur.drop_last() =~= pre);
            assert(cur.last() == records@[i as int]);
        }
        if !is_metadata_path((&records[i]).rel_path.as_str()) {
            r.push(records[i].clone());
            proof {
                assert(r@ =~= filtered_records_spec(cur));
            }
        } else {
            proof {
                assert(r@ =~= filtered_records_spec(cur));
            }
        }
        i += 1;
    }
    proof {
        assert(records@.subrange(0, records@.len() as int) =~= records@);
    }
    r
}

/// Nothing under the metadata directory survives the walk filter, and every
/// other record survives it: the filtered walk holds no path whose first
/// segment is the metadata directory, and holds every record whose path's
/// first segment is anything else, however deep a same-named directory sits
/// within it.
pub proof fn lemma_filter_excludes_metadata(rs: Seq<FileRecord>)
    ensures
        forall|i: int|
            0 <= i < filtered_records_spec(rs).len() ==> !is_metadata_path_spec(
                #[trigger] filtered_records_spec(rs)[i].rel_path@,
            ),
        forall|i: int|
            0 <= i < rs.len() && !is_metadata_path_spec(rs[i].rel_path@)
                ==> filtered_records_spec(rs).contains(#[trigger] rs[i]),
    decreases rs.len(),
{
    if rs.len() > 0 {
        lemma_filter_excludes_metadata(rs.drop_last());
        let head = filtered_records_spec(rs.drop_last());
        let whole = filtered_records_spec(rs);
        assert forall|i: int|
            0 <= i < rs.len() && !is_metadata_path_spec(
                rs[i].rel_path@,
            ) implies whole.contains(#[trigger] rs[i]) by {
            if i < rs.len() - 1 {
                assert(rs.drop_last()[i] == rs[i]);
                assert(head.contains(rs[i]));
                let j = choose|j: int| 0 <= j < head.len() && head[j] == rs[i];
                assert(whole[j] == rs[i]);
            } else {
                assert(rs.last() == rs[i]);
                assert(whole[whole.len() - 1] == rs[i]);
            }
        }
    }
}

} // verus!
