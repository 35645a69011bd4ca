//! Classification of a working-tree status report.
//!
//! The report is line oriented: each entry is a two-character status code, a
//! separator character, and a path. Entries are sorted into added, modified
//! and deleted lists; rename entries contribute their new name to the
//! modified list; anything else is ignored.

use vstd::prelude::*;
use vstd::string::StrSliceExecFns;

use crate::text::lemma_seq_view_push;
use crate::text::seq_view;
use crate::text::str_eq;

verus! {

/// The categorized paths of one status snapshot, in report order.
#[derive(Debug, Default, Clone, PartialEq, Eq)]
pub struct FileChangeStats {
    pub added: Vec<String>,
    pub modified: Vec<String>,
    pub deleted: Vec<String>,
}

/// The index of the first newline at or after `k`, if any.
pub open spec fn find_nl_from(s: Seq<char>, k: int) -> Option<int>
    decreases s.len() - k,
{
    if k < 0 || k >= s.len() {
        None
    } else if s[k] == '\n' {
        Some(k)
    } else {
        find_nl_from(s, k + 1)
    }
}

proof fn lemma_find_nl_from_bounds(s: Seq<char>, k: int)
    requires
        0 <= k,
    ensures
        match find_nl_from(s, k) {
            Some(i) => k <= i < s.len(),
            None => true,
        },
    decreases s.len() - k,
{
    if 0 <= k < s.len() && s[k] != '\n' {
        lemma_find_nl_from_bounds(s, k + 1);
    }
}

/// The lines of `s` from position `k` on, split at each newline, as
/// `str::split` yields them: a report without a newline is one line, and a
/// trailing newline yields a final empty line.
pub open spec fn split_lines_from(s: Seq<char>, k: int) -> Seq<Seq<char>>
    decreases s.len() - k,
    via split_lines_from_dec
{
    match find_nl_from(s, k) {
        Some(i) => seq![s.subrange(k, i)] + split_lines_from(s, i + 1),
        None => seq![s.subrange(k, s.len() as int)],
    }
}

#[via_fn]
proof fn split_lines_from_dec(s: Seq<char>, k: int) {
    if k >= 0 {
        lemma_find_nl_from_bounds(s, k);
    }
}

/// The two-character status code of a report line.
pub open spec fn line_code(l: Seq<char>) -> Seq<char> {
    l.subrange(0, 2)
}

/// The path part of a report line: everything after the code and the
/// separator character.
pub open spec fn line_path(l: Seq<char>) -> Seq<char> {
    l.subrange(3, l.len() as int)
}

/// A line classified as an addition.
pub open spec fn is_added_line(l: Seq<char>) -> bool {
    l.len() >= 3 && (line_code(l) == "A "@ || line_code(l) == "??"@)
}

/// A line classified as a modification by its code.
pub open spec fn is_modified_line(l: Seq<char>) -> bool {
    l.len() >= 3 && (line_code(l) == "M "@ || line_code(l) == " M"@ || line_code(l) == "MM"@)
}

/// A line classified as a deletion.
pub open spec fn is_deleted_line(l: Seq<char>) -> bool {
    l.len() >= 3 && (line_code(l) == "D "@ || line_code(l) == " D"@)
}

/// A rename line: one that no other rule claims and whose code starts with
/// `R`.
pub open spec fn is_rename_line(l: Seq<char>) -> bool {
    &&& l.len() >= 3
    &&& l[0] == 'R'
    &&& !is_added_line(l)
    &&& !is_modified_line(l)
    &&& !is_deleted_line(l)
}

/// The rename separator.
pub open spec fn arrow_spec() -> Seq<char> {
    " -> "@
}

/// The index of the first occurrence of the rename separator at or after
/// `k`, if any.
pub open spec fn find_arrow_from(p: Seq<char>, k: int) -> Option<int>
    decreases p.len() - k,
{
    if k < 0 || k + 4 > p.len() {
        None
    } else if p.subrange(k, k + 4) == arrow_spec() {
        Some(k)
    } else {
        find_arrow_from(p, k + 1)
    }
}

proof fn lemma_find_arrow_from_bounds(p: Seq<char>, k: int)
    requires
        0 <= k,
    ensures
        match find_arrow_from(p, k) {
            Some(i) => k <= i && i + 4 <= p.len(),
            None => true,
        },
    decreases p.len() - k,
{
    if 0 <= k && k + 4 <= p.len() && p.subrange(k, k + 4) != arrow_spec() {
        lemma_find_arrow_from_bounds(p, k + 1);
    }
}

/// The new name carried by a rename entry: everything after the first
/// rename separator, or the raw text when no separator occurs.
pub open spec fn rename_target_spec(p: Seq<char>) -> Seq<char> {
    match find_arrow_from(p, 0) {
        Some(i) => p.subrange(i + 4, p.len() as int),
        None => p,
    }
}

/// The path a line contributes to its list: the new name for a rename
/// entry, the path part otherwise.
pub open spec fn classified_path(l: Seq<char>) -> Seq<char> {
    if is_rename_line(l) {
        rename_target_spec(line_path(l))
    } else {
        line_path(l)
    }
}

/// The added paths of a line sequence, in order.
pub open spec fn added_of(ls: Seq<Seq<char>>) -> Seq<Seq<char>>
    decreases ls.len(),
{
    if ls.len() == 0 {
        Seq::empty()
    } else {
        added_of(ls.drop_last()) + if is_added_line(ls.last()) {
            seq![line_path(ls.last())]
        } else {
            Seq::empty()
        }
    }
}

/// The modified paths of a line sequence, in order; rename entries
/// contribute their new name.
pub open spec fn modified_of(ls: Seq<Seq<char>>) -> Seq<Seq<char>>
    decreases ls.len(),
{
    if ls.len() == 0 {
        Seq::empty()
    } else {
        modified_of(ls.drop_last()) + if is_modified_line(ls.last()) || is_rename_line(
            ls.last(),
        ) {
            seq![classified_path(ls.last())]
        } else {
            Seq::empty()
        }
    }
}

/// The deleted paths of a line sequence, in order.
pub open spec fn deleted_of(ls: Seq<Seq<char>>) -> Seq<Seq<char>>
    decreases ls.len(),
{
    if ls.len() == 0 {
        Seq::empty()
    } else {
        deleted_of(ls.drop_last()) + if is_deleted_line(ls.last()) {
            seq![line_path(ls.last())]
        } else {
            Seq::empty()
        }
    }
}

proof fn lemma_find_nl_scan(s: Seq<char>, start: int, j: int)
    requires
        0 <= start <= j <= s.len(),
        forall|k: int| start <= k < j ==> s[k] != '\n',
        j < s.len() ==> s[j] == '\n',
    ensures
        find_nl_from(s, start) == if j < s.len() {
            Some(j)
        } else {
            None::<int>
        },
    decreases j - start,
{
    if start < j {
        lemma_find_nl_scan(s, start + 1, j);
    }
}

/// Splits a report into its lines, as `str::split` at newlines does.
pub fn split_lines(s: &str) -> (r: Vec<String>)
    ensures
        seq_view(r@) == split_lines_from(s@, 0),
{
    let n = s.unicode_len();
    let mut r: Vec<String> = Vec::new();
    let mut start: usize = 0;
    let mut done: bool = false;
    while !done
        invariant
            n == s@.len(),
            start <= n,
            !done ==> seq_view(r@) + split_lines_from(s@, start as int) =~= split_lines_from(
                s@,
                0,
            ),
            done ==> seq_view(r@) =~= split_lines_from(s@, 0),
        decreases n - start + (if done { 0int } else { 1int }),
    {
        let mut j: usize = start;
        while j < n && s.get_char(j) != '\n'
            invariant
                n == s@.len(),
                start <= j <= n,
                forall|k: int| start <= k < j ==> s@[k] != '\n',
            decreases n - j,
        {
            j += 1;
        }
        proof {
            lemma_find_nl_scan(s@, start as int, j as int);
        }
        let line = s.substring_char(start, j).to_owned();
        proof {
            lemma_seq_view_push(r@, line);
        }
        let ghost old_view = seq_view(r@);
        r.push(line);
        if j < n {
            proof {
                assert(split_lines_from(s@, start as int) == seq![
                    s@.subrange(start as int, j as int),
                ] + split_lines_from(s@, j + 1));
                assert(seq_view(r@) + split_lines_from(s@, j + 1) =~= old_view
                    + split_lines_from(s@, start as int));
            }
            start = j + 1;
        } else {
            proof {
                assert(split_lines_from(s@, start as int) =~= seq![
                    s@.subrange(start as int, n as int),
                ]);
                assert(seq_view(r@) =~= old_view + split_lines_from(s@, start as int));
            }
            done = true;
        }
    }
    r
}

enum LineClass {
    AddedPath(String),
    ModifiedPath(String),
    DeletedPath(String),
    Skipped,
}

fn find_arrow(p: &str) -> (r: Option<usize>)
    ensures
        match r {
            Some(i) => find_arrow_from(p@, 0) == Some(i as int),
            None => find_arrow_from(p@, 0) is None,
        },
{
    let n = p.unicode_len();
    if n < 4 {
        return None;
    }
    let mut k: usize = 0;
    while k <= n - 4
        invariant
            n == p@.len(),
            4 <= n,
            k <= n - 3,
            find_arrow_from(p@, 0) == find_arrow_from(p@, k as int),
        decreases n - k,
    {
        let m = p.substring_char(k, k + 4);
        if str_eq(m, " -> ") {
            proof {
                assert(p@.subrange(k as int, k as int + 4) == arrow_spec());
            }
            return Some(k);
        }
        k += 1;
    }
    None
}

proof fn lemma_codes_distinct()
    ensures
        "A "@ != "M "@ && "A "@ != " M"@ && "A "@ != "MM"@ && "A "@ != "D "@ && "A "@ != " D"@,
        "??"@ != "M "@ && "??"@ != " M"@ && "??"@ != "MM"@ && "??"@ != "D "@ && "??"@ != " D"@,
        "M "@ != "D "@ && "M "@ != " D"@ && " M"@ != "D "@ && " M"@ != " D"@ && "MM"@ != "D "@
            && "MM"@ != " D"@,
{
    reveal_strlit("A ");
    reveal_strlit("??");
    reveal_strlit("M ");
    reveal_strlit(" M");
    reveal_strlit("MM");
    reveal_strlit("D ");
    reveal_strlit(" D");
    assert("A "@[0] == 'A' && "A "@[1] == ' ');
    assert("??"@[0] == '?' && "??"@[1] == '?');
    assert("M "@[0] == 'M' && "M "@[1] == ' ');
    assert(" M"@[0] == ' ' && " M"@[1] == 'M');
    assert("MM"@[0] == 'M' && "MM"@[1] == 'M');
    assert("D "@[0] == 'D' && "D "@[1] == ' ');
    assert(" D"@[0] == ' ' && " D"@[1] == 'D');
}

fn classify_line(line: &str) -> (r: LineClass)
    ensures
        match r {
            LineClass::AddedPath(p) => is_added_line(line@) && !is_modified_line(line@)
                && !is_deleted_line(line@) && !is_rename_line(line@) && p@ == line_path(line@),
            LineClass::ModifiedPath(p) => (is_modified_line(line@) || is_rename_line(line@))
                && !is_added_line(line@) && !is_deleted_line(line@) && p@ == classified_path(
                line@,
            ),
            LineClass::DeletedPath(p) => is_deleted_line(line@) && !is_added_line(line@)
                && !is_modified_line(line@) && !is_rename_line(line@) && p@ == line_path(line@),
            LineClass::Skipped => !is_added_line(line@) && !is_modified_line(line@)
                && !is_deleted_line(line@) && !is_rename_line(line@),
        },
{
    let n = line.unicode_len();
    if n < 3 {
        return LineClass::Skipped;
    }
    proof {
        lemma_codes_distinct();
    }
    let code = line.substring_char(0, 2);
    let path = line.substring_char(3, n);
    if str_eq(code, "A ") || str_eq(code, "??") {
        LineClass::AddedPath(path.to_owned())
    } else if str_eq(code, "M ") || str_eq(code, " M") || str_eq(code, "MM") {
        LineClass::ModifiedPath(path.to_owned())
    } else if str_eq(code, "D ") || str_eq(code, " D") {
        LineClass::DeletedPath(path.to_owned())
    } else if line.get_char(0) == 'R' {
        let plen = path.unicode_len();
        match find_arrow(path) {
            Some(i) => {
                proof {
                    lemma_find_arrow_from_bounds(path@, 0);
                }
                LineClass::ModifiedPath(path.substring_char(i + 4, plen).to_owned())
            },
            None => LineClass::ModifiedPath(path.to_owned()),
        }
    } else {
        LineClass::Skipped
    }
}

/// Parses a status report into categorized path lists, in report order.
pub fn parse_git_status(status_output: &str) -> (stats: FileChangeStats)
    ensures
        seq_view(stats.added@) == added_of(split_lines_from(status_output@, 0)),
        seq_view(stats.modified@) == modified_of(split_lines_from(status_output@, 0)),
        seq_view(stats.deleted@) == deleted_of(split_lines_from(status_output@, 0)),
{
    let lines = split_lines(status_output);
    let ghost ls = seq_view(lines@);
    let mut added: Vec<String> = Vec::new();
    let mut modified: Vec<String> = Vec::new();
    let mut deleted: Vec<String> = Vec::new();
    let mut i: usize = 0;
    while i < lines.len()
        invariant
            i <= lines.len(),
            ls == seq_view(lines@),
            ls == split_lines_from(status_output@, 0),
            seq_view(added@) == added_of(ls.subrange(0, i as int)),
            seq_view(modified@) == modified_of(ls.subrange(0, i as int)),
            seq_view(deleted@) == deleted_of(ls.subrange(0, i as int)),
        decreases lines.len() - i,
    {
        let line: &String = &lines[i];
        let c = classify_line(line.as_str());
        proof {
            let pre = ls.subrange(0, i as int);
            let cur = ls.subrange(0, i + 1);
            assert(cur.drop_last() =~= pre);
            assert(cur.last() == lines@[i as int]@);
        }
        let ghost pre = ls.subrange(0, i as int);
        let ghost cur = ls.subrange(0, i + 1);
        match c {
            LineClass::AddedPath(p) => {
                proof {
                    lemma_seq_view_push(added@, p);
                    assert(added_of(cur) =~= added_of(pre).push(line_path(cur.last())));
                    assert(modified_of(cur) =~= modified_of(pre));
                    assert(deleted_of(cur) =~= deleted_of(pre));
                }
                added.push(p);
            },
            LineClass::ModifiedPath(p) => {
                proof {
                    lemma_seq_view_push(modified@, p);
                    assert(modified_of(cur) =~= modified_of(pre).push(classified_path(cur.last())));
                    assert(added_of(cur) =~= added_of(pre));
                    assert(deleted_of(cur) =~= deleted_of(pre));
                }
                modified.push(p);
            },
            LineClass::DeletedPath(p) => {
                proof {
                    lemma_seq_view_push(deleted@, p);
                    assert(deleted_of(cur) =~= deleted_of(pre).push(line_path(cur.last())));
                    assert(added_of(cur) =~= added_of(pre));
                    assert(modified_of(cur) =~= modified_of(pre));
                }
                deleted.push(p);
            },
            LineClass::Skipped => {
                proof {
                    assert(added_of(cur) =~= added_of(pre));
                    assert(modified_of(cur) =~= modified_of(pre));
                    assert(deleted_of(cur) =~= deleted_of(pre));
                }
            },
        }
        i += 1;
    }
    proof {
        assert(ls.subrange(0, lines@.len() as int) =~= ls);
    }
    FileChangeStats { added, modified, deleted }
}

} // verus!
