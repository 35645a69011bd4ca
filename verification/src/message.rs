//! Commit-message synthesis from one status classification.
//!
//! The subject counts the changed files and summarizes the non-empty
//! categories; the body lists each file under a labeled section, one section
//! per non-empty category, in the fixed order added, modified, deleted.

use vstd::prelude::*;
use vstd::string::StrSliceExecFns;
use vstd::string::StringExecFns;

use crate::status::FileChangeStats;
use crate::text::lemma_seq_view_push;
use crate::text::seq_view;
use crate::text::trim_spec;
use crate::text::trim_str;

verus! {

/// The character for one decimal digit.
pub open spec fn digit_char_spec(d: int) -> char {
    if d == 0 {
        '0'
    } else if d == 1 {
        '1'
    } else if d == 2 {
        '2'
    } else if d == 3 {
        '3'
    } else if d == 4 {
        '4'
    } else if d == 5 {
        '5'
    } else if d == 6 {
        '6'
    } else if d == 7 {
        '7'
    } else if d == 8 {
        '8'
    } else {
        '9'
    }
}

/// The decimal rendering of `n`, most significant digit first, without
/// leading zeros.
pub open spec fn dec_str_spec(n: nat) -> Seq<char>
    decreases n,
{
    if n < 10 {
        seq![digit_char_spec(n as int)]
    } else {
        dec_str_spec(n / 10) + seq![digit_char_spec((n % 10) as int)]
    }
}

/// The summary items for the non-empty counts, in order.
pub open spec fn parts_list_spec(a: nat, m: nat, d: nat) -> Seq<Seq<char>> {
    (if a > 0 {
        seq![dec_str_spec(a) + " added"@]
    } else {
        Seq::empty()
    }) + (if m > 0 {
        seq![dec_str_spec(m) + " modified"@]
    } else {
        Seq::empty()
    }) + (if d > 0 {
        seq![dec_str_spec(d) + " deleted"@]
    } else {
        Seq::empty()
    })
}

/// The items joined with a comma and a space.
pub open spec fn join_comma_spec(ps: Seq<Seq<char>>) -> Seq<char>
    decreases ps.len(),
{
    if ps.len() == 0 {
        Seq::empty()
    } else if ps.len() == 1 {
        ps[0]
    } else {
        join_comma_spec(ps.drop_last()) + ", "@ + ps.last()
    }
}

/// The subject line: the total count, the pluralized noun, and, unless all
/// three categories are empty, the parenthesized summary of the non-empty
/// counts.
pub open spec fn subject_spec(a: nat, m: nat, d: nat) -> Seq<char> {
    let base = "Sync "@ + dec_str_spec(a + m + d) + " file"@ + (if a + m + d == 1 {
        Seq::<char>::empty()
    } else {
        "s"@
    });
    if a == 0 && m == 0 && d == 0 {
        base
    } else {
        base + " ("@ + join_comma_spec(parts_list_spec(a, m, d)) + ")"@
    }
}

/// One body line per file: the marker prefix, the file, a newline.
pub open spec fn file_lines_spec(prefix: Seq<char>, files: Seq<Seq<char>>) -> Seq<char>
    decreases files.len(),
{
    if files.len() == 0 {
        Seq::empty()
    } else {
        file_lines_spec(prefix, files.drop_last()) + prefix + files.last() + "\n"@
    }
}

/// The body before trimming: one labeled section per non-empty category, a
/// blank line between sections.
pub open spec fn raw_body_spec(a: Seq<Seq<char>>, m: Seq<Seq<char>>, d: Seq<Seq<char>>) -> Seq<
    char,
> {
    (if a.len() > 0 {
        "Added files:\n"@ + file_lines_spec("  + "@, a)
    } else {
        Seq::empty()
    }) + (if m.len() > 0 {
        (if a.len() > 0 {
            "\n"@
        } else {
            Seq::<char>::empty()
        }) + "Modified files:\n"@ + file_lines_spec("  ~ "@, m)
    } else {
        Seq::empty()
    }) + (if d.len() > 0 {
        (if a.len() > 0 || m.len() > 0 {
            "\n"@
        } else {
            Seq::<char>::empty()
        }) + "Deleted files:\n"@ + file_lines_spec("  - "@, d)
    } else {
        Seq::empty()
    })
}

/// The final body: the sections with leading and trailing whitespace
/// removed.
pub open spec fn body_spec(a: Seq<Seq<char>>, m: Seq<Seq<char>>, d: Seq<Seq<char>>) -> Seq<char> {
    trim_spec(raw_body_spec(a, m, d))
}

fn digit_str(d: usize) -> (r: &'static str)
    requires
        d < 10,
    ensures
        r@ == seq![digit_char_spec(d as int)],
{
    if d == 0 {
        proof {
            reveal_strlit("0");
            assert("0"@ =~= seq!['0']);
        }
        "0"
    } else if d == 1 {
        proof {
            reveal_strlit("1");
            assert("1"@ =~= seq!['1']);
        }
        "1"
    } else if d == 2 {
        proof {
            reveal_strlit("2");
            assert("2"@ =~= seq!['2']);
        }
        "2"
    } else if d == 3 {
        proof {
            reveal_strlit("3");
            assert("3"@ =~= seq!['3']);
        }
        "3"
    } else if d == 4 {
        proof {
            reveal_strlit("4");
            assert("4"@ =~= seq!['4']);
        }
        "4"
    } else if d == 5 {
        proof {
            reveal_strlit("5");
            assert("5"@ =~= seq!['5']);
        }
        "5"
    } else if d == 6 {
        proof {
            reveal_strlit("6");
            assert("6"@ =~= seq!['6']);
        }
        "6"
    } else if d == 7 {
        proof {
            reveal_strlit("7");
            assert("7"@ =~= seq!['7']);
        }
        "7"
    } else if d == 8 {
        proof {
            reveal_strlit("8");
            assert("8"@ =~= seq!['8']);
        }
        "8"
    } else {
        proof {
            reveal_strlit("9");
            assert("9"@ =~= seq!['9']);
        }
        "9"
    }
}

/// Renders a count in decimal.
fn usize_to_string(n: usize) -> (r: String)
    ensures
        r@ == dec_str_spec(n as nat),
    decreases n,
{
    if n < 10 {
        digit_str(n).to_owned()
    } else {
        let mut r = usize_to_string(n / 10);
        r.append(digit_str(n % 10));
        proof {
            assert(r@ =~= dec_str_spec(n as nat));
        }
        r
    }
}

/// Builds the commit subject and body for one classification. The subject
/// counts every entry; the body lists each file under its section.
pub fn generate_commit_message(stats: &FileChangeStats) -> (r: (String, String))
    requires
        stats.added@.len() + stats.modified@.len() + stats.deleted@.len() <= usize::MAX,
    ensures
        r.0@ == subject_spec(
            stats.added@.len() as nat,
            stats.modified@.len() as nat,
            stats.deleted@.len() as nat,
        ),
        r.1@ == body_spec(
            seq_view(stats.added@),
            seq_view(stats.modified@),
            seq_view(stats.deleted@),
        ),
{
    let a = stats.added.len();
    let m = stats.modified.len();
    let d = stats.deleted.len();
    let total = a + m + d;

    let mut subject = String::new();
    subject.append("Sync ");
    let total_str = usize_to_string(total);
    subject.append(total_str.as_str());
    subject.append(" file");
    if total != 1 {
        subject.append("s");
    }
    let ghost base = "Sync "@ + dec_str_spec(total as nat) + " file"@ + (if total == 1 {
        Seq::<char>::empty()
    } else {
        "s"@
    });
    proof {
        assert(subject@ =~= base);
    }
    if !(a == 0 && m == 0 && d == 0) {
        let mut parts: Vec<String> = Vec::new();
        if a > 0 {
            let mut p = usize_to_string(a);
            p.append(" added");
            proof {
                lemma_seq_view_push(parts@, p);
            }
            parts.push(p);
        }
        if m > 0 {
            let mut p = usize_to_string(m);
            p.append(" modified");
            proof {
                lemma_seq_view_push(parts@, p);
            }
            parts.push(p);
        }
        if d > 0 {
            let mut p = usize_to_string(d);
            p.append(" deleted");
            proof {
                lemma_seq_view_push(parts@, p);
            }
            parts.push(p);
        }
        proof {
            assert(seq_view(parts@) =~= parts_list_spec(a as nat, m as nat, d as nat));
        }
        subject.append(" (");
        let ghost ps = seq_view(parts@);
        let ghost opened = base + " ("@;
        proof {
            assert(subject@ =~= opened);
        }
        let mut i: usize = 0;
        while i < parts.len()
            invariant
                i <= parts.len(),
                ps == seq_view(parts@),
                subject@ == opened + join_comma_spec(ps.subrange(0, i as int)),
            decreases parts.len() - i,
        {
            if i > 0 {
                subject.append(", ");
            }
            subject.append((&parts[i]).as_str());
            proof {
                let cur = ps.subrange(0, i + 1);
                assert(cur.drop_last() =~= ps.subrange(0, i as int));
                assert(cur.last() == ps[i as int]);
                if i == 0 {
                    assert(ps.subrange(0, 0) =~= Seq::<Seq<char>>::empty());
                    assert(join_comma_spec(cur) == cur[0]);
                }
                assert(subject@ =~= opened + join_comma_spec(cur));
            }
            i += 1;
        }
        proof {
            assert(ps.subrange(0, parts@.len() as int) =~= ps);
        }
        subject.append(")");
    }
    proof {
        assert(subject@ =~= subject_spec(a as nat, m as nat, d as nat));
    }

    let ghost va = seq_view(stats.added@);
    let ghost vm = seq_view(stats.modified@);
    let ghost vd = seq_view(stats.deleted@);
    let mut body = String::new();
    if a > 0 {
        body.append("Added files:\n");
        let mut i: usize = 0;
        while i < a
            invariant
                a == stats.added@.len(),
                va == seq_view(stats.added@),
                i <= a,
                body@ == "Added files:\n"@ + file_lines_spec("  + "@, va.subrange(0, i as int)),
            decreases a - i,
        {
            body.append("  + ");
            body.append((&stats.added[i]).as_str());
            body.append("\n");
            proof {
                let cur = va.subrange(0, i + 1);
                assert(cur.drop_last() =~= va.subrange(0, i as int));
                assert(cur.last() == va[i as int]);
                assert(body@ =~= "Added files:\n"@ + file_lines_spec("  + "@, cur));
            }
            i += 1;
        }
        proof {
            assert(va.subrange(0, a as int) =~= va);
        }
    }
    let ghost sec_a = if va.len() > 0 {
        "Added files:\n"@ + file_lines_spec("  + "@, va)
    } else {
        Seq::<char>::empty()
    };
    proof {
        assert(body@ =~= sec_a);
    }
    if m > 0 {
        if a > 0 {
            body.append("\n");
        }
        body.append("Modified files:\n");
        let ghost head_m = sec_a + (if va.len() > 0 {
            "\n"@
        } else {
            Seq::<char>::empty()
        }) + "Modified files:\n"@;
        proof {
            assert(body@ =~= head_m + file_lines_spec("  ~ "@, vm.subrange(0, 0)));
        }
        let mut i: usize = 0;
        while i < m
            invariant
                m == stats.modified@.len(),
                vm == seq_view(stats.modified@),
                i <= m,
                body@ == head_m + file_lines_spec("  ~ "@, vm.subrange(0, i as int)),
            decreases m - i,
        {
            body.append("  ~ ");
            body.append((&stats.modified[i]).as_str());
            body.append("\n");
            proof {
                let cur = vm.subrange(0, i + 1);
                assert(cur.drop_last() =~= vm.subrange(0, i as int));
                assert(cur.last() == vm[i as int]);
                assert(body@ =~= head_m + file_lines_spec("  ~ "@, cur));
            }
            i += 1;
        }
        proof {
            assert(vm.subrange(0, m as int) =~= vm);
        }
    }
    let ghost sec_m = if vm.len() > 0 {
        (if va.len() > 0 {
            "\n"@
        } else {
            Seq::<char>::empty()
        }) + "Modified files:\n"@ + file_lines_spec("  ~ "@, vm)
    } else {
        Seq::<char>::empty()
    };
    proof {
        assert(body@ =~= sec_a + sec_m);
    }
    if d > 0 {
        if a > 0 || m > 0 {
            body.append("\n");
        }
        body.append("Deleted files:\n");
        let ghost head_d = sec_a + sec_m + (if va.len() > 0 || vm.len() > 0 {
            "\n"@
        } else {
            Seq::<char>::empty()
        }) + "Deleted files:\n"@;
        proof {
            assert(body@ =~= head_d + file_lines_spec("  - "@, vd.subrange(0, 0)));
        }
        let mut i: usize = 0;
        while i < d
            invariant
                d == stats.deleted@.len(),
                vd == seq_view(stats.deleted@),
                i <= d,
                body@ == head_d + file_lines_spec("  - "@, vd.subrange(0, i as int)),
            decreases d - i,
        {
            body.append("  - ");
            body.append((&stats.deleted[i]).as_str());
            body.append("\n");
            proof {
                let cur = vd.subrange(0, i + 1);
                assert(cur.drop_last() =~= vd.subrange(0, i as int));
                assert(cur.last() == vd[i as int]);
                assert(body@ =~= head_d + file_lines_spec("  - "@, cur));
            }
            i += 1;
        }
        proof {
            assert(vd.subrange(0, d as int) =~= vd);
        }
    }
    proof {
        assert(body@ =~= raw_body_spec(va, vm, vd));
    }
    let trimmed = trim_str(body.as_str());
    (subject, trimmed)
}

} // verus!
