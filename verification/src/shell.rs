//! Shell escaping for the SSH transport command.
//!
//! A signing-key path is turned into a `GIT_SSH_COMMAND` string. Every
//! character of the key path that the shell could interpret is prefixed with
//! a backslash; no other character is altered.

use vstd::prelude::*;
use vstd::string::StrSliceExecFns;
use vstd::string::StringExecFns;

verus! {

/// True for exactly the characters that are backslash-escaped.
pub open spec fn needs_escape_spec(c: char) -> bool {
    ||| c == ' '
    ||| c == '\t'
    ||| c == '\n'
    ||| c == '\r'
    ||| c == '"'
    ||| c == '\''
    ||| c == '`'
    ||| c == '$'
    ||| c == '\\'
    ||| c == '|'
    ||| c == '&'
    ||| c == ';'
    ||| c == '<'
    ||| c == '>'
    ||| c == '('
    ||| c == ')'
    ||| c == '{'
    ||| c == '}'
    ||| c == '['
    ||| c == ']'
    ||| c == '!'
    ||| c == '*'
    ||| c == '?'
}

/// The escaped form of one character: a backslash is put in front of a
/// character that the shell could interpret, any other character stands
/// alone.
pub open spec fn escaped_char_spec(c: char) -> Seq<char> {
    if needs_escape_spec(c) {
        seq!['\\', c]
    } else {
        seq![c]
    }
}

/// The escaped form of a whole string: each character escaped in place, in
/// order, with nothing else altered.
pub open spec fn escape_spec(s: Seq<char>) -> Seq<char>
    decreases s.len(),
{
    if s.len() == 0 {
        Seq::empty()
    } else {
        escape_spec(s.drop_last()) + escaped_char_spec(s.last())
    }
}

/// The full transport command for a signing-key path.
pub open spec fn ssh_command_spec(key: Seq<char>) -> Seq<char> {
    "ssh -i "@ + escape_spec(key) + " -o IdentitiesOnly=yes -o StrictHostKeyChecking=accept-new"@
}

fn needs_escape(c: char) -> (r: bool)
    ensures
        r == needs_escape_spec(c),
{
    match c {
        ' ' | '\t' | '\n' | '\r' | '"' | '\'' | '`' | '$' | '\\' | '|' | '&' | ';' | '<' | '>'
            | '(' | ')' | '{' | '}' | '[' | ']' | '!' | '*' | '?' => true,
        _ => false,
    }
}

/// Escapes a string for use as a single word in a shell command line.
pub fn escape_shell_arg(input: &str) -> (r: String)
    ensures
        r@ == escape_spec(input@),
{
    let n = input.unicode_len();
    let mut r = String::new();
    let mut i: usize = 0;
    while i < n
        invariant
            n == input@.len(),
            i <= n,
            r@ == escape_spec(input@.subrange(0, i as int)),
        decreases n - i,
    {
        let c = input.get_char(i);
        if needs_escape(c) {
            r.append("\\");
        }
        let piece = input.substring_char(i, i + 1);
        r.append(piece);
        proof {
            reveal_strlit("\\");
            let t = input@.subrange(0, i + 1);
            assert(t.drop_last() =~= input@.subrange(0, i as int));
            assert(t.last() == input@[i as int]);
            assert(piece@ =~= seq![input@[i as int]]);
            assert(r@ =~= escape_spec(t));
        }
        i += 1;
    }
    proof {
        assert(input@.subrange(0, n as int) =~= input@);
    }
    r
}

/// Builds the `GIT_SSH_COMMAND` string for a signing-key path, with the key
/// path escaped so the shell reads it as one word.
pub fn build_git_ssh_command(ssh_key_path: &str) -> (r: String)
    ensures
        r@ == ssh_command_spec(ssh_key_path@),
{
    let mut r = String::new();
    r.append("ssh -i ");
    let escaped = escape_shell_arg(ssh_key_path);
    r.append(escaped.as_str());
    r.append(" -o IdentitiesOnly=yes -o StrictHostKeyChecking=accept-new");
    proof {
        assert(r@ =~= ssh_command_spec(ssh_key_path@));
    }
    r
}

} // verus!
