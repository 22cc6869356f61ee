//! Evaluating the outcome of an external command run.

use vstd::prelude::*;
use crate::command::{concat_spec, format_command, views_of};
use crate::errors::RenameError;

verus! {

/// Whether `c` has the Unicode `White_Space` property, the set of characters
/// that trailing-whitespace trimming removes.
pub open spec fn is_whitespace_char(c: char) -> bool {
    ||| (0x0009 <= c as u32 && c as u32 <= 0x000D)
    ||| c == ' '
    ||| c == '\u{0085}'
    ||| c == '\u{00A0}'
    ||| c == '\u{1680}'
    ||| (0x2000 <= c as u32 && c as u32 <= 0x200A)
    ||| c == '\u{2028}'
    ||| c == '\u{2029}'
    ||| c == '\u{202F}'
    ||| c == '\u{205F}'
    ||| c == '\u{3000}'
}

/// `s` without its trailing whitespace.
pub open spec fn trim_end_spec(s: Seq<char>) -> Seq<char>
    decreases s.len(),
{
    if s.len() > 0 && is_whitespace_char(s.last()) {
        trim_end_spec(s.drop_last())
    } else {
        s
    }
}

/// Whether `c` has the Unicode `White_Space` property.
pub fn is_whitespace(c: char) -> (r: bool)
    ensures
        r == is_whitespace_char(c),
{
    let u = c as u32;
    (0x0009 <= u && u <= 0x000D) || u == 0x0020 || u == 0x0085 || u == 0x00A0 || u == 0x1680
        || (0x2000 <= u && u <= 0x200A) || u == 0x2028 || u == 0x2029 || u == 0x202F
        || u == 0x205F || u == 0x3000
}

/// Remove all trailing whitespace from `s`.
pub fn trim_end(s: &str) -> (r: String)
    ensures
        r@ == trim_end_spec(s@),
{
    let n = s.unicode_len();
    let mut end = n;
    proof {
        assert(s@.subrange(0, n as int) =~= s@);
    }
    loop
        invariant
            end <= n,
            n == s@.len(),
            trim_end_spec(s@) == trim_end_spec(s@.subrange(0, end as int)),
        ensures
            end <= n,
            n == s@.len(),
            trim_end_spec(s@) == trim_end_spec(s@.subrange(0, end as int)),
            end == 0 || !is_whitespace_char(s@[end - 1]),
        decreases end,
    {
        if end == 0 {
            break;
        }
        let c = s.get_char(end - 1);
        if !is_whitespace(c) {
            break;
        }
        proof {
            let cur = s@.subrange(0, end as int);
            assert(cur.last() == c);
            assert(cur.drop_last() =~= s@.subrange(0, end - 1));
        }
        end = end - 1;
    }
    proof {
        let cur = s@.subrange(0, end as int);
        if end > 0 {
            assert(cur.last() == s@[end - 1]);
        }
        assert(trim_end_spec(cur) == cur);
    }
    s.substring_char(0, end).to_owned()
}

/// What an external command run reported: its exit code (`None` when it was
/// terminated by a signal) and the captured standard error, decoded.
#[derive(Debug)]
pub struct CmdOutput {
    pub exit_code: Option<i32>,
    pub stderr: String,
}

/// Judge the outcome of an external command run. A zero exit code passes;
/// any other exit code, or termination by a signal, yields a
/// `CommandFailure` that carries the formatted command line, the exit code,
/// and the trimmed standard error.
pub fn evaluate(output: &CmdOutput, command: &str, args: &Vec<String>) -> (r: Result<
    (),
    RenameError,
>)
    ensures
        r is Ok <==> output.exit_code == Some(0i32),
        r matches Err(e) ==> ({
            &&& e matches RenameError::CommandFailure { command: c, exit_code, stderr }
            &&& c@ == concat_spec(command@, views_of(args@))
            &&& exit_code == output.exit_code
            &&& stderr@ == trim_end_spec(output.stderr@)
        }),
{
    let ok = match output.exit_code {
        Some(code) => code == 0,
        None => false,
    };
    if ok {
        Ok(())
    } else {
        Err(
            RenameError::CommandFailure {
                command: format_command(command, args),
                exit_code: output.exit_code,
                stderr: trim_end(output.stderr.as_str()),
            },
        )
    }
}

} // verus!
