//! Error taxonomy of the batch renamer, and its rendering.

use vstd::prelude::*;
use crate::decimal::{i32_to_string, signed_decimal_of};

verus! {

/// A failure in one file's rename pipeline.
///
/// `SpawnError` reports an external command that could not be started at
/// all; `CommandFailure` one that ran and reported a non-zero exit status or
/// was terminated by a signal. `PathError` marks a path without a usable
/// parent directory or file-name component. `VanishedError` marks a dry run
/// whose temporary directory came back empty, i.e. the command deleted the
/// placeholder instead of renaming it. `MissingCommand` marks an empty
/// command vector, `InputReadError` a failed keystroke read, and `TaskPanic`
/// a real-rename task that aborted instead of reporting a result.
#[derive(Debug)]
pub enum RenameError {
    SpawnError { command: String },
    CommandFailure { command: String, exit_code: Option<i32>, stderr: String },
    PathError { path: String },
    VanishedError { dir: String },
    MissingCommand,
    InputReadError,
    TaskPanic,
}

/// The rendering of `e` for display: the failed command line in full, the
/// exit code or the signal note, and the captured standard error if any.
pub open spec fn message_of(e: RenameError) -> Seq<char> {
    match e {
        RenameError::SpawnError { command } => "failed to run `"@ + command@ + "`"@,
        RenameError::CommandFailure { command, exit_code, stderr } => "`"@ + command@
            + "` reported non-zero exit-status"@ + (match exit_code {
            Some(code) => " ("@ + signed_decimal_of(code as int) + ")"@,
            None => " (terminated by signal)"@,
        }) + (if stderr@.len() == 0 {
            Seq::<char>::empty()
        } else {
            ": "@ + stderr@
        }),
        RenameError::PathError { path } => "`"@ + path@
            + "` does not contain a parent directory and file name"@,
        RenameError::VanishedError { dir } => "no file found in `"@ + dir@
            + "`; did the rename operation delete instead?"@,
        RenameError::MissingCommand => "rename command is missing"@,
        RenameError::InputReadError => "failed to read confirmation input"@,
        RenameError::TaskPanic => "a rename task aborted before reporting a result"@,
    }
}

impl RenameError {
    /// Render the error for display.
    pub fn message(&self) -> (r: String)
        ensures
            r@ == message_of(*self),
    {
        match self {
            RenameError::SpawnError { command } => {
                let mut r = "failed to run `".to_owned();
                r.append(command.as_str());
                r.append("`");
                r
            },
            RenameError::CommandFailure { command, exit_code, stderr } => {
                let mut r = "`".to_owned();
                r.append(command.as_str());
                r.append("` reported non-zero exit-status");
                match exit_code {
                    Some(code) => {
                        r.append(" (");
                        r.append(i32_to_string(*code).as_str());
                        r.append(")");
                    },
                    None => {
                        r.append(" (terminated by signal)");
                    },
                }
                if !stderr.as_str().is_empty() {
                    r.append(": ");
                    r.append(stderr.as_str());
                } else {
                    proof {
                        assert(r@ + Seq::<char>::empty() =~= r@);
                    }
                }
                r
            },
            RenameError::PathError { path } => {
                let mut r = "`".to_owned();
                r.append(path.as_str());
                r.append("` does not contain a parent directory and file name");
                r
            },
            RenameError::VanishedError { dir } => {
                let mut r = "no file found in `".to_owned();
                r.append(dir.as_str());
                r.append("`; did the rename operation delete instead?");
                r
            },
            RenameError::MissingCommand => "rename command is missing".to_owned(),
            RenameError::InputReadError => "failed to read confirmation input".to_owned(),
            RenameError::TaskPanic => "a rename task aborted before reporting a result".to_owned(),
        }
    }
}

/// The collected failures of all real-rename tasks of one batch.
#[derive(Debug)]
pub struct AggregateError {
    pub failures: Vec<RenameError>,
}

/// The renderings of all collected failures, separated by semicolons.
pub open spec fn messages_joined(failures: Seq<RenameError>) -> Seq<char>
    decreases failures.len(),
{
    if failures.len() == 0 {
        Seq::<char>::empty()
    } else if failures.len() == 1 {
        message_of(failures[0])
    } else {
        messages_joined(failures.drop_last()) + "; "@ + message_of(failures.last())
    }
}

impl AggregateError {
    /// Render every collected failure, separated by semicolons.
    pub fn message(&self) -> (r: String)
        ensures
            r@ == messages_joined(self.failures@),
    {
        let mut r = String::new();
        let mut i: usize = 0;
        while i < self.failures.len()
            invariant
                i <= self.failures@.len(),
                r@ == messages_joined(self.failures@.subrange(0, i as int)),
            decreases self.failures@.len() - i,
        {
            if i > 0 {
                r.append("; ");
            }
            r.append(self.failures[i].message().as_str());
            proof {
                let pre = self.failures@.subrange(0, i as int);
                let cur = self.failures@.subrange(0, i + 1);
                assert(cur.drop_last() =~= pre);
                assert(cur.last() == self.failures@[i as int]);
            }
            i += 1;
        }
        proof {
            assert(self.failures@.subrange(0, self.failures@.len() as int) =~= self.failures@);
        }
        r
    }
}

} // verus!
