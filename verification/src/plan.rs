//! Planning a rename: the invocation that previews or applies it, and the
//! interpretation of what the preview produced.
//!
//! A dry run writes a zero-byte placeholder carrying the file's name into a
//! fresh temporary directory, runs the external command there, and reads
//! the proposed new name out of the directory's single remaining entry. The
//! real rename runs the same invocation inside the file's real directory.
//! This module plans those invocations and interprets the listing; running
//! processes and touching the filesystem is the caller's part.

use vstd::prelude::*;
use crate::command::views_of;
use crate::errors::RenameError;
use crate::pathname::{
    dir_of, join_path, join_spec, last_slash, lemma_last_slash, lemma_split_of_join, name_of,
    split_path, splits_cleanly, splittable,
};

verus! {

/// An external rename command and the file it is to rename.
#[derive(Debug)]
pub struct RenameRequest {
    pub command: Vec<String>,
    pub file: String,
}

/// A planned run of an external program: the program, its ordered
/// arguments, and the directory to run it in.
#[derive(Debug)]
pub struct Invocation {
    pub program: String,
    pub args: Vec<String>,
    pub dir: String,
}

/// Whether `inv` runs `command` against `file_name` inside `dir`: the
/// command's own arguments come first and the bare file name is the
/// trailing argument.
pub open spec fn is_plan_of(
    inv: Invocation,
    command: Seq<Seq<char>>,
    file_name: Seq<char>,
    dir: Seq<char>,
) -> bool {
    &&& command.len() > 0
    &&& inv.program@ == command[0]
    &&& views_of(inv.args@) == command.drop_first().push(file_name)
    &&& inv.dir@ == dir
}

/// Plan the run of `command` against `file_name` inside `dir`. With the
/// temporary directory for `dir` this is the dry run against the
/// placeholder; with the file's real parent directory it is the real
/// rename. An empty command cannot be planned.
pub fn plan_rename_invocation(command: &Vec<String>, file_name: &str, dir: &str) -> (r: Result<
    Invocation,
    RenameError,
>)
    ensures
        r is Ok <==> command@.len() > 0,
        r matches Ok(inv) ==> is_plan_of(inv, views_of(command@), file_name@, dir@),
        r matches Err(e) ==> e matches RenameError::MissingCommand,
{
    if command.len() == 0 {
        return Err(RenameError::MissingCommand);
    }
    let program = command[0].clone();
    let mut args: Vec<String> = Vec::new();
    let mut i: usize = 1;
    while i < command.len()
        invariant
            1 <= i <= command@.len(),
            args@.len() == i - 1,
            forall|k: int| 0 <= k < i - 1 ==> (#[trigger] args@[k])@ == command@[k + 1]@,
        decreases command@.len() - i,
    {
        args.push(command[i].clone());
        i += 1;
    }
    args.push(file_name.to_owned());
    proof {
        let target = views_of(command@).drop_first().push(file_name@);
        assert forall|k: int| 0 <= k < args@.len() implies views_of(args@)[k] == target[k] by {
            assert(views_of(args@)[k] == args@[k]@);
            if k < args@.len() - 1 {
                assert(target[k] == views_of(command@)[k + 1]);
            }
        }
        assert(views_of(args@) =~= target);
    }
    Ok(Invocation { program, args, dir: dir.to_owned() })
}

/// Read the proposed file name out of the dry-run directory's listing. An
/// empty listing means the command deleted the placeholder instead of
/// renaming it, which is a `VanishedError`; otherwise the first entry
/// carries the proposed name.
pub fn interpret_listing(entries: &Vec<String>, dir: &str) -> (r: Result<String, RenameError>)
    ensures
        r is Ok <==> entries@.len() > 0,
        r matches Ok(name) ==> name@ == entries@[0]@,
        r matches Err(e) ==> (e matches RenameError::VanishedError { dir: d } && d@ == dir@),
{
    if entries.len() == 0 {
        Err(RenameError::VanishedError { dir: dir.to_owned() })
    } else {
        Ok(entries[0].clone())
    }
}

/// The outcome of one file's dry run: the original absolute path and the
/// proposed absolute path, which lies in the same directory.
#[derive(Debug)]
pub struct SimulationResult {
    pub src: String,
    pub dst: String,
}

impl SimulationResult {
    /// The proposed path names an entry of the original path's directory.
    pub open spec fn same_directory(&self) -> bool {
        &&& splittable(self.src@)
        &&& splittable(self.dst@)
        &&& dir_of(self.dst@) == dir_of(self.src@)
    }
}

/// Pair a canonical source path with the file name its dry run proposed:
/// the proposed path names `proposed_name` inside the source path's own
/// directory. A source path without a parent directory and file name is a
/// `PathError`.
pub fn make_simulation_result(src: &str, proposed_name: &str) -> (r: Result<
    SimulationResult,
    RenameError,
>)
    ensures
        r is Ok <==> splittable(src@),
        r matches Ok(sr) ==> sr.src@ == src@ && sr.dst@ == join_spec(
            dir_of(src@),
            proposed_name@,
        ),
        r matches Ok(sr) ==> ((splits_cleanly(src@) && proposed_name@.len() > 0 && (forall|j: int|
            0 <= j < proposed_name@.len() ==> proposed_name@[j] != '/')) ==> (sr.same_directory()
            && name_of(sr.dst@) == proposed_name@)),
        r matches Err(e) ==> (e matches RenameError::PathError { path: q } && q@ == src@),
{
    let (dir, _name) = match split_path(src) {
        Ok(p) => p,
        Err(e) => return Err(e),
    };
    let dst = join_path(dir.as_str(), proposed_name);
    proof {
        lemma_last_slash(src@);
        if splits_cleanly(src@) && proposed_name@.len() > 0 && (forall|j: int|
            0 <= j < proposed_name@.len() ==> proposed_name@[j] != '/') {
            if last_slash(src@) == 0 {
                assert(dir@.len() == 1 && dir@[0] == '/');
            } else {
                assert(dir@.last() == src@[last_slash(src@) - 1]);
            }
            lemma_split_of_join(dir@, proposed_name@);
        }
    }
    Ok(SimulationResult { src: src.to_owned(), dst })
}

/// A dry run is confined to its temporary directory: the planned
/// invocation works inside the temporary directory — never inside the
/// directory that holds the real file — and the only path it hands to the
/// external command is the bare placeholder name.
pub proof fn lemma_dry_run_isolated(
    inv: Invocation,
    command: Seq<Seq<char>>,
    file_name: Seq<char>,
    tmp_dir: Seq<char>,
    real_dir: Seq<char>,
)
    requires
        is_plan_of(inv, command, file_name, tmp_dir),
        tmp_dir != real_dir,
    ensures
        inv.dir@ == tmp_dir,
        inv.dir@ != real_dir,
        views_of(inv.args@).len() == command.len(),
        views_of(inv.args@).last() == file_name,
{
}

} // verus!
