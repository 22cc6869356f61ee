//! The batch orchestrator: bounded fan-out of dry runs, sequential
//! confirmation, bounded fan-out of accepted real renames, and aggregation
//! of their failures.
//!
//! The orchestrator is a state machine. The surrounding program performs
//! the processes and the waiting, and asks it before every step: whether
//! another dry run may start, whether another real rename may start, and
//! what a finished task changes. Every method keeps the state well formed,
//! so the concurrency caps hold in every reachable state.

use vstd::prelude::*;
use crate::errors::{AggregateError, RenameError};
use crate::plan::RenameRequest;

verus! {

/// Cap on simultaneously running dry-run simulations.
pub const DRY_RUN_LIMIT: usize = 32;

/// Cap on simultaneously running real renames.
pub const RENAME_LIMIT: usize = 64;

/// The state of one batch run.
#[derive(Debug)]
pub struct Orchestrator {
    /// The external rename command and its arguments.
    pub command: Vec<String>,
    /// The files to rename, in input order.
    pub files: Vec<String>,
    /// How many files have been handed out for dry-run simulation.
    pub next_file: usize,
    /// Dry-run simulations in flight.
    pub sims_active: usize,
    /// Real renames in flight.
    pub renames_active: usize,
    /// The source paths whose real rename was accepted and spawned.
    pub accepted: Vec<String>,
    /// The failures that finished real renames reported.
    pub failures: Vec<RenameError>,
    /// Whether the user quit: no further simulations or prompts.
    pub quitting: bool,
}

/// Whether another dry-run simulation may start: files remain, the user
/// has not quit, and the simulation cap leaves room.
pub open spec fn can_start_sim_spec(o: Orchestrator) -> bool {
    !o.quitting && o.next_file < o.files@.len() && o.sims_active < DRY_RUN_LIMIT
}

/// Whether another real rename may start: the rename cap leaves room.
/// Quitting does not enter: accepted renames run to completion.
pub open spec fn can_start_rename_spec(o: Orchestrator) -> bool {
    o.renames_active < RENAME_LIMIT
}

/// What quitting does to the state: it only sets the quit flag. Every
/// other part — in particular the accepted renames and the in-flight
/// counts — stays exactly as it was.
pub open spec fn quit_effect(pre: Orchestrator, post: Orchestrator) -> bool {
    post == (Orchestrator { quitting: true, ..pre })
}

impl Orchestrator {
    /// The state is well formed: hands-out within the file list and both
    /// in-flight counts within their caps.
    pub open spec fn wf(&self) -> bool {
        &&& self.next_file <= self.files@.len()
        &&& self.sims_active <= DRY_RUN_LIMIT
        &&& self.renames_active <= RENAME_LIMIT
    }

    /// A fresh batch over `files`, renaming with `command`.
    pub fn new(command: Vec<String>, files: Vec<String>) -> (r: Self)
        ensures
            r.wf(),
            r.command == command,
            r.files == files,
            r.next_file == 0,
            r.sims_active == 0,
            r.renames_active == 0,
            r.accepted@.len() == 0,
            r.failures@.len() == 0,
            !r.quitting,
    {
        Orchestrator {
            command,
            files,
            next_file: 0,
            sims_active: 0,
            renames_active: 0,
            accepted: Vec::new(),
            failures: Vec::new(),
            quitting: false,
        }
    }

    /// Whether another dry-run simulation may start now.
    pub fn can_start_sim(&self) -> (r: bool)
        ensures
            r == can_start_sim_spec(*self),
    {
        !self.quitting && self.next_file < self.files.len() && self.sims_active < DRY_RUN_LIMIT
    }

    /// Hand out the next file for dry-run simulation.
    pub fn start_sim(&mut self) -> (req: RenameRequest)
        requires
            old(self).wf(),
            can_start_sim_spec(*old(self)),
        ensures
            final(self).wf(),
            req.file == old(self).files@[old(self).next_file as int],
            req.command@ == old(self).command@,
            final(self).next_file == old(self).next_file + 1,
            final(self).sims_active == old(self).sims_active + 1,
            final(self).command == old(self).command,
            final(self).files == old(self).files,
            final(self).renames_active == old(self).renames_active,
            final(self).accepted == old(self).accepted,
            final(self).failures == old(self).failures,
            final(self).quitting == old(self).quitting,
    {
        let remaining = self.files.len();
        proof {
            assert(self.next_file < remaining);
        }
        let file = self.files[self.next_file].clone();
        let command = self.command.clone();
        proof {
            assert(command@ =~= self.command@);
        }
        self.next_file = self.next_file + 1;
        self.sims_active = self.sims_active + 1;
        RenameRequest { command, file }
    }

    /// Note that one dry-run simulation has delivered its result.
    pub fn sim_finished(&mut self)
        requires
            old(self).wf(),
            old(self).sims_active > 0,
        ensures
            final(self).wf(),
            final(self).sims_active == old(self).sims_active - 1,
            final(self).command == old(self).command,
            final(self).files == old(self).files,
            final(self).next_file == old(self).next_file,
            final(self).renames_active == old(self).renames_active,
            final(self).accepted == old(self).accepted,
            final(self).failures == old(self).failures,
            final(self).quitting == old(self).quitting,
    {
        self.sims_active = self.sims_active - 1;
    }

    /// Whether another real rename may start now.
    pub fn can_start_rename(&self) -> (r: bool)
        ensures
            r == can_start_rename_spec(*self),
    {
        self.renames_active < RENAME_LIMIT
    }

    /// Register an accepted rename of `src` as spawned.
    pub fn start_rename(&mut self, src: String)
        requires
            old(self).wf(),
            can_start_rename_spec(*old(self)),
        ensures
            final(self).wf(),
            final(self).renames_active == old(self).renames_active + 1,
            final(self).accepted@ == old(self).accepted@.push(src),
            final(self).command == old(self).command,
            final(self).files == old(self).files,
            final(self).next_file == old(self).next_file,
            final(self).sims_active == old(self).sims_active,
            final(self).failures == old(self).failures,
            final(self).quitting == old(self).quitting,
    {
        self.accepted.push(src);
        self.renames_active = self.renames_active + 1;
    }

    /// The user quit: stop handing out simulations and prompts. Accepted
    /// renames are not cancelled; the state changes in nothing else.
    pub fn quit(&mut self)
        requires
            old(self).wf(),
        ensures
            final(self).wf(),
            quit_effect(*old(self), *final(self)),
            !can_start_sim_spec(*final(self)),
    {
        self.quitting = true;
    }

    /// Note the outcome of one finished real rename. A failure joins the
    /// aggregate; it cancels or rolls back no other file's rename.
    pub fn rename_finished(&mut self, outcome: Result<(), RenameError>)
        requires
            old(self).wf(),
            old(self).renames_active > 0,
        ensures
            final(self).wf(),
            final(self).renames_active == old(self).renames_active - 1,
            outcome matches Err(e) ==> final(self).failures@ == old(self).failures@.push(e),
            outcome is Ok ==> final(self).failures == old(self).failures,
            final(self).command == old(self).command,
            final(self).files == old(self).files,
            final(self).next_file == old(self).next_file,
            final(self).sims_active == old(self).sims_active,
            final(self).accepted == old(self).accepted,
            final(self).quitting == old(self).quitting,
    {
        self.renames_active = self.renames_active - 1;
        match outcome {
            Ok(()) => (),
            Err(e) => self.failures.push(e),
        }
    }

    /// The batch's verdict, once every spawned rename has been drained:
    /// success exactly when no real rename failed, and otherwise every
    /// collected failure.
    pub fn into_result(self) -> (r: Result<(), AggregateError>)
        requires
            self.renames_active == 0,
        ensures
            r is Ok <==> self.failures@.len() == 0,
            r matches Err(a) ==> a.failures == self.failures,
    {
        if self.failures.len() == 0 {
            Ok(())
        } else {
            Err(AggregateError { failures: self.failures })
        }
    }
}

/// The name a file carries after one batch pass in which every proposed
/// change is accepted, when the external command turns a name `n` into
/// `f(n)`: its proposed name. A file whose proposal equals its name is
/// skipped, which leaves the same name `f(n) == n`.
pub open spec fn pass_outcome(
    names: Seq<Seq<char>>,
    f: spec_fn(Seq<char>) -> Seq<char>,
) -> Seq<Seq<char>> {
    names.map_values(|n: Seq<char>| f(n))
}

/// Whether one file's proposal asks for confirmation: only a proposal
/// that changes the name does.
pub open spec fn prompt_needed_spec(f: spec_fn(Seq<char>) -> Seq<char>, name: Seq<char>) -> bool {
    f(name) != name
}

/// A command whose dry run proposes every file's own name prompts for
/// nothing, and the batch leaves every name unchanged.
pub proof fn lemma_identity_command(names: Seq<Seq<char>>, f: spec_fn(Seq<char>) -> Seq<char>)
    requires
        forall|n: Seq<char>| #[trigger] f(n) == n,
    ensures
        forall|i: int| 0 <= i < names.len() ==> !prompt_needed_spec(f, names[i]),
        pass_outcome(names, f) == names,
{
    assert(pass_outcome(names, f) =~= names);
}

/// Round trip: with a command that is its own inverse, running the batch
/// twice and accepting every proposal restores every original file name.
pub proof fn lemma_round_trip(names: Seq<Seq<char>>, f: spec_fn(Seq<char>) -> Seq<char>)
    requires
        forall|n: Seq<char>| #[trigger] f(f(n)) == n,
    ensures
        pass_outcome(pass_outcome(names, f), f) == names,
{
    assert(pass_outcome(pass_outcome(names, f), f) =~= names);
}

/// Quitting during confirmation halts further prompting and simulation
/// but loses no accepted rename: every rename spawned before the quit is
/// still registered afterwards, with its task still in flight, and the
/// collected failures untouched.
pub proof fn lemma_quit_keeps_accepted(pre: Orchestrator, post: Orchestrator)
    requires
        quit_effect(pre, post),
    ensures
        post.accepted == pre.accepted,
        post.renames_active == pre.renames_active,
        post.failures == pre.failures,
        !can_start_sim_spec(post),
        can_start_rename_spec(post) == can_start_rename_spec(pre),
{
}

/// The concurrency caps hold in every well-formed orchestrator state: at
/// most `DRY_RUN_LIMIT` dry-run simulations and at most `RENAME_LIMIT`
/// real renames are in flight at once — and every method keeps the state
/// well formed.
pub proof fn lemma_concurrency_bounded(o: Orchestrator)
    requires
        o.wf(),
    ensures
        o.sims_active <= DRY_RUN_LIMIT,
        o.renames_active <= RENAME_LIMIT,
{
}

} // verus!
