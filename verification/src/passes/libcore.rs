//! Versioned-library compile strategy: for each supported library version,
//! check out its tag in the source repository, copy the library subtree
//! into the staging tree, and restore the repository's previous revision —
//! a strict critical section whose restoration must happen on every exit
//! path, including a failed copy. Each staged version is expected to
//! compile cleanly up to one of the pipeline's stop-early stages.

use vstd::prelude::*;
use vstd::string::*;

use crate::args::Args;
use crate::collector::CopyPlan;
use crate::compiler::{spec_default_args, Compiler, Kind};
use crate::passes::TestCase;
use crate::paths::{path_join, spec_path_join};
use crate::steps::CompileStep;

verus! {

/// One library version and pipeline stage to generate a test for.
#[derive(Clone, Copy, PartialEq, Eq, Structural, Debug)]
pub enum LibCore {
    V149(CompileStep),
    V129(CompileStep),
}

impl LibCore {
    /// The repository tag naming this library version.
    pub open spec fn spec_tag(self) -> Seq<char> {
        match self {
            LibCore::V149(_) => "1.49.0"@,
            LibCore::V129(_) => "1.29.0"@,
        }
    }

    /// Renders the repository tag of this library version.
    pub fn tag(&self) -> (r: &'static str)
        ensures
            r@ == self.spec_tag(),
    {
        match self {
            LibCore::V149(_) => "1.49.0",
            LibCore::V129(_) => "1.29.0",
        }
    }

    /// The pipeline stage this instance stops at.
    pub open spec fn spec_step(self) -> CompileStep {
        match self {
            LibCore::V149(step) => step,
            LibCore::V129(step) => step,
        }
    }

    /// The pipeline stage this instance stops at.
    pub fn step(&self) -> (r: &CompileStep)
        ensures
            *r == self.spec_step(),
    {
        match self {
            LibCore::V149(step) => step,
            LibCore::V129(step) => step,
        }
    }

    /// The copy this pass stages once the tag is checked out: the library
    /// subtree, with the repository root stripped.
    pub fn copy_plan(&self, args: &Args) -> (r: CopyPlan)
        ensures
            r.from@ == spec_path_join(spec_path_join(args.rust_path@, "library"@), "core"@),
            r.to@ == args.output_dir@,
            r.prefix@ == args.rust_path@,
    {
        let core_path = path_join(path_join(args.rust_path.as_str(), "library").as_str(), "core");
        CopyPlan { from: core_path, to: args.output_dir.clone(), prefix: args.rust_path.clone() }
    }

    /// The single file the generated test compiles: the staged copy of the
    /// library's root, with everything else reached as modules. This is the
    /// destination the copy plan gives that file — the staging directory
    /// joined with its identity relative to the stripped repository root.
    pub fn entry_file(&self, args: &Args) -> (r: String)
        ensures
            r@ == spec_path_join(
                spec_path_join(
                    spec_path_join(spec_path_join(args.output_dir@, "library"@), "core"@),
                    "src"@,
                ),
                "lib.rs"@,
            ),
    {
        path_join(
            path_join(
                path_join(path_join(args.output_dir.as_str(), "library").as_str(), "core")
                    .as_str(),
                "src",
            ).as_str(),
            "lib.rs",
        )
    }

    /// The entry file the generated test compiles is exactly where this
    /// pass's own copy plan stages the library root's source file: the
    /// staging directory joined with the file's identity relative to the
    /// stripped repository root.
    pub proof fn lemma_entry_file_is_staged(self, args: Args)
        ensures
            spec_path_join(
                spec_path_join(
                    spec_path_join(spec_path_join(args.output_dir@, "library"@), "core"@),
                    "src"@,
                ),
                "lib.rs"@,
            ) == crate::collector::spec_dest(
                spec_path_join(
                    spec_path_join(
                        spec_path_join(spec_path_join(args.rust_path@, "library"@), "core"@),
                        "src"@,
                    ),
                    "lib.rs"@,
                ),
                args.output_dir@,
                args.rust_path@,
            ),
    {
        let rest = spec_path_join(
            spec_path_join(spec_path_join("library"@, "core"@), "src"@),
            "lib.rs"@,
        );
        let repo_entry = spec_path_join(
            spec_path_join(
                spec_path_join(spec_path_join(args.rust_path@, "library"@), "core"@),
                "src"@,
            ),
            "lib.rs"@,
        );
        assert(repo_entry =~= args.rust_path@ + seq!['/'] + rest);
        assert(repo_entry.subrange(0, args.rust_path@.len() as int) =~= args.rust_path@);
        assert(crate::paths::spec_stripped(repo_entry, args.rust_path@) =~= rest);
        assert(spec_path_join(
            spec_path_join(
                spec_path_join(spec_path_join(args.output_dir@, "library"@), "core"@),
                "src"@,
            ),
            "lib.rs"@,
        ) =~= args.output_dir@ + seq!['/'] + rest);
    }

    /// Builds the test for the staged entry file: the target compiler,
    /// stopped at this instance's stage, must exit cleanly.
    pub fn adapt(&self, args: &Args, file: &str) -> (r: TestCase)
        ensures
            r is Test,
            r.spec_name() == "Compiling libcore "@ + self.spec_tag() + " ("@
                + self.spec_step().spec_compile_option() + " step)"@,
            r.spec_binary() == args.gccrs@,
            r.spec_exit_code() == 0,
            r.spec_timeout() == crate::passes::DEFAULT_TIMEOUT,
            r.spec_args() == spec_default_args(Kind::Rust1) + seq![
                file@,
                self.spec_step().spec_compile_option(),
            ],
            r.spec_stdout() == Seq::<char>::empty(),
            r.spec_stderr() == Seq::<char>::empty(),
    {
        let name = "Compiling libcore ".to_owned().concat(self.tag()).concat(" (").concat(
            self.step().compile_option(),
        ).concat(" step)");
        proof {
            assert(name@ =~= "Compiling libcore "@ + self.spec_tag() + " ("@
                + self.spec_step().spec_compile_option() + " step)"@);
        }
        let r = TestCase::from_compiler(Compiler::new(Kind::Rust1, args)).with_name(name).with_arg(
            file.to_owned(),
        ).with_arg(self.step().compile_option().to_owned()).with_exit_code(0);
        proof {
            assert(r.spec_args() =~= spec_default_args(Kind::Rust1) + seq![
                file@,
                self.spec_step().spec_compile_option(),
            ]);
        }
        r
    }
}

/// One command the driver must run against the source repository.
#[derive(Clone, Copy, PartialEq, Eq, Structural, Debug)]
pub enum GitAction {
    /// Check out the library version's tag.
    CheckoutTag,
    /// Copy the library subtree into the staging tree.
    CopyTree,
    /// Check out the revision that was current before the fetch.
    CheckoutOriginal,
    /// Nothing left to do.
    Stop,
}

/// What the driver observed for the action it was last asked to run.
#[derive(Clone, Copy, PartialEq, Eq, Structural, Debug)]
pub enum FetchEvent {
    CheckoutOk,
    CheckoutFailed,
    CopyOk,
    CopyFailed,
}

/// Where the transactional fetch stands.
#[derive(Clone, Copy, PartialEq, Eq, Structural, Debug)]
pub enum FetchPhase {
    /// Waiting for the tag checkout's outcome.
    CheckingOut,
    /// Waiting for the copy's outcome.
    Copying,
    /// Waiting for the restoring checkout's outcome.
    Restoring,
    /// The fetch is over.
    Done,
}

/// The verdict of a fetch, meaningful once it is done.
#[derive(Clone, Copy, PartialEq, Eq, Structural, Debug)]
pub enum FetchOutcome {
    /// The fetch is still running.
    Pending,
    /// The subtree was staged and the repository restored.
    Success,
    /// A checkout command failed.
    GitError,
    /// The copy failed; the repository was still restored.
    CopyError,
}

/// The revision the repository stands on, as the protocol knows it: either
/// whatever was checked out before the fetch began, or the version tag.
#[derive(Clone, Copy, PartialEq, Eq, Structural, Debug)]
pub enum RepoRevision {
    Original,
    Tag,
}

/// The transactional fetch protocol of the versioned-library pass, as a
/// state machine: the driver performs each requested [`GitAction`] and
/// reports what happened, and the machine decides what must follow. The
/// restoring checkout is requested on every exit path that reached the
/// tag, a failed copy included.
pub struct LibCoreFetch {
    /// The instance being fetched.
    pub pass: LibCore,
    /// Where the protocol stands.
    pub phase: FetchPhase,
    /// The verdict, once done.
    pub outcome: FetchOutcome,
    /// Whether the copy step failed.
    pub copy_failed: bool,
    /// Whether the restoring checkout itself failed, leaving the
    /// repository on the tag.
    pub restore_failed: bool,
    /// The revision the repository stands on.
    pub rev: RepoRevision,
}

impl LibCoreFetch {
    /// The protocol's invariant: while work is pending the repository's
    /// position is known exactly, and a finished fetch has restored the
    /// original revision unless the restoring checkout itself failed.
    pub open spec fn wf(self) -> bool {
        &&& (self.phase is CheckingOut ==> self.rev is Original && self.outcome is Pending
            && !self.copy_failed && !self.restore_failed)
        &&& (self.phase is Copying ==> self.rev is Tag && self.outcome is Pending
            && !self.copy_failed && !self.restore_failed)
        &&& (self.phase is Restoring ==> self.rev is Tag && self.outcome is Pending
            && !self.restore_failed)
        &&& (self.phase is Done ==> !(self.outcome is Pending) && (!self.restore_failed
            ==> self.rev is Original))
    }

    /// Begins the fetch; the driver must first check out the version tag.
    pub fn start(pass: LibCore) -> (r: (LibCoreFetch, GitAction))
        ensures
            r.0.wf(),
            r.0.pass == pass,
            r.0.phase is CheckingOut,
            r.0.rev is Original,
            r.1 is CheckoutTag,
    {
        let machine = LibCoreFetch {
            pass,
            phase: FetchPhase::CheckingOut,
            outcome: FetchOutcome::Pending,
            copy_failed: false,
            restore_failed: false,
            rev: RepoRevision::Original,
        };
        (machine, GitAction::CheckoutTag)
    }

    /// Advances the protocol with what the driver observed, and says what
    /// to do next.
    pub fn step(&mut self, event: FetchEvent) -> (action: GitAction)
        requires
            old(self).wf(),
            !(old(self).phase is Done),
            (old(self).phase is CheckingOut || old(self).phase is Restoring) ==> (event
                is CheckoutOk || event is CheckoutFailed),
            old(self).phase is Copying ==> (event is CopyOk || event is CopyFailed),
        ensures
            final(self).wf(),
            final(self).pass == old(self).pass,
            old(self).phase is CheckingOut && event is CheckoutOk ==> (final(self).phase is Copying
                && final(self).rev is Tag && action is CopyTree),
            old(self).phase is CheckingOut && event is CheckoutFailed ==> (final(self).phase
                is Done && final(self).rev is Original && final(self).outcome is GitError
                && !final(self).restore_failed && action is Stop),
            old(self).phase is Copying && event is CopyOk ==> (final(self).phase is Restoring
                && !final(self).copy_failed && action is CheckoutOriginal),
            old(self).phase is Copying && event is CopyFailed ==> (final(self).phase is Restoring
                && final(self).copy_failed && action is CheckoutOriginal),
            old(self).phase is Restoring && event is CheckoutOk ==> (final(self).phase is Done
                && final(self).rev is Original && !final(self).restore_failed
                && final(self).outcome == (if old(self).copy_failed {
                FetchOutcome::CopyError
            } else {
                FetchOutcome::Success
            }) && action is Stop),
            old(self).phase is Restoring && event is CheckoutFailed ==> (final(self).phase is Done
                && final(self).restore_failed && final(self).outcome is GitError && action is Stop),
    {
        match self.phase {
            FetchPhase::CheckingOut => match event {
                FetchEvent::CheckoutOk => {
                    self.phase = FetchPhase::Copying;
                    self.rev = RepoRevision::Tag;
                    GitAction::CopyTree
                },
                _ => {
                    self.phase = FetchPhase::Done;
                    self.outcome = FetchOutcome::GitError;
                    GitAction::Stop
                },
            },
            FetchPhase::Copying => match event {
                FetchEvent::CopyOk => {
                    self.phase = FetchPhase::Restoring;
                    GitAction::CheckoutOriginal
                },
                _ => {
                    self.phase = FetchPhase::Restoring;
                    self.copy_failed = true;
                    GitAction::CheckoutOriginal
                },
            },
            FetchPhase::Restoring => match event {
                FetchEvent::CheckoutOk => {
                    self.phase = FetchPhase::Done;
                    self.rev = RepoRevision::Original;
                    self.outcome = if self.copy_failed {
                        FetchOutcome::CopyError
                    } else {
                        FetchOutcome::Success
                    };
                    GitAction::Stop
                },
                _ => {
                    self.phase = FetchPhase::Done;
                    self.restore_failed = true;
                    self.outcome = FetchOutcome::GitError;
                    GitAction::Stop
                },
            },
            FetchPhase::Done => GitAction::Stop,
        }
    }
}

/// However a fetch ends — success, a failed copy, or a failed tag
/// checkout — the repository stands on its pre-fetch revision again,
/// provided the restoring checkout command itself did not fail.
pub proof fn lemma_fetch_restores_revision(machine: LibCoreFetch)
    requires
        machine.wf(),
        machine.phase is Done,
        !machine.restore_failed,
    ensures
        machine.rev is Original,
{
}

} // verus!
