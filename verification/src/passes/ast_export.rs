//! AST round-trip strategy: the target compiler pretty-prints each test
//! file of its own suite into a canonical form, and the generated tests
//! check that the pretty-printed form behaves like the original — either
//! that it still compiles (`Compile`), or that, once built and run, it
//! exits with the same observed status (`Run`). The dump lands in one
//! fixed shared file, so the fetch step must run sequentially.

use vstd::prelude::*;
use vstd::string::*;

use crate::args::Args;
use crate::compiler::{spec_default_args, Compiler, Invocation, Kind};
use crate::error::Error;
use crate::passes::TestCase;
use crate::paths::{path_join, replace_extension, spec_path_join, spec_replace_extension};
use crate::text::string_views;

verus! {

/// The two round-trip checks generated from the same staged dump.
#[derive(Clone, Copy, PartialEq, Eq, Structural, Debug)]
pub enum AstExport {
    /// Recompile the pretty-printed form.
    Compile,
    /// Build and run both forms, and assert the pretty-printed binary's
    /// observed exit status.
    Run,
}

/// What the driver observed when it built and ran one binary during the
/// `Run` sub-strategy's probe.
#[derive(Clone, Copy, PartialEq, Eq, Structural, Debug)]
pub enum RunOutcome {
    /// The binary did not build.
    BuildFailed,
    /// The binary ran to completion with this raw status.
    Exited(i32),
    /// The binary did not finish within the bounded timeout and was killed.
    TimedOut,
}

/// A source file and its pretty-printed counterpart, related by extension:
/// `<stem>.rs` for the original and `<stem>.pretty-rs` for the dump.
pub fn get_original_file_from_pretty(pretty_file: &str) -> (r: String)
    ensures
        r@ == spec_replace_extension(pretty_file@, "rs"@),
{
    replace_extension(pretty_file, "rs")
}

impl AstExport {
    /// The root the fetch walks: the target compiler's own test suite.
    pub fn tests_root(&self, args: &Args) -> (r: String)
        ensures
            r@ == spec_path_join(
                spec_path_join(spec_path_join(args.gccrs_path@, "gcc"@), "testsuite"@),
                "rust"@,
            ),
    {
        path_join(
            path_join(path_join(args.gccrs_path.as_str(), "gcc").as_str(), "testsuite").as_str(),
            "rust",
        )
    }

    /// The fixed file the target compiler writes every dump to; the reason
    /// this pass's fetch cannot run in parallel.
    pub fn dump_file_name(&self) -> (r: &'static str)
        ensures
            r@ == "gccrs.ast-pretty.dump"@,
    {
        "gccrs.ast-pretty.dump"
    }

    /// The invocation that makes the target compiler emit the canonical
    /// pretty-printed form of one file into the shared dump file.
    pub fn dump_invocation(&self, args: &Args, entry: &str) -> (r: Invocation)
        ensures
            r.binary@ == args.gccrs@,
            string_views(r.args@) == spec_default_args(Kind::Rust1) + seq![
                entry@,
                "-frust-dump-ast-pretty"@,
            ],
            r.silence_stdout,
            r.silence_stderr,
    {
        let inv = Compiler::new(Kind::Rust1, args).arg(entry).arg(
            "-frust-dump-ast-pretty",
        ).command();
        proof {
            assert(string_views(inv.args@) =~= spec_default_args(Kind::Rust1) + seq![
                entry@,
                "-frust-dump-ast-pretty"@,
            ]);
        }
        inv
    }

    /// Where one walked file and its dump are staged: the original keeps
    /// its path under the pass's own staging subdirectory, and the dump
    /// sits beside it under the distinguishing extension.
    pub fn stage_paths(&self, args: &Args, entry: &str) -> (r: (String, String))
        ensures
            r.0@ == spec_path_join(spec_path_join(args.output_dir@, "ast-export"@), entry@),
            r.1@ == spec_replace_extension(
                spec_path_join(spec_path_join(args.output_dir@, "ast-export"@), entry@),
                "pretty-rs"@,
            ),
    {
        let output_dir = path_join(args.output_dir.as_str(), "ast-export");
        let staged_original = path_join(output_dir.as_str(), entry);
        let staged_pretty = replace_extension(staged_original.as_str(), "pretty-rs");
        (staged_original, staged_pretty)
    }

    /// The invocation that compiles one file under the target compiler,
    /// used to probe the original and to build either form.
    pub fn compile_invocation(&self, args: &Args, file: &str) -> (r: Invocation)
        ensures
            r.binary@ == args.gccrs@,
            string_views(r.args@) == spec_default_args(Kind::Rust1) + seq![file@],
            r.silence_stdout,
            r.silence_stderr,
    {
        let inv = Compiler::new(Kind::Rust1, args).arg(file).command();
        proof {
            assert(string_views(inv.args@) =~= spec_default_args(Kind::Rust1) + seq![file@]);
        }
        inv
    }
}

/// Builds the `Compile` sub-strategy's test for one staged dump: when the
/// original compiled, its pretty-printed form must compile as well; when
/// the original itself did not compile, the file is abstained from.
pub fn adapt_compilation(args: &Args, pretty_file: &str, original_compiles: bool) -> (r: Result<
    TestCase,
    Error,
>)
    ensures
        match r {
            Ok(tc) => {
                &&& (original_compiles ==> tc is Test && tc.spec_name() == "Compile prettified `"@
                    + spec_replace_extension(pretty_file@, "rs"@) + "`"@ && tc.spec_binary()
                    == args.gccrs@ && tc.spec_exit_code() == 0 && tc.spec_timeout()
                    == crate::passes::DEFAULT_TIMEOUT && tc.spec_args() == spec_default_args(
                    Kind::Rust1,
                ) + seq![pretty_file@] && tc.spec_stdout() == Seq::<char>::empty()
                    && tc.spec_stderr() == Seq::<char>::empty())
                &&& (!original_compiles ==> tc is Skip)
            },
            Err(_) => false,
        },
{
    let original_file = get_original_file_from_pretty(pretty_file);
    let test_case = if original_compiles {
        let name = "Compile prettified `".to_owned().concat(original_file.as_str()).concat("`");
        proof {
            assert(name@ =~= "Compile prettified `"@ + spec_replace_extension(pretty_file@, "rs"@)
                + "`"@);
        }
        let tc = TestCase::from_compiler(Compiler::new(Kind::Rust1, args)).with_name(name)
            .with_exit_code(0).with_arg(pretty_file.to_owned());
        proof {
            assert(tc.spec_args() =~= spec_default_args(Kind::Rust1) + seq![pretty_file@]);
        }
        tc
    } else {
        TestCase::Skip
    };
    Ok(test_case)
}

/// Builds the `Run` sub-strategy's test for one staged dump, from the
/// driver's probe of both binaries: any build failure or timeout on either
/// side abstains instead of asserting; otherwise the pretty-printed binary
/// must exit with exactly the status the probe observed, and a status
/// outside the representable exit-code domain fails fast.
pub fn adapt_run(
    args: &Args,
    pretty_file: &str,
    pretty_binary: &str,
    original_run: RunOutcome,
    pretty_run: RunOutcome,
) -> (r: Result<TestCase, Error>)
    ensures
        match r {
            Ok(tc) => {
                &&& ((original_run is BuildFailed || original_run is TimedOut || pretty_run
                    is BuildFailed || pretty_run is TimedOut) ==> tc is Skip)
                &&& (match (original_run, pretty_run) {
                    (RunOutcome::Exited(_), RunOutcome::Exited(status)) => 0 <= status <= 255
                        && tc is Test && tc.spec_name() == "Run prettified `"@
                        + spec_replace_extension(pretty_file@, "rs"@) + "`"@ && tc.spec_binary()
                        == pretty_binary@ && tc.spec_exit_code() == status as u8
                        && tc.spec_timeout() == 5 && tc.spec_args() == Seq::<Seq<char>>::empty()
                        && tc.spec_stdout() == Seq::<char>::empty() && tc.spec_stderr()
                        == Seq::<char>::empty(),
                    _ => tc is Skip,
                })
            },
            Err(e) => {
                &&& original_run is Exited
                &&& match pretty_run {
                    RunOutcome::Exited(status) => !(0 <= status <= 255) && e
                        == Error::ExitCodeRange(status),
                    _ => false,
                }
            },
        },
{
    let observed: i32 = match (original_run, pretty_run) {
        (RunOutcome::Exited(_), RunOutcome::Exited(status)) => status,
        _ => {
            return Ok(TestCase::Skip);
        },
    };
    let original_file = get_original_file_from_pretty(pretty_file);
    let name = "Run prettified `".to_owned().concat(original_file.as_str()).concat("`");
    proof {
        assert(name@ =~= "Run prettified `"@ + spec_replace_extension(pretty_file@, "rs"@) + "`"@);
    }
    let tc = TestCase::default().with_name(name).with_binary(pretty_binary.to_owned())
        .with_timeout(5);
    tc.with_measured_status(observed)
}

/// A probe in which either binary timed out never asserts anything: the
/// generated case abstains rather than failing hard or expecting a status.
pub proof fn lemma_timeout_abstains(
    r: Result<TestCase, Error>,
    original_run: RunOutcome,
    pretty_run: RunOutcome,
)
    requires
        original_run is TimedOut || pretty_run is TimedOut,
        match r {
            Ok(tc) => (original_run is BuildFailed || original_run is TimedOut || pretty_run
                is BuildFailed || pretty_run is TimedOut) ==> tc is Skip,
            Err(_) => original_run is Exited && pretty_run is Exited,
        },
    ensures
        r is Ok && r->Ok_0 is Skip,
{
}

} // verus!
