//! Parse-compatibility strategy: run the reference compiler in parse-only
//! mode over its own test suite; whatever it decides is ground truth, and
//! the generated test expects the target compiler to mirror that status in
//! syntax-only mode.

use vstd::prelude::*;
use vstd::string::*;

use crate::args::Args;
use crate::collector::CopyPlan;
use crate::compiler::{spec_default_args, Compiler, Edition, Invocation, Kind};
use crate::passes::TestCase;
use crate::paths::{path_join, spec_path_join};
use crate::text::string_views;

verus! {

#[derive(Clone, Copy, PartialEq, Eq, Structural, Debug)]
pub struct GccrsParsing;

impl GccrsParsing {
    /// The discovery this pass runs: the reference suite's test tree,
    /// staged with the repository root stripped.
    pub fn fetch_plan(&self, args: &Args) -> (r: CopyPlan)
        ensures
            r.from@ == spec_path_join(spec_path_join(args.rust_path@, "src"@), "test"@),
            r.to@ == args.output_dir@,
            r.prefix@ == args.rust_path@,
    {
        let ui_tests = path_join(path_join(args.rust_path.as_str(), "src").as_str(), "test");
        CopyPlan { from: ui_tests, to: args.output_dir.clone(), prefix: args.rust_path.clone() }
    }

    /// The per-file probe: the reference compiler on the 2021 edition in
    /// parse-only mode, silenced. Its exit status is this pass's oracle.
    pub fn probe_invocation(&self, args: &Args, file: &str) -> (r: Invocation)
        ensures
            r.binary@ == args.rustc@,
            string_views(r.args@) == spec_default_args(Kind::RustcBootstrap) + seq![
                "--edition"@,
                "2021"@,
                "-Z"@,
                "parse-only"@,
                file@,
            ],
            r.silence_stdout,
            r.silence_stderr,
    {
        let inv = Compiler::new(Kind::RustcBootstrap, args).edition(Edition::E2021).arg("-Z").arg(
            "parse-only",
        ).arg(file).command();
        proof {
            assert(string_views(inv.args@) =~= spec_default_args(Kind::RustcBootstrap) + seq![
                "--edition"@,
                "2021"@,
                "-Z"@,
                "parse-only"@,
                file@,
            ]);
        }
        inv
    }

    /// The test for one file, given the probe's outcome. The target
    /// compiler in syntax-only mode must exit cleanly exactly when the
    /// reference compiler parsed the file.
    pub fn adapt(&self, args: &Args, file: &str, parse_ok: bool) -> (r: TestCase)
        ensures
            r is Test,
            r.spec_name() == "Parse `"@ + file@ + "`"@,
            r.spec_binary() == args.gccrs@,
            r.spec_exit_code() == (if parse_ok {
                0u8
            } else {
                1u8
            }),
            r.spec_timeout() == 1,
            r.spec_args() == spec_default_args(Kind::Rust1) + seq!["-fsyntax-only"@, file@],
            r.spec_stdout() == Seq::<char>::empty(),
            r.spec_stderr() == Seq::<char>::empty(),
    {
        let name = "Parse `".to_owned().concat(file).concat("`");
        proof {
            assert(name@ =~= "Parse `"@ + file@ + "`"@);
        }
        let exit_code: u8 = if parse_ok {
            0
        } else {
            1
        };
        let r = TestCase::from_compiler(Compiler::new(Kind::Rust1, args)).with_name(name)
            .with_exit_code(exit_code).with_timeout(1).with_arg("-fsyntax-only".to_owned())
            .with_arg(file.to_owned());
        proof {
            assert(r.spec_args() =~= spec_default_args(Kind::Rust1) + seq![
                "-fsyntax-only"@,
                file@,
            ]);
        }
        r
    }
}

} // verus!
