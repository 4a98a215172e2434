//! Full-compilation heuristic strategy: run the target compiler over the
//! reference suite's ui tests, expecting failure for any file whose text
//! carries the error marker and success otherwise. When failure is
//! expected, the test also expects the word `error` on standard error.

use vstd::prelude::*;
use vstd::string::*;

use crate::args::Args;
use crate::collector::CopyPlan;
use crate::passes::TestCase;
use crate::paths::{path_join, spec_path_join};
use crate::text::{contains_seq, str_contains};

verus! {

#[derive(Clone, Copy, PartialEq, Eq, Structural, Debug)]
pub struct GccrsFullRustc;

impl GccrsFullRustc {
    /// The discovery this pass runs: the reference suite's ui tests,
    /// staged with the repository root stripped.
    pub fn fetch_plan(&self, args: &Args) -> (r: CopyPlan)
        ensures
            r.from@ == spec_path_join(
                spec_path_join(spec_path_join(args.rust_path@, "src"@), "test"@),
                "ui"@,
            ),
            r.to@ == args.output_dir@,
            r.prefix@ == args.rust_path@,
    {
        let ui_tests = path_join(
            path_join(path_join(args.rust_path.as_str(), "src").as_str(), "test").as_str(),
            "ui",
        );
        CopyPlan { from: ui_tests, to: args.output_dir.clone(), prefix: args.rust_path.clone() }
    }

    /// Builds the test for one file from its text: exit code 1 and the word
    /// `error` on standard error when the error marker occurs, a clean exit
    /// otherwise.
    pub fn adapt(&self, args: &Args, file: &str, content: &str) -> (r: TestCase)
        ensures
            r is Test,
            r.spec_name() == "Compile `"@ + file@ + "`"@,
            r.spec_binary() == args.gccrs@,
            r.spec_exit_code() == (if contains_seq(content@, "ERROR"@) {
                1u8
            } else {
                0u8
            }),
            r.spec_timeout() == 5,
            r.spec_args() == seq![file@],
            r.spec_stdout() == Seq::<char>::empty(),
            r.spec_stderr() == (if contains_seq(content@, "ERROR"@) {
                "error"@
            } else {
                Seq::<char>::empty()
            }),
    {
        let has_marker = str_contains(content, "ERROR");
        let exit_code: u8 = if has_marker {
            1
        } else {
            0
        };
        let name = "Compile `".to_owned().concat(file).concat("`");
        proof {
            assert(name@ =~= "Compile `"@ + file@ + "`"@);
        }
        let test_case = TestCase::default().with_name(name).with_binary(args.gccrs.clone())
            .with_exit_code(exit_code).with_timeout(5).with_arg(file.to_owned());
        proof {
            assert(test_case.spec_args() =~= seq![file@]);
        }
        if has_marker {
            test_case.with_stderr("error".to_owned())
        } else {
            test_case
        }
    }
}

} // verus!
