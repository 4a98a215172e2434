//! Positive-corpus filtering strategy, in three variants: plain, `no-std`
//! and `no-core`. Files carrying the error marker are abstained from. The
//! non-plain variants rewrite each file with a variant-specific prelude
//! and pre-validate it under the reference compiler within a bounded
//! timeout; on failure or timeout the file is abstained from instead of
//! asserted. Whatever survives is expected to compile cleanly under the
//! target compiler.

use vstd::prelude::*;
use vstd::string::*;

use crate::args::Args;
use crate::collector::CopyPlan;
use crate::compiler::{spec_default_args, Compiler, Edition, Invocation, Kind};
use crate::passes::TestCase;
use crate::paths::{path_join, spec_path_join};
use crate::text::{contains_seq, str_contains, string_views};

verus! {

#[derive(Clone, Copy, PartialEq, Eq, Structural, Debug)]
pub enum GccrsRustcSuccesses {
    Full,
    NoStd,
    NoCore,
}

/// The outcome of pre-validating one rewritten file under the reference
/// compiler, as observed by the driver.
pub enum Prevalidation {
    /// The plain variant does not pre-validate.
    NotRequired,
    /// The reference compiler accepted the rewritten file in time.
    Passed,
    /// The reference compiler rejected the rewritten file.
    Failed,
    /// The reference compiler did not finish within the bounded timeout.
    TimedOut,
}

impl GccrsRustcSuccesses {
    /// The variant's name as it appears in generated test names.
    pub open spec fn spec_variant_name(self) -> Seq<char> {
        match self {
            GccrsRustcSuccesses::Full => ""@,
            GccrsRustcSuccesses::NoStd => "no-std"@,
            GccrsRustcSuccesses::NoCore => "no-core"@,
        }
    }

    /// Renders the variant's name.
    pub fn variant_name(&self) -> (r: &'static str)
        ensures
            r@ == self.spec_variant_name(),
    {
        match self {
            GccrsRustcSuccesses::Full => "",
            GccrsRustcSuccesses::NoStd => "no-std",
            GccrsRustcSuccesses::NoCore => "no-core",
        }
    }

    /// The source prelude the variant injects at the top of each file.
    pub open spec fn spec_prelude(self) -> Seq<char> {
        match self {
            GccrsRustcSuccesses::Full => ""@,
            GccrsRustcSuccesses::NoStd => "#![no_std]\n"@,
            GccrsRustcSuccesses::NoCore => "#![feature(no_core)]\n#![no_core]\n"@,
        }
    }

    /// Whether this variant pre-validates its rewritten files.
    pub fn needs_prevalidation(&self) -> (r: bool)
        ensures
            r == !(self is Full),
    {
        match self {
            GccrsRustcSuccesses::Full => false,
            GccrsRustcSuccesses::NoStd => true,
            GccrsRustcSuccesses::NoCore => true,
        }
    }

    /// The discovery this pass runs: the reference suite's ui tests. The
    /// rewriting variants stage into their own subdirectory so that the
    /// modified copies never collide with another pass's files.
    pub fn fetch_plan(&self, args: &Args) -> (r: CopyPlan)
        ensures
            r.from@ == spec_path_join(
                spec_path_join(spec_path_join(args.rust_path@, "src"@), "test"@),
                "ui"@,
            ),
            r.to@ == (match *self {
                GccrsRustcSuccesses::Full => args.output_dir@,
                GccrsRustcSuccesses::NoStd => spec_path_join(args.output_dir@, "no-std"@),
                GccrsRustcSuccesses::NoCore => spec_path_join(args.output_dir@, "no-core"@),
            }),
            r.prefix@ == args.rust_path@,
    {
        let ui_tests = path_join(
            path_join(path_join(args.rust_path.as_str(), "src").as_str(), "test").as_str(),
            "ui",
        );
        let out_dir = match self {
            GccrsRustcSuccesses::Full => args.output_dir.clone(),
            GccrsRustcSuccesses::NoStd => path_join(args.output_dir.as_str(), "no-std"),
            GccrsRustcSuccesses::NoCore => path_join(args.output_dir.as_str(), "no-core"),
        };
        CopyPlan { from: ui_tests, to: out_dir, prefix: args.rust_path.clone() }
    }

    /// Decides what to do with one file's text: a file carrying the error
    /// marker is abstained from; anything else is rewritten with the
    /// variant's prelude, and the driver writes the result back.
    pub fn rewrite(&self, content: &str) -> (r: Option<String>)
        ensures
            match r {
                Some(rewritten) => !contains_seq(content@, "ERROR"@) && rewritten@
                    == self.spec_prelude() + content@,
                None => contains_seq(content@, "ERROR"@),
            },
    {
        if str_contains(content, "ERROR") {
            None
        } else {
            let prelude = match self {
                GccrsRustcSuccesses::Full => "",
                GccrsRustcSuccesses::NoStd => "#![no_std]\n",
                GccrsRustcSuccesses::NoCore => "#![feature(no_core)]\n#![no_core]\n",
            };
            let rewritten = prelude.to_owned().concat(content);
            Some(rewritten)
        }
    }

    /// The pre-validation probe for one rewritten file: the reference
    /// compiler on the 2021 edition, compiling it as a library, silenced.
    pub fn prevalidation_invocation(&self, args: &Args, file: &str) -> (r: Invocation)
        ensures
            r.binary@ == args.rustc@,
            string_views(r.args@) == spec_default_args(Kind::RustcBootstrap) + seq![
                "--edition"@,
                "2021"@,
                "--crate-name"@,
                "rustc_output"@,
                "--crate-type"@,
                "lib"@,
                file@,
            ],
            r.silence_stdout,
            r.silence_stderr,
    {
        let inv = Compiler::new(Kind::RustcBootstrap, args).edition(Edition::E2021).crate_name(
            "rustc_output",
        ).arg("--crate-type").arg("lib").arg(file).command();
        proof {
            assert(string_views(inv.args@) =~= spec_default_args(Kind::RustcBootstrap) + seq![
                "--edition"@,
                "2021"@,
                "--crate-name"@,
                "rustc_output"@,
                "--crate-type"@,
                "lib"@,
                file@,
            ]);
        }
        inv
    }

    /// The test for one retained file, given its text and what the
    /// pre-validation observed. Abstains on a marker hit, a rejection or a
    /// timeout; otherwise the target compiler must succeed within five
    /// minutes.
    pub fn adapt(&self, args: &Args, file: &str, content: &str, prevalidation: Prevalidation) -> (r:
        TestCase)
        requires
            self is Full <==> prevalidation is NotRequired,
        ensures
            contains_seq(content@, "ERROR"@) ==> r is Skip,
            (prevalidation is Failed || prevalidation is TimedOut) ==> r is Skip,
            (!contains_seq(content@, "ERROR"@) && (prevalidation is NotRequired || prevalidation
                is Passed)) ==> (r is Test && r.spec_name() == "Compile "@
                + self.spec_variant_name() + " success `"@ + file@ + "`"@ && r.spec_binary()
                == args.gccrs@ && r.spec_exit_code() == 0 && r.spec_timeout() == 300
                && r.spec_args() == spec_default_args(Kind::Rust1) + seq![file@]
                && r.spec_stdout() == Seq::<char>::empty() && r.spec_stderr()
                == Seq::<char>::empty()),
    {
        if str_contains(content, "ERROR") {
            return TestCase::Skip;
        }
        let is_valid = match prevalidation {
            Prevalidation::NotRequired => true,
            Prevalidation::Passed => true,
            Prevalidation::Failed => false,
            Prevalidation::TimedOut => false,
        };
        if !is_valid {
            return TestCase::Skip;
        }
        let name = "Compile ".to_owned().concat(self.variant_name()).concat(" success `").concat(
            file,
        ).concat("`");
        proof {
            assert(name@ =~= "Compile "@ + self.spec_variant_name() + " success `"@ + file@
                + "`"@);
        }
        let r = TestCase::from_compiler(Compiler::new(Kind::Rust1, args)).with_name(name)
            .with_exit_code(0).with_timeout(300).with_arg(file.to_owned());
        proof {
            assert(r.spec_args() =~= spec_default_args(Kind::Rust1) + seq![file@]);
        }
        r
    }
}

} // verus!
