//! Cross-suite validation strategy: run the reference compiler over the
//! target compiler's own corpus. The oracle is a static heuristic over the
//! file's text: a file carrying the `dg-error` marker is expected to fail
//! with exit code 1, and a file declaring the special main signature is
//! expected to exit with 255 whether or not it also carries the marker (a
//! documented workaround for a missing runtime shim, not a correctness
//! guarantee). A file that does not decode as UTF-8 is expected to fail.

use vstd::prelude::*;
use vstd::string::*;
use vstd::utf8::{decode_utf8, valid_utf8};

use crate::args::Args;
use crate::collector::CopyPlan;
use crate::compiler::{spec_default_args, Compiler, Kind};
use crate::passes::{lemma_render_states_exit_code, spec_render, TestCase};
use crate::paths::{path_join, spec_path_join};
use crate::text::{contains_seq, spec_decimal_nat, str_contains, string_views};

verus! {

#[derive(Clone, Copy, PartialEq, Eq, Structural, Debug)]
pub struct RustcDejagnu;

/// Relies on core::str::from_utf8: it returns `Ok` exactly when the bytes
/// are valid UTF-8, and the returned slice holds the decoded characters.
#[verifier::external_body]
fn decode_utf8_bytes<'a>(bytes: &'a Vec<u8>) -> (r: Option<&'a str>)
    ensures
        match r {
            Some(s) => valid_utf8(bytes@) && s@ == decode_utf8(bytes@),
            None => !valid_utf8(bytes@),
        },
{
    core::str::from_utf8(bytes.as_slice()).ok()
}

/// The heuristic oracle over a file's raw bytes: 255 for the special main
/// signature, else 1 for the error marker, else 0; undecodable bytes count
/// as a failure.
pub open spec fn spec_dejagnu_exit_code(content: Seq<u8>) -> u8 {
    if valid_utf8(content) {
        if contains_seq(decode_utf8(content), "fn main()"@) {
            255u8
        } else if contains_seq(decode_utf8(content), "dg-error"@) {
            1u8
        } else {
            0u8
        }
    } else {
        1u8
    }
}

/// Computes the heuristic oracle's verdict for one file's bytes.
pub fn dejagnu_exit_code(content: &Vec<u8>) -> (r: u8)
    ensures
        r == spec_dejagnu_exit_code(content@),
{
    match decode_utf8_bytes(content) {
        None => 1,
        Some(s) => {
            if str_contains(s, "fn main()") {
                255
            } else if str_contains(s, "dg-error") {
                1
            } else {
                0
            }
        },
    }
}

impl RustcDejagnu {
    /// The discovery this pass runs: the target compiler's own test corpus,
    /// staged with the repository root stripped.
    pub fn fetch_plan(&self, args: &Args) -> (r: CopyPlan)
        ensures
            r.from@ == spec_path_join(
                spec_path_join(spec_path_join(args.gccrs_path@, "gcc"@), "testsuite"@),
                "rust"@,
            ),
            r.to@ == args.output_dir@,
            r.prefix@ == args.gccrs_path@,
    {
        let tests_path = path_join(
            path_join(path_join(args.gccrs_path.as_str(), "gcc").as_str(), "testsuite").as_str(),
            "rust",
        );
        CopyPlan { from: tests_path, to: args.output_dir.clone(), prefix: args.gccrs_path.clone() }
    }

    /// Builds the test for one file from its raw bytes: the reference
    /// compiler must exit with exactly the heuristic oracle's verdict.
    pub fn adapt(&self, args: &Args, file: &str, content: &Vec<u8>) -> (r: TestCase)
        ensures
            r is Test,
            r.spec_name() == "Run rustc on `"@ + file@ + "`"@,
            r.spec_binary() == args.rustc@,
            r.spec_exit_code() == spec_dejagnu_exit_code(content@),
            r.spec_timeout() == 5,
            r.spec_args() == seq![file@, "-o"@, "rustc_out"@],
            r.spec_stdout() == Seq::<char>::empty(),
            r.spec_stderr() == Seq::<char>::empty(),
    {
        let exit_code = dejagnu_exit_code(content);
        let name = "Run rustc on `".to_owned().concat(file).concat("`");
        proof {
            assert(name@ =~= "Run rustc on `"@ + file@ + "`"@);
        }
        let r = TestCase::from_compiler(Compiler::new(Kind::RustcBootstrap, args)).with_name(name)
            .with_exit_code(exit_code).with_timeout(5).with_arg(file.to_owned()).with_arg(
            "-o".to_owned(),
        ).with_arg("rustc_out".to_owned());
        proof {
            assert(r.spec_args() =~= seq![file@, "-o"@, "rustc_out"@]);
        }
        r
    }
}

/// A file whose text holds the error marker but not the special main
/// signature renders as a test expecting exit code 1.
pub proof fn lemma_error_marker_renders_one(tc: TestCase, content: Seq<u8>)
    requires
        tc is Test,
        tc.spec_exit_code() == spec_dejagnu_exit_code(content),
        valid_utf8(content),
        contains_seq(decode_utf8(content), "dg-error"@),
        !contains_seq(decode_utf8(content), "fn main()"@),
    ensures
        contains_seq(spec_render(tc), "    exit_code: 1\n"@),
{
    lemma_render_states_exit_code(tc);
    assert(spec_decimal_nat(1) =~= seq!['1']);
    assert("    exit_code: "@ + spec_decimal_nat(tc.spec_exit_code() as int) + "\n"@
        =~= "    exit_code: 1\n"@) by {
        reveal_strlit("    exit_code: ");
        reveal_strlit("\n");
        reveal_strlit("    exit_code: 1\n");
    }
}

/// A file whose text holds the special main signature, with or without the
/// error marker, renders as a test expecting exit code 255.
pub proof fn lemma_main_signature_renders_255(tc: TestCase, content: Seq<u8>)
    requires
        tc is Test,
        tc.spec_exit_code() == spec_dejagnu_exit_code(content),
        valid_utf8(content),
        contains_seq(decode_utf8(content), "fn main()"@),
    ensures
        contains_seq(spec_render(tc), "    exit_code: 255\n"@),
{
    lemma_render_states_exit_code(tc);
    assert(spec_decimal_nat(2) =~= seq!['2']);
    assert(spec_decimal_nat(25) =~= seq!['2', '5']);
    assert(spec_decimal_nat(255) =~= seq!['2', '5', '5']);
    assert("    exit_code: "@ + spec_decimal_nat(tc.spec_exit_code() as int) + "\n"@
        =~= "    exit_code: 255\n"@) by {
        reveal_strlit("    exit_code: ");
        reveal_strlit("\n");
        reveal_strlit("    exit_code: 255\n");
    }
}

/// A file whose text holds neither the error marker nor the special main
/// signature renders as a test expecting a clean exit.
pub proof fn lemma_clean_file_renders_zero(tc: TestCase, content: Seq<u8>)
    requires
        tc is Test,
        tc.spec_exit_code() == spec_dejagnu_exit_code(content),
        valid_utf8(content),
        !contains_seq(decode_utf8(content), "dg-error"@),
        !contains_seq(decode_utf8(content), "fn main()"@),
    ensures
        contains_seq(spec_render(tc), "    exit_code: 0\n"@),
{
    lemma_render_states_exit_code(tc);
    assert(spec_decimal_nat(0) =~= seq!['0']);
    assert("    exit_code: "@ + spec_decimal_nat(tc.spec_exit_code() as int) + "\n"@
        =~= "    exit_code: 0\n"@) by {
        reveal_strlit("    exit_code: ");
        reveal_strlit("\n");
        reveal_strlit("    exit_code: 0\n");
    }
}

} // verus!
