//! The outcome model of one generated test, its fixed-schema rendering,
//! and the closed set of strategies the generator can run.

pub mod ast_export;
pub mod blake3;
pub mod gccrs_full_rustc;
pub mod gccrs_parsing;
pub mod gccrs_privacy;
pub mod gccrs_rustc_successes;
pub mod libcore;
pub mod rustc_dejagnu;

pub use ast_export::AstExport;
pub use blake3::Blake3;
pub use gccrs_full_rustc::GccrsFullRustc;
pub use gccrs_parsing::GccrsParsing;
pub use gccrs_privacy::GccrsPrivacy;
pub use gccrs_rustc_successes::GccrsRustcSuccesses;
pub use libcore::LibCore;
pub use rustc_dejagnu::RustcDejagnu;

use vstd::prelude::*;
use vstd::string::*;

use crate::compiler::{spec_default_args, Compiler};
use crate::error::Error;
use crate::steps::CompileStep;
use crate::text::{
    contains_seq, i32_decimal, spec_decimal_i32, spec_decimal_nat, str_equal, string_views,
    u32_decimal,
};

verus! {

/// Default timeout of a generated test, in minutes.
pub const DEFAULT_TIMEOUT: i32 = 15;

/// Wrapper around an ftf test case: either one concrete assertion for the
/// downstream runner, or an abstention that renders as nothing.
pub enum TestCase {
    Test {
        name: String,
        binary: String,
        exit_code: u8,
        timeout: i32,
        stderr: String,
        stdout: String,
        args: Vec<String>,
    },
    Skip,
}

impl TestCase {
    /// The test's name, or nothing for an abstention.
    pub open spec fn spec_name(self) -> Seq<char> {
        match self {
            TestCase::Test { name, .. } => name@,
            TestCase::Skip => Seq::empty(),
        }
    }

    /// The binary the test runs.
    pub open spec fn spec_binary(self) -> Seq<char> {
        match self {
            TestCase::Test { binary, .. } => binary@,
            TestCase::Skip => Seq::empty(),
        }
    }

    /// The exit code the test expects.
    pub open spec fn spec_exit_code(self) -> u8 {
        match self {
            TestCase::Test { exit_code, .. } => exit_code,
            TestCase::Skip => 0,
        }
    }

    /// The test's timeout.
    pub open spec fn spec_timeout(self) -> i32 {
        match self {
            TestCase::Test { timeout, .. } => timeout,
            TestCase::Skip => 0,
        }
    }

    /// The standard-error fragment the test expects.
    pub open spec fn spec_stderr(self) -> Seq<char> {
        match self {
            TestCase::Test { stderr, .. } => stderr@,
            TestCase::Skip => Seq::empty(),
        }
    }

    /// The standard-output fragment the test expects.
    pub open spec fn spec_stdout(self) -> Seq<char> {
        match self {
            TestCase::Test { stdout, .. } => stdout@,
            TestCase::Skip => Seq::empty(),
        }
    }

    /// The ordered arguments the test passes to its binary.
    pub open spec fn spec_args(self) -> Seq<Seq<char>> {
        match self {
            TestCase::Test { args, .. } => string_views(args@),
            TestCase::Skip => Seq::empty(),
        }
    }

    /// Builds a test from a finalized compiler invocation: its binary and
    /// its full argument list, everything else at the defaults.
    pub fn from_compiler(compiler: Compiler) -> (r: TestCase)
        ensures
            r is Test,
            r.spec_name() == Seq::<char>::empty(),
            r.spec_binary() == compiler.binary@,
            r.spec_exit_code() == 0,
            r.spec_timeout() == DEFAULT_TIMEOUT,
            r.spec_stdout() == Seq::<char>::empty(),
            r.spec_stderr() == Seq::<char>::empty(),
            r.spec_args() == spec_default_args(compiler.kind) + string_views(compiler.cmd_args@),
    {
        let inv = compiler.command();
        TestCase::Test {
            name: String::new(),
            binary: inv.binary,
            exit_code: 0,
            timeout: DEFAULT_TIMEOUT,
            stderr: String::new(),
            stdout: String::new(),
            args: inv.args,
        }
    }

    /// Replaces the expected exit code; an abstention is left alone.
    pub fn with_exit_code(self, new_exit_code: u8) -> (r: TestCase)
        ensures
            r is Test <==> self is Test,
            r.spec_exit_code() == (if self is Test {
                new_exit_code
            } else {
                self.spec_exit_code()
            }),
            r.spec_name() == self.spec_name(),
            r.spec_binary() == self.spec_binary(),
            r.spec_timeout() == self.spec_timeout(),
            r.spec_stdout() == self.spec_stdout(),
            r.spec_stderr() == self.spec_stderr(),
            r.spec_args() == self.spec_args(),
    {
        match self {
            TestCase::Test { name, binary, exit_code: _, timeout, stderr, stdout, args } => (
            TestCase::Test {
                name,
                binary,
                exit_code: new_exit_code,
                timeout,
                stderr,
                stdout,
                args,
            }),
            TestCase::Skip => TestCase::Skip,
        }
    }

    /// Builds a test from a measured raw process status: the status must fit
    /// the representable exit-code domain of 0 through 255, and a value
    /// outside it fails fast instead of being wrapped or truncated.
    pub fn with_measured_status(self, status: i32) -> (r: Result<TestCase, Error>)
        ensures
            match r {
                Ok(tc) => 0 <= status <= 255 && (tc is Test <==> self is Test)
                    && tc.spec_exit_code() == (if self is Test {
                    status as u8
                } else {
                    self.spec_exit_code()
                }) && tc.spec_name() == self.spec_name() && tc.spec_binary() == self.spec_binary()
                    && tc.spec_timeout() == self.spec_timeout() && tc.spec_stdout()
                    == self.spec_stdout() && tc.spec_stderr() == self.spec_stderr()
                    && tc.spec_args() == self.spec_args(),
                Err(e) => !(0 <= status <= 255) && e == Error::ExitCodeRange(status),
            },
    {
        if 0 <= status && status <= 255 {
            Ok(self.with_exit_code(status as u8))
        } else {
            Err(Error::ExitCodeRange(status))
        }
    }

    /// Replaces the timeout; an abstention is left alone.
    pub fn with_timeout(self, new_timeout: i32) -> (r: TestCase)
        ensures
            r is Test <==> self is Test,
            r.spec_timeout() == (if self is Test {
                new_timeout
            } else {
                self.spec_timeout()
            }),
            r.spec_name() == self.spec_name(),
            r.spec_binary() == self.spec_binary(),
            r.spec_exit_code() == self.spec_exit_code(),
            r.spec_stdout() == self.spec_stdout(),
            r.spec_stderr() == self.spec_stderr(),
            r.spec_args() == self.spec_args(),
    {
        match self {
            TestCase::Test { name, binary, exit_code, timeout: _, stderr, stdout, args } => (
            TestCase::Test {
                name,
                binary,
                exit_code,
                timeout: new_timeout,
                stderr,
                stdout,
                args,
            }),
            TestCase::Skip => TestCase::Skip,
        }
    }

    /// Replaces the name; an abstention is left alone.
    pub fn with_name(self, new_name: String) -> (r: TestCase)
        ensures
            r is Test <==> self is Test,
            r.spec_name() == (if self is Test {
                new_name@
            } else {
                self.spec_name()
            }),
            r.spec_binary() == self.spec_binary(),
            r.spec_exit_code() == self.spec_exit_code(),
            r.spec_timeout() == self.spec_timeout(),
            r.spec_stdout() == self.spec_stdout(),
            r.spec_stderr() == self.spec_stderr(),
            r.spec_args() == self.spec_args(),
    {
        match self {
            TestCase::Test { name: _, binary, exit_code, timeout, stderr, stdout, args } => (
            TestCase::Test { name: new_name, binary, exit_code, timeout, stderr, stdout, args }),
            TestCase::Skip => TestCase::Skip,
        }
    }

    /// Replaces the expected standard-error fragment; an abstention is left
    /// alone.
    pub fn with_stderr(self, new_stderr: String) -> (r: TestCase)
        ensures
            r is Test <==> self is Test,
            r.spec_stderr() == (if self is Test {
                new_stderr@
            } else {
                self.spec_stderr()
            }),
            r.spec_name() == self.spec_name(),
            r.spec_binary() == self.spec_binary(),
            r.spec_exit_code() == self.spec_exit_code(),
            r.spec_timeout() == self.spec_timeout(),
            r.spec_stdout() == self.spec_stdout(),
            r.spec_args() == self.spec_args(),
    {
        match self {
            TestCase::Test { name, binary, exit_code, timeout, stderr: _, stdout, args } => (
            TestCase::Test { name, binary, exit_code, timeout, stderr: new_stderr, stdout, args }),
            TestCase::Skip => TestCase::Skip,
        }
    }

    /// Replaces the expected standard-output fragment; an abstention is left
    /// alone.
    pub fn with_stdout(self, new_stdout: String) -> (r: TestCase)
        ensures
            r is Test <==> self is Test,
            r.spec_stdout() == (if self is Test {
                new_stdout@
            } else {
                self.spec_stdout()
            }),
            r.spec_name() == self.spec_name(),
            r.spec_binary() == self.spec_binary(),
            r.spec_exit_code() == self.spec_exit_code(),
            r.spec_timeout() == self.spec_timeout(),
            r.spec_stderr() == self.spec_stderr(),
            r.spec_args() == self.spec_args(),
    {
        match self {
            TestCase::Test { name, binary, exit_code, timeout, stderr, stdout: _, args } => (
            TestCase::Test { name, binary, exit_code, timeout, stderr, stdout: new_stdout, args }),
            TestCase::Skip => TestCase::Skip,
        }
    }

    /// Appends one argument; an abstention is left alone.
    pub fn with_arg(self, arg: String) -> (r: TestCase)
        ensures
            r is Test <==> self is Test,
            r.spec_args() == (if self is Test {
                self.spec_args().push(arg@)
            } else {
                self.spec_args()
            }),
            r.spec_name() == self.spec_name(),
            r.spec_binary() == self.spec_binary(),
            r.spec_exit_code() == self.spec_exit_code(),
            r.spec_timeout() == self.spec_timeout(),
            r.spec_stdout() == self.spec_stdout(),
            r.spec_stderr() == self.spec_stderr(),
    {
        match self {
            TestCase::Test { name, binary, exit_code, timeout, stderr, stdout, mut args } => {
                let ghost before = args@;
                args.push(arg);
                proof {
                    assert(string_views(args@) =~= string_views(before).push(arg@));
                }
                TestCase::Test { name, binary, exit_code, timeout, stderr, stdout, args }
            },
            TestCase::Skip => TestCase::Skip,
        }
    }

    /// Appends every given argument, in order; an abstention is left alone.
    pub fn with_args(self, new_args: &Vec<String>) -> (r: TestCase)
        ensures
            r is Test <==> self is Test,
            r.spec_args() == (if self is Test {
                self.spec_args() + string_views(new_args@)
            } else {
                self.spec_args()
            }),
            r.spec_name() == self.spec_name(),
            r.spec_binary() == self.spec_binary(),
            r.spec_exit_code() == self.spec_exit_code(),
            r.spec_timeout() == self.spec_timeout(),
            r.spec_stdout() == self.spec_stdout(),
            r.spec_stderr() == self.spec_stderr(),
    {
        let is_test = match &self {
            TestCase::Test { .. } => true,
            TestCase::Skip => false,
        };
        if !is_test {
            proof {
                assert(self is Skip);
            }
            return self;
        }
        let mut current = self;
        let mut i: usize = 0;
        while i < new_args.len()
            invariant
                0 <= i <= new_args.len(),
                current is Test,
                self is Test,
                current.spec_args() == self.spec_args() + string_views(new_args@.take(i as int)),
                current.spec_name() == self.spec_name(),
                current.spec_binary() == self.spec_binary(),
                current.spec_exit_code() == self.spec_exit_code(),
                current.spec_timeout() == self.spec_timeout(),
                current.spec_stdout() == self.spec_stdout(),
                current.spec_stderr() == self.spec_stderr(),
            decreases new_args.len() - i,
        {
            let next = new_args[i].clone();
            current = current.with_arg(next);
            proof {
                assert(new_args@.take(i + 1).drop_last() =~= new_args@.take(i as int));
                assert(current.spec_args() =~= self.spec_args() + string_views(
                    new_args@.take(i + 1),
                ));
            }
            i = i + 1;
        }
        proof {
            assert(new_args@.take(new_args@.len() as int) =~= new_args@);
        }
        current
    }

    /// Replaces the binary; an abstention is left alone.
    pub fn with_binary(self, new_binary: String) -> (r: TestCase)
        ensures
            r is Test <==> self is Test,
            r.spec_binary() == (if self is Test {
                new_binary@
            } else {
                self.spec_binary()
            }),
            r.spec_name() == self.spec_name(),
            r.spec_exit_code() == self.spec_exit_code(),
            r.spec_timeout() == self.spec_timeout(),
            r.spec_stdout() == self.spec_stdout(),
            r.spec_stderr() == self.spec_stderr(),
            r.spec_args() == self.spec_args(),
    {
        match self {
            TestCase::Test { name, binary: _, exit_code, timeout, stderr, stdout, args } => (
            TestCase::Test { name, binary: new_binary, exit_code, timeout, stderr, stdout, args }),
            TestCase::Skip => TestCase::Skip,
        }
    }
}

impl Default for TestCase {
    /// An empty test: no name, no binary, success expected, the default
    /// timeout, nothing expected on either stream, no arguments.
    fn default() -> (r: TestCase)
        ensures
            r is Test,
            r.spec_name() == Seq::<char>::empty(),
            r.spec_binary() == Seq::<char>::empty(),
            r.spec_exit_code() == 0,
            r.spec_timeout() == DEFAULT_TIMEOUT,
            r.spec_stdout() == Seq::<char>::empty(),
            r.spec_stderr() == Seq::<char>::empty(),
            r.spec_args() == Seq::<Seq<char>>::empty(),
    {
        let r = TestCase::Test {
            name: String::new(),
            binary: String::new(),
            exit_code: 0,
            timeout: DEFAULT_TIMEOUT,
            stderr: String::new(),
            stdout: String::new(),
            args: Vec::new(),
        };
        proof {
            assert(r.spec_args() =~= Seq::<Seq<char>>::empty());
        }
        r
    }
}

/// One rendered argument line of a test block.
pub open spec fn spec_arg_line(arg: Seq<char>) -> Seq<char> {
    "      - \""@ + arg + "\"\n"@
}

/// The rendered argument lines of a test block, in order.
pub open spec fn spec_arg_lines(args: Seq<Seq<char>>) -> Seq<char>
    decreases args.len(),
{
    if args.len() == 0 {
        Seq::empty()
    } else {
        spec_arg_lines(args.drop_last()) + spec_arg_line(args.last())
    }
}

/// The fixed-schema text of one test case: name, binary, timeout, exit
/// code, the expected output fragments when non-empty, then the argument
/// list. An abstention renders as nothing.
pub open spec fn spec_render(tc: TestCase) -> Seq<char> {
    match tc {
        TestCase::Skip => Seq::empty(),
        TestCase::Test { name, binary, exit_code, timeout, stderr, stdout, args } => "  - name: "@
            + name@ + "\n"@ + "    binary: "@ + binary@ + "\n"@ + "    timeout: "@
            + spec_decimal_i32(timeout as int) + "\n"@ + "    exit_code: "@ + spec_decimal_nat(
            exit_code as int,
        ) + "\n"@ + (if stdout@.len() == 0 {
            Seq::<char>::empty()
        } else {
            "    stdout: \""@ + stdout@ + "\"\n"@
        }) + (if stderr@.len() == 0 {
            Seq::<char>::empty()
        } else {
            "    stderr: \""@ + stderr@ + "\"\n"@
        }) + "    args:\n"@ + spec_arg_lines(string_views(args@)),
    }
}

impl TestCase {
    /// Renders the test case in the artifact's fixed schema.
    pub fn render(&self) -> (r: String)
        ensures
            r@ == spec_render(*self),
    {
        match self {
            TestCase::Skip => String::new(),
            TestCase::Test { name, binary, exit_code, timeout, stderr, stdout, args } => {
                let mut out = "  - name: ".to_owned();
                out.append(name.as_str());
                out.append("\n");
                out.append("    binary: ");
                out.append(binary.as_str());
                out.append("\n");
                out.append("    timeout: ");
                let rendered_timeout = i32_decimal(*timeout);
                out.append(rendered_timeout.as_str());
                out.append("\n");
                out.append("    exit_code: ");
                let rendered_code = u32_decimal(*exit_code as u32);
                out.append(rendered_code.as_str());
                out.append("\n");
                if !stdout.as_str().is_empty() {
                    out.append("    stdout: \"");
                    out.append(stdout.as_str());
                    out.append("\"\n");
                }
                if !stderr.as_str().is_empty() {
                    out.append("    stderr: \"");
                    out.append(stderr.as_str());
                    out.append("\"\n");
                }
                out.append("    args:\n");
                let ghost head = out@;
                let mut i: usize = 0;
                while i < args.len()
                    invariant
                        0 <= i <= args.len(),
                        out@ == head + spec_arg_lines(string_views(args@).take(i as int)),
                    decreases args.len() - i,
                {
                    out.append("      - \"");
                    out.append(args[i].as_str());
                    out.append("\"\n");
                    proof {
                        assert(string_views(args@).take(i + 1).drop_last() =~= string_views(
                            args@,
                        ).take(i as int));
                        assert(out@ =~= head + spec_arg_lines(string_views(args@).take(i + 1)));
                    }
                    i = i + 1;
                }
                proof {
                    assert(string_views(args@).take(args@.len() as int) =~= string_views(args@));
                    assert(out@ =~= spec_render(*self));
                }
                out
            },
        }
    }
}

/// The rendered block of a concrete test always states its expected exit
/// code on a line of its own.
pub proof fn lemma_render_states_exit_code(tc: TestCase)
    requires
        tc is Test,
    ensures
        contains_seq(
            spec_render(tc),
            "    exit_code: "@ + spec_decimal_nat(tc.spec_exit_code() as int) + "\n"@,
        ),
{
    match tc {
        TestCase::Test { name, binary, exit_code, timeout, stderr, stdout, args } => {
            let head = "  - name: "@ + name@ + "\n"@ + "    binary: "@ + binary@ + "\n"@
                + "    timeout: "@ + spec_decimal_i32(timeout as int) + "\n"@;
            let pat = "    exit_code: "@ + spec_decimal_nat(exit_code as int) + "\n"@;
            let tail = (if stdout@.len() == 0 {
                Seq::<char>::empty()
            } else {
                "    stdout: \""@ + stdout@ + "\"\n"@
            }) + (if stderr@.len() == 0 {
                Seq::<char>::empty()
            } else {
                "    stderr: \""@ + stderr@ + "\"\n"@
            }) + "    args:\n"@ + spec_arg_lines(string_views(args@));
            assert(spec_render(tc) =~= head + pat + tail);
            assert(spec_render(tc).subrange(head.len() as int, head.len() as int + pat.len() as int) =~= pat);
        },
        TestCase::Skip => {},
    }
}

/// The rendered text of a whole batch, in order.
pub open spec fn spec_render_all(cases: Seq<TestCase>) -> Seq<char>
    decreases cases.len(),
{
    if cases.len() == 0 {
        Seq::empty()
    } else {
        spec_render_all(cases.drop_last()) + spec_render(cases.last())
    }
}

/// Renders every case of a batch and concatenates the results in order.
pub fn render_all(cases: &Vec<TestCase>) -> (r: String)
    ensures
        r@ == spec_render_all(cases@),
{
    let mut out = String::new();
    let mut i: usize = 0;
    while i < cases.len()
        invariant
            0 <= i <= cases.len(),
            out@ == spec_render_all(cases@.take(i as int)),
        decreases cases.len() - i,
    {
        let rendered = cases[i].render();
        out.append(rendered.as_str());
        proof {
            assert(cases@.take(i + 1).drop_last() =~= cases@.take(i as int));
            assert(out@ =~= spec_render_all(cases@.take(i + 1)));
        }
        i = i + 1;
    }
    proof {
        assert(cases@.take(cases@.len() as int) =~= cases@);
    }
    out
}

/// A batch in which every case abstained renders as nothing at all.
pub proof fn lemma_all_skip_renders_empty(cases: Seq<TestCase>)
    requires
        forall|i: int| 0 <= i < cases.len() ==> cases[i] is Skip,
    ensures
        spec_render_all(cases) == Seq::<char>::empty(),
    decreases cases.len(),
{
    if cases.len() > 0 {
        lemma_all_skip_renders_empty(cases.drop_last());
        assert(cases.last() is Skip);
        assert(spec_render_all(cases) =~= Seq::<char>::empty());
    }
}

/// The successful outcomes of a batch, in order.
pub open spec fn ok_values(outcomes: Seq<Result<TestCase, Error>>) -> Seq<TestCase>
    decreases outcomes.len(),
{
    if outcomes.len() == 0 {
        Seq::empty()
    } else {
        ok_values(outcomes.drop_last()) + (match outcomes.last() {
            Ok(tc) => seq![tc],
            Err(_) => Seq::empty(),
        })
    }
}

/// `k` is the position of the first failed outcome in the batch.
pub open spec fn first_error_at(outcomes: Seq<Result<TestCase, Error>>, k: int) -> bool {
    0 <= k < outcomes.len() && outcomes[k] is Err && (forall|j: int| 0 <= j < k ==> outcomes[j] is Ok)
}

/// Renders the outcomes of one pass over its files: the concatenation of
/// every rendered case when all of them succeeded, else the first error in
/// file order. The whole batch is discarded on a per-file error.
pub fn collect_rendered(outcomes: Vec<Result<TestCase, Error>>) -> (r: Result<String, Error>)
    ensures
        match r {
            Ok(s) => (forall|i: int| 0 <= i < outcomes@.len() ==> outcomes@[i] is Ok) && s@
                == spec_render_all(ok_values(outcomes@)),
            Err(e) => exists|k: int| first_error_at(outcomes@, k) && outcomes@[k] == Err::<
                TestCase,
                Error,
            >(e),
        },
{
    let mut out = String::new();
    let mut i: usize = 0;
    while i < outcomes.len()
        invariant
            0 <= i <= outcomes.len(),
            forall|j: int| 0 <= j < i ==> outcomes@[j] is Ok,
            out@ == spec_render_all(ok_values(outcomes@.take(i as int))),
        decreases outcomes.len() - i,
    {
        match &outcomes[i] {
            Ok(tc) => {
                let rendered = tc.render();
                out.append(rendered.as_str());
                proof {
                    assert(outcomes@.take(i + 1).drop_last() =~= outcomes@.take(i as int));
                    assert(ok_values(outcomes@.take(i + 1)) =~= ok_values(
                        outcomes@.take(i as int),
                    ).push(outcomes@[i as int]->Ok_0));
                    assert(ok_values(outcomes@.take(i as int)).push(
                        outcomes@[i as int]->Ok_0,
                    ).drop_last() =~= ok_values(outcomes@.take(i as int)));
                    assert(out@ =~= spec_render_all(ok_values(outcomes@.take(i + 1))));
                }
            },
            Err(e) => {
                let err = clone_error(e);
                proof {
                    assert(first_error_at(outcomes@, i as int));
                }
                return Err(err);
            },
        }
        i = i + 1;
    }
    proof {
        assert(outcomes@.take(outcomes@.len() as int) =~= outcomes@);
    }
    Ok(out)
}

/// A structural copy of an error value.
fn clone_error(e: &Error) -> (r: Error)
    ensures
        r == *e,
{
    match e {
        Error::Io(m) => Error::Io(m.clone()),
        Error::NoRust(p) => Error::NoRust(p.clone()),
        Error::NoGccrs(p) => Error::NoGccrs(p.clone()),
        Error::PathPrefix(p) => Error::PathPrefix(p.clone()),
        Error::WalkDir(m) => Error::WalkDir(m.clone()),
        Error::Misc(kind) => match kind {
            crate::error::MiscKind::Git { arg_string } => Error::Misc(
                crate::error::MiscKind::Git { arg_string: arg_string.clone() },
            ),
        },
        Error::ExitCodeRange(status) => Error::ExitCodeRange(*status),
    }
}

/// The concatenation of the rendered suites of every selected pass, after
/// the artifact's fixed header.
pub open spec fn spec_artifact(suites: Seq<Seq<char>>) -> Seq<char>
    decreases suites.len(),
{
    if suites.len() == 0 {
        "tests:\n"@
    } else {
        spec_artifact(suites.drop_last()) + suites.last()
    }
}

/// Assembles the final artifact: the fixed header, then each pass's
/// rendered suite in deterministic strategy-list order.
pub fn assemble_artifact(suites: &Vec<String>) -> (r: String)
    ensures
        r@ == spec_artifact(string_views(suites@)),
{
    let mut out = "tests:\n".to_owned();
    let mut i: usize = 0;
    while i < suites.len()
        invariant
            0 <= i <= suites.len(),
            out@ == spec_artifact(string_views(suites@.take(i as int))),
        decreases suites.len() - i,
    {
        out.append(suites[i].as_str());
        proof {
            assert(string_views(suites@.take(i + 1)).drop_last() =~= string_views(
                suites@.take(i as int),
            ));
            assert(out@ =~= spec_artifact(string_views(suites@.take(i + 1))));
        }
        i = i + 1;
    }
    proof {
        assert(suites@.take(suites@.len() as int) =~= suites@);
    }
    out
}

/// Passes to run when generating the test-suite file. One can choose to
/// run only a specific pass, or multiple of them.
#[derive(Clone, Copy, PartialEq, Eq, Structural, Debug)]
pub enum PassKind {
    /// Generates test cases for running gccrs and rustc in parse-only mode
    /// on the rustc test suite.
    GccrsParsing,
    /// Generates test cases for running rustc on gccrs' test-suite.
    RustcDejagnu,
    /// Testsuite for running gccrs on valid rustc test cases.
    GccrsRustcSucess,
    /// Testsuite for running gccrs on valid rustc test cases in `#![no_std]`
    /// mode.
    GccrsRustcSucessNoStd,
    /// Testsuite for running gccrs on valid rustc test cases in `#![no_core]`
    /// mode.
    GccrsRustcSucessNoCore,
    /// Compile the reference implementation of the Blake3 cryptographic
    /// algorithm.
    Blake3,
    /// Compile the core library from various rust versions.
    LibCore,
    /// Test the AST exporting algorithm on the whole gccrs testsuite.
    AstExport,
}

impl PassKind {
    /// The pass's name on the command line and in logs.
    pub open spec fn spec_name(self) -> Seq<char> {
        match self {
            PassKind::GccrsParsing => "gccrs-parsing"@,
            PassKind::RustcDejagnu => "rustc-dejagnu"@,
            PassKind::GccrsRustcSucess => "gccrs-rustc-success"@,
            PassKind::GccrsRustcSucessNoStd => "gccrs-rustc-success-no-std"@,
            PassKind::GccrsRustcSucessNoCore => "gccrs-rustc-success-no-core"@,
            PassKind::Blake3 => "blake3"@,
            PassKind::LibCore => "libcore"@,
            PassKind::AstExport => "ast-export"@,
        }
    }

    /// Renders the pass's name.
    pub fn name(&self) -> (r: &'static str)
        ensures
            r@ == self.spec_name(),
    {
        match self {
            PassKind::GccrsParsing => "gccrs-parsing",
            PassKind::RustcDejagnu => "rustc-dejagnu",
            PassKind::GccrsRustcSucess => "gccrs-rustc-success",
            PassKind::GccrsRustcSucessNoStd => "gccrs-rustc-success-no-std",
            PassKind::GccrsRustcSucessNoCore => "gccrs-rustc-success-no-core",
            PassKind::Blake3 => "blake3",
            PassKind::LibCore => "libcore",
            PassKind::AstExport => "ast-export",
        }
    }

    /// Parses a pass name; exactly the names that `name` renders are
    /// accepted, and anything else is reported back verbatim.
    pub fn from_str(s: &str) -> (r: Result<PassKind, InvalidPassKind>)
        ensures
            match r {
                Ok(k) => s@ == k.spec_name(),
                Err(e) => e.0@ == s@ && (forall|k: PassKind| s@ != k.spec_name()),
            },
    {
        if str_equal(s, "gccrs-parsing") {
            Ok(PassKind::GccrsParsing)
        } else if str_equal(s, "rustc-dejagnu") {
            Ok(PassKind::RustcDejagnu)
        } else if str_equal(s, "gccrs-rustc-success") {
            Ok(PassKind::GccrsRustcSucess)
        } else if str_equal(s, "gccrs-rustc-success-no-std") {
            Ok(PassKind::GccrsRustcSucessNoStd)
        } else if str_equal(s, "gccrs-rustc-success-no-core") {
            Ok(PassKind::GccrsRustcSucessNoCore)
        } else if str_equal(s, "blake3") {
            Ok(PassKind::Blake3)
        } else if str_equal(s, "libcore") {
            Ok(PassKind::LibCore)
        } else if str_equal(s, "ast-export") {
            Ok(PassKind::AstExport)
        } else {
            Err(InvalidPassKind(s.to_owned()))
        }
    }
}

/// One concrete, independently fetchable strategy instance, as the
/// dispatcher resolves it from a selected pass name.
#[derive(Clone, Copy, PartialEq, Eq, Structural, Debug)]
pub enum PassInstance {
    GccrsParsing(GccrsParsing),
    RustcDejagnu(RustcDejagnu),
    GccrsRustcSuccesses(GccrsRustcSuccesses),
    Blake3(Blake3),
    LibCore(LibCore),
    AstExport(AstExport),
}

/// The concrete instances a selected pass name expands to: most names map
/// to one instance, while the fixed-template and versioned-library names
/// expand their whole cross product into a flat list.
pub open spec fn spec_dispatch(pass: PassKind) -> Seq<PassInstance> {
    match pass {
        PassKind::GccrsParsing => seq![PassInstance::GccrsParsing(GccrsParsing)],
        PassKind::RustcDejagnu => seq![PassInstance::RustcDejagnu(RustcDejagnu)],
        PassKind::GccrsRustcSucess => seq![
            PassInstance::GccrsRustcSuccesses(GccrsRustcSuccesses::Full),
        ],
        PassKind::GccrsRustcSucessNoStd => seq![
            PassInstance::GccrsRustcSuccesses(GccrsRustcSuccesses::NoStd),
        ],
        PassKind::GccrsRustcSucessNoCore => seq![
            PassInstance::GccrsRustcSuccesses(GccrsRustcSuccesses::NoCore),
        ],
        PassKind::Blake3 => seq![
            PassInstance::Blake3(Blake3::GccrsOriginal),
            PassInstance::Blake3(Blake3::GccrsPrelude),
            PassInstance::Blake3(Blake3::RustcNoStd),
            PassInstance::Blake3(Blake3::RustcNoCore),
        ],
        PassKind::LibCore => seq![
            PassInstance::LibCore(LibCore::V149(CompileStep::Expansion)),
            PassInstance::LibCore(LibCore::V149(CompileStep::TypeCheck)),
            PassInstance::LibCore(LibCore::V149(CompileStep::End)),
            PassInstance::LibCore(LibCore::V129(CompileStep::Expansion)),
            PassInstance::LibCore(LibCore::V129(CompileStep::TypeCheck)),
            PassInstance::LibCore(LibCore::V129(CompileStep::End)),
        ],
        PassKind::AstExport => seq![
            PassInstance::AstExport(AstExport::Compile),
            PassInstance::AstExport(AstExport::Run),
        ],
    }
}

/// Resolves a selected pass name into its concrete strategy instances.
pub fn pass_dispatch(pass: PassKind) -> (r: Vec<PassInstance>)
    ensures
        r@ == spec_dispatch(pass),
{
    let mut r: Vec<PassInstance> = Vec::new();
    match pass {
        PassKind::GccrsParsing => {
            r.push(PassInstance::GccrsParsing(GccrsParsing));
        },
        PassKind::RustcDejagnu => {
            r.push(PassInstance::RustcDejagnu(RustcDejagnu));
        },
        PassKind::GccrsRustcSucess => {
            r.push(PassInstance::GccrsRustcSuccesses(GccrsRustcSuccesses::Full));
        },
        PassKind::GccrsRustcSucessNoStd => {
            r.push(PassInstance::GccrsRustcSuccesses(GccrsRustcSuccesses::NoStd));
        },
        PassKind::GccrsRustcSucessNoCore => {
            r.push(PassInstance::GccrsRustcSuccesses(GccrsRustcSuccesses::NoCore));
        },
        PassKind::Blake3 => {
            r.push(PassInstance::Blake3(Blake3::GccrsOriginal));
            r.push(PassInstance::Blake3(Blake3::GccrsPrelude));
            r.push(PassInstance::Blake3(Blake3::RustcNoStd));
            r.push(PassInstance::Blake3(Blake3::RustcNoCore));
        },
        PassKind::LibCore => {
            r.push(PassInstance::LibCore(LibCore::V149(CompileStep::Expansion)));
            r.push(PassInstance::LibCore(LibCore::V149(CompileStep::TypeCheck)));
            r.push(PassInstance::LibCore(LibCore::V149(CompileStep::End)));
            r.push(PassInstance::LibCore(LibCore::V129(CompileStep::Expansion)));
            r.push(PassInstance::LibCore(LibCore::V129(CompileStep::TypeCheck)));
            r.push(PassInstance::LibCore(LibCore::V129(CompileStep::End)));
        },
        PassKind::AstExport => {
            r.push(PassInstance::AstExport(AstExport::Compile));
            r.push(PassInstance::AstExport(AstExport::Run));
        },
    }
    proof {
        assert(r@ =~= spec_dispatch(pass));
    }
    r
}

/// Selecting the versioned-library strategy expands its whole cross
/// product — every declared library version at every declared pipeline
/// stage — into pairwise distinct concrete instances.
pub proof fn lemma_libcore_cross_product()
    ensures
        spec_dispatch(PassKind::LibCore).len() == 6,
        forall|i: int, j: int|
            0 <= i < j < 6 ==> spec_dispatch(PassKind::LibCore)[i] != spec_dispatch(
                PassKind::LibCore,
            )[j],
{
}

/// A pass name that `PassKind::from_str` did not recognize.
#[derive(Debug)]
pub struct InvalidPassKind(pub String);

impl InvalidPassKind {
    /// The message text of the error.
    pub open spec fn spec_message(self) -> Seq<char> {
        "invalid pass name provided: "@ + self.0@
    }

    /// Renders the error as its message text.
    pub fn message(&self) -> (r: String)
        ensures
            r@ == self.spec_message(),
    {
        "invalid pass name provided: ".to_owned().concat(self.0.as_str())
    }
}

} // verus!
