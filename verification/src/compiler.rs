//! Builder pattern around compiler invocations. An invocation is described
//! as plain data — binary, ordered argument list, environment overrides —
//! which the driver turns into an actual process at the edge. Each compiler
//! kind maps the capability vocabulary (crate name, crate type, edition)
//! onto its own flag spelling, and finalizing applies the kind's defaults
//! ahead of everything the caller added.

use vstd::prelude::*;
use vstd::string::*;

use crate::args::Args;
use crate::text::{pair_views, string_views};

verus! {

/// All *used* Rust editions.
#[derive(Clone, Copy)]
pub enum Edition {
    E2021,
}

impl Edition {
    /// The edition's spelling on a compiler command line.
    pub open spec fn spec_str(self) -> Seq<char> {
        match self {
            Edition::E2021 => "2021"@,
        }
    }

    /// Renders the edition for a command line.
    pub fn to_str(self) -> (r: &'static str)
        ensures
            r@ == self.spec_str(),
    {
        match self {
            Edition::E2021 => "2021",
        }
    }
}

/// All compiler kinds used in the testsuite.
#[derive(Clone, Copy)]
pub enum Kind {
    Rust1,
    RustcBootstrap,
}

/// All crate types used in the testsuite.
#[derive(Clone, Copy)]
pub enum CrateType {
    Library,
}

/// The binary configured for the given compiler kind.
pub open spec fn spec_kind_path(kind: Kind, args: Args) -> Seq<char> {
    match kind {
        Kind::Rust1 => args.gccrs@,
        Kind::RustcBootstrap => args.rustc@,
    }
}

impl Kind {
    /// Get the path associated with a specific compiler kind.
    pub fn as_path_from_args<'a>(self, args: &'a Args) -> (r: &'a String)
        ensures
            r@ == spec_kind_path(self, *args),
    {
        match self {
            Kind::Rust1 => &args.gccrs,
            Kind::RustcBootstrap => &args.rustc,
        }
    }

    /// The flag that sets the crate name for this kind.
    pub open spec fn spec_crate_name_flag(self) -> Seq<char> {
        match self {
            Kind::Rust1 => "-frust-crate-name"@,
            Kind::RustcBootstrap => "--crate-name"@,
        }
    }

    /// The flag that sets the edition for this kind.
    pub open spec fn spec_edition_flag(self) -> Seq<char> {
        match self {
            Kind::Rust1 => "-frust-edition"@,
            Kind::RustcBootstrap => "--edition"@,
        }
    }
}

/// The default arguments a kind applies before any caller-supplied ones:
/// the experimental gate for the target compiler, nothing for the other.
pub open spec fn spec_default_args(kind: Kind) -> Seq<Seq<char>> {
    match kind {
        Kind::Rust1 => seq!["-frust-incomplete-and-experimental-compiler-do-not-use"@],
        Kind::RustcBootstrap => Seq::empty(),
    }
}

/// The default environment overrides of a kind: the unstable-feature gate
/// for the reference compiler, nothing for the other.
pub open spec fn spec_default_env(kind: Kind) -> Seq<(Seq<char>, Seq<char>)> {
    match kind {
        Kind::Rust1 => Seq::empty(),
        Kind::RustcBootstrap => seq![("RUSTC_BOOTSTRAP"@, "1"@)],
    }
}

/// A finalized, immutable description of one process invocation. The
/// driver executes it; it is never turned back into a builder.
pub struct Invocation {
    /// The program to run.
    pub binary: String,
    /// The full ordered argument list: kind defaults first, then whatever
    /// the builder accumulated.
    pub args: Vec<String>,
    /// Environment variables to set for the child process.
    pub env: Vec<(String, String)>,
    /// Standard output is discarded unless a pass wants to inspect it.
    pub silence_stdout: bool,
    /// Standard error is discarded unless a pass wants to inspect it.
    pub silence_stderr: bool,
}

/// Represents a compiler invocation being built.
pub struct Compiler {
    /// Caller-accumulated arguments, in the order they were added.
    pub cmd_args: Vec<String>,
    /// Which compiler this will run.
    pub kind: Kind,
    /// The binary the kind resolves to.
    pub binary: String,
    /// Whether a pass asked to inspect standard output.
    pub inspect_stdout: bool,
    /// Whether a pass asked to inspect standard error.
    pub inspect_stderr: bool,
}

impl Compiler {
    /// Create a new compiler invocation.
    pub fn new(kind: Kind, args: &Args) -> (r: Compiler)
        ensures
            r.kind == kind,
            r.binary@ == spec_kind_path(kind, *args),
            string_views(r.cmd_args@) == Seq::<Seq<char>>::empty(),
            !r.inspect_stdout,
            !r.inspect_stderr,
    {
        let r = Compiler {
            cmd_args: Vec::new(),
            kind,
            binary: kind.as_path_from_args(args).clone(),
            inspect_stdout: false,
            inspect_stderr: false,
        };
        proof {
            assert(string_views(r.cmd_args@) =~= Seq::<Seq<char>>::empty());
        }
        r
    }

    /// Set the crate name to use for a compiler invocation. This is
    /// `--crate-name` for `rustc` and `-frust-crate-name` for `gccrs`.
    pub fn crate_name(self, crate_name: &str) -> (r: Compiler)
        ensures
            r.kind == self.kind,
            r.binary == self.binary,
            r.inspect_stdout == self.inspect_stdout,
            r.inspect_stderr == self.inspect_stderr,
            string_views(r.cmd_args@) == string_views(self.cmd_args@) + seq![
                self.kind.spec_crate_name_flag(),
                crate_name@,
            ],
    {
        let mut r = self;
        let flag: &str = match r.kind {
            Kind::Rust1 => "-frust-crate-name",
            Kind::RustcBootstrap => "--crate-name",
        };
        r.cmd_args.push(flag.to_owned());
        r.cmd_args.push(crate_name.to_owned());
        proof {
            assert(string_views(r.cmd_args@) =~= string_views(self.cmd_args@) + seq![
                self.kind.spec_crate_name_flag(),
                crate_name@,
            ]);
        }
        r
    }

    /// Choose which type of crate to compile. This is `--crate-type` for
    /// `rustc`; `gccrs` has no equivalent and ignores the capability.
    pub fn crate_type(self, crate_type: CrateType) -> (r: Compiler)
        ensures
            r.kind == self.kind,
            r.binary == self.binary,
            r.inspect_stdout == self.inspect_stdout,
            r.inspect_stderr == self.inspect_stderr,
            string_views(r.cmd_args@) == match self.kind {
                Kind::Rust1 => string_views(self.cmd_args@),
                Kind::RustcBootstrap => string_views(self.cmd_args@) + seq![
                    "--crate-type"@,
                    spec_crate_type_str(crate_type),
                ],
            },
    {
        let mut r = self;
        match r.kind {
            Kind::Rust1 => {
                proof {
                    assert(string_views(r.cmd_args@) =~= string_views(self.cmd_args@));
                }
            },
            Kind::RustcBootstrap => {
                r.cmd_args.push("--crate-type".to_owned());
                let type_str: &str = match crate_type {
                    CrateType::Library => "lib",
                };
                r.cmd_args.push(type_str.to_owned());
                proof {
                    assert(string_views(r.cmd_args@) =~= string_views(self.cmd_args@) + seq![
                        "--crate-type"@,
                        spec_crate_type_str(crate_type),
                    ]);
                }
            },
        }
        r
    }

    /// Set the edition to use for a compiler invocation. This is
    /// `--edition` for `rustc` and `-frust-edition` for `gccrs`.
    pub fn edition(self, edition: Edition) -> (r: Compiler)
        ensures
            r.kind == self.kind,
            r.binary == self.binary,
            r.inspect_stdout == self.inspect_stdout,
            r.inspect_stderr == self.inspect_stderr,
            string_views(r.cmd_args@) == string_views(self.cmd_args@) + seq![
                self.kind.spec_edition_flag(),
                edition.spec_str(),
            ],
    {
        let mut r = self;
        let flag: &str = match r.kind {
            Kind::Rust1 => "-frust-edition",
            Kind::RustcBootstrap => "--edition",
        };
        r.cmd_args.push(flag.to_owned());
        r.cmd_args.push(edition.to_str().to_owned());
        proof {
            assert(string_views(r.cmd_args@) =~= string_views(self.cmd_args@) + seq![
                self.kind.spec_edition_flag(),
                edition.spec_str(),
            ]);
        }
        r
    }

    /// Append one positional argument after everything added so far.
    pub fn arg(self, new_arg: &str) -> (r: Compiler)
        ensures
            r.kind == self.kind,
            r.binary == self.binary,
            r.inspect_stdout == self.inspect_stdout,
            r.inspect_stderr == self.inspect_stderr,
            string_views(r.cmd_args@) == string_views(self.cmd_args@).push(new_arg@),
    {
        let mut r = self;
        r.cmd_args.push(new_arg.to_owned());
        proof {
            assert(string_views(r.cmd_args@) =~= string_views(self.cmd_args@).push(new_arg@));
        }
        r
    }

    /// Finalize the invocation. This is a one-way operation: the builder is
    /// consumed, the kind's default arguments and environment are applied
    /// ahead of the accumulated ones, and output streams are silenced
    /// unless a pass asked to inspect them.
    pub fn command(self) -> (inv: Invocation)
        ensures
            inv.binary == self.binary,
            string_views(inv.args@) == spec_default_args(self.kind) + string_views(self.cmd_args@),
            pair_views(inv.env@) == spec_default_env(self.kind),
            inv.silence_stdout == !self.inspect_stdout,
            inv.silence_stderr == !self.inspect_stderr,
    {
        let kind = self.kind;
        let inspect_stdout = self.inspect_stdout;
        let inspect_stderr = self.inspect_stderr;
        let mut full_args: Vec<String> = Vec::new();
        let mut env: Vec<(String, String)> = Vec::new();
        match kind {
            Kind::Rust1 => {
                full_args.push("-frust-incomplete-and-experimental-compiler-do-not-use".to_owned());
            },
            Kind::RustcBootstrap => {
                env.push(("RUSTC_BOOTSTRAP".to_owned(), "1".to_owned()));
            },
        }
        let mut cmd_args = self.cmd_args;
        let ghost accumulated = cmd_args@;
        proof {
            assert(accumulated.take(0) =~= Seq::<String>::empty());
            assert(string_views(Seq::<String>::empty()) =~= Seq::<Seq<char>>::empty());
            assert(string_views(full_args@) =~= spec_default_args(kind) + string_views(
                accumulated.take(0),
            ));
        }
        let mut i: usize = 0;
        while i < cmd_args.len()
            invariant
                accumulated == cmd_args@,
                0 <= i <= cmd_args.len(),
                string_views(full_args@) == spec_default_args(kind) + string_views(
                    accumulated.take(i as int),
                ),
            decreases cmd_args.len() - i,
        {
            let next = cmd_args[i].clone();
            let ghost prev = full_args@;
            full_args.push(next);
            proof {
                crate::text::lemma_string_views_push(prev, next);
                assert(accumulated.take(i + 1) =~= accumulated.take(i as int).push(
                    accumulated[i as int],
                ));
                crate::text::lemma_string_views_push(accumulated.take(i as int), accumulated[i as int]);
                assert(string_views(full_args@) =~= spec_default_args(kind) + string_views(
                    accumulated.take(i + 1),
                ));
            }
            i = i + 1;
        }
        proof {
            assert(accumulated.take(cmd_args@.len() as int) =~= accumulated);
        }
        let inv = Invocation {
            binary: self.binary,
            args: full_args,
            env,
            silence_stdout: !inspect_stdout,
            silence_stderr: !inspect_stderr,
        };
        proof {
            assert(pair_views(inv.env@) =~= spec_default_env(kind));
        }
        inv
    }
}

/// The command-line spelling of a crate type.
pub open spec fn spec_crate_type_str(crate_type: CrateType) -> Seq<char> {
    match crate_type {
        CrateType::Library => "lib"@,
    }
}

} // verus!
