//! Fixed-template compile strategy: synthesize one source file per variant
//! from an embedded template — the reference implementation of the Blake3
//! cryptographic algorithm — optionally prefixed with a variant-specific
//! prelude, and expect it to compile cleanly under the variant's compiler.

use vstd::prelude::*;
use vstd::string::*;

use crate::args::Args;
use crate::compiler::{spec_default_args, spec_crate_type_str, Compiler, CrateType, Kind};
use crate::passes::TestCase;
use crate::paths::{path_join, spec_path_join};
use crate::text::string_views;

verus! {

#[derive(Clone, Copy, PartialEq, Eq, Structural, Debug)]
pub enum Blake3 {
    GccrsOriginal,
    GccrsPrelude,
    RustcNoStd,
    RustcNoCore,
}

impl Blake3 {
    /// All variants of the [`Blake3`] enum.
    pub fn variants() -> (r: Vec<Blake3>)
        ensures
            r@ == seq![
                Blake3::GccrsOriginal,
                Blake3::GccrsPrelude,
                Blake3::RustcNoStd,
                Blake3::RustcNoCore,
            ],
    {
        let mut r: Vec<Blake3> = Vec::new();
        r.push(Blake3::GccrsOriginal);
        r.push(Blake3::GccrsPrelude);
        r.push(Blake3::RustcNoStd);
        r.push(Blake3::RustcNoCore);
        proof {
            assert(r@ =~= seq![
                Blake3::GccrsOriginal,
                Blake3::GccrsPrelude,
                Blake3::RustcNoStd,
                Blake3::RustcNoCore,
            ]);
        }
        r
    }

    /// The file-name suffix that keeps each variant's synthesized file
    /// distinct.
    pub open spec fn spec_suffix(self) -> Seq<char> {
        match self {
            Blake3::GccrsOriginal => "original"@,
            Blake3::GccrsPrelude => "gccrs-prelude"@,
            Blake3::RustcNoStd => "rustc-no-std"@,
            Blake3::RustcNoCore => "rustc-no-core"@,
        }
    }

    /// File name suffix to append when creating the file for each variant.
    pub fn suffix(&self) -> (r: &'static str)
        ensures
            r@ == self.spec_suffix(),
    {
        match self {
            Blake3::GccrsOriginal => "original",
            Blake3::GccrsPrelude => "gccrs-prelude",
            Blake3::RustcNoStd => "rustc-no-std",
            Blake3::RustcNoCore => "rustc-no-core",
        }
    }

    /// The prelude the variant writes ahead of the template.
    pub open spec fn spec_prelude(self) -> Seq<char> {
        match self {
            Blake3::GccrsOriginal => ""@,
            Blake3::GccrsPrelude => "lang_item prelude!"@,
            Blake3::RustcNoStd => "#![no_std]\n"@,
            Blake3::RustcNoCore => "#![feature(no_core)]\n#![no_core]\n + lang_item prelude!"@,
        }
    }

    /// The compiler kind that builds this variant.
    pub open spec fn spec_kind(self) -> Kind {
        match self {
            Blake3::GccrsOriginal => Kind::Rust1,
            Blake3::GccrsPrelude => Kind::Rust1,
            Blake3::RustcNoStd => Kind::RustcBootstrap,
            Blake3::RustcNoCore => Kind::RustcBootstrap,
        }
    }

    /// Where the variant's synthesized file goes in the staging tree. The
    /// file is only named here; the driver creates it empty and the adapt
    /// step fills it.
    pub fn fetch_plan(&self, args: &Args) -> (r: String)
        ensures
            r@ == spec_path_join(args.output_dir@, "blake3-"@ + self.spec_suffix() + ".rs"@),
    {
        let file_name = "blake3-".to_owned().concat(self.suffix()).concat(".rs");
        proof {
            assert(file_name@ =~= "blake3-"@ + self.spec_suffix() + ".rs"@);
        }
        path_join(args.output_dir.as_str(), file_name.as_str())
    }

    /// The text the variant's file is written with: its prelude ahead of
    /// the embedded template.
    pub fn file_content(&self, template: &str) -> (r: String)
        ensures
            r@ == self.spec_prelude() + template@,
    {
        let prelude = match self {
            Blake3::GccrsOriginal => "",
            Blake3::GccrsPrelude => "lang_item prelude!",
            Blake3::RustcNoStd => "#![no_std]\n",
            Blake3::RustcNoCore => "#![feature(no_core)]\n#![no_core]\n + lang_item prelude!",
        };
        prelude.to_owned().concat(template)
    }

    /// Builds the test for the variant's synthesized file: the variant's
    /// compiler, building a library, must exit cleanly.
    pub fn adapt(&self, args: &Args, file: &str) -> (r: TestCase)
        ensures
            r is Test,
            r.spec_name() == "Compile Blake3 reference implementation ("@ + self.spec_suffix()
                + ")"@,
            r.spec_binary() == (match self.spec_kind() {
                Kind::Rust1 => args.gccrs@,
                Kind::RustcBootstrap => args.rustc@,
            }),
            r.spec_exit_code() == 0,
            r.spec_timeout() == crate::passes::DEFAULT_TIMEOUT,
            r.spec_args() == spec_default_args(self.spec_kind()) + (match self.spec_kind() {
                Kind::Rust1 => seq![file@],
                Kind::RustcBootstrap => seq![
                    "--crate-type"@,
                    spec_crate_type_str(CrateType::Library),
                    file@,
                ],
            }),
            r.spec_stdout() == Seq::<char>::empty(),
            r.spec_stderr() == Seq::<char>::empty(),
    {
        let kind = match self {
            Blake3::GccrsOriginal => Kind::Rust1,
            Blake3::GccrsPrelude => Kind::Rust1,
            Blake3::RustcNoStd => Kind::RustcBootstrap,
            Blake3::RustcNoCore => Kind::RustcBootstrap,
        };
        let compiler = Compiler::new(kind, args).crate_type(CrateType::Library);
        let name = "Compile Blake3 reference implementation (".to_owned().concat(self.suffix())
            .concat(")");
        proof {
            assert(name@ =~= "Compile Blake3 reference implementation ("@ + self.spec_suffix()
                + ")"@);
        }
        let r = TestCase::from_compiler(compiler).with_arg(file.to_owned()).with_name(name)
            .with_exit_code(0);
        proof {
            assert(r.spec_args() =~= spec_default_args(self.spec_kind()) + (match self.spec_kind() {
                Kind::Rust1 => seq![file@],
                Kind::RustcBootstrap => seq![
                    "--crate-type"@,
                    spec_crate_type_str(CrateType::Library),
                    file@,
                ],
            }));
        }
        r
    }
}

} // verus!
