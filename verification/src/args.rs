//! The run configuration. The command-line front end parses its options
//! into this plain structure before any work starts.

use vstd::prelude::*;

use crate::error::Error;
use crate::passes::PassKind;

verus! {

/// Everything one run of the generator needs to know.
pub struct Args {
    /// Output directory which will contain the new tests.
    pub output_dir: String,
    /// Generated YAML ftf file name.
    pub yaml: String,
    /// Path to the rustc compiler to use.
    pub rustc: String,
    /// Path to the gccrs compiler to use.
    pub gccrs: String,
    /// Path to a cloned rust repository.
    pub rust_path: String,
    /// Path to a cloned gccrs repository.
    pub gccrs_path: String,
    /// Pass to run in the adaptor.
    pub pass: PassKind,
    /// Amount of threads to use.
    pub jobs: usize,
}

impl Args {
    /// Decides whether the run may start, from the observed existence of the
    /// two configured repository paths. A missing repository is a
    /// configuration error that stops the run before any work.
    pub fn check_repos(&self, rust_path_exists: bool, gccrs_path_exists: bool) -> (r: Result<
        (),
        Error,
    >)
        ensures
            match r {
                Ok(()) => rust_path_exists && gccrs_path_exists,
                Err(e) => match e {
                    Error::NoRust(p) => !rust_path_exists && p@ == self.rust_path@,
                    Error::NoGccrs(p) => rust_path_exists && !gccrs_path_exists && p@
                        == self.gccrs_path@,
                    _ => false,
                },
            },
    {
        if !rust_path_exists {
            Err(Error::NoRust(self.rust_path.clone()))
        } else if !gccrs_path_exists {
            Err(Error::NoGccrs(self.gccrs_path.clone()))
        } else {
            Ok(())
        }
    }
}

} // verus!
