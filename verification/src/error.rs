//! The run's error taxonomy. Every variant carries plain data; the driver
//! turns operating-system errors into their message text before handing
//! them to the library.

use vstd::prelude::*;
use vstd::string::*;

use crate::text::{i32_decimal, spec_decimal_i32};

verus! {

/// Errors from mutating an external resource while fetching test files.
#[derive(Debug)]
pub enum MiscKind {
    /// A repository checkout command failed; the payload is the command's
    /// argument string.
    Git { arg_string: String },
}

/// Everything that can go wrong while generating the test-suite artifact.
#[derive(Debug)]
pub enum Error {
    /// An input/output failure, carried as its message text.
    Io(String),
    /// The configured path to the reference-compiler repository does not exist.
    NoRust(String),
    /// The configured path to the target-compiler repository does not exist.
    NoGccrs(String),
    /// A discovered file does not lie under its declared root.
    PathPrefix(String),
    /// The directory walk itself reported a failure.
    WalkDir(String),
    /// A repository mutation went wrong.
    Misc(MiscKind),
    /// A measured process status does not fit the representable exit-code
    /// domain of 0 through 255.
    ExitCodeRange(i32),
}

impl MiscKind {
    /// The message text of the error.
    pub open spec fn spec_message(self) -> Seq<char> {
        match self {
            MiscKind::Git { arg_string } => "git error: `git "@ + arg_string@ + "`"@,
        }
    }

    /// Renders the error as its message text.
    pub fn message(&self) -> (r: String)
        ensures
            r@ == self.spec_message(),
    {
        match self {
            MiscKind::Git { arg_string } => {
                let r = "git error: `git ".to_owned().concat(arg_string.as_str()).concat("`");
                proof {
                    assert(r@ =~= self.spec_message());
                }
                r
            },
        }
    }
}

impl Error {
    /// The message text of the error.
    pub open spec fn spec_message(self) -> Seq<char> {
        match self {
            Error::Io(message) => message@,
            Error::NoRust(path) => "given path to `rust` does not exist: "@ + path@,
            Error::NoGccrs(path) => "given path to `gccrs` does not exist: "@ + path@,
            Error::PathPrefix(path) => "path does not lie under its declared root: "@ + path@,
            Error::WalkDir(message) => message@,
            Error::Misc(kind) => kind.spec_message(),
            Error::ExitCodeRange(status) => "invalid exit code: expected value to fit in `u8`: "@
                + spec_decimal_i32(status as int),
        }
    }

    /// Renders the error as its message text.
    pub fn message(&self) -> (r: String)
        ensures
            r@ == self.spec_message(),
    {
        match self {
            Error::Io(message) => message.as_str().to_owned(),
            Error::NoRust(path) => "given path to `rust` does not exist: ".to_owned().concat(
                path.as_str(),
            ),
            Error::NoGccrs(path) => "given path to `gccrs` does not exist: ".to_owned().concat(
                path.as_str(),
            ),
            Error::PathPrefix(path) => "path does not lie under its declared root: "
                .to_owned()
                .concat(path.as_str()),
            Error::WalkDir(message) => message.as_str().to_owned(),
            Error::Misc(kind) => kind.message(),
            Error::ExitCodeRange(status) => {
                let rendered = i32_decimal(*status);
                "invalid exit code: expected value to fit in `u8`: ".to_owned().concat(
                    rendered.as_str(),
                )
            },
        }
    }
}

} // verus!
