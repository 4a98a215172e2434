//! Turns two compiler test corpora into a single declarative test-case
//! artifact for an external test runner: strategies decide, per discovered
//! source file, what command to run and what outcome to expect, and the
//! results are rendered into one line-oriented text artifact.

pub mod adaptor;
pub mod args;
pub mod collector;
pub mod compiler;
pub mod error;
pub mod passes;
pub mod paths;
pub mod steps;
pub mod text;
