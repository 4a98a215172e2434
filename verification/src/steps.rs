//! Various steps in the target compiler's compilation pipeline.

use vstd::prelude::*;

verus! {

/// A compilation-pipeline stage the target compiler can be asked to stop
/// early at.
#[derive(Clone, Copy, PartialEq, Eq, Structural, Debug)]
pub enum CompileStep {
    Expansion,
    TypeCheck,
    End,
}

impl CompileStep {
    /// All the available compilation steps the target compiler can stop on,
    /// in pipeline order.
    pub fn variants() -> (r: [CompileStep; 3])
        ensures
            r@ == seq![CompileStep::Expansion, CompileStep::TypeCheck, CompileStep::End],
    {
        let r = [CompileStep::Expansion, CompileStep::TypeCheck, CompileStep::End];
        proof {
            assert(r@ =~= seq![CompileStep::Expansion, CompileStep::TypeCheck, CompileStep::End]);
        }
        r
    }

    /// The stop-early flag associated with a compilation step.
    pub open spec fn spec_compile_option(self) -> Seq<char> {
        match self {
            CompileStep::Expansion => "-frust-compile-until=expansion"@,
            CompileStep::TypeCheck => "-frust-compile-until=typecheck"@,
            CompileStep::End => "-frust-compile-until=end"@,
        }
    }

    /// Get the target compiler's flag associated with a compilation step.
    pub fn compile_option(&self) -> (r: &'static str)
        ensures
            r@ == self.spec_compile_option(),
    {
        match self {
            CompileStep::Expansion => "-frust-compile-until=expansion",
            CompileStep::TypeCheck => "-frust-compile-until=typecheck",
            CompileStep::End => "-frust-compile-until=end",
        }
    }
}

} // verus!
