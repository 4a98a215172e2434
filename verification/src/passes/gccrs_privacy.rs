//! Privacy-test discovery: collects the reference suite's privacy and
//! `pub` test files into the staging tree. Only the discovery half of this
//! strategy is defined; the dispatcher does not select it.

use vstd::prelude::*;

use crate::args::Args;
use crate::collector::CopyPlan;
use crate::paths::{path_join, spec_path_join};

verus! {

#[derive(Clone, Copy, PartialEq, Eq, Structural, Debug)]
pub struct GccrsPrivacy;

impl GccrsPrivacy {
    /// The two discoveries this pass runs: the privacy tests and the `pub`
    /// tests of the reference suite's ui tree, staged together.
    pub fn fetch_plan(&self, args: &Args) -> (r: (CopyPlan, CopyPlan))
        ensures
            r.0.from@ == spec_path_join(
                spec_path_join(
                    spec_path_join(spec_path_join(args.rust_path@, "src"@), "test"@),
                    "ui"@,
                ),
                "privacy"@,
            ),
            r.0.to@ == args.output_dir@,
            r.0.prefix@ == args.rust_path@,
            r.1.from@ == spec_path_join(
                spec_path_join(
                    spec_path_join(spec_path_join(args.rust_path@, "src"@), "test"@),
                    "ui"@,
                ),
                "pub"@,
            ),
            r.1.to@ == args.output_dir@,
            r.1.prefix@ == args.rust_path@,
    {
        let ui = path_join(
            path_join(path_join(args.rust_path.as_str(), "src").as_str(), "test").as_str(),
            "ui",
        );
        let privacy = CopyPlan {
            from: path_join(ui.as_str(), "privacy"),
            to: args.output_dir.clone(),
            prefix: args.rust_path.clone(),
        };
        let pub_tests = CopyPlan {
            from: path_join(ui.as_str(), "pub"),
            to: args.output_dir.clone(),
            prefix: args.rust_path.clone(),
        };
        (privacy, pub_tests)
    }
}

} // verus!
