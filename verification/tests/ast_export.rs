use testsuite_adaptor::args::Args;
use testsuite_adaptor::error::Error;
use testsuite_adaptor::passes::ast_export::{
    adapt_compilation, adapt_run, get_original_file_from_pretty, RunOutcome,
};
use testsuite_adaptor::passes::{AstExport, Blake3, PassKind, TestCase};

fn test_args() -> Args {
    Args {
        output_dir: String::from("out"),
        yaml: String::from("suite.yml"),
        rustc: String::from("/usr/bin/rustc"),
        gccrs: String::from("/usr/bin/gccrs"),
        rust_path: String::from("rust"),
        gccrs_path: String::from("gccrs"),
        pass: PassKind::AstExport,
        jobs: 1,
    }
}

#[test]
fn pretty_file_maps_back_to_original() {
    assert_eq!(
        get_original_file_from_pretty("out/ast-export/a.pretty-rs"),
        "out/ast-export/a.rs"
    );
}

#[test]
fn compilation_asserts_when_original_compiles() {
    let tc = adapt_compilation(&test_args(), "out/a.pretty-rs", true).unwrap();
    let rendered = tc.render();
    assert!(rendered.contains("  - name: Compile prettified `out/a.rs`\n"));
    assert!(rendered.contains("    exit_code: 0\n"));
    assert!(rendered.contains("      - \"out/a.pretty-rs\"\n"));
}

#[test]
fn compilation_abstains_when_original_fails() {
    let tc = adapt_compilation(&test_args(), "out/a.pretty-rs", false).unwrap();
    assert!(matches!(tc, TestCase::Skip));
}

#[test]
fn run_abstains_on_timeout() {
    // A program that never terminates is killed at the timeout; the case
    // must abstain rather than fail hard or assert a status.
    let tc = adapt_run(
        &test_args(),
        "out/a.pretty-rs",
        "out/a.bin",
        RunOutcome::Exited(0),
        RunOutcome::TimedOut,
    )
    .unwrap();
    assert!(matches!(tc, TestCase::Skip));
    let tc = adapt_run(
        &test_args(),
        "out/a.pretty-rs",
        "out/a.bin",
        RunOutcome::TimedOut,
        RunOutcome::Exited(0),
    )
    .unwrap();
    assert!(matches!(tc, TestCase::Skip));
}

#[test]
fn run_abstains_on_build_failure() {
    let tc = adapt_run(
        &test_args(),
        "out/a.pretty-rs",
        "out/a.bin",
        RunOutcome::BuildFailed,
        RunOutcome::Exited(0),
    )
    .unwrap();
    assert!(matches!(tc, TestCase::Skip));
}

#[test]
fn run_asserts_observed_status() {
    let tc = adapt_run(
        &test_args(),
        "out/a.pretty-rs",
        "out/a.bin",
        RunOutcome::Exited(0),
        RunOutcome::Exited(7),
    )
    .unwrap();
    let rendered = tc.render();
    assert!(rendered.contains("  - name: Run prettified `out/a.rs`\n"));
    assert!(rendered.contains("    binary: out/a.bin\n"));
    assert!(rendered.contains("    exit_code: 7\n"));
    assert!(rendered.contains("    timeout: 5\n"));
}

#[test]
fn run_rejects_unrepresentable_status() {
    let r = adapt_run(
        &test_args(),
        "out/a.pretty-rs",
        "out/a.bin",
        RunOutcome::Exited(0),
        RunOutcome::Exited(256),
    );
    assert!(matches!(r, Err(Error::ExitCodeRange(256))));
}

#[test]
fn fetch_stages_dump_beside_original() {
    let args = test_args();
    let (original, pretty) = AstExport::Compile.stage_paths(&args, "gccrs/t.rs");
    assert_eq!(original, "out/ast-export/gccrs/t.rs");
    assert_eq!(pretty, "out/ast-export/gccrs/t.pretty-rs");
    assert_eq!(AstExport::Compile.dump_file_name(), "gccrs.ast-pretty.dump");
    assert_eq!(
        AstExport::Compile.tests_root(&args),
        "gccrs/gcc/testsuite/rust"
    );
}

#[test]
fn dump_invocation_shape() {
    let inv = AstExport::Run.dump_invocation(&test_args(), "gccrs/t.rs");
    assert_eq!(inv.binary, "/usr/bin/gccrs");
    assert_eq!(
        inv.args,
        vec![
            String::from("-frust-incomplete-and-experimental-compiler-do-not-use"),
            String::from("gccrs/t.rs"),
            String::from("-frust-dump-ast-pretty"),
        ]
    );
}

#[test]
fn blake3_variants_and_files() {
    let args = test_args();
    let variants = Blake3::variants();
    assert_eq!(variants.len(), 4);
    assert_eq!(variants[0].fetch_plan(&args), "out/blake3-original.rs");
    assert_eq!(variants[1].fetch_plan(&args), "out/blake3-gccrs-prelude.rs");
    assert_eq!(variants[2].fetch_plan(&args), "out/blake3-rustc-no-std.rs");
    assert_eq!(variants[3].fetch_plan(&args), "out/blake3-rustc-no-core.rs");
}

#[test]
fn blake3_content_prefixes_template() {
    assert_eq!(
        Blake3::RustcNoStd.file_content("fn hash() {}\n"),
        "#![no_std]\nfn hash() {}\n"
    );
    assert_eq!(Blake3::GccrsOriginal.file_content("x"), "x");
}

#[test]
fn blake3_test_shape() {
    let args = test_args();
    let rendered = Blake3::RustcNoStd.adapt(&args, "out/blake3-rustc-no-std.rs").render();
    assert!(rendered.contains(
        "  - name: Compile Blake3 reference implementation (rustc-no-std)\n"
    ));
    assert!(rendered.contains("    binary: /usr/bin/rustc\n"));
    assert!(rendered.contains("      - \"--crate-type\"\n      - \"lib\"\n"));
    let gccrs = Blake3::GccrsOriginal.adapt(&args, "out/blake3-original.rs").render();
    assert!(gccrs.contains("    binary: /usr/bin/gccrs\n"));
}
