use testsuite_adaptor::args::Args;
use testsuite_adaptor::passes::gccrs_rustc_successes::Prevalidation;
use testsuite_adaptor::passes::rustc_dejagnu::dejagnu_exit_code;
use testsuite_adaptor::passes::{
    GccrsFullRustc, GccrsRustcSuccesses, PassKind, RustcDejagnu, TestCase,
};

fn test_args() -> Args {
    Args {
        output_dir: String::from("out"),
        yaml: String::from("suite.yml"),
        rustc: String::from("/usr/bin/rustc"),
        gccrs: String::from("/usr/bin/gccrs"),
        rust_path: String::from("rust"),
        gccrs_path: String::from("gccrs"),
        pass: PassKind::RustcDejagnu,
        jobs: 1,
    }
}

#[test]
fn error_marker_alone_expects_one() {
    let content = b"// { dg-error \"oops\" }\nfn foo() {}\n".to_vec();
    assert_eq!(dejagnu_exit_code(&content), 1);
    let tc = RustcDejagnu.adapt(&test_args(), "t.rs", &content);
    assert!(tc.render().contains("    exit_code: 1\n"));
}

#[test]
fn main_signature_alone_expects_255() {
    let content = b"fn main() -> i32 { 0 }\n".to_vec();
    assert_eq!(dejagnu_exit_code(&content), 255);
    let tc = RustcDejagnu.adapt(&test_args(), "t.rs", &content);
    assert!(tc.render().contains("    exit_code: 255\n"));
}

#[test]
fn main_signature_overrides_error_marker() {
    let content = b"// dg-error\nfn main() {}\n".to_vec();
    assert_eq!(dejagnu_exit_code(&content), 255);
}

#[test]
fn clean_file_expects_success() {
    let content = b"fn helper() {}\n".to_vec();
    assert_eq!(dejagnu_exit_code(&content), 0);
    let tc = RustcDejagnu.adapt(&test_args(), "t.rs", &content);
    assert!(tc.render().contains("    exit_code: 0\n"));
}

#[test]
fn undecodable_file_expects_failure() {
    let content = vec![0xff, 0xfe, b'd', b'g', b'-', b'e', b'r', b'r', b'o', b'r'];
    assert_eq!(dejagnu_exit_code(&content), 1);
    // Undecodable bytes without any marker still count as a failure: the
    // decoding itself, not a marker search over raw bytes, is what decides.
    let markerless = vec![0xc3, 0x28];
    assert_eq!(dejagnu_exit_code(&markerless), 1);
}

#[test]
fn dejagnu_test_shape() {
    let content = b"fn helper() {}\n".to_vec();
    let rendered = RustcDejagnu.adapt(&test_args(), "gccrs/t.rs", &content).render();
    assert!(rendered.contains("  - name: Run rustc on `gccrs/t.rs`\n"));
    assert!(rendered.contains("    binary: /usr/bin/rustc\n"));
    assert!(rendered.contains("    timeout: 5\n"));
    assert!(rendered.contains("      - \"gccrs/t.rs\"\n      - \"-o\"\n      - \"rustc_out\"\n"));
}

#[test]
fn full_rustc_marker_expects_error_text() {
    let rendered = GccrsFullRustc
        .adapt(&test_args(), "t.rs", "fn f() {} // ERROR mismatched types")
        .render();
    assert!(rendered.contains("    exit_code: 1\n"));
    assert!(rendered.contains("    stderr: \"error\"\n"));
    assert!(rendered.contains("    binary: /usr/bin/gccrs\n"));
}

#[test]
fn full_rustc_clean_file_expects_success() {
    let rendered = GccrsFullRustc.adapt(&test_args(), "t.rs", "fn f() {}").render();
    assert!(rendered.contains("    exit_code: 0\n"));
    assert!(!rendered.contains("stderr"));
}

#[test]
fn successes_skip_marked_files() {
    let variant = GccrsRustcSuccesses::Full;
    assert!(variant.rewrite("fn f() {} // ERROR").is_none());
    let tc = variant.adapt(
        &test_args(),
        "t.rs",
        "fn f() {} // ERROR",
        Prevalidation::NotRequired,
    );
    assert!(matches!(tc, TestCase::Skip));
}

#[test]
fn successes_rewrite_injects_prelude() {
    let rewritten = GccrsRustcSuccesses::NoStd.rewrite("fn f() {}\n").unwrap();
    assert_eq!(rewritten, "#![no_std]\nfn f() {}\n");
    let no_core = GccrsRustcSuccesses::NoCore.rewrite("fn f() {}\n").unwrap();
    assert_eq!(no_core, "#![feature(no_core)]\n#![no_core]\nfn f() {}\n");
    let plain = GccrsRustcSuccesses::Full.rewrite("fn f() {}\n").unwrap();
    assert_eq!(plain, "fn f() {}\n");
}

#[test]
fn successes_abstain_on_failed_prevalidation() {
    let variant = GccrsRustcSuccesses::NoStd;
    let failed = variant.adapt(&test_args(), "t.rs", "fn f() {}", Prevalidation::Failed);
    assert!(matches!(failed, TestCase::Skip));
    let timed_out = variant.adapt(&test_args(), "t.rs", "fn f() {}", Prevalidation::TimedOut);
    assert!(matches!(timed_out, TestCase::Skip));
}

#[test]
fn successes_assert_clean_compile_when_validated() {
    let rendered = GccrsRustcSuccesses::NoStd
        .adapt(&test_args(), "t.rs", "fn f() {}", Prevalidation::Passed)
        .render();
    assert!(rendered.contains("  - name: Compile no-std success `t.rs`\n"));
    assert!(rendered.contains("    exit_code: 0\n"));
    assert!(rendered.contains("    timeout: 300\n"));
}

#[test]
fn successes_prevalidation_invocation_shape() {
    let inv = GccrsRustcSuccesses::NoCore.prevalidation_invocation(&test_args(), "t.rs");
    assert_eq!(inv.binary, "/usr/bin/rustc");
    assert_eq!(
        inv.args,
        vec![
            String::from("--edition"),
            String::from("2021"),
            String::from("--crate-name"),
            String::from("rustc_output"),
            String::from("--crate-type"),
            String::from("lib"),
            String::from("t.rs"),
        ]
    );
}

#[test]
fn successes_stage_into_variant_directories() {
    let full = GccrsRustcSuccesses::Full.fetch_plan(&test_args());
    assert_eq!(full.to, "out");
    assert_eq!(full.from, "rust/src/test/ui");
    assert_eq!(full.prefix, "rust");
    let no_std = GccrsRustcSuccesses::NoStd.fetch_plan(&test_args());
    assert_eq!(no_std.to, "out/no-std");
    let no_core = GccrsRustcSuccesses::NoCore.fetch_plan(&test_args());
    assert_eq!(no_core.to, "out/no-core");
}
