use testsuite_adaptor::args::Args;
use testsuite_adaptor::compiler::{Compiler, Kind};
use testsuite_adaptor::error::Error;
use testsuite_adaptor::passes::{collect_rendered, PassKind, TestCase};

fn test_args() -> Args {
    Args {
        output_dir: String::from("out"),
        yaml: String::from("suite.yml"),
        rustc: String::from("/usr/bin/rustc"),
        gccrs: String::from("/usr/bin/gccrs"),
        rust_path: String::from("rust"),
        gccrs_path: String::from("gccrs"),
        pass: PassKind::GccrsParsing,
        jobs: 1,
    }
}

#[test]
fn measured_status_above_range_fails() {
    let r = TestCase::default().with_measured_status(256);
    assert!(matches!(r, Err(Error::ExitCodeRange(256))));
}

#[test]
fn measured_status_below_range_fails() {
    let r = TestCase::default().with_measured_status(-1);
    assert!(matches!(r, Err(Error::ExitCodeRange(-1))));
}

#[test]
fn measured_status_bounds_succeed() {
    let low = TestCase::default().with_measured_status(0).unwrap();
    assert!(low.render().contains("    exit_code: 0\n"));
    let high = TestCase::default().with_measured_status(255).unwrap();
    assert!(high.render().contains("    exit_code: 255\n"));
}

#[test]
fn builders_leave_skip_alone() {
    let tc = TestCase::Skip
        .with_name(String::from("n"))
        .with_binary(String::from("b"))
        .with_exit_code(3)
        .with_timeout(7)
        .with_arg(String::from("a"));
    assert!(matches!(tc, TestCase::Skip));
}

#[test]
fn with_args_appends_in_order() {
    let extra = vec![String::from("x"), String::from("y")];
    let rendered = TestCase::default()
        .with_arg(String::from("w"))
        .with_args(&extra)
        .render();
    assert!(rendered.contains("      - \"w\"\n      - \"x\"\n      - \"y\"\n"));
}

#[test]
fn from_compiler_takes_binary_and_defaults() {
    let args = test_args();
    let tc = TestCase::from_compiler(Compiler::new(Kind::Rust1, &args));
    let rendered = tc.render();
    assert!(rendered.contains("    binary: /usr/bin/gccrs\n"));
    assert!(rendered.contains("      - \"-frust-incomplete-and-experimental-compiler-do-not-use\"\n"));
    assert!(rendered.contains("    timeout: 15\n"));
}

#[test]
fn collect_rendered_concatenates_successes() {
    let outcomes: Vec<Result<TestCase, Error>> = vec![
        Ok(TestCase::default().with_name(String::from("a"))),
        Ok(TestCase::Skip),
        Ok(TestCase::default().with_name(String::from("b"))),
    ];
    let joined = collect_rendered(outcomes).unwrap();
    assert!(joined.contains("  - name: a\n"));
    assert!(joined.contains("  - name: b\n"));
}

#[test]
fn collect_rendered_returns_first_error() {
    let outcomes: Vec<Result<TestCase, Error>> = vec![
        Ok(TestCase::Skip),
        Err(Error::Io(String::from("boom"))),
        Err(Error::ExitCodeRange(300)),
    ];
    let r = collect_rendered(outcomes);
    match r {
        Err(Error::Io(message)) => assert_eq!(message, "boom"),
        _ => panic!("expected the first error back"),
    }
}

#[test]
fn error_messages_render_exactly() {
    assert_eq!(
        Error::ExitCodeRange(300).message(),
        "invalid exit code: expected value to fit in `u8`: 300"
    );
    assert_eq!(
        Error::NoRust(String::from("/r")).message(),
        "given path to `rust` does not exist: /r"
    );
    assert_eq!(
        Error::Misc(testsuite_adaptor::error::MiscKind::Git {
            arg_string: String::from("checkout 1.49.0"),
        })
        .message(),
        "git error: `git checkout 1.49.0`"
    );
}

#[test]
fn check_repos_reports_missing_paths() {
    let args = test_args();
    assert!(args.check_repos(true, true).is_ok());
    match args.check_repos(false, true) {
        Err(Error::NoRust(p)) => assert_eq!(p, "rust"),
        _ => panic!("expected the rust repository error"),
    }
    match args.check_repos(true, false) {
        Err(Error::NoGccrs(p)) => assert_eq!(p, "gccrs"),
        _ => panic!("expected the gccrs repository error"),
    }
}
