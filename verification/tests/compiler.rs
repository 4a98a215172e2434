use testsuite_adaptor::args::Args;
use testsuite_adaptor::compiler::{Compiler, CrateType, Edition, Kind};
use testsuite_adaptor::passes::PassKind;

fn test_args() -> Args {
    Args {
        output_dir: String::from("out"),
        yaml: String::from("suite.yml"),
        rustc: String::from("/usr/bin/rustc"),
        gccrs: String::from("/usr/bin/gccrs"),
        rust_path: String::from("rust"),
        gccrs_path: String::from("gccrs"),
        pass: PassKind::GccrsParsing,
        jobs: 1,
    }
}

#[test]
fn defaults_come_before_caller_arguments() {
    let args = test_args();
    let inv = Compiler::new(Kind::Rust1, &args).arg("foo.rs").command();
    assert_eq!(inv.binary, "/usr/bin/gccrs");
    assert_eq!(
        inv.args,
        vec![
            String::from("-frust-incomplete-and-experimental-compiler-do-not-use"),
            String::from("foo.rs"),
        ]
    );
    assert!(inv.env.is_empty());
    assert!(inv.silence_stdout);
    assert!(inv.silence_stderr);
}

#[test]
fn bootstrap_kind_sets_env_and_no_default_args() {
    let args = test_args();
    let inv = Compiler::new(Kind::RustcBootstrap, &args).arg("foo.rs").command();
    assert_eq!(inv.binary, "/usr/bin/rustc");
    assert_eq!(inv.args, vec![String::from("foo.rs")]);
    assert_eq!(
        inv.env,
        vec![(String::from("RUSTC_BOOTSTRAP"), String::from("1"))]
    );
}

#[test]
fn capabilities_map_to_kind_specific_flags() {
    let args = test_args();
    let gccrs = Compiler::new(Kind::Rust1, &args)
        .crate_name("my_crate")
        .edition(Edition::E2021)
        .command();
    assert_eq!(
        gccrs.args,
        vec![
            String::from("-frust-incomplete-and-experimental-compiler-do-not-use"),
            String::from("-frust-crate-name"),
            String::from("my_crate"),
            String::from("-frust-edition"),
            String::from("2021"),
        ]
    );
    let rustc = Compiler::new(Kind::RustcBootstrap, &args)
        .crate_name("my_crate")
        .edition(Edition::E2021)
        .command();
    assert_eq!(
        rustc.args,
        vec![
            String::from("--crate-name"),
            String::from("my_crate"),
            String::from("--edition"),
            String::from("2021"),
        ]
    );
}

#[test]
fn crate_type_is_ignored_by_the_target_compiler() {
    let args = test_args();
    let gccrs = Compiler::new(Kind::Rust1, &args)
        .crate_type(CrateType::Library)
        .command();
    assert_eq!(
        gccrs.args,
        vec![String::from(
            "-frust-incomplete-and-experimental-compiler-do-not-use"
        )]
    );
    let rustc = Compiler::new(Kind::RustcBootstrap, &args)
        .crate_type(CrateType::Library)
        .command();
    assert_eq!(
        rustc.args,
        vec![String::from("--crate-type"), String::from("lib")]
    );
}

#[test]
fn edition_renders_its_year() {
    assert_eq!(Edition::E2021.to_str(), "2021");
}

#[test]
fn kind_resolves_its_binary() {
    let args = test_args();
    assert_eq!(Kind::Rust1.as_path_from_args(&args).as_str(), "/usr/bin/gccrs");
    assert_eq!(Kind::RustcBootstrap.as_path_from_args(&args).as_str(), "/usr/bin/rustc");
}
