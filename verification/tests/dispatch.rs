use testsuite_adaptor::args::Args;
use testsuite_adaptor::passes::{pass_dispatch, PassInstance, PassKind, TestCase};
use testsuite_adaptor::steps::CompileStep;

fn test_args() -> Args {
    Args {
        output_dir: String::from("out"),
        yaml: String::from("suite.yml"),
        rustc: String::from("/usr/bin/rustc"),
        gccrs: String::from("/usr/bin/gccrs"),
        rust_path: String::from("rust"),
        gccrs_path: String::from("gccrs"),
        pass: PassKind::LibCore,
        jobs: 1,
    }
}

#[test]
fn libcore_expands_to_six_distinct_instances() {
    let instances = pass_dispatch(PassKind::LibCore);
    assert_eq!(instances.len(), 6);
    for i in 0..instances.len() {
        for j in (i + 1)..instances.len() {
            assert_ne!(instances[i], instances[j]);
        }
    }
}

#[test]
fn libcore_instances_each_produce_one_test_per_file() {
    let args = test_args();
    for instance in pass_dispatch(PassKind::LibCore) {
        match instance {
            PassInstance::LibCore(pass) => {
                let file = pass.entry_file(&args);
                let tc = pass.adapt(&args, &file);
                assert!(matches!(tc, TestCase::Test { .. }));
            }
            _ => panic!("expected only versioned-library instances"),
        }
    }
}

#[test]
fn blake3_expands_to_four_instances() {
    assert_eq!(pass_dispatch(PassKind::Blake3).len(), 4);
}

#[test]
fn ast_export_expands_to_two_instances() {
    assert_eq!(pass_dispatch(PassKind::AstExport).len(), 2);
}

#[test]
fn simple_passes_expand_to_one_instance() {
    assert_eq!(pass_dispatch(PassKind::GccrsParsing).len(), 1);
    assert_eq!(pass_dispatch(PassKind::RustcDejagnu).len(), 1);
    assert_eq!(pass_dispatch(PassKind::GccrsRustcSucess).len(), 1);
    assert_eq!(pass_dispatch(PassKind::GccrsRustcSucessNoStd).len(), 1);
    assert_eq!(pass_dispatch(PassKind::GccrsRustcSucessNoCore).len(), 1);
}

#[test]
fn pass_names_round_trip() {
    let kinds = [
        PassKind::GccrsParsing,
        PassKind::RustcDejagnu,
        PassKind::GccrsRustcSucess,
        PassKind::GccrsRustcSucessNoStd,
        PassKind::GccrsRustcSucessNoCore,
        PassKind::Blake3,
        PassKind::LibCore,
        PassKind::AstExport,
    ];
    for kind in kinds {
        assert_eq!(PassKind::from_str(kind.name()).unwrap(), kind);
    }
}

#[test]
fn unknown_pass_name_is_rejected() {
    let err = PassKind::from_str("no-such-pass").unwrap_err();
    assert_eq!(err.message(), "invalid pass name provided: no-such-pass");
}

#[test]
fn compile_steps_in_pipeline_order() {
    let steps = CompileStep::variants();
    assert_eq!(steps[0].compile_option(), "-frust-compile-until=expansion");
    assert_eq!(steps[1].compile_option(), "-frust-compile-until=typecheck");
    assert_eq!(steps[2].compile_option(), "-frust-compile-until=end");
}
