use testsuite_adaptor::adaptor::{FileAdaptor, FileAdaptorExt};
use testsuite_adaptor::collector::{copy_destinations, dest_for};
use testsuite_adaptor::error::Error;
use testsuite_adaptor::passes::assemble_artifact;
use testsuite_adaptor::paths::{
    has_rs_extension, path_join, replace_extension, strip_path_prefix,
};

#[test]
fn join_inserts_one_separator() {
    assert_eq!(path_join("a/b", "c.rs"), "a/b/c.rs");
}

#[test]
fn strip_prefix_removes_root() {
    assert_eq!(strip_path_prefix("rust/src/a.rs", "rust").unwrap(), "src/a.rs");
    assert_eq!(strip_path_prefix("rust", "rust").unwrap(), "");
    assert!(strip_path_prefix("rusty/src/a.rs", "rust").is_none());
    assert!(strip_path_prefix("other/a.rs", "rust").is_none());
}

#[test]
fn rs_extension_detection() {
    assert!(has_rs_extension("a.rs"));
    assert!(has_rs_extension("dir/sub/file.rs"));
    assert!(has_rs_extension("a..rs"));
    assert!(!has_rs_extension(".rs"));
    assert!(!has_rs_extension("dir/.rs"));
    assert!(!has_rs_extension("a.pretty-rs"));
    assert!(!has_rs_extension("readme.md"));
    assert!(!has_rs_extension("rs"));
}

#[test]
fn replace_extension_cases() {
    assert_eq!(replace_extension("dir/a.rs", "pretty-rs"), "dir/a.pretty-rs");
    assert_eq!(replace_extension("dir/a.pretty-rs", "rs"), "dir/a.rs");
    assert_eq!(replace_extension("noext", "rs"), "noext.rs");
    assert_eq!(replace_extension("dir/.hidden", "rs"), "dir/.hidden.rs");
    assert_eq!(replace_extension("a.b/c", "rs"), "a.b/c.rs");
}

#[test]
fn dest_is_rerooted_relative_identity() {
    let dest = dest_for("rust/src/test/a.rs", "out", "rust").unwrap();
    assert_eq!(dest, "out/src/test/a.rs");
}

#[test]
fn dest_outside_root_is_a_path_relation_error() {
    let r = dest_for("elsewhere/a.rs", "out", "rust");
    match r {
        Err(Error::PathPrefix(p)) => assert_eq!(p, "elsewhere/a.rs"),
        _ => panic!("expected a path-relation error"),
    }
}

#[test]
fn copy_destinations_retain_only_rust_sources() {
    let files = vec![
        String::from("rust/a.rs"),
        String::from("rust/readme.md"),
        String::from("rust/sub/b.rs"),
    ];
    let pairs = copy_destinations(&files, "out", "rust").unwrap();
    assert_eq!(pairs.len(), 2);
    assert_eq!(pairs[0].0, "rust/a.rs");
    assert_eq!(pairs[0].1, "out/a.rs");
    assert_eq!(pairs[1].0, "rust/sub/b.rs");
    assert_eq!(pairs[1].1, "out/sub/b.rs");
}

#[test]
fn copy_destinations_are_idempotent() {
    let files = vec![
        String::from("rust/a.rs"),
        String::from("rust/sub/b.rs"),
        String::from("rust/sub/deep/c.rs"),
    ];
    let first = copy_destinations(&files, "out", "rust").unwrap();
    let second = copy_destinations(&files, "out", "rust").unwrap();
    assert_eq!(first, second);
}

#[test]
fn copy_destinations_fail_on_stray_file() {
    let files = vec![String::from("rust/a.rs"), String::from("stray/b.rs")];
    let r = copy_destinations(&files, "out", "rust");
    match r {
        Err(Error::PathPrefix(p)) => assert_eq!(p, "stray/b.rs"),
        _ => panic!("expected a path-relation error"),
    }
}

#[test]
fn artifact_starts_with_header() {
    let suites = vec![String::from("  - name: a\n"), String::from("  - name: b\n")];
    assert_eq!(
        assemble_artifact(&suites),
        "tests:\n  - name: a\n  - name: b\n"
    );
    assert_eq!(assemble_artifact(&Vec::new()), "tests:\n");
}

#[test]
fn file_adaptor_hands_files_out_in_order() {
    let files = vec![String::from("a.rs"), String::from("b.rs")];
    let mut adaptor: FileAdaptor = files.adapt();
    assert_eq!(adaptor.next(), Some(String::from("a.rs")));
    assert_eq!(adaptor.next(), Some(String::from("b.rs")));
    assert_eq!(adaptor.next(), None);
}
