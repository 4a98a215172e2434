use testsuite_adaptor::passes::{render_all, TestCase};

fn base_case() -> TestCase {
    TestCase::default()
        .with_name(String::from("case"))
        .with_binary(String::from("gccrs"))
        .with_arg(String::from("a.rs"))
}

#[test]
fn render_skip_is_empty() {
    assert_eq!(TestCase::Skip.render(), "");
}

#[test]
fn render_full_block() {
    let rendered = base_case().render();
    let expected = "  - name: case\n    binary: gccrs\n    timeout: 15\n    exit_code: 0\n    args:\n      - \"a.rs\"\n";
    assert_eq!(rendered, expected);
}

#[test]
fn render_no_args_has_empty_list() {
    let rendered = TestCase::default()
        .with_name(String::from("n"))
        .with_binary(String::from("b"))
        .render();
    assert_eq!(
        rendered,
        "  - name: n\n    binary: b\n    timeout: 15\n    exit_code: 0\n    args:\n"
    );
}

#[test]
fn render_includes_streams_only_when_set() {
    let with_streams = base_case()
        .with_stdout(String::from("hello"))
        .with_stderr(String::from("error"))
        .render();
    let expected = "  - name: case\n    binary: gccrs\n    timeout: 15\n    exit_code: 0\n    stdout: \"hello\"\n    stderr: \"error\"\n    args:\n      - \"a.rs\"\n";
    assert_eq!(with_streams, expected);
    assert!(!base_case().render().contains("stdout"));
    assert!(!base_case().render().contains("stderr"));
}

#[test]
fn render_negative_timeout() {
    let rendered = base_case().with_timeout(-3).render();
    assert!(rendered.contains("    timeout: -3\n"));
}

#[test]
fn render_large_exit_code() {
    let rendered = base_case().with_exit_code(255).render();
    assert!(rendered.contains("    exit_code: 255\n"));
}

#[test]
fn render_all_of_skips_is_empty() {
    let cases = vec![TestCase::Skip, TestCase::Skip, TestCase::Skip];
    assert_eq!(render_all(&cases), "");
}

#[test]
fn render_all_concatenates_in_order() {
    let first = TestCase::default()
        .with_name(String::from("one"))
        .with_binary(String::from("b"));
    let second = TestCase::default()
        .with_name(String::from("two"))
        .with_binary(String::from("b"));
    let expected = format!("{}{}", first.render(), second.render());
    let cases = vec![
        TestCase::default()
            .with_name(String::from("one"))
            .with_binary(String::from("b")),
        TestCase::Skip,
        TestCase::default()
            .with_name(String::from("two"))
            .with_binary(String::from("b")),
    ];
    assert_eq!(render_all(&cases), expected);
}
