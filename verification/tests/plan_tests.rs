use cargo_show::plan::{
    deps_fetch_error_message, deps_parse_error_message, fetch_error_message, parse_error_message,
    plan_deps, plan_metadata,
};

const META: &str = r#"{
    "crate": {
        "id": "foo",
        "name": "foo",
        "created_at": "c",
        "updated_at": "u",
        "downloads": 42,
        "max_version": "3.0.0",
        "keywords": ["cli", "show"]
    },
    "versions": [
        {"num": "3.0.0", "features": {"default": ["std"], "std": []}},
        {"num": "2.0.0", "features": {}},
        {"num": "1.0.0", "features": {}}
    ]
}"#;

const DEPS: &str = r#"{"dependencies": [
    {"crate_id": "quickcheck", "req": "^0.9", "kind": "dev", "optional": false},
    {"crate_id": "serde", "req": "^1.0", "kind": "normal", "optional": true},
    {"crate_id": "cc", "req": "^1.0", "kind": "build", "optional": false}
]}"#;

#[test]
fn text_mode_renders_the_expected_block() {
    let p = plan_metadata("foo", META, false, false);
    assert!(p.stderr_lines.is_empty());
    assert!(p.deps_fetch.is_none());
    assert_eq!(p.stdout_blocks.len(), 1);
    let block = &p.stdout_blocks[0];
    assert!(block.contains("latest_versions: 3.0.0, 2.0.0, 1.0.0"));
    assert!(block.contains("default_features: std"));
    assert!(block.contains("features: default std    "));
}

#[test]
fn fetch_error_line_has_the_exact_format() {
    let line = fetch_error_message("bar", "connection refused");
    assert_eq!(line, "Error fetching data for bar: connection refused");
}

#[test]
fn a_failed_package_does_not_disturb_the_next_one() {
    // "bar" fails at the transport layer: only an error line exists for it,
    // nothing for stdout, and "foo" still processes normally afterwards.
    let bar_error = fetch_error_message("bar", "timed out");
    assert_eq!(bar_error, "Error fetching data for bar: timed out");
    let p = plan_metadata("foo", META, false, false);
    assert!(p.stderr_lines.is_empty());
    assert_eq!(p.stdout_blocks.len(), 1);
    assert!(p.stdout_blocks[0].starts_with("---\nid: foo\n"));
}

#[test]
fn undecodable_metadata_reports_and_prints_nothing() {
    let p = plan_metadata("foo", "{oops", false, true);
    assert!(p.stdout_blocks.is_empty());
    assert!(p.deps_fetch.is_none());
    assert_eq!(p.stderr_lines, vec!["Error parsing JSON data for foo: invalid JSON"]);
}

#[test]
fn missing_crate_key_reports_the_field() {
    let p = plan_metadata("foo", "{}", false, false);
    assert!(p.stdout_blocks.is_empty());
    assert_eq!(p.stderr_lines, vec!["Error parsing JSON data for foo: missing field `crate`"]);
}

#[test]
fn empty_versions_reports_and_prints_nothing() {
    let text = r#"{"crate": {"id": "x", "name": "x", "created_at": "c",
        "updated_at": "u", "downloads": 1, "max_version": "0.1.0"},
        "versions": []}"#;
    let p = plan_metadata("x", text, false, false);
    assert!(p.stdout_blocks.is_empty());
    assert_eq!(p.stderr_lines, vec!["Error parsing JSON data for x: empty versions array"]);
}

#[test]
fn json_mode_prints_the_payload_verbatim() {
    let p = plan_metadata("foo", META, true, false);
    assert!(p.stderr_lines.is_empty());
    assert!(p.deps_fetch.is_none());
    assert_eq!(p.stdout_blocks, vec![META.to_string()]);
}

#[test]
fn json_mode_with_dependencies_prints_only_the_dependency_bytes() {
    let p = plan_metadata("foo", META, true, true);
    // No metadata block at all: the dependency payload is fetched first.
    assert!(p.stdout_blocks.is_empty());
    assert!(p.stderr_lines.is_empty());
    let fetch = p.deps_fetch.expect("dependencies should be fetched");
    assert_eq!(fetch.id, "foo");
    assert_eq!(fetch.max_version, "3.0.0");
    assert!(fetch.raw);
    let dp = plan_deps("foo", DEPS, fetch.raw);
    assert_eq!(dp.stdout_blocks, vec![DEPS.to_string()]);
    assert!(dp.stderr_lines.is_empty());
}

#[test]
fn text_mode_with_dependencies_prints_header_then_sorted_lines() {
    let p = plan_metadata("foo", META, false, true);
    assert_eq!(p.stdout_blocks.len(), 2);
    assert_eq!(p.stdout_blocks[1], "dependencies:");
    let fetch = p.deps_fetch.expect("dependencies should be fetched");
    assert!(!fetch.raw);
    assert_eq!(fetch.id, "foo");
    assert_eq!(fetch.max_version, "3.0.0");
    let dp = plan_deps("foo", DEPS, fetch.raw);
    assert!(dp.stderr_lines.is_empty());
    assert_eq!(
        dp.stdout_blocks,
        vec!["serde ^1.0 (opt)", "quickcheck ^0.9 (dev)", "cc ^1.0 (build)"]
    );
}

#[test]
fn undecodable_dependencies_report_and_print_nothing() {
    let dp = plan_deps("foo", "[not an object]", false);
    assert!(dp.stdout_blocks.is_empty());
    assert_eq!(
        dp.stderr_lines,
        vec!["Error parsing JSON dependencies for foo: invalid JSON"]
    );
}

#[test]
fn raw_mode_never_decodes_the_dependency_payload() {
    let dp = plan_deps("foo", "{broken", true);
    assert_eq!(dp.stdout_blocks, vec!["{broken".to_string()]);
    assert!(dp.stderr_lines.is_empty());
}

#[test]
fn error_message_builders_have_the_exact_formats() {
    assert_eq!(
        parse_error_message("foo", "invalid JSON"),
        "Error parsing JSON data for foo: invalid JSON"
    );
    assert_eq!(
        deps_fetch_error_message("foo", "timed out"),
        "Error fetching dependencies for foo: timed out"
    );
    assert_eq!(
        deps_parse_error_message("foo", "invalid JSON"),
        "Error parsing JSON dependencies for foo: invalid JSON"
    );
}
