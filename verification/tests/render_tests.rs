use cargo_show::model::CrateMetadata;
use cargo_show::render::{OrDisplay, OrDisplayExt};
use cargo_show::text::u64_to_dec;

fn s(x: &str) -> String {
    x.to_string()
}

fn base_record() -> CrateMetadata {
    CrateMetadata {
        created_at: s("c"),
        description: None,
        documentation: None,
        downloads: 42,
        homepage: None,
        id: s("foo"),
        keywords: vec![s("cli"), s("show")],
        license: None,
        max_version: s("3.0.0"),
        name: s("foo"),
        repository: None,
        updated_at: s("u"),
        versions: vec![],
        features: vec![(s("default"), vec![s("std")]), (s("std"), vec![])],
        versions_: vec![s("3.0.0"), s("2.0.0"), s("1.0.0")],
    }
}

#[test]
fn renders_full_block_with_features() {
    let m = base_record();
    let expected = "---\n\
        id: foo\n\
        name: foo\n\
        description: None\n\
        documentation: None\n\
        homepage: None\n\
        repository: None\n\
        max_version: 3.0.0\n\
        latest_versions: 3.0.0, 2.0.0, 1.0.0\n\
        downloads: 42\n\
        license: None\n\
        created: c\n\
        updated: u\n\
        keywords: cli, show\n\
        default_features: std\n\
        features: default std    \n\
        features_detail:\n  default = std\n      std = ";
    assert_eq!(m.render(), expected);
}

#[test]
fn missing_optional_fields_render_none() {
    let m = base_record();
    let r = m.render();
    assert!(r.contains("description: None\n"));
    assert!(r.contains("documentation: None\n"));
    assert!(r.contains("homepage: None\n"));
    assert!(r.contains("repository: None\n"));
    assert!(r.contains("license: None\n"));
}

#[test]
fn provided_optional_fields_render_their_text() {
    let mut m = base_record();
    m.description = Some(s("a tool"));
    m.license = Some(s("MIT"));
    let r = m.render();
    assert!(r.contains("description: a tool\n"));
    assert!(r.contains("license: MIT\n"));
}

#[test]
fn rendering_is_deterministic() {
    let a = base_record();
    let b = base_record();
    assert_eq!(a.render(), a.render());
    assert_eq!(a.render(), b.render());
}

#[test]
fn latest_versions_shows_at_most_five() {
    let mut m = base_record();
    m.versions_ = (0..20).map(|i| i.to_string()).collect();
    let r = m.render();
    assert!(r.contains("latest_versions: 0, 1, 2, 3, 4\n"));
    assert!(!r.contains("latest_versions: 0, 1, 2, 3, 4, 5"));
}

#[test]
fn latest_versions_with_fewer_than_five() {
    let mut m = base_record();
    m.versions_ = vec![s("1.0.0")];
    assert!(m.render().contains("latest_versions: 1.0.0\n"));
}

#[test]
fn default_features_line_shows_dashes_without_default_key() {
    let mut m = base_record();
    m.features = vec![(s("extra"), vec![s("a"), s("b")])];
    assert!(m.render().contains("default_features: --\n"));
}

#[test]
fn default_features_line_joins_sub_features_with_comma() {
    let mut m = base_record();
    m.features = vec![(s("default"), vec![s("std"), s("alloc")])];
    assert!(m.render().contains("default_features: std,alloc\n"));
}

#[test]
fn feature_names_wrap_in_chunks_of_four() {
    let mut m = base_record();
    m.features = vec![
        (s("a"), vec![]),
        (s("b"), vec![]),
        (s("c"), vec![]),
        (s("d"), vec![]),
        (s("e"), vec![]),
        (s("f"), vec![]),
        (s("g"), vec![]),
        (s("h"), vec![]),
        (s("i"), vec![]),
    ];
    let r = m.render();
    assert!(r.contains("features: a b c d\n          e f g h\n          i\n"));
}

#[test]
fn feature_names_pad_to_widest_key() {
    let m = base_record();
    // "default" is seven characters wide, so "std" pads to seven.
    assert!(m.render().contains("features: default std    \n"));
}

#[test]
fn feature_detail_right_justifies_keys() {
    let m = base_record();
    let r = m.render();
    assert!(r.ends_with("features_detail:\n  default = std\n      std = "));
}

#[test]
fn empty_feature_map_renders_empty_lines() {
    let mut m = base_record();
    m.features = vec![];
    let r = m.render();
    assert!(r.contains("features: \n"));
    assert!(r.ends_with("features_detail:\n"));
}

#[test]
fn downloads_print_as_plain_decimal() {
    let mut m = base_record();
    m.downloads = 1234567890;
    assert!(m.render().contains("downloads: 1234567890\n"));
}

#[test]
fn u64_decimal_edges() {
    assert_eq!(u64_to_dec(0), "0");
    assert_eq!(u64_to_dec(7), "7");
    assert_eq!(u64_to_dec(10), "10");
    assert_eq!(u64_to_dec(18446744073709551615), "18446744073709551615");
}

#[test]
fn or_display_shows_value_or_fallback() {
    let some: Option<String> = Some(s("here"));
    let none: Option<String> = None;
    assert_eq!(some.or_display("None").text(), "here");
    assert_eq!(none.or_display("None").text(), "None");
    assert_eq!(some.into_or_display("--").text(), "here");
    assert_eq!(none.into_or_display("--").text(), "--");
    assert_eq!(OrDisplay(None, s("fallback")).text(), "fallback");
}
