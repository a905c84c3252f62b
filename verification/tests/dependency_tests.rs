use cargo_show::model::{CrateDependency, CrateDependencyKind};
use cargo_show::render::sort_dependencies;

fn dep(id: &str, kind: CrateDependencyKind, optional: bool) -> CrateDependency {
    CrateDependency { id: id.to_string(), req: "^1.0".to_string(), kind, optional }
}

#[test]
fn normal_non_optional_has_no_parens() {
    let d = dep("serde", CrateDependencyKind::Normal, false);
    assert_eq!(d.render(), "serde ^1.0");
}

#[test]
fn dev_optional_renders_dev_comma_opt() {
    let d = dep("serde", CrateDependencyKind::Dev, true);
    assert_eq!(d.render(), "serde ^1.0 (dev, opt)");
}

#[test]
fn build_only_renders_build() {
    let d = dep("cc", CrateDependencyKind::Build, false);
    assert_eq!(d.render(), "cc ^1.0 (build)");
}

#[test]
fn normal_optional_renders_opt() {
    let d = dep("serde", CrateDependencyKind::Normal, true);
    assert_eq!(d.render(), "serde ^1.0 (opt)");
}

#[test]
fn dev_non_optional_renders_dev() {
    let d = dep("quickcheck", CrateDependencyKind::Dev, false);
    assert_eq!(d.render(), "quickcheck ^1.0 (dev)");
}

#[test]
fn build_optional_renders_build_comma_opt() {
    let d = dep("cc", CrateDependencyKind::Build, true);
    assert_eq!(d.render(), "cc ^1.0 (build, opt)");
}

#[test]
fn kind_labels_are_lowercase() {
    assert_eq!(CrateDependencyKind::Normal.label(), "normal");
    assert_eq!(CrateDependencyKind::Dev.label(), "dev");
    assert_eq!(CrateDependencyKind::Build.label(), "build");
}

#[test]
fn kind_ranks_follow_display_order() {
    assert!(CrateDependencyKind::Normal.rank() < CrateDependencyKind::Dev.rank());
    assert!(CrateDependencyKind::Dev.rank() < CrateDependencyKind::Build.rank());
}

#[test]
fn sort_groups_kinds_and_keeps_order_within_each() {
    let deps = vec![
        dep("a", CrateDependencyKind::Dev, false),
        dep("b", CrateDependencyKind::Normal, false),
        dep("c", CrateDependencyKind::Build, false),
        dep("d", CrateDependencyKind::Normal, true),
        dep("e", CrateDependencyKind::Dev, true),
    ];
    let sorted = sort_dependencies(&deps);
    let ids: Vec<&str> = sorted.iter().map(|d| d.id.as_str()).collect();
    assert_eq!(ids, vec!["b", "d", "a", "e", "c"]);
}

#[test]
fn sort_of_single_kind_is_identity() {
    let deps = vec![
        dep("x", CrateDependencyKind::Normal, false),
        dep("y", CrateDependencyKind::Normal, true),
        dep("z", CrateDependencyKind::Normal, false),
    ];
    let sorted = sort_dependencies(&deps);
    let ids: Vec<&str> = sorted.iter().map(|d| d.id.as_str()).collect();
    assert_eq!(ids, vec!["x", "y", "z"]);
}

#[test]
fn sort_of_empty_list_is_empty() {
    let sorted = sort_dependencies(&vec![]);
    assert!(sorted.is_empty());
}
