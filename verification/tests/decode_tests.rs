use cargo_show::model::{
    CrateDependencyKind, CrateDependencyResponse, CrateMetaResponse, DecodeError, FieldName,
};

const META: &str = r#"{
    "crate": {
        "id": "foo",
        "name": "foo",
        "created_at": "2020-01-01",
        "updated_at": "2021-01-01",
        "downloads": 42,
        "max_version": "3.0.0",
        "description": "a tool",
        "keywords": ["cli", "show"],
        "versions": [10, 9, 8]
    },
    "versions": [
        {"num": "3.0.0", "features": {"default": ["std"], "std": []}},
        {"num": "2.0.0", "features": {}},
        {"num": "1.0.0", "features": {}}
    ]
}"#;

#[test]
fn decodes_a_full_metadata_response() {
    let resp = CrateMetaResponse::decode(META).unwrap();
    assert_eq!(resp.crate_data.id, "foo");
    assert_eq!(resp.crate_data.name, "foo");
    assert_eq!(resp.crate_data.downloads, 42);
    assert_eq!(resp.crate_data.max_version, "3.0.0");
    assert_eq!(resp.crate_data.description.as_deref(), Some("a tool"));
    assert_eq!(resp.crate_data.documentation, None);
    assert_eq!(resp.crate_data.keywords, vec!["cli", "show"]);
    assert_eq!(resp.crate_data.versions, vec![10, 9, 8]);
    assert!(resp.crate_data.features.is_empty());
    assert!(resp.crate_data.versions_.is_empty());
    assert_eq!(resp.versions.len(), 3);
    assert_eq!(resp.versions[0].version, "3.0.0");
    assert_eq!(resp.versions[0].features.len(), 2);
    assert_eq!(resp.versions[0].features[0].0, "default");
    assert_eq!(resp.versions[0].features[0].1, vec!["std"]);
}

#[test]
fn derivation_fills_features_and_version_strings() {
    let resp = CrateMetaResponse::decode(META).unwrap();
    let m = resp.into_metadata().unwrap();
    assert_eq!(m.versions_, vec!["3.0.0", "2.0.0", "1.0.0"]);
    assert_eq!(m.features.len(), 2);
    assert_eq!(m.features[0].0, "default");
    assert_eq!(m.features[0].1, vec!["std"]);
    assert_eq!(m.features[1].0, "std");
    assert!(m.features[1].1.is_empty());
}

#[test]
fn empty_versions_is_a_reported_error() {
    let text = r#"{"crate": {"id": "x", "name": "x", "created_at": "c",
        "updated_at": "u", "downloads": 1, "max_version": "0.1.0"},
        "versions": []}"#;
    let resp = CrateMetaResponse::decode(text).unwrap();
    assert_eq!(resp.into_metadata().unwrap_err(), DecodeError::EmptyVersions);
}

#[test]
fn malformed_json_is_invalid_json() {
    assert_eq!(CrateMetaResponse::decode("{not json").unwrap_err(), DecodeError::InvalidJson);
    assert_eq!(CrateDependencyResponse::decode("").unwrap_err(), DecodeError::InvalidJson);
}

#[test]
fn missing_required_field_is_reported_by_name() {
    let text = r#"{"crate": {"name": "x", "created_at": "c", "updated_at": "u",
        "downloads": 1, "max_version": "0.1.0"}, "versions": []}"#;
    assert_eq!(
        CrateMetaResponse::decode(text).unwrap_err(),
        DecodeError::MissingField(FieldName::Id)
    );
    assert_eq!(
        CrateMetaResponse::decode("{}").unwrap_err(),
        DecodeError::MissingField(FieldName::Crate)
    );
}

#[test]
fn wrong_type_for_downloads_is_reported() {
    let text = r#"{"crate": {"id": "x", "name": "x", "created_at": "c",
        "updated_at": "u", "downloads": "many", "max_version": "0.1.0"},
        "versions": []}"#;
    assert_eq!(
        CrateMetaResponse::decode(text).unwrap_err(),
        DecodeError::WrongType(FieldName::Downloads)
    );
}

#[test]
fn negative_downloads_do_not_fit() {
    let text = r#"{"crate": {"id": "x", "name": "x", "created_at": "c",
        "updated_at": "u", "downloads": -1, "max_version": "0.1.0"},
        "versions": []}"#;
    assert_eq!(
        CrateMetaResponse::decode(text).unwrap_err(),
        DecodeError::WrongType(FieldName::Downloads)
    );
}

#[test]
fn null_optional_field_means_not_provided() {
    let text = r#"{"crate": {"id": "x", "name": "x", "created_at": "c",
        "updated_at": "u", "downloads": 1, "max_version": "0.1.0",
        "description": null}, "versions": [{"num": "0.1.0", "features": {}}]}"#;
    let resp = CrateMetaResponse::decode(text).unwrap();
    assert_eq!(resp.crate_data.description, None);
}

#[test]
fn wrong_type_for_optional_field_is_reported() {
    let text = r#"{"crate": {"id": "x", "name": "x", "created_at": "c",
        "updated_at": "u", "downloads": 1, "max_version": "0.1.0",
        "license": 5}, "versions": []}"#;
    assert_eq!(
        CrateMetaResponse::decode(text).unwrap_err(),
        DecodeError::WrongType(FieldName::License)
    );
}

#[test]
fn version_entry_requires_its_feature_map() {
    let text = r#"{"crate": {"id": "x", "name": "x", "created_at": "c",
        "updated_at": "u", "downloads": 1, "max_version": "0.1.0"},
        "versions": [{"num": "0.1.0"}]}"#;
    assert_eq!(
        CrateMetaResponse::decode(text).unwrap_err(),
        DecodeError::MissingField(FieldName::Features)
    );
}

#[test]
fn feature_values_must_be_string_arrays() {
    let text = r#"{"crate": {"id": "x", "name": "x", "created_at": "c",
        "updated_at": "u", "downloads": 1, "max_version": "0.1.0"},
        "versions": [{"num": "0.1.0", "features": {"default": [1]}}]}"#;
    assert_eq!(
        CrateMetaResponse::decode(text).unwrap_err(),
        DecodeError::WrongType(FieldName::Features)
    );
}

#[test]
fn decodes_a_dependency_response() {
    let text = r#"{"dependencies": [
        {"crate_id": "serde", "req": "^1.0", "kind": "normal", "optional": false},
        {"crate_id": "cc", "req": "^1.0", "kind": "build", "optional": true},
        {"crate_id": "quickcheck", "req": "^0.9", "kind": "dev", "optional": false}
    ]}"#;
    let resp = CrateDependencyResponse::decode(text).unwrap();
    assert_eq!(resp.dependencies.len(), 3);
    assert_eq!(resp.dependencies[0].id, "serde");
    assert_eq!(resp.dependencies[0].kind, CrateDependencyKind::Normal);
    assert!(!resp.dependencies[0].optional);
    assert_eq!(resp.dependencies[1].kind, CrateDependencyKind::Build);
    assert!(resp.dependencies[1].optional);
    assert_eq!(resp.dependencies[2].kind, CrateDependencyKind::Dev);
}

#[test]
fn unknown_dependency_kind_fails_decoding() {
    let text = r#"{"dependencies": [
        {"crate_id": "serde", "req": "^1.0", "kind": "weird", "optional": false}
    ]}"#;
    assert_eq!(CrateDependencyResponse::decode(text).unwrap_err(), DecodeError::UnknownKind);
}

#[test]
fn dependency_requires_optional_flag() {
    let text = r#"{"dependencies": [
        {"crate_id": "serde", "req": "^1.0", "kind": "normal"}
    ]}"#;
    assert_eq!(
        CrateDependencyResponse::decode(text).unwrap_err(),
        DecodeError::MissingField(FieldName::Optional)
    );
}

#[test]
fn dependency_document_needs_its_list() {
    assert_eq!(
        CrateDependencyResponse::decode("{}").unwrap_err(),
        DecodeError::MissingField(FieldName::Dependencies)
    );
}

#[test]
fn error_messages_name_their_cause() {
    assert_eq!(DecodeError::InvalidJson.message(), "invalid JSON");
    assert_eq!(DecodeError::MissingField(FieldName::Id).message(), "missing field `id`");
    assert_eq!(
        DecodeError::WrongType(FieldName::Downloads).message(),
        "wrong type for field `downloads`"
    );
    assert_eq!(DecodeError::UnknownKind.message(), "unknown dependency kind");
    assert_eq!(DecodeError::EmptyVersions.message(), "empty versions array");
}
