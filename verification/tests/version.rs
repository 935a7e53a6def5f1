use cartesi_machine_json_rpc::client::SemanticVersion;
use cartesi_machine_json_rpc::interfaces;

#[test]
fn version_without_texts_has_empty_texts() {
    let wire = interfaces::SemanticVersion {
        build: None,
        major: 0,
        minor: 1,
        patch: 0,
        pre_release: None,
    };
    assert_eq!(
        SemanticVersion::from_wire(&wire),
        SemanticVersion {
            major: 0,
            minor: 1,
            patch: 0,
            pre_release: "".to_string(),
            build: "".to_string()
        }
    );
}

#[test]
fn version_keeps_every_field() {
    let wire = interfaces::SemanticVersion {
        build: Some("20230801".to_string()),
        major: 4,
        minor: 5,
        patch: 6,
        pre_release: Some("rc1".to_string()),
    };
    let version = SemanticVersion::from_wire(&wire);
    assert_eq!(version.major, 4);
    assert_eq!(version.minor, 5);
    assert_eq!(version.patch, 6);
    assert_eq!(version.pre_release, "rc1");
    assert_eq!(version.build, "20230801");
}

#[test]
fn versions_differ_where_any_field_differs() {
    let base = SemanticVersion {
        major: 1,
        minor: 2,
        patch: 3,
        pre_release: "alpha".to_string(),
        build: "b7".to_string(),
    };
    assert_eq!(base, base.clone());
    assert_ne!(base, SemanticVersion { major: 2, ..base.clone() });
    assert_ne!(base, SemanticVersion { minor: 0, ..base.clone() });
    assert_ne!(base, SemanticVersion { patch: 4, ..base.clone() });
    assert_ne!(base, SemanticVersion { pre_release: "beta".to_string(), ..base.clone() });
    assert_ne!(base, SemanticVersion { build: "".to_string(), ..base.clone() });
}

#[test]
fn default_version_is_zero() {
    let version = SemanticVersion::default();
    assert_eq!(
        version,
        SemanticVersion {
            major: 0,
            minor: 0,
            patch: 0,
            pre_release: String::new(),
            build: String::new()
        }
    );
    assert_eq!(interfaces::SemanticVersion::default().pre_release, None);
}
