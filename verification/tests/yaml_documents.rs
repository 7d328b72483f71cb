use semver_bump::error::BumpError;
use semver_bump::format::FileType;
use semver_bump::version::VersionBump;
use semver_bump::yaml::{
    bump_version_yaml, parse_yaml, read_version_yaml, render_yaml, walk_yaml, walk_yaml_mut,
};

#[test]
fn test_yaml_version_bump() {
    let yaml_content = r#"
name: test-package
version: 1.2.3
"#;
    let mut value: serde_yaml::Value = serde_yaml::from_str(yaml_content).unwrap();
    bump_version_yaml(&mut value, "version", &VersionBump::Major).unwrap();
    assert_eq!(value["version"].as_str().unwrap(), "2.0.0");
}

#[test]
fn yaml_major_bump_is_written_back() {
    let mut value = parse_yaml("name: p\nversion: 1.2.3").unwrap();
    bump_version_yaml(&mut value, "version", &VersionBump::Major).unwrap();
    assert_eq!(render_yaml(&value), Ok("name: p\nversion: 2.0.0\n".to_string()));
}

#[test]
fn yaml_nested_selector() {
    let mut value = parse_yaml("pkg:\n  meta:\n    version: \"0.4.9\"\n  n: 1.5\n").unwrap();
    assert_eq!(read_version_yaml(&value, "pkg.meta.version"), Ok("0.4.9".to_string()));
    bump_version_yaml(&mut value, "pkg.meta.version", &VersionBump::Patch).unwrap();
    assert_eq!(read_version_yaml(&value, "pkg.meta.version"), Ok("0.4.10".to_string()));
    assert_eq!(
        render_yaml(&value),
        Ok("pkg:\n  meta:\n    version: 0.4.10\n  n: 1.5\n".to_string())
    );
}

#[test]
fn yaml_number_is_not_a_string() {
    let value = parse_yaml("version: 1.2").unwrap();
    assert_eq!(
        read_version_yaml(&value, "version"),
        Err(BumpError::NotAString("version".to_string()))
    );
}

#[test]
fn yaml_missing_key_and_not_a_table() {
    let mut value = parse_yaml("name: p\nversion: 1.2.3\nlist: [1, 2]\n").unwrap();
    assert_eq!(
        read_version_yaml(&value, "package.version"),
        Err(BumpError::MissingKey("package".to_string()))
    );
    assert_eq!(
        read_version_yaml(&value, "name.version"),
        Err(BumpError::NotATable("name".to_string()))
    );
    assert_eq!(
        bump_version_yaml(&mut value, "list.version", &VersionBump::Patch),
        Err(BumpError::NotATable("list".to_string()))
    );
}

#[test]
fn yaml_tagged_values_count_as_what_they_tag() {
    let mut value = parse_yaml("pkg: !meta\n  version: !v 1.2.3\n").unwrap();
    assert_eq!(read_version_yaml(&value, "pkg.version"), Ok("1.2.3".to_string()));
    bump_version_yaml(&mut value, "pkg.version", &VersionBump::Minor).unwrap();
    assert_eq!(read_version_yaml(&value, "pkg.version"), Ok("1.3.0".to_string()));
}

#[test]
fn walk_yaml_follows_parts() {
    let mut value = parse_yaml("a:\n  b: x\n").unwrap();
    assert_eq!(walk_yaml(&value, &["a", "b"]).unwrap().as_str(), Some("x"));
    assert_eq!(
        walk_yaml(&value, &["a", "c"]).err(),
        Some(BumpError::MissingKey("c".to_string()))
    );
    *walk_yaml_mut(&mut value, &["a", "b"]).unwrap() = serde_yaml::Value::Bool(true);
    assert_eq!(walk_yaml(&value, &["a", "b"]).unwrap().as_bool(), Some(true));
}

#[test]
fn yaml_malformed_text_is_a_parse_error() {
    match parse_yaml("a: [1") {
        Err(BumpError::Parse { format, message }) => {
            assert_eq!(format, FileType::Yaml);
            let expected = serde_yaml::from_str::<serde_yaml::Value>("a: [1").unwrap_err();
            assert_eq!(message, expected.to_string());
        }
        other => panic!("unexpected {:?}", other),
    }
}

#[test]
fn yaml_write_keeps_the_keys_in_their_order() {
    let mut value = parse_yaml("zeta: 1\nname: p\nversion: 1.2.3\nalpha: [1, 2]\n").unwrap();
    bump_version_yaml(&mut value, "version", &VersionBump::Major).unwrap();
    assert_eq!(
        render_yaml(&value),
        Ok("zeta: 1\nname: p\nversion: 2.0.0\nalpha:\n- 1\n- 2\n".to_string())
    );
}
