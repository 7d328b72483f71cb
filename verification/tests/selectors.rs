use semver_bump::error::BumpError;
use semver_bump::json::{parse_json, walk_json, walk_json_mut};
use semver_bump::text::split_selector;
use semver_bump::tree::{bump_version, preview_version, read_version, resolve, resolve_mut};
use semver_bump::version::VersionBump;

const NESTED: &str = r#"{"a": {"b": {"c": "1.0.0"}, "n": 5, "s": "text"}, "top": "0.1.0"}"#;

#[test]
fn selector_splits_on_dots() {
    assert_eq!(split_selector("package.version"), vec!["package", "version"]);
    assert_eq!(split_selector("version"), vec!["version"]);
    assert_eq!(split_selector("a.b.c.d"), vec!["a", "b", "c", "d"]);
}

#[test]
fn selector_always_has_a_segment() {
    assert_eq!(split_selector(""), vec![""]);
    assert_eq!(split_selector("."), vec!["", ""]);
    assert_eq!(split_selector("a..b"), vec!["a", "", "b"]);
    assert_eq!(split_selector(".a"), vec!["", "a"]);
    assert_eq!(split_selector("a."), vec!["a", ""]);
}

#[test]
fn selector_with_wide_characters() {
    assert_eq!(split_selector("päckage.versión"), vec!["päckage", "versión"]);
}

#[test]
fn resolve_reaches_nested_leaf() {
    let doc = parse_json(NESTED).unwrap();
    let leaf = resolve(&doc, &["a", "b", "c"]).unwrap();
    assert_eq!(leaf.as_str(), Some("1.0.0"));
}

#[test]
fn resolve_does_not_judge_the_leaf() {
    let doc = parse_json(NESTED).unwrap();
    assert!(resolve(&doc, &["a", "n"]).unwrap().is_number());
    assert!(resolve(&doc, &["a", "b"]).unwrap().is_object());
}

#[test]
fn resolve_of_empty_path_is_the_root() {
    let doc = parse_json(NESTED).unwrap();
    assert_eq!(resolve(&doc, &[]).unwrap(), &doc);
}

#[test]
fn resolve_names_the_first_missing_segment() {
    let doc = parse_json(NESTED).unwrap();
    assert_eq!(
        resolve(&doc, &["x", "y", "z"]).err(),
        Some(BumpError::MissingKey("x".to_string()))
    );
    assert_eq!(
        resolve(&doc, &["a", "y", "z"]).err(),
        Some(BumpError::MissingKey("y".to_string()))
    );
    assert_eq!(
        resolve(&doc, &["a", "b", "z"]).err(),
        Some(BumpError::MissingKey("z".to_string()))
    );
}

#[test]
fn resolve_through_a_scalar_is_not_a_table() {
    let doc = parse_json(NESTED).unwrap();
    assert_eq!(
        resolve(&doc, &["a", "s", "z"]).err(),
        Some(BumpError::NotATable("s".to_string()))
    );
    assert_eq!(
        resolve(&doc, &["top", "z"]).err(),
        Some(BumpError::NotATable("top".to_string()))
    );
}

#[test]
fn resolve_on_a_root_that_is_no_table() {
    let doc = parse_json("[1, 2]").unwrap();
    assert_eq!(
        resolve(&doc, &["version"]).err(),
        Some(BumpError::MissingKey("version".to_string()))
    );
}

#[test]
fn resolve_mut_gives_the_node_to_write() {
    let mut doc = parse_json(NESTED).unwrap();
    let leaf = resolve_mut(&mut doc, &["a", "b", "c"]).unwrap();
    *leaf = serde_json::Value::String("9.9.9".to_string());
    assert_eq!(read_version(&doc, "a.b.c"), Ok("9.9.9".to_string()));
    assert_eq!(read_version(&doc, "top"), Ok("0.1.0".to_string()));
}

#[test]
fn resolve_mut_fails_as_resolve_does_and_creates_nothing() {
    let mut doc = parse_json(NESTED).unwrap();
    let before = doc.clone();
    assert_eq!(
        resolve_mut(&mut doc, &["a", "y", "z"]).err(),
        Some(BumpError::MissingKey("y".to_string()))
    );
    assert_eq!(
        resolve_mut(&mut doc, &["a", "s", "z"]).err(),
        Some(BumpError::NotATable("s".to_string()))
    );
    assert_eq!(doc, before);
}

#[test]
fn walk_json_follows_parts() {
    let mut doc = parse_json(NESTED).unwrap();
    assert_eq!(walk_json(&doc, &["top"]).unwrap().as_str(), Some("0.1.0"));
    assert_eq!(
        walk_json(&doc, &["nope"]).err(),
        Some(BumpError::MissingKey("nope".to_string()))
    );
    *walk_json_mut(&mut doc, &["top"]).unwrap() = serde_json::Value::Null;
    assert!(walk_json(&doc, &["top"]).unwrap().is_null());
}

#[test]
fn read_of_a_leaf_that_is_no_string() {
    let doc = parse_json(NESTED).unwrap();
    assert_eq!(
        read_version(&doc, "a.n"),
        Err(BumpError::NotAString("a.n".to_string()))
    );
    assert_eq!(
        read_version(&doc, "a.b"),
        Err(BumpError::NotAString("a.b".to_string()))
    );
}

#[test]
fn empty_segment_is_looked_up_like_any_key() {
    let doc = parse_json(r#"{"": {"": "1.0.0"}, "a": "2.0.0"}"#).unwrap();
    assert_eq!(read_version(&doc, "."), Ok("1.0.0".to_string()));
    assert_eq!(
        read_version(&doc, "a."),
        Err(BumpError::NotATable("a".to_string()))
    );
    assert_eq!(
        read_version(&doc, "b."),
        Err(BumpError::MissingKey("b".to_string()))
    );
}

#[test]
fn preview_computes_and_leaves_the_document() {
    let doc = parse_json(NESTED).unwrap();
    assert_eq!(
        preview_version(&doc, "a.b.c", &VersionBump::Minor),
        Ok("1.1.0".to_string())
    );
    assert_eq!(read_version(&doc, "a.b.c"), Ok("1.0.0".to_string()));
}

#[test]
fn read_after_write_gives_what_preview_gave() {
    for selector in ["a.b.c", "top"] {
        for level in [VersionBump::Major, VersionBump::Minor, VersionBump::Patch] {
            let mut doc = parse_json(NESTED).unwrap();
            let preview = preview_version(&doc, selector, &level).unwrap();
            bump_version(&mut doc, selector, &level).unwrap();
            assert_eq!(read_version(&doc, selector), Ok(preview));
        }
    }
}

#[test]
fn write_changes_one_node_only() {
    let mut doc = parse_json(NESTED).unwrap();
    bump_version(&mut doc, "a.b.c", &VersionBump::Patch).unwrap();
    let expected =
        parse_json(r#"{"a": {"b": {"c": "1.0.1"}, "n": 5, "s": "text"}, "top": "0.1.0"}"#).unwrap();
    assert_eq!(doc, expected);
}

#[test]
fn failed_write_leaves_the_document() {
    let mut doc = parse_json(NESTED).unwrap();
    let before = doc.clone();
    assert_eq!(
        bump_version(&mut doc, "a.s", &VersionBump::Patch),
        Err(BumpError::InvalidVersion("text".to_string()))
    );
    assert_eq!(
        bump_version(&mut doc, "a.n", &VersionBump::Patch),
        Err(BumpError::NotAString("a.n".to_string()))
    );
    assert_eq!(
        bump_version(&mut doc, "a.missing", &VersionBump::Patch),
        Err(BumpError::MissingKey("missing".to_string()))
    );
    assert_eq!(doc, before);
}
