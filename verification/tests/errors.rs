use semver_bump::error::BumpError;
use semver_bump::format::FileType;

#[test]
fn messages_name_the_cause() {
    assert_eq!(
        BumpError::Parse { format: FileType::Toml, message: "bad".to_string() }.message(),
        "Failed to parse toml: bad"
    );
    assert_eq!(
        BumpError::Render { format: FileType::Yaml, message: "bad".to_string() }.message(),
        "Failed to write yaml: bad"
    );
    assert_eq!(BumpError::MissingKey("package".to_string()).message(), "Missing key: package");
    assert_eq!(
        BumpError::NotATable("name".to_string()).message(),
        "No table found at selector name"
    );
    assert_eq!(
        BumpError::NotAString("a.b".to_string()).message(),
        "Version field is not a string at a.b"
    );
    assert_eq!(
        BumpError::InvalidVersion("1.2".to_string()).message(),
        "Invalid semantic version: 1.2"
    );
    assert_eq!(
        BumpError::VersionNotIncreasing {
            target: "1.0.0".to_string(),
            current: "2.5.0".to_string()
        }
        .message(),
        "New version 1.0.0 must be greater than current version 2.5.0"
    );
    assert_eq!(
        BumpError::VersionOverflow("1.2.3".to_string()).message(),
        "Version 1.2.3 cannot be bumped past the largest supported number"
    );
    assert_eq!(
        BumpError::UnsupportedExtension(Some("txt".to_string())).message(),
        "Unsupported file extension: txt"
    );
    assert_eq!(BumpError::UnsupportedExtension(None).message(), "File has no extension");
}
