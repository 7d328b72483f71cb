use semver_bump::command::{preview_document, read_document, write_document};
use semver_bump::error::BumpError;
use semver_bump::format::FileType;
use semver_bump::version::{Version, VersionBump};

const JSON: &str = r#"{"name":"p","version":"1.2.3"}"#;
const TOML: &str = "[package]\nname = \"p\"\nversion = \"1.2.3\"";
const YAML: &str = "name: p\nversion: 1.2.3";

#[test]
fn read_prints_the_string_as_it_stands() {
    assert_eq!(read_document(JSON, "version", FileType::Json), Ok("1.2.3".to_string()));
    assert_eq!(read_document(TOML, "package.version", FileType::Toml), Ok("1.2.3".to_string()));
    assert_eq!(read_document(YAML, "version", FileType::Yaml), Ok("1.2.3".to_string()));
    assert_eq!(read_document(JSON, "name", FileType::Json), Ok("p".to_string()));
}

#[test]
fn json_patch_bump_rewrites_the_text() {
    assert_eq!(
        write_document(JSON, "version", &VersionBump::Patch, FileType::Json),
        Ok("{\n  \"name\": \"p\",\n  \"version\": \"1.2.4\"\n}\n".to_string())
    );
}

#[test]
fn toml_minor_bump_rewrites_one_line() {
    assert_eq!(
        write_document(TOML, "package.version", &VersionBump::Minor, FileType::Toml),
        Ok("[package]\nname = \"p\"\nversion = \"1.3.0\"\n".to_string())
    );
}

#[test]
fn yaml_major_bump_rewrites_the_text() {
    assert_eq!(
        write_document(YAML, "version", &VersionBump::Major, FileType::Yaml),
        Ok("name: p\nversion: 2.0.0\n".to_string())
    );
}

#[test]
fn explicit_target_up_then_down() {
    let up = VersionBump::Specific(Version::new(2, 5, 0));
    let written = write_document(JSON, "version", &up, FileType::Json).unwrap();
    assert_eq!(read_document(&written, "version", FileType::Json), Ok("2.5.0".to_string()));
    let down = VersionBump::Specific(Version::new(1, 0, 0));
    assert_eq!(
        write_document(&written, "version", &down, FileType::Json),
        Err(BumpError::VersionNotIncreasing {
            target: "1.0.0".to_string(),
            current: "2.5.0".to_string()
        })
    );
}

#[test]
fn missing_table_is_named() {
    for (content, format) in [(JSON, FileType::Json), (YAML, FileType::Yaml), ("name = \"p\"\n", FileType::Toml)] {
        assert_eq!(
            read_document(content, "package.version", format),
            Err(BumpError::MissingKey("package".to_string()))
        );
        assert_eq!(
            write_document(content, "package.version", &VersionBump::Patch, format),
            Err(BumpError::MissingKey("package".to_string()))
        );
    }
}

#[test]
fn number_leaf_is_not_a_string() {
    assert_eq!(
        read_document(r#"{"version": 123}"#, "version", FileType::Json),
        Err(BumpError::NotAString("version".to_string()))
    );
}

#[test]
fn preview_gives_the_new_version_only() {
    assert_eq!(
        preview_document(JSON, "version", &VersionBump::Minor, FileType::Json),
        Ok("1.3.0".to_string())
    );
    assert_eq!(
        preview_document(TOML, "package.version", &VersionBump::Major, FileType::Toml),
        Ok("2.0.0".to_string())
    );
    assert_eq!(
        preview_document(YAML, "version", &VersionBump::Specific(Version::new(1, 2, 4)), FileType::Yaml),
        Ok("1.2.4".to_string())
    );
    assert_eq!(
        preview_document(YAML, "name", &VersionBump::Patch, FileType::Yaml),
        Err(BumpError::InvalidVersion("p".to_string()))
    );
}

#[test]
fn written_text_reads_back_as_the_preview() {
    let cases = [(JSON, "version", FileType::Json), (TOML, "package.version", FileType::Toml), (YAML, "version", FileType::Yaml)];
    for (content, selector, format) in cases {
        for level in [VersionBump::Major, VersionBump::Minor, VersionBump::Patch] {
            let preview = preview_document(content, selector, &level, format).unwrap();
            let written = write_document(content, selector, &level, format).unwrap();
            assert_eq!(read_document(&written, selector, format), Ok(preview));
        }
    }
}

#[test]
fn malformed_document_is_a_parse_error_in_its_format() {
    for (content, format) in [("{oops", FileType::Json), ("a: [1", FileType::Yaml), ("a = ", FileType::Toml)] {
        for result in [
            read_document(content, "a", format),
            preview_document(content, "a", &VersionBump::Patch, format),
            write_document(content, "a", &VersionBump::Patch, format),
        ] {
            match result {
                Err(BumpError::Parse { format: f, message }) => {
                    assert_eq!(f, format);
                    assert!(!message.is_empty());
                }
                other => panic!("unexpected {:?}", other),
            }
        }
    }
}

#[test]
fn the_format_decides_how_the_text_is_read() {
    assert_eq!(read_document(JSON, "version", FileType::Yaml), Ok("1.2.3".to_string()));
    assert!(matches!(
        read_document(TOML, "package.version", FileType::Json),
        Err(BumpError::Parse { format: FileType::Json, .. })
    ));
}
