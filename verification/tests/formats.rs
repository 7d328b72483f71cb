use semver_bump::error::BumpError;
use semver_bump::format::{choose_format, detect_format, get_file_type, FileType};

#[test]
fn format_names() {
    assert_eq!(FileType::Json.as_str(), "json");
    assert_eq!(FileType::Yaml.as_str(), "yaml");
    assert_eq!(FileType::Toml.as_str(), "toml");
}

#[test]
fn extension_decides_without_an_override() {
    assert_eq!(get_file_type("package.json", None), Ok("json"));
    assert_eq!(get_file_type("config.yml", None), Ok("yaml"));
    assert_eq!(get_file_type("config.yaml", None), Ok("yaml"));
    assert_eq!(get_file_type("Cargo.toml", None), Ok("toml"));
    assert_eq!(get_file_type("some/dir.d/Cargo.toml", None), Ok("toml"));
    assert_eq!(get_file_type("archive.tar.yml", None), Ok("yaml"));
}

#[test]
fn override_wins() {
    assert_eq!(get_file_type("package.json", Some(FileType::Toml)), Ok("toml"));
    assert_eq!(get_file_type("noextension", Some(FileType::Yaml)), Ok("yaml"));
    assert_eq!(get_file_type("file.txt", Some(FileType::Json)), Ok("json"));
    assert_eq!(detect_format("file.txt", Some(FileType::Json)), Ok(FileType::Json));
}

#[test]
fn unknown_extension_is_refused() {
    assert_eq!(
        get_file_type("notes.txt", None),
        Err(BumpError::UnsupportedExtension(Some("txt".to_string())))
    );
    assert_eq!(
        get_file_type("Cargo.TOML", None),
        Err(BumpError::UnsupportedExtension(Some("TOML".to_string())))
    );
    assert_eq!(
        detect_format("data.jsonl", None),
        Err(BumpError::UnsupportedExtension(Some("jsonl".to_string())))
    );
}

#[test]
fn missing_extension_is_refused() {
    assert_eq!(get_file_type("Makefile", None), Err(BumpError::UnsupportedExtension(None)));
    assert_eq!(get_file_type(".hidden", None), Err(BumpError::UnsupportedExtension(None)));
    assert_eq!(get_file_type("dir.d/file", None), Err(BumpError::UnsupportedExtension(None)));
    assert_eq!(get_file_type("", None), Err(BumpError::UnsupportedExtension(None)));
}

#[test]
fn detect_gives_the_format() {
    assert_eq!(detect_format("a.json", None), Ok(FileType::Json));
    assert_eq!(detect_format("a.yml", None), Ok(FileType::Yaml));
    assert_eq!(detect_format("a.yaml", None), Ok(FileType::Yaml));
    assert_eq!(detect_format("a.toml", None), Ok(FileType::Toml));
}

#[test]
fn choice_from_extension_text() {
    assert_eq!(choose_format(Some("json"), None), Ok(FileType::Json));
    assert_eq!(choose_format(Some("yml"), None), Ok(FileType::Yaml));
    assert_eq!(choose_format(Some("yaml"), None), Ok(FileType::Yaml));
    assert_eq!(choose_format(Some("toml"), None), Ok(FileType::Toml));
    assert_eq!(choose_format(Some("toml"), Some(FileType::Json)), Ok(FileType::Json));
    assert_eq!(choose_format(None, Some(FileType::Toml)), Ok(FileType::Toml));
    assert_eq!(choose_format(None, None), Err(BumpError::UnsupportedExtension(None)));
    assert_eq!(
        choose_format(Some(""), None),
        Err(BumpError::UnsupportedExtension(Some(String::new())))
    );
    assert_eq!(
        choose_format(Some("Json"), None),
        Err(BumpError::UnsupportedExtension(Some("Json".to_string())))
    );
}

#[test]
fn extension_of_a_plain_name_is_what_follows_the_last_dot() {
    assert_eq!(get_file_type("..toml", None), Ok("toml"));
    assert_eq!(get_file_type("a.b.c.json", None), Ok("json"));
    assert_eq!(get_file_type(".config.yaml", None), Ok("yaml"));
    assert_eq!(
        get_file_type("name.", None),
        Err(BumpError::UnsupportedExtension(Some(String::new())))
    );
    assert_eq!(
        get_file_type("...", None),
        Err(BumpError::UnsupportedExtension(Some(String::new())))
    );
    assert_eq!(get_file_type("..", None), Err(BumpError::UnsupportedExtension(None)));
    assert_eq!(get_file_type(".", None), Err(BumpError::UnsupportedExtension(None)));
    assert_eq!(get_file_type(".toml", None), Err(BumpError::UnsupportedExtension(None)));
}
