//! Choice of the document format.
//!
//! An explicit choice wins. Without one the file name's extension decides,
//! and a name with an unknown extension, or with none, is refused: no format
//! is guessed.

use crate::error::{BumpError, ErrorView};
use vstd::prelude::*;
use vstd::string::*;

verus! {

/// The three document formats.
#[derive(Clone, Copy, Debug, PartialEq, Eq, Structural)]
pub enum FileType {
    Json,
    Yaml,
    Toml,
}

impl FileType {
    /// The canonical lower-case name of the format.
    pub open spec fn name(self) -> Seq<char> {
        match self {
            FileType::Json => "json"@,
            FileType::Yaml => "yaml"@,
            FileType::Toml => "toml"@,
        }
    }

    /// The canonical lower-case name of the format.
    pub fn as_str(&self) -> (r: &'static str)
        ensures
            r@ == self.name(),
    {
        match self {
            FileType::Json => "json",
            FileType::Yaml => "yaml",
            FileType::Toml => "toml",
        }
    }
}

/// The format that an extension stands for: `json`, `yml` or `yaml`, `toml`,
/// in exactly this spelling.
pub open spec fn format_of_extension(extension: Seq<char>) -> Option<FileType> {
    if extension == "json"@ {
        Some(FileType::Json)
    } else if extension == "yml"@ || extension == "yaml"@ {
        Some(FileType::Yaml)
    } else if extension == "toml"@ {
        Some(FileType::Toml)
    } else {
        None
    }
}

/// The format to use for a file whose name has the given extension, if any,
/// under the given explicit choice, if any.
pub open spec fn chosen_format(
    extension: Option<Seq<char>>,
    override_type: Option<FileType>,
) -> Result<FileType, ErrorView> {
    match override_type {
        Some(format) => Ok(format),
        None => match extension {
            None => Err(ErrorView::UnsupportedExtension(None)),
            Some(e) => match format_of_extension(e) {
                Some(format) => Ok(format),
                None => Err(ErrorView::UnsupportedExtension(Some(e))),
            },
        },
    }
}

/// The index of the last `.` in `s`, or `-1` when `s` holds none.
pub open spec fn last_dot(s: Seq<char>) -> int
    decreases s.len(),
{
    if s.len() == 0 {
        -1
    } else if s.last() == '.' {
        s.len() - 1
    } else {
        last_dot(s.drop_last())
    }
}

/// The text names a file and nothing more: it holds none of the characters
/// that separate the parts of a path on some platform.
pub open spec fn is_plain_name(s: Seq<char>) -> bool {
    !s.contains('/') && !s.contains('\\') && !s.contains(':')
}

/// The extension of a plain file name: what follows its last dot. There is
/// none where the name has no dot, where its only dot is its first character,
/// and for the name `..`.
pub open spec fn extension_of_name(s: Seq<char>) -> Option<Seq<char>> {
    if last_dot(s) <= 0 || s == seq!['.', '.'] {
        None
    } else {
        Some(s.skip(last_dot(s) + 1))
    }
}

/// The views of an optional string slice.
pub open spec fn option_view(text: Option<&str>) -> Option<Seq<char>> {
    match text {
        Some(t) => Some(t@),
        None => None,
    }
}

fn same_text(a: &str, b: &str) -> (r: bool)
    ensures
        r == (a@ == b@),
{
    a.to_owned() == b.to_owned()
}

/// Chooses the format from the extension of the file name and the explicit
/// choice.
pub fn choose_format(extension: Option<&str>, override_type: Option<FileType>) -> (r: Result<
    FileType,
    BumpError,
>)
    ensures
        match chosen_format(option_view(extension), override_type) {
            Ok(format) => r == Ok::<FileType, BumpError>(format),
            Err(e) => r matches Err(x) && x@ == e,
        },
{
    match override_type {
        Some(format) => Ok(format),
        None => match extension {
            None => Err(BumpError::UnsupportedExtension(None)),
            Some(e) => {
                if same_text(e, "json") {
                    Ok(FileType::Json)
                } else if same_text(e, "yml") || same_text(e, "yaml") {
                    Ok(FileType::Yaml)
                } else if same_text(e, "toml") {
                    Ok(FileType::Toml)
                } else {
                    Err(BumpError::UnsupportedExtension(Some(e.to_owned())))
                }
            },
        },
    }
}

/// Chooses the format for the file at `path`: the explicit choice where
/// there is one, else what the extension of the file name stands for. For a
/// plain file name the extension is what follows the last dot; for a longer
/// path it is what the platform's path rules find.
pub fn detect_format(path: &str, override_type: Option<FileType>) -> (r: Result<
    FileType,
    BumpError,
>)
    ensures
        override_type matches Some(format) ==> r == Ok::<FileType, BumpError>(format),
        override_type is None && is_plain_name(path@) ==> match chosen_format(
            extension_of_name(path@),
            None,
        ) {
            Ok(format) => r == Ok::<FileType, BumpError>(format),
            Err(e) => r matches Err(x) && x@ == e,
        },
        override_type is None ==> exists|extension: Option<Seq<char>>|
            match #[trigger] chosen_format(extension, None) {
                Ok(format) => r == Ok::<FileType, BumpError>(format),
                Err(e) => r matches Err(x) && x@ == e,
            },
{
    match override_type {
        Some(format) => Ok(format),
        None => {
            let extension = path_extension(path);
            let r = choose_format(extension, None);
            proof {
                let ghost e = option_view(extension);
                assert(match chosen_format(e, None) {
                    Ok(format) => r == Ok::<FileType, BumpError>(format),
                    Err(e) => r matches Err(x) && x@ == e,
                });
            }
            r
        },
    }
}

/// The name of the format for the file at `path`, chosen as by
/// [`detect_format`].
pub fn get_file_type(path: &str, override_type: Option<FileType>) -> (r: Result<
    &'static str,
    BumpError,
>)
    ensures
        override_type matches Some(format) ==> (r matches Ok(name) && name@ == format.name()),
        override_type is None && is_plain_name(path@) ==> match chosen_format(
            extension_of_name(path@),
            None,
        ) {
            Ok(format) => r matches Ok(name) && name@ == format.name(),
            Err(e) => r matches Err(x) && x@ == e,
        },
        override_type is None ==> exists|extension: Option<Seq<char>>|
            match #[trigger] chosen_format(extension, None) {
                Ok(format) => r matches Ok(name) && name@ == format.name(),
                Err(e) => r matches Err(x) && x@ == e,
            },
{
    match detect_format(path, override_type) {
        Ok(format) => Ok(format.as_str()),
        Err(e) => Err(e),
    }
}

/// `std::path::Path::extension` of the path that `Path::new` makes of the
/// text, as text again (`OsStr::to_str`). The extension is what follows the
/// last dot of the file name, so it holds no dot itself. A text without a
/// separator is its own file name, unless it is `..`; what counts as the
/// file name of a longer path depends on the platform's separators.
#[verifier::external_body]
fn path_extension<'a>(path: &'a str) -> (r: Option<&'a str>)
    ensures
        r matches Some(e) ==> !e@.contains('.'),
        is_plain_name(path@) ==> option_view(r) == extension_of_name(path@),
{
    std::path::Path::new(path).extension().and_then(|e| e.to_str())
}

} // verus!
