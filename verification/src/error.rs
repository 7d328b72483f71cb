//! The failures of the library.

use crate::format::FileType;
use vstd::prelude::*;
use vstd::string::*;

verus! {

/// Why an operation failed.
#[derive(Debug, Clone, PartialEq, Eq)]
pub enum BumpError {
    /// The document is malformed for its format; `message` is the parser's
    /// own account.
    Parse { format: FileType, message: String },
    /// The document could not be written back as text; `message` is the
    /// serializer's own account.
    Render { format: FileType, message: String },
    /// The named selector segment is absent from the node it is looked up in.
    MissingKey(String),
    /// The named selector segment exists, more segments follow, and its value
    /// is no table.
    NotATable(String),
    /// The node that the named selector leads to is no string.
    NotAString(String),
    /// The text is no semantic version.
    InvalidVersion(String),
    /// The explicit target does not exceed the current version.
    VersionNotIncreasing { target: String, current: String },
    /// The component to increment of the named version is already `u64::MAX`.
    VersionOverflow(String),
    /// The file name has an extension that names no format, or none at all.
    UnsupportedExtension(Option<String>),
}

/// The mathematical content of a [`BumpError`].
pub enum ErrorView {
    Parse { format: FileType, message: Seq<char> },
    Render { format: FileType, message: Seq<char> },
    MissingKey(Seq<char>),
    NotATable(Seq<char>),
    NotAString(Seq<char>),
    InvalidVersion(Seq<char>),
    VersionNotIncreasing { target: Seq<char>, current: Seq<char> },
    VersionOverflow(Seq<char>),
    UnsupportedExtension(Option<Seq<char>>),
}

impl View for BumpError {
    type V = ErrorView;

    open spec fn view(&self) -> ErrorView {
        match self {
            BumpError::Parse { format, message } => ErrorView::Parse {
                format: *format,
                message: message@,
            },
            BumpError::Render { format, message } => ErrorView::Render {
                format: *format,
                message: message@,
            },
            BumpError::MissingKey(segment) => ErrorView::MissingKey(segment@),
            BumpError::NotATable(segment) => ErrorView::NotATable(segment@),
            BumpError::NotAString(selector) => ErrorView::NotAString(selector@),
            BumpError::InvalidVersion(text) => ErrorView::InvalidVersion(text@),
            BumpError::VersionNotIncreasing { target, current } => ErrorView::VersionNotIncreasing {
                target: target@,
                current: current@,
            },
            BumpError::VersionOverflow(text) => ErrorView::VersionOverflow(text@),
            BumpError::UnsupportedExtension(extension) => ErrorView::UnsupportedExtension(
                match extension {
                    Some(e) => Some(e@),
                    None => None,
                },
            ),
        }
    }
}

impl ErrorView {
    /// The one-line diagnostic for the failure.
    pub open spec fn message(self) -> Seq<char> {
        match self {
            ErrorView::Parse { format, message } => "Failed to parse "@ + format.name() + ": "@
                + message,
            ErrorView::Render { format, message } => "Failed to write "@ + format.name() + ": "@
                + message,
            ErrorView::MissingKey(segment) => "Missing key: "@ + segment,
            ErrorView::NotATable(segment) => "No table found at selector "@ + segment,
            ErrorView::NotAString(selector) => "Version field is not a string at "@ + selector,
            ErrorView::InvalidVersion(text) => "Invalid semantic version: "@ + text,
            ErrorView::VersionNotIncreasing { target, current } => "New version "@ + target
                + " must be greater than current version "@ + current,
            ErrorView::VersionOverflow(text) => "Version "@ + text
                + " cannot be bumped past the largest supported number"@,
            ErrorView::UnsupportedExtension(Some(extension)) => "Unsupported file extension: "@
                + extension,
            ErrorView::UnsupportedExtension(None) => "File has no extension"@,
        }
    }
}

fn join2(a: &str, b: &str) -> (r: String)
    ensures
        r@ == a@ + b@,
{
    let mut r = String::from_str(a);
    r.append(b);
    r
}

impl BumpError {
    /// The one-line diagnostic for the failure.
    pub fn message(&self) -> (r: String)
        ensures
            r@ == self@.message(),
    {
        match self {
            BumpError::Parse { format, message } => {
                let mut r = join2("Failed to parse ", format.as_str());
                r.append(": ");
                r.append(message.as_str());
                r
            },
            BumpError::Render { format, message } => {
                let mut r = join2("Failed to write ", format.as_str());
                r.append(": ");
                r.append(message.as_str());
                r
            },
            BumpError::MissingKey(segment) => join2("Missing key: ", segment.as_str()),
            BumpError::NotATable(segment) => join2("No table found at selector ", segment.as_str()),
            BumpError::NotAString(selector) => join2(
                "Version field is not a string at ",
                selector.as_str(),
            ),
            BumpError::InvalidVersion(text) => join2("Invalid semantic version: ", text.as_str()),
            BumpError::VersionNotIncreasing { target, current } => {
                let mut r = join2("New version ", target.as_str());
                r.append(" must be greater than current version ");
                r.append(current.as_str());
                r
            },
            BumpError::VersionOverflow(text) => {
                let mut r = join2("Version ", text.as_str());
                r.append(" cannot be bumped past the largest supported number");
                r
            },
            BumpError::UnsupportedExtension(Some(extension)) => join2(
                "Unsupported file extension: ",
                extension.as_str(),
            ),
            BumpError::UnsupportedExtension(None) => String::from_str("File has no extension"),
        }
    }
}

} // verus!
