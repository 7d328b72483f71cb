//! The three operations of the tool on a document given as text: read the
//! version, preview a bump, and write a bump. Reading the file and putting
//! the result somewhere is left to the caller.

use crate::error::BumpError;
use crate::format::FileType;
use crate::json::{
    bump_version_json, json_file_text, json_nodes, json_parsed, parse_json, read_version_json,
    render_json,
};
use crate::toml::{
    bump_version_toml, parse_toml, read_version_toml, render_toml, toml_document_nodes,
    toml_parsed, toml_text,
};
use crate::tree::{preview_outcome, read_outcome, write_outcome, NodeKind};
use crate::version::{bump_semver, VersionBump};
use crate::yaml::{
    bump_version_yaml, parse_yaml, read_version_yaml, render_yaml, yaml_nodes, yaml_parsed,
    yaml_text,
};
use vstd::prelude::*;

verus! {

/// The model of the document that `text` holds in the given format, or
/// `None` where the format's parser rejects the text.
pub open spec fn parsed(format: FileType, text: Seq<char>) -> Option<
    Map<Seq<Seq<char>>, NodeKind>,
> {
    match format {
        FileType::Json => json_parsed(text),
        FileType::Yaml => yaml_parsed(text),
        FileType::Toml => toml_parsed(text),
    }
}

/// `r` is what writing out some document with the model `after` gives in
/// the given format: its text, or for JSON and YAML the serializer's
/// failure.
pub open spec fn is_rendering(
    format: FileType,
    after: Map<Seq<Seq<char>>, NodeKind>,
    r: Result<String, BumpError>,
) -> bool {
    match format {
        FileType::Json => exists|doc: serde_json::Value|
            (#[trigger] json_nodes(doc)) == after && match json_file_text(doc) {
                Some(text) => r matches Ok(s) && s@ == text,
                None => r matches Err(e) && e@ is Render && e@->Render_format == format,
            },
        FileType::Yaml => exists|doc: serde_yaml::Value|
            (#[trigger] yaml_nodes(doc)) == after && match yaml_text(doc) {
                Some(text) => r matches Ok(s) && s@ == text,
                None => r matches Err(e) && e@ is Render && e@->Render_format == format,
            },
        FileType::Toml => exists|doc: toml_edit::DocumentMut|
            (#[trigger] toml_document_nodes(doc)) == after && (r matches Ok(s) && s@ == toml_text(
                doc,
            )),
    }
}

/// Reads the version string at `selector` in the document `content`.
pub fn read_document(content: &str, selector: &str, format: FileType) -> (r: Result<
    String,
    BumpError,
>)
    ensures
        match parsed(format, content@) {
            None => r matches Err(e) && e@ is Parse && e@->Parse_format == format,
            Some(m) => match read_outcome(m, selector@) {
                Ok(text) => r matches Ok(s) && s@ == text,
                Err(e) => r matches Err(x) && x@ == e,
            },
        },
{
    match format {
        FileType::Json => match parse_json(content) {
            Err(e) => Err(e),
            Ok(value) => read_version_json(&value, selector),
        },
        FileType::Yaml => match parse_yaml(content) {
            Err(e) => Err(e),
            Ok(value) => read_version_yaml(&value, selector),
        },
        FileType::Toml => match parse_toml(content) {
            Err(e) => Err(e),
            Ok(doc) => read_version_toml(&doc, selector),
        },
    }
}

/// Computes the version that a bump would write at `selector` in the
/// document `content`.
pub fn preview_document(
    content: &str,
    selector: &str,
    level: &VersionBump,
    format: FileType,
) -> (r: Result<String, BumpError>)
    ensures
        match parsed(format, content@) {
            None => r matches Err(e) && e@ is Parse && e@->Parse_format == format,
            Some(m) => match preview_outcome(m, selector@, level@) {
                Ok(text) => r matches Ok(s) && s@ == text,
                Err(e) => r matches Err(x) && x@ == e,
            },
        },
{
    match read_document(content, selector, format) {
        Err(e) => Err(e),
        Ok(current) => bump_semver(current.as_str(), level),
    }
}

/// Bumps the version at `selector` in the document `content` and gives the
/// text of the new document. Nothing is given on failure, so that a caller
/// never stores a half-written document.
pub fn write_document(
    content: &str,
    selector: &str,
    level: &VersionBump,
    format: FileType,
) -> (r: Result<String, BumpError>)
    ensures
        match parsed(format, content@) {
            None => r matches Err(e) && e@ is Parse && e@->Parse_format == format,
            Some(m) => match write_outcome(m, selector@, level@) {
                Ok(after) => is_rendering(format, after, r),
                Err(e) => r matches Err(x) && x@ == e,
            },
        },
{
    match format {
        FileType::Json => match parse_json(content) {
            Err(e) => Err(e),
            Ok(mut value) => match bump_version_json(&mut value, selector, level) {
                Err(e) => Err(e),
                Ok(()) => {
                    let r = render_json(&value);
                    assert(is_rendering(format, json_nodes(value), r));
                    r
                },
            },
        },
        FileType::Yaml => match parse_yaml(content) {
            Err(e) => Err(e),
            Ok(mut value) => match bump_version_yaml(&mut value, selector, level) {
                Err(e) => Err(e),
                Ok(()) => {
                    let r = render_yaml(&value);
                    assert(is_rendering(format, yaml_nodes(value), r));
                    r
                },
            },
        },
        FileType::Toml => match parse_toml(content) {
            Err(e) => Err(e),
            Ok(mut doc) => match bump_version_toml(&mut doc, selector, level) {
                Err(e) => Err(e),
                Ok(()) => {
                    let r = Ok(render_toml(&doc));
                    assert(is_rendering(format, toml_document_nodes(doc), r));
                    r
                },
            },
        },
    }
}

} // verus!
