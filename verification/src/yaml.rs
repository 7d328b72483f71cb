//! YAML documents, held as `serde_yaml::Value`.

use crate::error::BumpError;
use crate::format::FileType;
use crate::text::views;
use crate::tree::{
    bump_version, graft, leaf, no_layout, read_outcome, read_version, resolve, resolve_mut,
    resolved, root_kind, subtree, write_outcome, Node, NodeKind,
};
use crate::version::VersionBump;
use vstd::prelude::*;

verus! {

#[verifier::external_type_specification]
#[verifier::external_body]
pub struct ExYamlValue(serde_yaml::Value);

#[verifier::external_type_specification]
#[verifier::external_body]
pub struct ExYamlError(serde_yaml::Error);

/// The model of a YAML value: what the value itself is under the empty path
/// and, where it is a mapping, under each string key followed by a path of
/// the entry's model, what that path leads to there. A mapping is a table
/// with its string keys in the order in which it holds them; a string is
/// text, without layout; every other value is `Other` with the text that
/// `serde_yaml::to_string` writes for it, empty where that fails. A tagged
/// value counts as the value that it tags.
pub uninterp spec fn yaml_nodes(v: serde_yaml::Value) -> Map<Seq<Seq<char>>, NodeKind>;

/// What `serde_yaml::from_str` reads from `text`: the model of the value, or
/// `None` where the text is rejected.
pub uninterp spec fn yaml_parsed(text: Seq<char>) -> Option<Map<Seq<Seq<char>>, NodeKind>>;

/// What `serde_yaml::to_string` writes for `v`, or `None` where it fails.
pub uninterp spec fn yaml_text(v: serde_yaml::Value) -> Option<Seq<char>>;

impl Node for serde_yaml::Value {
    open spec fn nodes(&self) -> Map<Seq<Seq<char>>, NodeKind> {
        yaml_nodes(*self)
    }

    fn is_table(&self) -> (r: bool) {
        yaml_is_mapping(self)
    }

    fn child(&self, key: &str) -> (r: Option<&Self>) {
        yaml_get(self, key)
    }

    fn child_mut(&mut self, key: &str) -> (r: Option<&mut Self>) {
        yaml_get_mut(self, key)
    }

    fn as_text(&self) -> (r: Option<&str>) {
        yaml_as_str(self)
    }

    fn set_text(&mut self, text: String) {
        let _ = yaml_as_str(self);
        yaml_set_string(self, text)
    }
}

/// Follows `parts` from `value` to the node they lead to.
pub fn walk_yaml<'a>(value: &'a serde_yaml::Value, parts: &[&str]) -> (r: Result<
    &'a serde_yaml::Value,
    BumpError,
>)
    ensures
        match resolved(yaml_nodes(*value), views(parts@)) {
            Ok(m) => r matches Ok(node) && yaml_nodes(*node) == m,
            Err(e) => r matches Err(x) && x@ == e,
        },
{
    resolve(value, parts)
}

/// Follows `parts` from `value` to the node they lead to, for writing. On
/// failure, and where nothing is written through the result, the value is
/// exactly as it was.
pub fn walk_yaml_mut<'a>(value: &'a mut serde_yaml::Value, parts: &[&str]) -> (r: Result<
    &'a mut serde_yaml::Value,
    BumpError,
>)
    ensures
        match resolved(yaml_nodes(*old(value)), views(parts@)) {
            Ok(m) => r matches Ok(node) && yaml_nodes(*node) == m && yaml_nodes(*final(value))
                == graft(yaml_nodes(*old(value)), views(parts@), yaml_nodes(*final(node))) && (
            *final(node) == *node ==> *final(value) == *old(value)),
            Err(e) => r matches Err(x) && x@ == e && *final(value) == *old(value),
        },
{
    resolve_mut(value, parts)
}

/// Reads the version string at `selector`.
pub fn read_version_yaml(value: &serde_yaml::Value, selector: &str) -> (r: Result<
    String,
    BumpError,
>)
    ensures
        match read_outcome(yaml_nodes(*value), selector@) {
            Ok(text) => r matches Ok(s) && s@ == text,
            Err(e) => r matches Err(x) && x@ == e,
        },
{
    read_version(value, selector)
}

/// Bumps the version string at `selector` in place. On success the value
/// differs in that one string alone: every table keeps its keys and their
/// order, every other node is what it was. On failure the value is exactly
/// as it was.
pub fn bump_version_yaml(
    value: &mut serde_yaml::Value,
    selector: &str,
    bump: &VersionBump,
) -> (r: Result<(), BumpError>)
    ensures
        match write_outcome(yaml_nodes(*old(value)), selector@, bump@) {
            Ok(m) => r is Ok && yaml_nodes(*final(value)) == m,
            Err(e) => r matches Err(x) && x@ == e && *final(value) == *old(value),
        },
{
    bump_version(value, selector, bump)
}

/// Reads a YAML document from its text.
pub fn parse_yaml(text: &str) -> (r: Result<serde_yaml::Value, BumpError>)
    ensures
        match yaml_parsed(text@) {
            Some(m) => r matches Ok(v) && yaml_nodes(v) == m,
            None => r matches Err(e) && e@ is Parse && e@->Parse_format == FileType::Yaml,
        },
{
    match yaml_from_str(text) {
        Ok(value) => Ok(value),
        Err(e) => Err(BumpError::Parse { format: FileType::Yaml, message: yaml_error_text(&e) }),
    }
}

/// Writes a YAML document as text, in the serializer's own layout.
pub fn render_yaml(value: &serde_yaml::Value) -> (r: Result<String, BumpError>)
    ensures
        match yaml_text(*value) {
            Some(text) => r matches Ok(s) && s@ == text,
            None => r matches Err(e) && e@ is Render && e@->Render_format == FileType::Yaml,
        },
{
    match yaml_to_string(value) {
        Ok(text) => Ok(text),
        Err(e) => Err(BumpError::Render { format: FileType::Yaml, message: yaml_error_text(&e) }),
    }
}

/// `serde_yaml::from_str` at the type `serde_yaml::Value`. An accepted text
/// gives a value whose model is the one that `yaml_parsed` names; a rejected
/// text gives the crate's error.
#[verifier::external_body]
fn yaml_from_str(text: &str) -> (r: Result<serde_yaml::Value, serde_yaml::Error>)
    ensures
        r matches Ok(v) ==> yaml_parsed(text@) == Some(yaml_nodes(v)),
        r is Err ==> yaml_parsed(text@) is None,
{
    serde_yaml::from_str(text)
}

/// `serde_yaml::to_string`. The text is the one that `yaml_text` names.
#[verifier::external_body]
fn yaml_to_string(v: &serde_yaml::Value) -> (r: Result<String, serde_yaml::Error>)
    ensures
        r matches Ok(s) ==> yaml_text(*v) == Some(s@),
        r is Err ==> yaml_text(*v) is None,
{
    serde_yaml::to_string(v)
}

/// The `Display` text of a `serde_yaml::Error`.
#[verifier::external_body]
fn yaml_error_text(e: &serde_yaml::Error) -> (r: String) {
    e.to_string()
}

/// `serde_yaml::Value::is_mapping`: whether the value is a mapping.
#[verifier::external_body]
fn yaml_is_mapping(v: &serde_yaml::Value) -> (r: bool)
    ensures
        r == (root_kind(yaml_nodes(*v)) is Table),
{
    v.is_mapping()
}

/// `serde_yaml::Value::get` with a string key: the entry under `key` where
/// the value is a mapping that has one, `None` otherwise.
#[verifier::external_body]
fn yaml_get<'a>(v: &'a serde_yaml::Value, key: &str) -> (r: Option<&'a serde_yaml::Value>)
    ensures
        r is Some <==> yaml_nodes(*v).contains_key(seq![key@]),
        r matches Some(c) ==> yaml_nodes(*c) == subtree(yaml_nodes(*v), seq![key@]),
{
    v.get(key)
}

/// `serde_yaml::Value::get_mut` with a string key: as `get`, for writing.
/// The value changes at that entry alone, to what is written there: the
/// keys and their order stay, no entry is made, and where nothing is written
/// the value is as it was.
#[verifier::external_body]
fn yaml_get_mut<'a>(v: &'a mut serde_yaml::Value, key: &str) -> (r: Option<
    &'a mut serde_yaml::Value,
>)
    ensures
        r is Some <==> yaml_nodes(*old(v)).contains_key(seq![key@]),
        r is None ==> *final(v) == *old(v),
        r matches Some(c) ==> yaml_nodes(*c) == subtree(yaml_nodes(*old(v)), seq![key@]),
        r matches Some(c) ==> yaml_nodes(*final(v)) == graft(
            yaml_nodes(*old(v)),
            seq![key@],
            yaml_nodes(*final(c)),
        ),
        r matches Some(c) ==> (*final(c) == *c ==> *final(v) == *old(v)),
{
    v.get_mut(key)
}

/// `serde_yaml::Value::as_str`: the text where the value is a string.
#[verifier::external_body]
fn yaml_as_str<'a>(v: &'a serde_yaml::Value) -> (r: Option<&'a str>)
    ensures
        r is Some <==> root_kind(yaml_nodes(*v)) is Text,
        r matches Some(s) ==> root_kind(yaml_nodes(*v)) == NodeKind::Text(s@, no_layout()),
{
    v.as_str()
}

/// Assigns `serde_yaml::Value::String(text)`: the value becomes a string
/// with nothing below it.
#[verifier::external_body]
fn yaml_set_string(v: &mut serde_yaml::Value, text: String)
    ensures
        yaml_nodes(*final(v)) == leaf(NodeKind::Text(text@, no_layout())),
{
    *v = serde_yaml::Value::String(text);
}

} // verus!
