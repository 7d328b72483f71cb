//! JSON documents, held as `serde_json::Value`.

use crate::error::BumpError;
use crate::format::FileType;
use crate::text::views;
use crate::tree::{
    bump_version, graft, leaf, no_layout, read_outcome, read_version, resolve, resolve_mut,
    resolved, root_kind, subtree, write_outcome, Node, NodeKind,
};
use crate::version::VersionBump;
use vstd::prelude::*;
use vstd::string::*;

verus! {

#[verifier::external_type_specification]
#[verifier::external_body]
pub struct ExJsonValue(serde_json::Value);

#[verifier::external_type_specification]
#[verifier::external_body]
pub struct ExJsonError(serde_json::Error);

/// The model of a JSON value: what the value itself is under the empty path
/// and, where it is an object, under each key followed by a path of the
/// entry's model, what that path leads to there. An object is a table with
/// its keys in the order in which the map holds them; a string is text,
/// without layout; every other value is `Other` with the text that
/// `serde_json::to_string` writes for it.
pub uninterp spec fn json_nodes(v: serde_json::Value) -> Map<Seq<Seq<char>>, NodeKind>;

/// What `serde_json::from_str` reads from `text`: the model of the value, or
/// `None` where the text is rejected.
pub uninterp spec fn json_parsed(text: Seq<char>) -> Option<Map<Seq<Seq<char>>, NodeKind>>;

/// What `serde_json::to_string_pretty` writes for `v`, or `None` where it
/// fails.
pub uninterp spec fn json_text(v: serde_json::Value) -> Option<Seq<char>>;

impl Node for serde_json::Value {
    open spec fn nodes(&self) -> Map<Seq<Seq<char>>, NodeKind> {
        json_nodes(*self)
    }

    fn is_table(&self) -> (r: bool) {
        json_is_object(self)
    }

    fn child(&self, key: &str) -> (r: Option<&Self>) {
        json_get(self, key)
    }

    fn child_mut(&mut self, key: &str) -> (r: Option<&mut Self>) {
        json_get_mut(self, key)
    }

    fn as_text(&self) -> (r: Option<&str>) {
        json_as_str(self)
    }

    fn set_text(&mut self, text: String) {
        let _ = json_as_str(self);
        json_set_string(self, text)
    }
}

/// Follows `parts` from `value` to the node they lead to.
pub fn walk_json<'a>(value: &'a serde_json::Value, parts: &[&str]) -> (r: Result<
    &'a serde_json::Value,
    BumpError,
>)
    ensures
        match resolved(json_nodes(*value), views(parts@)) {
            Ok(m) => r matches Ok(node) && json_nodes(*node) == m,
            Err(e) => r matches Err(x) && x@ == e,
        },
{
    resolve(value, parts)
}

/// Follows `parts` from `value` to the node they lead to, for writing. On
/// failure, and where nothing is written through the result, the value is
/// exactly as it was.
pub fn walk_json_mut<'a>(value: &'a mut serde_json::Value, parts: &[&str]) -> (r: Result<
    &'a mut serde_json::Value,
    BumpError,
>)
    ensures
        match resolved(json_nodes(*old(value)), views(parts@)) {
            Ok(m) => r matches Ok(node) && json_nodes(*node) == m && json_nodes(*final(value))
                == graft(json_nodes(*old(value)), views(parts@), json_nodes(*final(node))) && (
            *final(node) == *node ==> *final(value) == *old(value)),
            Err(e) => r matches Err(x) && x@ == e && *final(value) == *old(value),
        },
{
    resolve_mut(value, parts)
}

/// Reads the version string at `selector`.
pub fn read_version_json(value: &serde_json::Value, selector: &str) -> (r: Result<
    String,
    BumpError,
>)
    ensures
        match read_outcome(json_nodes(*value), selector@) {
            Ok(text) => r matches Ok(s) && s@ == text,
            Err(e) => r matches Err(x) && x@ == e,
        },
{
    read_version(value, selector)
}

/// Bumps the version string at `selector` in place. On success the value
/// differs in that one string alone: every table keeps its keys and their
/// order, every other node is what it was. On failure the value is exactly
/// as it was.
pub fn bump_version_json(
    value: &mut serde_json::Value,
    selector: &str,
    bump: &VersionBump,
) -> (r: Result<(), BumpError>)
    ensures
        match write_outcome(json_nodes(*old(value)), selector@, bump@) {
            Ok(m) => r is Ok && json_nodes(*final(value)) == m,
            Err(e) => r matches Err(x) && x@ == e && *final(value) == *old(value),
        },
{
    bump_version(value, selector, bump)
}

/// Reads a JSON document from its text.
pub fn parse_json(text: &str) -> (r: Result<serde_json::Value, BumpError>)
    ensures
        match json_parsed(text@) {
            Some(m) => r matches Ok(v) && json_nodes(v) == m,
            None => r matches Err(e) && e@ is Parse && e@->Parse_format == FileType::Json,
        },
{
    match json_from_str(text) {
        Ok(value) => Ok(value),
        Err(e) => Err(BumpError::Parse { format: FileType::Json, message: json_error_text(&e) }),
    }
}

/// The text of a rendered JSON document: the pretty-printed value and a
/// line feed.
pub open spec fn json_file_text(v: serde_json::Value) -> Option<Seq<char>> {
    match json_text(v) {
        Some(text) => Some(text + seq!['\n']),
        None => None,
    }
}

/// Writes a JSON document as pretty-printed text that ends in a line feed.
pub fn render_json(value: &serde_json::Value) -> (r: Result<String, BumpError>)
    ensures
        match json_file_text(*value) {
            Some(text) => r matches Ok(s) && s@ == text,
            None => r matches Err(e) && e@ is Render && e@->Render_format == FileType::Json,
        },
{
    match json_to_string_pretty(value) {
        Ok(mut text) => {
            proof {
                reveal_strlit("\n");
            }
            text.append("\n");
            assert(text@ =~= json_text(*value)->0 + seq!['\n']);
            Ok(text)
        },
        Err(e) => Err(BumpError::Render { format: FileType::Json, message: json_error_text(&e) }),
    }
}

/// `serde_json::from_str` at the type `serde_json::Value`. An accepted text
/// gives a value whose model is the one that `json_parsed` names; a rejected
/// text gives the crate's error.
#[verifier::external_body]
fn json_from_str(text: &str) -> (r: Result<serde_json::Value, serde_json::Error>)
    ensures
        r matches Ok(v) ==> json_parsed(text@) == Some(json_nodes(v)),
        r is Err ==> json_parsed(text@) is None,
{
    serde_json::from_str(text)
}

/// `serde_json::to_string_pretty`. The text is the one that `json_text`
/// names.
#[verifier::external_body]
fn json_to_string_pretty(v: &serde_json::Value) -> (r: Result<String, serde_json::Error>)
    ensures
        r matches Ok(s) ==> json_text(*v) == Some(s@),
        r is Err ==> json_text(*v) is None,
{
    serde_json::to_string_pretty(v)
}

/// The `Display` text of a `serde_json::Error`.
#[verifier::external_body]
fn json_error_text(e: &serde_json::Error) -> (r: String) {
    e.to_string()
}

/// `serde_json::Value::is_object`: whether the value is an object.
#[verifier::external_body]
fn json_is_object(v: &serde_json::Value) -> (r: bool)
    ensures
        r == (root_kind(json_nodes(*v)) is Table),
{
    v.is_object()
}

/// `serde_json::Value::get` with a string key: the entry under `key` where
/// the value is an object that has one, `None` otherwise.
#[verifier::external_body]
fn json_get<'a>(v: &'a serde_json::Value, key: &str) -> (r: Option<&'a serde_json::Value>)
    ensures
        r is Some <==> json_nodes(*v).contains_key(seq![key@]),
        r matches Some(c) ==> json_nodes(*c) == subtree(json_nodes(*v), seq![key@]),
{
    v.get(key)
}

/// `serde_json::Value::get_mut` with a string key: as `get`, for writing.
/// The value changes at that entry alone, to what is written there: the
/// keys and their order stay, no entry is made, and where nothing is written
/// the value is as it was.
#[verifier::external_body]
fn json_get_mut<'a>(v: &'a mut serde_json::Value, key: &str) -> (r: Option<
    &'a mut serde_json::Value,
>)
    ensures
        r is Some <==> json_nodes(*old(v)).contains_key(seq![key@]),
        r is None ==> *final(v) == *old(v),
        r matches Some(c) ==> json_nodes(*c) == subtree(json_nodes(*old(v)), seq![key@]),
        r matches Some(c) ==> json_nodes(*final(v)) == graft(
            json_nodes(*old(v)),
            seq![key@],
            json_nodes(*final(c)),
        ),
        r matches Some(c) ==> (*final(c) == *c ==> *final(v) == *old(v)),
{
    v.get_mut(key)
}

/// `serde_json::Value::as_str`: the text where the value is a string.
#[verifier::external_body]
fn json_as_str<'a>(v: &'a serde_json::Value) -> (r: Option<&'a str>)
    ensures
        r is Some <==> root_kind(json_nodes(*v)) is Text,
        r matches Some(s) ==> root_kind(json_nodes(*v)) == NodeKind::Text(s@, no_layout()),
{
    v.as_str()
}

/// Assigns `serde_json::Value::String(text)`: the value becomes a string
/// with nothing below it.
#[verifier::external_body]
fn json_set_string(v: &mut serde_json::Value, text: String)
    ensures
        json_nodes(*final(v)) == leaf(NodeKind::Text(text@, no_layout())),
{
    *v = serde_json::Value::String(text);
}

} // verus!
