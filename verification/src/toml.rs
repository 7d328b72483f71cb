//! TOML documents, held as `toml_edit::DocumentMut`, whose text keeps its
//! layout and comments wherever nothing is written.

use crate::error::BumpError;
use crate::format::FileType;
use crate::tree::{
    bump_version, graft, leaf, no_layout, read_outcome, read_version, root_kind, subtree,
    text_layout, write_outcome, Layout, Node, NodeKind,
};
use crate::version::VersionBump;
use vstd::prelude::*;

verus! {

#[verifier::external_type_specification]
#[verifier::external_body]
pub struct ExTomlDocument(toml_edit::DocumentMut);

#[verifier::external_type_specification]
#[verifier::external_body]
pub struct ExTomlItem(toml_edit::Item);

#[verifier::external_type_specification]
#[verifier::external_body]
pub struct ExTomlError(toml_edit::TomlError);

#[verifier::external_type_specification]
#[verifier::external_body]
pub struct ExTomlDecor(toml_edit::Decor);

/// The model of a TOML item: what the item itself is under the empty path
/// and, where it is a table, under each key followed by a path of the
/// entry's model, what that path leads to there. Only `Item::Table` is a
/// table, with all the keys it holds in its own order; a string is text, with
/// the prefix and suffix of its decor as layout; every other item, an inline
/// table too, is `Other` with the text that it displays as. `Item::None`,
/// which a table does not show as an entry, has the empty model.
pub uninterp spec fn toml_nodes(item: toml_edit::Item) -> Map<Seq<Seq<char>>, NodeKind>;

/// The model of a TOML document: that of its root item.
pub uninterp spec fn toml_document_nodes(doc: toml_edit::DocumentMut) -> Map<
    Seq<Seq<char>>,
    NodeKind,
>;

/// What parsing `text` as a `toml_edit::DocumentMut` gives: the model of the
/// document, or `None` where the text is rejected.
pub uninterp spec fn toml_parsed(text: Seq<char>) -> Option<Map<Seq<Seq<char>>, NodeKind>>;

/// The text that a `toml_edit::DocumentMut` displays as.
pub uninterp spec fn toml_text(doc: toml_edit::DocumentMut) -> Seq<char>;

/// The prefix and the suffix of a decor, as text; `None` for one that is not
/// set.
pub uninterp spec fn decor_layout(decor: toml_edit::Decor) -> Layout;

impl Node for toml_edit::Item {
    open spec fn nodes(&self) -> Map<Seq<Seq<char>>, NodeKind> {
        toml_nodes(*self)
    }

    fn is_table(&self) -> (r: bool) {
        toml_is_table(self)
    }

    fn child(&self, key: &str) -> (r: Option<&Self>) {
        toml_get(self, key)
    }

    fn child_mut(&mut self, key: &str) -> (r: Option<&mut Self>) {
        toml_get_mut(self, key)
    }

    fn as_text(&self) -> (r: Option<&str>) {
        toml_as_str(self)
    }

    /// The new string keeps the white space and the comment that stood
    /// around the old one.
    fn set_text(&mut self, text: String) {
        let kept = match toml_as_str(self) {
            Some(_) => toml_decor(self),
            None => None,
        };
        toml_set_string(self, text);
        match kept {
            Some(decor) => toml_set_decor(self, decor),
            None => {},
        }
    }
}

/// Reads the version string at `selector`.
pub fn read_version_toml(doc: &toml_edit::DocumentMut, selector: &str) -> (r: Result<
    String,
    BumpError,
>)
    ensures
        match read_outcome(toml_document_nodes(*doc), selector@) {
            Ok(text) => r matches Ok(s) && s@ == text,
            Err(e) => r matches Err(x) && x@ == e,
        },
{
    read_version(toml_as_item(doc), selector)
}

/// Bumps the version string at `selector` in place. On success the document
/// differs in that one string alone, which keeps the layout around it: every
/// table keeps its keys and their order, every other node is what it was. On
/// failure the document is exactly as it was. No table or key is created,
/// and the root stays what it is.
pub fn bump_version_toml(
    doc: &mut toml_edit::DocumentMut,
    selector: &str,
    level: &VersionBump,
) -> (r: Result<(), BumpError>)
    ensures
        match write_outcome(toml_document_nodes(*old(doc)), selector@, level@) {
            Ok(m) => r is Ok && toml_document_nodes(*final(doc)) == m,
            Err(e) => r matches Err(x) && x@ == e && *final(doc) == *old(doc),
        },
        root_kind(toml_document_nodes(*final(doc))) == root_kind(toml_document_nodes(*old(doc))),
{
    bump_version(toml_as_item_mut(doc), selector, level)
}

/// Reads a TOML document from its text. Its root is a table.
pub fn parse_toml(text: &str) -> (r: Result<toml_edit::DocumentMut, BumpError>)
    ensures
        match toml_parsed(text@) {
            Some(m) => r matches Ok(doc) && toml_document_nodes(doc) == m,
            None => r matches Err(e) && e@ is Parse && e@->Parse_format == FileType::Toml,
        },
        r matches Ok(doc) ==> root_kind(toml_document_nodes(doc)) is Table,
{
    match toml_from_str(text) {
        Ok(doc) => Ok(doc),
        Err(e) => Err(BumpError::Parse { format: FileType::Toml, message: toml_error_text(&e) }),
    }
}

/// Writes a TOML document as text. The root of the document has to be a
/// table, as it is in every document that was read from text.
pub fn render_toml(doc: &toml_edit::DocumentMut) -> (r: String)
    requires
        root_kind(toml_document_nodes(*doc)) is Table,
    ensures
        r@ == toml_text(*doc),
{
    toml_to_string(doc)
}

/// `str::parse` at `toml_edit::DocumentMut`, that is its `FromStr`. An
/// accepted text gives a document whose model is the one that `toml_parsed`
/// names and whose root is a table; a rejected text gives the crate's error.
#[verifier::external_body]
fn toml_from_str(text: &str) -> (r: Result<toml_edit::DocumentMut, toml_edit::TomlError>)
    ensures
        r matches Ok(doc) ==> toml_parsed(text@) == Some(toml_document_nodes(doc)),
        r matches Ok(doc) ==> root_kind(toml_document_nodes(doc)) is Table,
        r is Err ==> toml_parsed(text@) is None,
{
    text.parse::<toml_edit::DocumentMut>()
}

/// The `Display` text of a `toml_edit::DocumentMut`. It is written from the
/// root as a table, so the root has to be one.
#[verifier::external_body]
fn toml_to_string(doc: &toml_edit::DocumentMut) -> (r: String)
    requires
        root_kind(toml_document_nodes(*doc)) is Table,
    ensures
        r@ == toml_text(*doc),
{
    doc.to_string()
}

/// The `Display` text of a `toml_edit::TomlError`.
#[verifier::external_body]
fn toml_error_text(e: &toml_edit::TomlError) -> (r: String) {
    e.to_string()
}

/// `toml_edit::DocumentMut::as_item`: the root item of the document.
#[verifier::external_body]
fn toml_as_item<'a>(doc: &'a toml_edit::DocumentMut) -> (r: &'a toml_edit::Item)
    ensures
        toml_nodes(*r) == toml_document_nodes(*doc),
{
    doc.as_item()
}

/// `toml_edit::DocumentMut::as_item_mut`: the root item, for writing. The
/// document changes in its root item alone, to what is written there; where
/// nothing is written it is as it was.
#[verifier::external_body]
fn toml_as_item_mut<'a>(doc: &'a mut toml_edit::DocumentMut) -> (r: &'a mut toml_edit::Item)
    ensures
        toml_nodes(*r) == toml_document_nodes(*old(doc)),
        toml_document_nodes(*final(doc)) == toml_nodes(*final(r)),
        *final(r) == *r ==> *final(doc) == *old(doc),
{
    doc.as_item_mut()
}

/// `toml_edit::Item::is_table`: whether the item is a table.
#[verifier::external_body]
fn toml_is_table(item: &toml_edit::Item) -> (r: bool)
    ensures
        r == (root_kind(toml_nodes(*item)) is Table),
{
    item.is_table()
}

/// `toml_edit::Item::as_table`, then `toml_edit::Table::get`: the entry
/// under `key` where the item is a table that has one, `None` otherwise.
#[verifier::external_body]
fn toml_get<'a>(item: &'a toml_edit::Item, key: &str) -> (r: Option<&'a toml_edit::Item>)
    ensures
        r is Some <==> toml_nodes(*item).contains_key(seq![key@]),
        r matches Some(c) ==> toml_nodes(*c) == subtree(toml_nodes(*item), seq![key@]),
{
    item.as_table().and_then(|table| table.get(key))
}

/// `toml_edit::Item::as_table_mut`, then `toml_edit::Table::get_mut`: as
/// `toml_get`, for writing. The item changes at that entry alone, to what is
/// written there: the keys and their order stay, no entry is made, and where
/// nothing is written the item is as it was.
#[verifier::external_body]
fn toml_get_mut<'a>(item: &'a mut toml_edit::Item, key: &str) -> (r: Option<
    &'a mut toml_edit::Item,
>)
    ensures
        r is Some <==> toml_nodes(*old(item)).contains_key(seq![key@]),
        r is None ==> *final(item) == *old(item),
        r matches Some(c) ==> toml_nodes(*c) == subtree(toml_nodes(*old(item)), seq![key@]),
        r matches Some(c) ==> toml_nodes(*final(item)) == graft(
            toml_nodes(*old(item)),
            seq![key@],
            toml_nodes(*final(c)),
        ),
        r matches Some(c) ==> (*final(c) == *c ==> *final(item) == *old(item)),
{
    item.as_table_mut().and_then(|table| table.get_mut(key))
}

/// `toml_edit::Item::as_str`: the text where the item is a string.
#[verifier::external_body]
fn toml_as_str<'a>(item: &'a toml_edit::Item) -> (r: Option<&'a str>)
    ensures
        r is Some <==> root_kind(toml_nodes(*item)) is Text,
        r matches Some(s) ==> root_kind(toml_nodes(*item))->Text_0 == s@,
{
    item.as_str()
}

/// Assigns `toml_edit::value(text)`: the item becomes a string with nothing
/// below it and with no decor set.
#[verifier::external_body]
fn toml_set_string(item: &mut toml_edit::Item, text: String)
    ensures
        toml_nodes(*final(item)) == leaf(NodeKind::Text(text@, no_layout())),
{
    *item = toml_edit::value(text);
}

/// `toml_edit::Item::as_value`, then a clone of `toml_edit::Value::decor`:
/// the white space and the comment around a value, `None` where the item is
/// no value. For a string it is the layout that the model holds.
#[verifier::external_body]
fn toml_decor(item: &toml_edit::Item) -> (r: Option<toml_edit::Decor>)
    ensures
        root_kind(toml_nodes(*item)) is Text ==> r is Some,
        r matches Some(decor) ==> (root_kind(toml_nodes(*item)) is Text ==> decor_layout(decor)
            == text_layout(root_kind(toml_nodes(*item)))),
{
    item.as_value().map(|value| value.decor().clone())
}

/// `toml_edit::Item::as_value_mut`, then an assignment through
/// `toml_edit::Value::decor_mut`; an item that is no value is left alone. A
/// string keeps its text and has the given decor as its layout.
#[verifier::external_body]
fn toml_set_decor(item: &mut toml_edit::Item, decor: toml_edit::Decor)
    ensures
        root_kind(toml_nodes(*old(item))) is Text ==> toml_nodes(*final(item)) == leaf(
            NodeKind::Text(root_kind(toml_nodes(*old(item)))->Text_0, decor_layout(decor)),
        ),
{
    if let Some(value) = item.as_value_mut() {
        *value.decor_mut() = decor;
    }
}

} // verus!
