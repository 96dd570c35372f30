//! Manifests as `toml_edit` holds them, and what the verified code takes
//! for granted of them.
//!
//! A `toml_edit::DocumentMut` and a `toml_edit::Item` are opaque to the
//! verifier. [`document_model`] and [`item_model`] name the tree that such a
//! value holds, and each function below is described by what it reads from
//! that tree or does to it. None of these descriptions is proved: they
//! restate `toml_edit`'s own code.

use crate::text::{lists, texts};
use crate::tree::{has_key, position, Node, Scalar};
use vstd::prelude::*;

verus! {

#[verifier::external_type_specification]
#[verifier::external_body]
pub struct ExDocumentMut(toml_edit::DocumentMut);

#[verifier::external_type_specification]
#[verifier::external_body]
pub struct ExItem(toml_edit::Item);

/// The tree that a `toml_edit::Item` holds.
pub uninterp spec fn item_model(item: toml_edit::Item) -> Node;

/// The tree that a document's root item holds.
pub uninterp spec fn document_model(document: toml_edit::DocumentMut) -> Node;

/// What `toml_edit` makes of a manifest's text: the tree of the document it
/// parses to, or its complaint where it rejects the text.
pub uninterp spec fn toml_parse(text: Seq<char>) -> Result<Node, Seq<char>>;

/// A new document: one empty table.
pub assume_specification[ toml_edit::DocumentMut::new ]() -> (document: toml_edit::DocumentMut)
    ensures
        document_model(document) == Node::empty_table(),
;

/// The root item of a document.
pub assume_specification[ toml_edit::DocumentMut::as_item ](
    document: &toml_edit::DocumentMut,
) -> (root: &toml_edit::Item)
    ensures
        item_model(*root) == document_model(*document),
;

/// The root item of a document, to be changed in place.
pub assume_specification[ toml_edit::DocumentMut::as_item_mut ](
    document: &mut toml_edit::DocumentMut,
) -> (root: &mut toml_edit::Item)
    ensures
        item_model(*root) == document_model(*old(document)),
        document_model(*final(document)) == item_model(*final(root)),
;

/// An item that is an empty table.
pub assume_specification[ toml_edit::table ]() -> (item: toml_edit::Item)
    ensures
        item_model(item) == Node::empty_table(),
;

/// A copy of an item: it holds the same tree.
pub assume_specification[ <toml_edit::Item as Clone>::clone ](item: &toml_edit::Item) -> (copy:
    toml_edit::Item)
    ensures
        item_model(copy) == item_model(*item),
;

/// `str::parse` into a `toml_edit::DocumentMut`, with the error as the text
/// that it displays. The result is a function of the text alone, named by
/// [`toml_parse`]; a document's root is always a table.
#[verifier::external_body]
pub(crate) fn parse_document(text: &str) -> (parsed: Result<toml_edit::DocumentMut, String>)
    ensures
        match parsed {
            Ok(document) => toml_parse(text@) == Ok::<Node, Seq<char>>(document_model(document))
                && document_model(document) is Table,
            Err(complaint) => toml_parse(text@) == Err::<Node, Seq<char>>(complaint@),
        },
{
    text.parse::<toml_edit::DocumentMut>().map_err(|error| error.to_string())
}

/// `toml_edit::value` of a string: a string value without decoration.
#[verifier::external_body]
pub(crate) fn text_value(text: &str) -> (item: toml_edit::Item)
    ensures
        item_model(item) == Node::scalar(Scalar::Text(text@)),
{
    toml_edit::value(text)
}

/// `toml_edit::value` of an integer: an integer value without decoration.
#[verifier::external_body]
pub(crate) fn integer_value(number: i64) -> (item: toml_edit::Item)
    ensures
        item_model(item) == Node::scalar(Scalar::Integer(number as int)),
{
    toml_edit::value(number)
}

/// `toml_edit::value` of a boolean: a boolean value without decoration.
#[verifier::external_body]
pub(crate) fn boolean_value(flag: bool) -> (item: toml_edit::Item)
    ensures
        item_model(item) == Node::scalar(Scalar::Boolean(flag)),
{
    toml_edit::value(flag)
}

/// `toml_edit::Table::set_implicit` on an item that is a table; any other
/// item is left as it is.
#[verifier::external_body]
pub(crate) fn set_implicit(item: &mut toml_edit::Item, implicit: bool)
    ensures
        item_model(*final(item)) == item_model(*old(item)).with_implicit(implicit),
{
    if let toml_edit::Item::Table(table) = item {
        table.set_implicit(implicit);
    }
}

/// `toml_edit::Item::get` with a string index: the value shown under `key`
/// in a table or an inline table, else nothing.
#[verifier::external_body]
pub(crate) fn entry<'a>(item: &'a toml_edit::Item, key: &str) -> (found: Option<
    &'a toml_edit::Item,
>)
    ensures
        match found {
            Some(value) => item_model(*item).shown(key@) == Some(item_model(*value)),
            None => item_model(*item).shown(key@) is None,
        },
{
    item.get(key)
}

/// Assignment through `toml_edit::Item`'s string index, which panics on an
/// item that is neither a table nor an inline table: `value` takes the place
/// of the value under `key`, or stands in a new entry after the others.
#[verifier::external_body]
pub(crate) fn set_entry(item: &mut toml_edit::Item, key: &str, value: toml_edit::Item)
    requires
        item_model(*old(item)).is_table_like(),
    ensures
        item_model(*final(item)) == item_model(*old(item)).put(key@, item_model(value)),
{
    item[key] = value;
}

/// `toml_edit::Item::get_mut` with a string index, on a table or an inline
/// table that has an entry under `key`: that entry's value, to be changed in
/// place. Nothing else of the table changes.
#[verifier::external_body]
pub(crate) fn entry_mut<'a>(item: &'a mut toml_edit::Item, key: &str) -> (value:
    &'a mut toml_edit::Item)
    requires
        item_model(*old(item)).is_table_like(),
        has_key(item_model(*old(item)).entries(), key@),
    ensures
        item_model(*value) == item_model(*old(item)).entries()[position(
            item_model(*old(item)).entries(),
            key@,
        )].value,
        item_model(*final(item)) == item_model(*old(item)).put(key@, item_model(*final(value))),
{
    item.get_mut(key).unwrap()
}

/// `toml_edit::Item::get_mut` with a number as index: the element at that
/// place of an array or an array of tables, to be changed in place, or
/// nothing where there is none. A vector has fewer than `usize::MAX`
/// elements.
#[verifier::external_body]
pub(crate) fn element_mut(item: &mut toml_edit::Item, index: usize) -> (element: Option<
    &mut toml_edit::Item,
>)
    ensures
        match element {
            Some(value) => {
                &&& index < item_model(*old(item)).items().len()
                &&& index < usize::MAX
                &&& item_model(*value) == item_model(*old(item)).items()[index as int]
                &&& item_model(*final(item)) == item_model(*old(item)).with_items(
                    item_model(*old(item)).items().update(index as int, item_model(*final(value))),
                )
            },
            None => {
                &&& index >= item_model(*old(item)).items().len()
                &&& item_model(*final(item)) == item_model(*old(item))
            },
        },
{
    item.get_mut(index)
}

/// The keys that `toml_edit::TableLike::iter` yields for a table or an
/// inline table, in order; none for any other item. No two entries of a
/// table stand under one key.
#[verifier::external_body]
pub(crate) fn listed_keys(item: &toml_edit::Item) -> (keys: Vec<String>)
    ensures
        item_model(*item).walk_yields(texts(keys@)),
{
    item.as_table_like().map(|table| table.iter().map(|(key, _)| key.to_string()).collect())
        .unwrap_or_default()
}

/// `toml_edit::Decor::clear` on the decoration of a value or of a table.
#[verifier::external_body]
pub(crate) fn clear_decor(item: &mut toml_edit::Item)
    ensures
        item_model(*final(item)) == item_model(*old(item)).with_plain_decor(),
{
    match item {
        toml_edit::Item::Value(value) => value.decor_mut().clear(),
        toml_edit::Item::Table(table) => table.decor_mut().clear(),
        _ => {},
    }
}

/// `toml_edit::Array::set_trailing` and `toml_edit::Array::set_trailing_comma`
/// on an item that is an array; any other item is left as it is.
#[verifier::external_body]
pub(crate) fn set_array_trailing(item: &mut toml_edit::Item, trailing: &str, trailing_comma: bool)
    ensures
        item_model(*final(item)) == item_model(*old(item)).with_trailing(
            trailing@,
            trailing_comma,
        ),
{
    if let Some(array) = item.as_array_mut() {
        array.set_trailing(trailing);
        array.set_trailing_comma(trailing_comma);
    }
}

/// `toml_edit::InlineTable::set_preamble` on an item that is an inline
/// table; any other item is left as it is.
#[verifier::external_body]
pub(crate) fn set_preamble(item: &mut toml_edit::Item, preamble: &str)
    ensures
        item_model(*final(item)) == item_model(*old(item)).with_preamble(preamble@),
{
    if let Some(table) = item.as_inline_table_mut() {
        table.set_preamble(preamble);
    }
}

/// `toml_edit::Decor::clear` on both decorations of the key of the entry
/// under `key`, reached through `toml_edit::TableLike::key_mut`.
#[verifier::external_body]
pub(crate) fn clear_key_decor(item: &mut toml_edit::Item, key: &str)
    ensures
        item_model(*final(item)) == item_model(*old(item)).with_plain_key(key@),
{
    if let Some(mut found) = item.as_table_like_mut().and_then(|table| table.key_mut(key)) {
        found.leaf_decor_mut().clear();
        found.dotted_decor_mut().clear();
    }
}

/// Whether a dependency called `name` stays when those in `unused` go.
pub fn is_kept(unused: &Vec<String>, name: &str) -> (kept: bool)
    ensures
        kept == !texts(unused@).contains(name@),
{
    !lists(unused, name)
}

/// `toml_edit::Table::retain` on an item that is a table, keeping the
/// entries that [`is_kept`] accepts, in their order; any other item is left
/// as it is.
#[verifier::external_body]
pub(crate) fn retain_kept(item: &mut toml_edit::Item, unused: &Vec<String>)
    ensures
        item_model(*final(item)) == item_model(*old(item)).without(texts(unused@).to_set()),
{
    if let toml_edit::Item::Table(table) = item {
        table.retain(|name, _| is_kept(unused, name));
    }
}

} // verus!
