//! The TOML documents that settings are read from and written to, kept as
//! `toml_edit` documents. The top-level table is seen as a map from keys to
//! the entries that the settings logic distinguishes.
use vstd::prelude::*;

use toml_edit::{DocumentMut, Item, Value};

verus! {

#[verifier::external_type_specification]
#[verifier::external_body]
pub struct ExDocumentMut(DocumentMut);

/// An entry of a TOML table, as far as settings tell entries apart.
/// Floats, tables and other values carry nothing here.
#[derive(Debug)]
pub enum TomlEntry {
    Boolean(bool),
    Integer(i64),
    Text(String),
    Float,
    Table,
    Other,
}

/// The model of a [`TomlEntry`].
pub enum TomlValue {
    Boolean(bool),
    Integer(i64),
    Text(Seq<char>),
    Float,
    Table,
    Other,
}

impl View for TomlEntry {
    type V = TomlValue;

    open spec fn view(&self) -> TomlValue {
        match self {
            TomlEntry::Boolean(b) => TomlValue::Boolean(*b),
            TomlEntry::Integer(i) => TomlValue::Integer(*i),
            TomlEntry::Text(s) => TomlValue::Text(s@),
            TomlEntry::Float => TomlValue::Float,
            TomlEntry::Table => TomlValue::Table,
            TomlEntry::Other => TomlValue::Other,
        }
    }
}

/// The entries of the top-level table of a document, by key.
pub uninterp spec fn toml_table_contents(doc: DocumentMut) -> Map<Seq<char>, TomlValue>;

/// The entry stored under `key`, if any.
pub open spec fn entry_at(doc: DocumentMut, key: Seq<char>) -> Option<TomlValue> {
    let m = toml_table_contents(doc);
    if m.dom().contains(key) {
        Some(m[key])
    } else {
        None
    }
}

/// `Table::get` on the top-level table of a document (reached through
/// `DocumentMut`'s `Deref`), with the item sorted into the kinds of
/// [`TomlEntry`]: a boolean, an integer, a string, a float, a table (a
/// table or an inline table, as `Item::as_table_like` accepts them), or
/// anything else. Claimed: the result is the entry stored under `key`.
#[verifier::external_body]
pub(crate) fn toml_get(doc: &DocumentMut, key: &str) -> (entry: Option<TomlEntry>)
    ensures
        match entry {
            Some(e) => entry_at(*doc, key@) == Some(e@),
            None => entry_at(*doc, key@) is None,
        },
{
    match doc.get(key) {
        None => None,
        Some(Item::Value(Value::Boolean(b))) => Some(TomlEntry::Boolean(*b.value())),
        Some(Item::Value(Value::Integer(i))) => Some(TomlEntry::Integer(*i.value())),
        Some(Item::Value(Value::String(s))) => Some(TomlEntry::Text(s.value().clone())),
        Some(Item::Value(Value::Float(_))) => Some(TomlEntry::Float),
        Some(Item::Value(Value::InlineTable(_))) => Some(TomlEntry::Table),
        Some(Item::Table(_)) => Some(TomlEntry::Table),
        Some(_) => Some(TomlEntry::Other),
    }
}

/// `Table::insert(key, toml_edit::value(v))` on the top-level table with a
/// boolean. Claimed: afterwards `key` holds that boolean and every other
/// key is untouched.
#[verifier::external_body]
pub(crate) fn toml_insert_bool(doc: &mut DocumentMut, key: &str, v: bool)
    ensures
        toml_table_contents(*final(doc)) == toml_table_contents(*old(doc)).insert(
            key@,
            TomlValue::Boolean(v),
        ),
{
    doc.insert(key, toml_edit::value(v));
}

/// `Table::insert(key, toml_edit::value(v))` on the top-level table with an
/// integer. Claimed: afterwards `key` holds that integer and every other
/// key is untouched.
#[verifier::external_body]
pub(crate) fn toml_insert_integer(doc: &mut DocumentMut, key: &str, v: i64)
    ensures
        toml_table_contents(*final(doc)) == toml_table_contents(*old(doc)).insert(
            key@,
            TomlValue::Integer(v),
        ),
{
    doc.insert(key, toml_edit::value(v));
}

/// `Table::insert(key, toml_edit::value(v))` on the top-level table with a
/// string. Claimed: afterwards `key` holds that string and every other key
/// is untouched.
#[verifier::external_body]
pub(crate) fn toml_insert_text(doc: &mut DocumentMut, key: &str, v: &str)
    ensures
        toml_table_contents(*final(doc)) == toml_table_contents(*old(doc)).insert(
            key@,
            TomlValue::Text(v@),
        ),
{
    doc.insert(key, toml_edit::value(v));
}

/// `Table::remove(key)` on the top-level table. Claimed: afterwards `key`
/// holds nothing and every other key is untouched.
#[verifier::external_body]
pub(crate) fn toml_remove(doc: &mut DocumentMut, key: &str)
    ensures
        toml_table_contents(*final(doc)) == toml_table_contents(*old(doc)).remove(key@),
{
    doc.remove(key);
}

/// What `str::parse::<DocumentMut>` reads from `text`: the entries of
/// the top-level table by key, or `None` when `text` is not a TOML
/// document.
pub uninterp spec fn toml_parsed(text: Seq<char>) -> Option<Map<Seq<char>, TomlValue>>;

/// `text.parse::<DocumentMut>()`, with the error turned into its message.
/// Claimed: it succeeds exactly when the named reading does, and the
/// document then holds the entries of that reading. What the reading is
/// (the TOML grammar) is left unsaid.
#[verifier::external_body]
pub(crate) fn toml_parse(text: &str) -> (r: Result<DocumentMut, String>)
    ensures
        match r {
            Ok(d) => toml_parsed(text@) == Some(toml_table_contents(d)),
            Err(_) => toml_parsed(text@) is None,
        },
{
    text.parse::<DocumentMut>().map_err(|err| err.to_string())
}

/// A table with no entries.
pub open spec fn empty_table() -> Map<Seq<char>, TomlValue> {
    Map::empty()
}

/// `DocumentMut::new()`. Claimed: the new document holds no entries.
#[verifier::external_body]
pub(crate) fn toml_new() -> (doc: DocumentMut)
    ensures
        toml_table_contents(doc) == empty_table(),
{
    DocumentMut::new()
}

} // verus!
