//! The daemon's `config.toml` as the library sees it: a `toml::Table` kept
//! as the `toml` crate builds it, read through the few calls the consent and
//! auth logic make. A table's entries are modelled as a map from key to what
//! the logic can tell of the value: a string, a boolean, or something else.

use vstd::prelude::*;

verus! {

#[verifier::external_type_specification]
#[verifier::external_body]
#[verifier::reject_recursive_types(K)]
#[verifier::reject_recursive_types(V)]
pub struct ExTomlMap<K, V>(toml::map::Map<K, V>);

#[verifier::external_type_specification]
#[verifier::external_body]
pub struct ExTomlValue(toml::Value);

/// What the library reads of a TOML value.
pub enum TomlItem {
    /// A TOML string.
    Text(Seq<char>),
    /// A TOML boolean.
    Flag(bool),
    /// An integer, float, datetime, array or table.
    Other,
}

/// The entries of a table: key to value.
pub uninterp spec fn table_entries(t: toml::Table) -> Map<Seq<char>, TomlItem>;

/// What a single value holds, in the terms of `TomlItem`: the contents of
/// one entry of the table, as `table_entries` gives them for the whole.
pub uninterp spec fn value_item(v: toml::Value) -> TomlItem;

/// The entries of the table that `<toml::Table as FromStr>::from_str`
/// parses from a text, or `None` where it reports an error.
pub uninterp spec fn parsed_table(text: Seq<char>) -> Option<Map<Seq<char>, TomlItem>>;

/// What `toml::to_string` gives for a table: `Ok` of the text it writes,
/// or `Err` of the text of the error it reports. Nothing is stated of the
/// written text's form, nor that parsing it gives the table back.
pub uninterp spec fn rendered_table(t: toml::Table) -> Result<Seq<char>, Seq<char>>;

/// The entries of an empty table.
pub open spec fn no_entries() -> Map<Seq<char>, TomlItem> {
    Map::empty()
}

/// `toml::Table::new`: an empty table.
#[verifier::external_body]
pub fn table_new() -> (r: toml::Table)
    ensures
        table_entries(r) == no_entries(),
{
    toml::Table::new()
}

/// `<toml::Table as FromStr>::from_str`, its error dropped. The result is
/// the parse of the text, named by `parsed_table`.
#[verifier::external_body]
pub fn parse_table(text: &str) -> (r: Option<toml::Table>)
    ensures
        r is Some <==> parsed_table(text@) is Some,
        r matches Some(t) ==> parsed_table(text@) == Some(table_entries(t)),
{
    text.parse::<toml::Table>().ok()
}

/// `toml::map::Map::get`: the value stored under `key`, if any.
#[verifier::external_body]
pub fn table_get<'a>(t: &'a toml::Table, key: &str) -> (r: Option<&'a toml::Value>)
    ensures
        r is Some <==> table_entries(*t).contains_key(key@),
        r matches Some(v) ==> value_item(*v) == table_entries(*t)[key@],
{
    t.get(key)
}

/// `toml::Value::as_str`: the string a value holds, if it is a string.
#[verifier::external_body]
pub fn value_as_str(v: &toml::Value) -> (r: Option<&str>)
    ensures
        match value_item(*v) {
            TomlItem::Text(s) => r is Some && r->0@ == s,
            _ => r is None,
        },
{
    v.as_str()
}

/// `toml::Value::as_bool`: the boolean a value holds, if it is a boolean.
#[verifier::external_body]
pub fn value_as_bool(v: &toml::Value) -> (r: Option<bool>)
    ensures
        match value_item(*v) {
            TomlItem::Flag(b) => r == Some(b),
            _ => r is None,
        },
{
    v.as_bool()
}

/// `toml::map::Map::insert` of `toml::Value::Boolean(value)` under `key`:
/// the key now maps to that boolean, every other entry is kept. Where the
/// key already held that same boolean, the stored value is replaced by an
/// equal one and the key is kept, so the table is as it was.
#[verifier::external_body]
pub fn table_insert_flag(t: &mut toml::Table, key: &str, value: bool)
    ensures
        table_entries(*final(t)) == table_entries(*old(t)).insert(key@, TomlItem::Flag(value)),
        table_entries(*old(t)).contains_key(key@) && table_entries(*old(t))[key@]
            == TomlItem::Flag(value) ==> *final(t) == *old(t),
{
    t.insert(key.to_string(), toml::Value::Boolean(value));
}

/// `toml::to_string` of a table, its error turned into the error's text;
/// both are named by `rendered_table`.
#[verifier::external_body]
pub fn render_table(t: &toml::Table) -> (r: Result<String, String>)
    ensures
        match rendered_table(*t) {
            Ok(text) => r matches Ok(s) && s@ == text,
            Err(msg) => r matches Err(e) && e@ == msg,
        },
{
    toml::to_string(t).map_err(|e| e.to_string())
}

} // verus!
