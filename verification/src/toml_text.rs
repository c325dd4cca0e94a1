//! Reading TOML text into the table model, through the `toml` crate.

use vstd::prelude::*;
use crate::value::{TomlEntry, TomlTable, TomlValue, TableData};
use crate::merge::deeply_distinct;

verus! {

#[verifier::external_type_specification]
#[verifier::external_body]
pub struct ExTomlValue(toml::Value);

/// The table that the `toml` crate parses `text` into, in the table model
/// (keys in the crate's order, floats by their bits, date-times by their
/// TOML text); `None` when the text is not a valid TOML document.
pub uninterp spec fn toml_parse(text: Seq<char>) -> Option<TableData>;

/// The `toml` crate's message for why `text` is not a valid TOML document.
pub uninterp spec fn toml_parse_error(text: Seq<char>) -> Seq<char>;

/// The model value of a value the `toml` crate parsed.
#[verifier::external_body]
fn model_of_toml_value(v: &toml::Value) -> TomlValue {
    match v {
        toml::Value::String(s) => TomlValue::String(s.clone()),
        toml::Value::Integer(i) => TomlValue::Integer(*i),
        toml::Value::Float(f) => TomlValue::Float(f.to_bits()),
        toml::Value::Boolean(b) => TomlValue::Boolean(*b),
        toml::Value::Datetime(d) => TomlValue::Datetime(d.to_string()),
        toml::Value::Array(items) => TomlValue::Array(items.iter().map(model_of_toml_value).collect()),
        toml::Value::Table(t) => TomlValue::Table(TomlTable {
            entries: t.iter().map(|(k, x)| TomlEntry { key: k.clone(), value: model_of_toml_value(x) }).collect(),
        }),
    }
}

/// Parses `text` as a TOML document with `<toml::Table as FromStr>::from_str`:
/// the table in the model when the text is valid, else the crate's error
/// message. Both are named ([`toml_parse`], [`toml_parse_error`]): the
/// grammar is the crate's and is not restated here. A parsed table is a map
/// at every depth, so no key occurs twice in it or in any table it holds.
#[verifier::external_body]
pub fn parse_toml_table(text: &str) -> (r: Result<TomlTable, String>)
    ensures
        (r is Ok) == (toml_parse(text@) is Some),
        r matches Ok(t) ==> Some(t@) == toml_parse(text@) && deeply_distinct(t@),
        r matches Err(e) ==> e@ == toml_parse_error(text@),
{
    match text.parse::<toml::Table>() {
        Ok(t) => Ok(TomlTable {
            entries: t.iter().map(|(k, x)| TomlEntry { key: k.clone(), value: model_of_toml_value(x) }).collect(),
        }),
        Err(e) => Err(e.to_string()),
    }
}

} // verus!
