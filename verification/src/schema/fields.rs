//! Reading and writing the plain fields of a schema: booleans, strings,
//! paths, ranged integers and string lists. A field is read only when the
//! table holds a value of its type under its key; otherwise it keeps what it
//! held.

use vstd::prelude::*;
use crate::value::{TomlEntry, TomlTable, TomlValue, TomlData, TableData, lookup, items_data, lemma_items_data};
use crate::schema::config_schema::{spec_expand_user_path, expand_user_path};
use crate::schema::ranges::{spec_apply_range, apply_range, Range};
use crate::schema::section_readers::{string_items, strings_of_items};
use crate::schema::value_checks::home_view;
use crate::types::widget_setting_value::string_list_view;

verus! {

/// A boolean field: the boolean under `key`, else `cur`.
#[verifier::opaque]
pub open spec fn read_bool_field(t: TableData, key: Seq<char>, cur: bool) -> bool {
    match lookup(t, key) {
        Some(TomlData::Boolean(b)) => b,
        _ => cur,
    }
}

/// A string field: the string under `key`, else `cur`.
pub open spec fn read_string_field(t: TableData, key: Seq<char>, cur: Seq<char>) -> Seq<char> {
    match lookup(t, key) {
        Some(TomlData::String(s)) => s,
        _ => cur,
    }
}

/// A path field: the string under `key` with a leading `~` expanded against
/// `home` (an empty string stays empty), else `cur`.
pub open spec fn read_path_field(t: TableData, key: Seq<char>, home: Option<Seq<char>>, cur: Seq<char>) -> Seq<char> {
    match lookup(t, key) {
        Some(TomlData::String(s)) => if s.len() == 0 { s } else { spec_expand_user_path(s, home) },
        _ => cur,
    }
}

/// An integer field: the integer under `key`, clamped into `range` when
/// there is one and then cut to 32 bits, else `cur`.
pub open spec fn read_int_field(t: TableData, key: Seq<char>, range: Option<(i64, i64)>, cur: i32) -> i32 {
    match lookup(t, key) {
        Some(TomlData::Integer(v)) => match range {
            Some((lo, hi)) => spec_apply_range(v, Some(lo), Some(hi)) as i32,
            None => v as i32,
        },
        _ => cur,
    }
}

/// A string-list field: the strings of the array under `key` (other items
/// skipped), else `cur`.
pub open spec fn read_strings_field(t: TableData, key: Seq<char>, cur: Seq<Seq<char>>) -> Seq<Seq<char>> {
    match lookup(t, key) {
        Some(TomlData::Array(items)) => string_items(items),
        _ => cur,
    }
}

/// The array that a string list is written as.
pub open spec fn strings_array(v: Seq<Seq<char>>) -> TomlData {
    TomlData::Array(v.map_values(|s: Seq<char>| TomlData::String(s)))
}

/// Reading back the strings of a written string list gives the list.
pub proof fn lemma_strings_round_trip(v: Seq<Seq<char>>)
    ensures
        string_items(v.map_values(|s: Seq<char>| TomlData::String(s))) == v,
    decreases v.len(),
{
    let items = v.map_values(|s: Seq<char>| TomlData::String(s));
    if v.len() > 0 {
        lemma_strings_round_trip(v.drop_last());
        assert(items.drop_last() =~= v.drop_last().map_values(|s: Seq<char>| TomlData::String(s)));
        assert(v.drop_last().push(v.last()) =~= v);
    } else {
        assert(v =~= Seq::<Seq<char>>::empty());
    }
}

/// Reads a boolean field (see [`read_bool_field`]).
pub fn get_bool(t: &TomlTable, key: &str, cur: bool) -> (r: bool)
    ensures
        r == read_bool_field(t@, key@, cur),
{
    reveal(read_bool_field);
    match t.get(key) {
        Some(TomlValue::Boolean(b)) => *b,
        _ => cur,
    }
}

/// Reads a string field into `cur` (see [`read_string_field`]).
pub fn get_string(t: &TomlTable, key: &str, cur: &mut String)
    ensures
        final(cur)@ == read_string_field(t@, key@, old(cur)@),
{
    match t.get(key) {
        Some(TomlValue::String(s)) => {
            *cur = s.clone();
        },
        _ => {},
    }
}

/// Reads a path field into `cur` (see [`read_path_field`]).
pub fn get_path(t: &TomlTable, key: &str, home: Option<&str>, cur: &mut String)
    ensures
        final(cur)@ == read_path_field(t@, key@, home_view(home), old(cur)@),
{
    match t.get(key) {
        Some(TomlValue::String(s)) => {
            if s.as_str().is_empty() {
                *cur = s.clone();
            } else {
                *cur = expand_user_path(s.as_str(), home);
            }
        },
        _ => {},
    }
}

/// Reads an integer field (see [`read_int_field`]).
pub fn get_int(t: &TomlTable, key: &str, range: Option<(i64, i64)>, cur: i32) -> (r: i32)
    ensures
        r == read_int_field(t@, key@, range, cur),
{
    match t.get(key) {
        Some(TomlValue::Integer(v)) => match range {
            Some((lo, hi)) => {
                let bounds: Range<i64> = Range::new(Some(lo), Some(hi), None);
                #[verifier::truncate]
                (apply_range(*v, &bounds) as i32)
            },
            None => {
                #[verifier::truncate]
                (*v as i32)
            },
        },
        _ => cur,
    }
}

/// Reads a string-list field into `cur` (see [`read_strings_field`]).
pub fn get_strings(t: &TomlTable, key: &str, cur: &mut Vec<String>)
    ensures
        string_list_view(final(cur)@) == read_strings_field(t@, key@, string_list_view(old(cur)@)),
{
    match t.get(key) {
        Some(TomlValue::Array(items)) => {
            proof { lemma_items_data(items@, items@.len() as int); }
            *cur = strings_of_items(items);
        },
        _ => {},
    }
}

/// The entry `key = v`.
pub fn bool_entry(key: &str, v: bool) -> (e: TomlEntry)
    ensures
        e.key@ == key@,
        e.value@ == TomlData::Boolean(v),
{
    TomlEntry { key: key.to_owned(), value: TomlValue::Boolean(v) }
}

/// The entry `key = "v"`.
pub fn string_entry(key: &str, v: &String) -> (e: TomlEntry)
    ensures
        e.key@ == key@,
        e.value@ == TomlData::String(v@),
{
    TomlEntry { key: key.to_owned(), value: TomlValue::String(v.clone()) }
}

/// The entry `key = v` for a 32-bit integer.
pub fn int_entry(key: &str, v: i32) -> (e: TomlEntry)
    ensures
        e.key@ == key@,
        e.value@ == TomlData::Integer(v as i64),
{
    TomlEntry { key: key.to_owned(), value: TomlValue::Integer(v as i64) }
}

/// The entry `key = [..]` for a string list.
pub fn strings_entry(key: &str, v: &Vec<String>) -> (e: TomlEntry)
    ensures
        e.key@ == key@,
        e.value@ == strings_array(string_list_view(v@)),
{
    let mut items: Vec<TomlValue> = Vec::new();
    let mut i: usize = 0;
    while i < v.len()
        invariant
            0 <= i <= v.len(),
            items@.len() == i,
            forall|j: int| 0 <= j < i ==> #[trigger] items@[j] == TomlValue::String(v@[j]),
        decreases v.len() - i,
    {
        items.push(TomlValue::String(v[i].clone()));
        i += 1;
    }
    proof {
        lemma_items_data(items@, items@.len() as int);
        assert(items_data(items@, items@.len() as int) =~= string_list_view(v@).map_values(|s: Seq<char>| TomlData::String(s)));
    }
    TomlEntry { key: key.to_owned(), value: TomlValue::Array(items) }
}

} // verus!
