//! Legacy sunset/sunrise schedules opt into `custom_schedule`.

use vstd::prelude::*;
use crate::value::{TomlTable, TomlValue, TomlData, TableData, lookup, lookup_str, lookup_table, table_insert, has_key, lemma_insert_at, lemma_lookup_at, lemma_insert_lookup};
use crate::migrations::notes::paths_view;

verus! {

/// The value is a number (an integer or a float).
pub open spec fn is_number(v: Option<TomlData>) -> bool {
    match v {
        Some(TomlData::Integer(_)) => true,
        Some(TomlData::Float(_)) => true,
        _ => false,
    }
}

/// The value is a non-empty string.
pub open spec fn is_nonempty_str(v: Option<Seq<char>>) -> bool {
    match v {
        Some(s) => s.len() > 0,
        None => false,
    }
}

/// A location table whose sunset/sunrise used to schedule on their own: both
/// are non-empty strings, `custom_schedule` is absent, and the location is
/// neither located automatically, nor given by address, nor by coordinates.
pub open spec fn custom_schedule_applies(loc: TableData) -> bool {
    &&& !has_key(loc, "custom_schedule"@)
    &&& is_nonempty_str(lookup_str(loc, "sunset"@))
    &&& is_nonempty_str(lookup_str(loc, "sunrise"@))
    &&& lookup(loc, "auto_locate"@) != Some(TomlData::Boolean(true))
    &&& !is_nonempty_str(lookup_str(loc, "address"@))
    &&& !(is_number(lookup(loc, "latitude"@)) && is_number(lookup(loc, "longitude"@)))
}

/// The migration applies to the document.
pub open spec fn custom_schedule_pending(root: TableData) -> bool {
    match lookup_table(root, "location"@) {
        Some(loc) => custom_schedule_applies(loc),
        None => false,
    }
}

/// The document after the version 2 migration.
pub open spec fn spec_migrate_custom_schedule(root: TableData) -> TableData {
    if custom_schedule_pending(root) {
        table_insert(root, "location"@, TomlData::Table(table_insert(lookup_table(root, "location"@).unwrap(), "custom_schedule"@, TomlData::Boolean(true))))
    } else {
        root
    }
}

/// The paths that the version 2 migration reports.
pub open spec fn custom_schedule_paths(root: TableData) -> Seq<Seq<char>> {
    if custom_schedule_pending(root) { seq!["location"@] } else { Seq::empty() }
}

fn is_nonempty_string(v: Option<&TomlValue>) -> (b: bool)
    ensures
        b == is_nonempty_str(match v { Some(x) => match x@ { TomlData::String(s) => Some(s), _ => None }, None => None }),
{
    match v {
        Some(x) => match x.as_str() {
            Some(s) => !s.is_empty(),
            None => false,
        },
        None => false,
    }
}

fn is_number_value(v: Option<&TomlValue>) -> (b: bool)
    ensures
        b == is_number(match v { Some(x) => Some(x@), None => None }),
{
    match v {
        Some(TomlValue::Integer(_)) => true,
        Some(TomlValue::Float(_)) => true,
        _ => false,
    }
}

fn custom_schedule_applies_exec(loc: &TomlTable) -> (b: bool)
    ensures
        b == custom_schedule_applies(loc@),
{
    if loc.contains_key("custom_schedule") {
        return false;
    }
    if !is_nonempty_string(loc.get("sunset")) || !is_nonempty_string(loc.get("sunrise")) {
        return false;
    }
    let auto_locate = match loc.get("auto_locate") {
        Some(v) => match v.as_bool() {
            Some(b) => b,
            None => false,
        },
        None => false,
    };
    let has_address = is_nonempty_string(loc.get("address"));
    let has_coordinates = is_number_value(loc.get("latitude")) && is_number_value(loc.get("longitude"));
    !(auto_locate || has_address || has_coordinates)
}

/// Sets `custom_schedule = true` on a location whose sunset and sunrise used
/// to schedule on their own; returns `["location"]` when it did, else nothing.
pub fn migrate_custom_schedule(root: &mut TomlTable) -> (paths: Vec<String>)
    ensures
        final(root)@ == spec_migrate_custom_schedule(old(root)@),
        paths_view(paths@) == custom_schedule_paths(old(root)@),
{
    let ghost r0 = root@;
    let mut paths: Vec<String> = Vec::new();
    match root.take_table("location") {
        None => {},
        Some((li, mut loc)) => {
            proof { lemma_lookup_at(r0, "location"@, li as int); }
            let ghost l0 = loc@;
            if custom_schedule_applies_exec(&loc) {
                loc.insert("custom_schedule".to_owned(), TomlValue::Boolean(true));
                root.restore_table(li, loc);
                proof {
                    lemma_insert_at(r0, "location"@, li as int, TomlData::Table(table_insert(l0, "custom_schedule"@, TomlData::Boolean(true))));
                }
                paths.push("location".to_owned());
                assert(paths_view(paths@) =~= seq!["location"@]);
            } else {
                root.restore_table(li, loc);
                assert(root@ =~= r0);
            }
        },
    }
    assert(paths_view(paths@) =~= custom_schedule_paths(r0));
    paths
}


/// After the version 2 migration there is nothing left for it to do.
pub proof fn lemma_custom_schedule_quiet_after(root: TableData)
    ensures
        !custom_schedule_pending(spec_migrate_custom_schedule(root)),
{
    if custom_schedule_pending(root) {
        let loc = lookup_table(root, "location"@).unwrap();
        let cs = "custom_schedule"@;
        lemma_insert_lookup(root, "location"@, TomlData::Table(table_insert(loc, cs, TomlData::Boolean(true))), "location"@);
        lemma_insert_lookup(loc, cs, TomlData::Boolean(true), cs);
    }
}

} // verus!
