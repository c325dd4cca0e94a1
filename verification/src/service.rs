//! The configuration service's table logic: user overrides addressed by a key
//! path, and the preparation of the merged document before it is read.

use vstd::prelude::*;
use crate::value::{TomlTable, TomlValue, TomlData, TableData, lookup, lookup_table, table_insert, table_remove, lemma_insert_at, lemma_lookup_at, lemma_insert_lookup, lemma_remove_lookup};
pub use crate::merge::deep_merge;
use crate::merge::spec_deep_merge;
use crate::migrations::{
    stored_config_version, current_config_version, config_migrations, apply_pending_config_migrations,
    spec_current_config_version,
};
use crate::schema::diagnostics::Diagnostics;
use crate::toml_text::{parse_toml_table, toml_parse};
use crate::cli::args_view;

verus! {

/// What an edit of the override table asks of the caller.
#[derive(Debug, Clone, Copy, PartialEq, Eq, Structural)]
pub enum OverrideEdit {
    /// The path is empty; nothing changed.
    Rejected,
    /// Nothing needed changing; the file need not be rewritten.
    Unchanged,
    /// The table changed; the override file must be rewritten.
    Changed,
}

/// The value at the key path `path`, following nested tables.
pub open spec fn lookup_path(t: TableData, path: Seq<Seq<char>>) -> Option<TomlData>
    decreases path.len(),
{
    if path.len() == 0 {
        None
    } else if path.len() == 1 {
        lookup(t, path[0])
    } else {
        match lookup_table(t, path[0]) {
            Some(sub) => lookup_path(sub, path.drop_first()),
            None => None,
        }
    }
}

/// The table under `k`, or an empty one when `k` holds no table.
pub open spec fn table_or_empty(t: TableData, k: Seq<char>) -> TableData {
    match lookup_table(t, k) {
        Some(sub) => sub,
        None => Seq::empty(),
    }
}

/// `t` with the key path `path` bound to `v`: intermediate keys that hold no
/// table are made (or replaced by) tables.
pub open spec fn spec_set_path(t: TableData, path: Seq<Seq<char>>, v: TomlData) -> TableData
    decreases path.len(),
{
    if path.len() <= 1 {
        if path.len() == 1 { table_insert(t, path[0], v) } else { t }
    } else {
        table_insert(t, path[0], TomlData::Table(spec_set_path(table_or_empty(t, path[0]), path.drop_first(), v)))
    }
}

/// Every intermediate key of `path` holds a table.
pub open spec fn path_reaches(t: TableData, path: Seq<Seq<char>>) -> bool
    decreases path.len(),
{
    if path.len() <= 1 {
        true
    } else {
        match lookup_table(t, path[0]) {
            Some(sub) => path_reaches(sub, path.drop_first()),
            None => false,
        }
    }
}

/// `t` with the last key of `path` removed from the table that the rest of it
/// leads to (assuming [`path_reaches`]).
pub open spec fn spec_clear_path(t: TableData, path: Seq<Seq<char>>) -> TableData
    decreases path.len(),
{
    if path.len() <= 1 {
        if path.len() == 1 { table_remove(t, path[0]) } else { t }
    } else {
        match lookup_table(t, path[0]) {
            Some(sub) => table_insert(t, path[0], TomlData::Table(spec_clear_path(sub, path.drop_first()))),
            None => t,
        }
    }
}

fn set_path_from(t: &mut TomlTable, path: &[String], i: usize, v: TomlValue)
    requires
        i < path@.len(),
    ensures
        final(t)@ == spec_set_path(old(t)@, args_view(path@).skip(i as int), v@),
    decreases path@.len() - i,
{
    let ghost pv = args_view(path@).skip(i as int);
    let ghost vv = v@;
    let ghost t0 = t@;
    assert(pv[0] == path@[i as int]@);
    if i == path.len() - 1 {
        t.insert(path[i].clone(), v);
        return;
    }
    assert(pv.drop_first() =~= args_view(path@).skip(i as int + 1));
    let key = path[i].as_str();
    match t.take_table(key) {
        Some((si, mut sub)) => {
            let ghost s0 = sub@;
            set_path_from(&mut sub, path, i + 1, v);
            t.restore_table(si, sub);
            proof { lemma_insert_at(t0, key@, si as int, TomlData::Table(spec_set_path(s0, pv.drop_first(), vv))); }
        },
        None => {
            let mut sub = TomlTable::new();
            set_path_from(&mut sub, path, i + 1, v);
            t.insert(key.to_owned(), TomlValue::Table(sub));
        },
    }
}

/// Binds the key path `path` of the override table to `value`, creating or
/// replacing intermediate tables; `Rejected` for an empty path, `Changed`
/// otherwise (the override file must then be rewritten).
pub fn set_override_value(overrides: &mut TomlTable, path: &[String], value: TomlValue) -> (r: OverrideEdit)
    ensures
        path@.len() == 0 ==> r == OverrideEdit::Rejected && final(overrides)@ == old(overrides)@,
        path@.len() > 0 ==> r == OverrideEdit::Changed
            && final(overrides)@ == spec_set_path(old(overrides)@, args_view(path@), value@),
{
    if path.len() == 0 {
        return OverrideEdit::Rejected;
    }
    set_path_from(overrides, path, 0, value);
    assert(args_view(path@).skip(0) =~= args_view(path@));
    OverrideEdit::Changed
}

fn clear_path_from(t: &mut TomlTable, path: &[String], i: usize) -> (reached: bool)
    requires
        i < path@.len(),
    ensures
        reached == path_reaches(old(t)@, args_view(path@).skip(i as int)),
        final(t)@ == spec_clear_path(old(t)@, args_view(path@).skip(i as int)),
    decreases path@.len() - i,
{
    let ghost pv = args_view(path@).skip(i as int);
    let ghost t0 = t@;
    assert(pv[0] == path@[i as int]@);
    if i == path.len() - 1 {
        t.remove(path[i].as_str());
        return true;
    }
    assert(pv.drop_first() =~= args_view(path@).skip(i as int + 1));
    let key = path[i].as_str();
    match t.take_table(key) {
        Some((si, mut sub)) => {
            let ghost s0 = sub@;
            let reached = clear_path_from(&mut sub, path, i + 1);
            t.restore_table(si, sub);
            proof { lemma_insert_at(t0, key@, si as int, TomlData::Table(spec_clear_path(s0, pv.drop_first()))); }
            reached
        },
        None => false,
    }
}

/// Removes the override at the key path `path`. `Rejected` for an empty path;
/// `Unchanged` when an intermediate key holds no table (the table is left as
/// it was); `Changed` otherwise, the last key being removed whether or not it
/// was set.
pub fn clear_override(overrides: &mut TomlTable, path: &[String]) -> (r: OverrideEdit)
    ensures
        path@.len() == 0 ==> r == OverrideEdit::Rejected && final(overrides)@ == old(overrides)@,
        path@.len() > 0 && !path_reaches(old(overrides)@, args_view(path@)) ==> r == OverrideEdit::Unchanged
            && final(overrides)@ == old(overrides)@,
        path@.len() > 0 && path_reaches(old(overrides)@, args_view(path@)) ==> r == OverrideEdit::Changed,
        path@.len() > 0 ==> final(overrides)@ == spec_clear_path(old(overrides)@, args_view(path@)),
{
    if path.len() == 0 {
        return OverrideEdit::Rejected;
    }
    let reached = clear_path_from(overrides, path, 0);
    assert(args_view(path@).skip(0) =~= args_view(path@));
    proof {
        if !reached {
            lemma_clear_unreached(old(overrides)@, args_view(path@));
        }
    }
    if reached { OverrideEdit::Changed } else { OverrideEdit::Unchanged }
}

proof fn lemma_clear_unreached(t: TableData, path: Seq<Seq<char>>)
    requires
        !path_reaches(t, path),
    ensures
        spec_clear_path(t, path) == t,
    decreases path.len(),
{
    match lookup_table(t, path[0]) {
        Some(sub) => {
            lemma_clear_unreached(sub, path.drop_first());
            crate::value::lemma_has_key_first(t, path[0]);
            let i = crate::value::key_index(t, path[0]);
            lemma_lookup_at(t, path[0], i);
            lemma_insert_at(t, path[0], i, TomlData::Table(sub));
            assert(t.update(i, (path[0], TomlData::Table(sub))) =~= t);
        },
        None => {},
    }
}

/// A value just set at a key path reads back from it.
pub proof fn lemma_override_read_after_set(t: TableData, path: Seq<Seq<char>>, v: TomlData)
    requires
        path.len() > 0,
    ensures
        lookup_path(spec_set_path(t, path, v), path) == Some(v),
    decreases path.len(),
{
    if path.len() == 1 {
        lemma_insert_lookup(t, path[0], v, path[0]);
    } else {
        let sub = spec_set_path(table_or_empty(t, path[0]), path.drop_first(), v);
        lemma_insert_lookup(t, path[0], TomlData::Table(sub), path[0]);
        lemma_override_read_after_set(table_or_empty(t, path[0]), path.drop_first(), v);
    }
}

/// After a cleared key path, nothing reads from it.
pub proof fn lemma_override_cleared(t: TableData, path: Seq<Seq<char>>)
    requires
        path.len() > 0,
    ensures
        lookup_path(spec_clear_path(t, path), path) is None,
    decreases path.len(),
{
    if path.len() == 1 {
        lemma_remove_lookup(t, path[0], path[0]);
    } else {
        match lookup_table(t, path[0]) {
            Some(sub) => {
                lemma_insert_lookup(t, path[0], TomlData::Table(spec_clear_path(sub, path.drop_first())), path[0]);
                lemma_override_cleared(sub, path.drop_first());
            },
            None => {},
        }
    }
}

/// Takes in the text read from the settings override file: when it is valid
/// TOML its table becomes the overrides; otherwise the overrides are kept.
pub fn refresh_overrides(overrides: &mut TomlTable, text: &str)
    ensures
        final(overrides)@ == match toml_parse(text@) {
            Some(t) => t,
            None => old(overrides)@,
        },
{
    match parse_toml_table(text) {
        Ok(t) => {
            *overrides = t;
        },
        Err(_) => {},
    }
}

/// The document that configuration is read from: `merged` with the overrides
/// laid over it, then migrated from its stored version when that is older
/// than the current one (an unreadable version counts as 0).
pub fn prepare_document(merged: &mut TomlTable, overrides: &TomlTable, diag: &mut Diagnostics)
    ensures
        ({
            let d = spec_deep_merge(old(merged)@, overrides@);
            let stored = match crate::value::lookup(d, "config_version"@) {
                None => 0,
                Some(TomlData::Integer(v)) => if 0 <= v <= spec_current_config_version() { v as i32 } else { 0 },
                Some(_) => 0,
            };
            final(merged)@ == if stored < spec_current_config_version() {
                crate::migrations::migrated_from(d, stored)
            } else {
                d
            }
        }),
{
    deep_merge(merged, overrides);
    let ghost d = merged@;
    let stored = match stored_config_version(merged, diag) {
        Some(v) => v,
        None => 0,
    };
    if stored < current_config_version() {
        let ms = config_migrations();
        apply_pending_config_migrations(merged, stored, diag, ms.as_slice());
        proof { crate::migrations::lemma_registry_pending(ms@, stored, d, ms@.len() as int); }
    }
}

} // verus!
