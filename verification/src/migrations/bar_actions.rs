//! Bar gesture bindings: the old middle-click setting and the dead-zone commands.

use vstd::prelude::*;
use crate::value::{
    TomlTable, TomlValue, TomlData, TableData, lookup, lookup_table, table_insert, table_remove,
    has_key, update_subtable, map_subtables, gather_all, gather_subtables, lemma_insert_at,
    lemma_lookup_at, lemma_insert_lookup, lemma_remove_lookup, lemma_update_subtable_other,
    lemma_update_subtable_same, lemma_update_subtable_id, lemma_map_silent_fixed, lemma_gather_after_map,
};
use crate::text::concat;
use crate::migrations::notes::{MigrationNote, notes_view, append_notes, paths_view};
use crate::migrations::bindings::{
    spec_bind_action, binds_gesture, bool_or_true, command_chain, command_chain_notes,
    bind_action, move_commands, lemma_command_chain_silent, lemma_command_chain_quiet_after,
};
use crate::migrations::settled::lemma_section_keys_apart;

verus! {

// ---- configuration version 3: middle_click_opens_widget_settings ----

/// The legacy shell setting that the version 3 migration removes.
pub open spec fn middle_click_key() -> Seq<char> {
    "middle_click_opens_widget_settings"@
}

/// The bar table, given a `default` bar when it has none.
pub open spec fn bars_with_default(bars: TableData) -> TableData {
    if bars.len() == 0 { table_insert(bars, "default"@, TomlData::Table(Seq::empty())) } else { bars }
}

/// Applied to each bar: its middle click is bound to `none` unless bound already.
pub open spec fn middle_binding_step() -> spec_fn(Seq<char>, TableData) -> TableData {
    |name: Seq<char>, bar: TableData| spec_bind_action(bar, "middle"@, "none"@)
}

/// The path reported for a bar whose middle click was bound.
pub open spec fn middle_binding_paths_step() -> spec_fn(Seq<char>, TableData) -> Seq<Seq<char>> {
    |name: Seq<char>, bar: TableData|
        if binds_gesture(bar, "middle"@) { seq!["bar."@ + name + ".actions"@] } else { Seq::empty() }
}

/// Applied to the bar table.
pub open spec fn middle_binding_bars_step() -> spec_fn(TableData) -> TableData {
    |bars: TableData| map_subtables(bars_with_default(bars), middle_binding_step())
}

/// The document without the legacy shell setting (the shell table is `sh`).
pub open spec fn without_middle_click(root: TableData, sh: TableData) -> TableData {
    table_insert(root, "shell"@, TomlData::Table(table_remove(sh, middle_click_key())))
}

/// The document with a `bar` table, created empty when missing.
pub open spec fn with_bar_table(r: TableData) -> TableData {
    if has_key(r, "bar"@) { r } else { table_insert(r, "bar"@, TomlData::Table(Seq::empty())) }
}

/// The document after the version 3 migration: the legacy setting is removed;
/// when it was `false`, every bar (a `default` one when there is none) binds
/// its middle click to `none` unless it binds it already.
pub open spec fn spec_migrate_widget_actions(root: TableData) -> TableData {
    match lookup_table(root, "shell"@) {
        None => root,
        Some(sh) => if !has_key(sh, middle_click_key()) {
            root
        } else if bool_or_true(lookup(sh, middle_click_key())) {
            without_middle_click(root, sh)
        } else {
            update_subtable(with_bar_table(without_middle_click(root, sh)), "bar"@, middle_binding_bars_step())
        },
    }
}

/// The paths that the version 3 migration reports: `shell`, then each bar
/// whose middle click it bound.
pub open spec fn widget_actions_paths(root: TableData) -> Seq<Seq<char>> {
    match lookup_table(root, "shell"@) {
        None => Seq::empty(),
        Some(sh) => if !has_key(sh, middle_click_key()) {
            Seq::empty()
        } else if bool_or_true(lookup(sh, middle_click_key())) {
            seq!["shell"@]
        } else {
            seq!["shell"@] + match lookup_table(with_bar_table(without_middle_click(root, sh)), "bar"@) {
                Some(bars) => gather_all(bars_with_default(bars), middle_binding_paths_step()),
                None => Seq::empty(),
            }
        },
    }
}

fn bind_middle_in_bars(bars: &mut TomlTable) -> (paths: Vec<String>)
    ensures
        final(bars)@ == map_subtables(old(bars)@, middle_binding_step()),
        paths_view(paths@) == gather_all(old(bars)@, middle_binding_paths_step()),
{
    let ghost t0 = bars@;
    let mut paths: Vec<String> = Vec::new();
    let n = bars.len();
    let mut i: usize = 0;
    assert(paths_view(paths@) =~= Seq::<Seq<char>>::empty());
    while i < n
        invariant
            n == t0.len(),
            0 <= i <= n,
            bars@.len() == n,
            forall|j: int| 0 <= j < i ==> #[trigger] bars@[j] == map_subtables(t0, middle_binding_step())[j],
            forall|j: int| i <= j < n ==> #[trigger] bars@[j] == t0[j],
            paths_view(paths@) == gather_subtables(t0, middle_binding_paths_step(), i as int),
        decreases n - i,
    {
        let name = bars.key_at(i).to_owned();
        let v = bars.replace_value_at(i, TomlValue::Boolean(false));
        match v {
            TomlValue::Table(mut bar) => {
                let bound = bind_action(&mut bar, "middle", "none".to_owned());
                bars.restore_table(i, bar);
                if bound {
                    let a = concat("bar.", name.as_str());
                    let p = concat(a.as_str(), ".actions");
                    let ghost before = paths@;
                    paths.push(p);
                    assert(paths_view(paths@) =~= paths_view(before) + seq!["bar."@ + name@ + ".actions"@]);
                } else {
                    assert(paths_view(paths@) =~= paths_view(paths@) + Seq::<Seq<char>>::empty());
                }
            },
            other => {
                bars.replace_value_at(i, other);
                assert(paths_view(paths@) =~= paths_view(paths@) + Seq::<Seq<char>>::empty());
            },
        }
        i += 1;
    }
    assert(bars@ =~= map_subtables(t0, middle_binding_step()));
    paths
}

/// Removes the legacy `shell.middle_click_opens_widget_settings`; when it was
/// `false`, binds the middle click of every bar (creating a `default` bar when
/// there is none) to `none`, keeping bindings that exist. Returns `shell`, then
/// the `actions` path of each bar bound.
pub fn migrate_widget_actions(root: &mut TomlTable) -> (paths: Vec<String>)
    ensures
        final(root)@ == spec_migrate_widget_actions(old(root)@),
        paths_view(paths@) == widget_actions_paths(old(root)@),
{
    let ghost r0 = root@;
    let mut paths: Vec<String> = Vec::new();
    let (si, mut shell) = match root.take_table("shell") {
        None => {
            assert(paths_view(paths@) =~= Seq::<Seq<char>>::empty());
            return paths;
        },
        Some(found) => found,
    };
    let ghost sh0 = shell@;
    proof { lemma_lookup_at(r0, "shell"@, si as int); }
    if !shell.contains_key("middle_click_opens_widget_settings") {
        root.restore_table(si, shell);
        assert(root@ =~= r0);
        assert(paths_view(paths@) =~= Seq::<Seq<char>>::empty());
        return paths;
    }
    let removed = shell.remove("middle_click_opens_widget_settings");
    let was_enabled = match removed {
        Some(TomlValue::Boolean(b)) => b,
        _ => true,
    };
    root.restore_table(si, shell);
    proof { lemma_insert_at(r0, "shell"@, si as int, TomlData::Table(table_remove(sh0, middle_click_key()))); }
    assert(root@ =~= without_middle_click(r0, sh0));
    paths.push("shell".to_owned());
    assert(paths_view(paths@) =~= seq!["shell"@]);
    if was_enabled {
        return paths;
    }
    if !root.contains_key("bar") {
        root.insert("bar".to_owned(), TomlValue::Table(TomlTable::new()));
    }
    let ghost r2 = root@;
    assert(r2 == with_bar_table(without_middle_click(r0, sh0)));
    match root.take_table("bar") {
        None => {},
        Some((bi, mut bars)) => {
            let ghost b0 = bars@;
            if bars.is_empty() {
                bars.insert("default".to_owned(), TomlValue::Table(TomlTable::new()));
            }
            assert(bars@ == bars_with_default(b0));
            let more = bind_middle_in_bars(&mut bars);
            root.restore_table(bi, bars);
            proof {
                lemma_insert_at(r2, "bar"@, bi as int, TomlData::Table(map_subtables(bars_with_default(b0), middle_binding_step())));
            }
            append_paths_local(&mut paths, more);
        },
    }
    paths
}

fn append_paths_local(dst: &mut Vec<String>, src: Vec<String>)
    ensures
        paths_view(final(dst)@) == paths_view(old(dst)@) + paths_view(src@),
{
    crate::migrations::notes::append_paths(dst, src);
}

// ---- configuration version 7: dead-zone commands ----

/// Applied to a dead-zone table.
pub open spec fn dead_zone_step() -> spec_fn(TableData) -> TableData {
    |dz: TableData| command_chain(dz)
}

/// A bar or monitor table with the commands of its `dead_zone` moved to bindings.
pub open spec fn migrate_owner_dead_zone(owner: TableData) -> TableData {
    update_subtable(owner, "dead_zone"@, dead_zone_step())
}

/// The notes for the dead zone of the bar or monitor table at `path`.
pub open spec fn owner_dead_zone_notes(owner: TableData, path: Seq<char>) -> Seq<(Seq<char>, Seq<char>)> {
    match lookup_table(owner, "dead_zone"@) {
        Some(dz) => command_chain_notes(dz, path + ".dead_zone"@, " binding"@),
        None => Seq::empty(),
    }
}

/// Applied to each monitor override.
pub open spec fn monitor_dead_zone_step() -> spec_fn(Seq<char>, TableData) -> TableData {
    |name: Seq<char>, mon: TableData| migrate_owner_dead_zone(mon)
}

/// Applied to the monitor table of a bar.
pub open spec fn monitors_dead_zone_step() -> spec_fn(TableData) -> TableData {
    |m: TableData| map_subtables(m, monitor_dead_zone_step())
}

/// Gives the notes of each monitor override of the bar at `bar_path`.
pub open spec fn monitor_dead_zone_notes_step(bar_path: Seq<char>) -> spec_fn(Seq<char>, TableData) -> Seq<(Seq<char>, Seq<char>)> {
    |name: Seq<char>, mon: TableData| owner_dead_zone_notes(mon, bar_path + ".monitor."@ + name)
}

/// One bar after the version 7 migration.
pub open spec fn dead_zone_bar(bar: TableData) -> TableData {
    update_subtable(migrate_owner_dead_zone(bar), "monitor"@, monitors_dead_zone_step())
}

/// The notes of one bar under the version 7 migration.
pub open spec fn dead_zone_bar_notes(name: Seq<char>, bar: TableData) -> Seq<(Seq<char>, Seq<char>)> {
    let bar_path = "bar."@ + name;
    owner_dead_zone_notes(bar, bar_path) + match lookup_table(migrate_owner_dead_zone(bar), "monitor"@) {
        Some(m) => gather_all(m, monitor_dead_zone_notes_step(bar_path)),
        None => Seq::empty(),
    }
}

/// Applied to each bar.
pub open spec fn dead_zone_bar_step() -> spec_fn(Seq<char>, TableData) -> TableData {
    |name: Seq<char>, bar: TableData| dead_zone_bar(bar)
}

/// Gives the notes of each bar.
pub open spec fn dead_zone_bar_notes_step() -> spec_fn(Seq<char>, TableData) -> Seq<(Seq<char>, Seq<char>)> {
    |name: Seq<char>, bar: TableData| dead_zone_bar_notes(name, bar)
}

/// Applied to the bar table.
pub open spec fn dead_zone_bars_step() -> spec_fn(TableData) -> TableData {
    |bars: TableData| map_subtables(bars, dead_zone_bar_step())
}

/// The document after the version 7 migration.
pub open spec fn spec_migrate_dead_zone_actions(root: TableData) -> TableData {
    update_subtable(root, "bar"@, dead_zone_bars_step())
}

/// The notes of the version 7 migration, in document order.
pub open spec fn dead_zone_actions_notes(root: TableData) -> Seq<(Seq<char>, Seq<char>)> {
    match lookup_table(root, "bar"@) {
        Some(bars) => gather_all(bars, dead_zone_bar_notes_step()),
        None => Seq::empty(),
    }
}

fn migrate_owner(owner: &mut TomlTable, path: &str) -> (notes: Vec<MigrationNote>)
    ensures
        final(owner)@ == migrate_owner_dead_zone(old(owner)@),
        notes_view(notes@) == owner_dead_zone_notes(old(owner)@, path@),
{
    let ghost o0 = owner@;
    match owner.take_table("dead_zone") {
        None => {
            let notes: Vec<MigrationNote> = Vec::new();
            assert(notes_view(notes@) =~= Seq::<(Seq<char>, Seq<char>)>::empty());
            notes
        },
        Some((di, mut dz)) => {
            let dz_path = concat(path, ".dead_zone");
            let ghost d0 = dz@;
            let notes = move_commands(&mut dz, dz_path.as_str(), " binding");
            owner.restore_table(di, dz);
            proof { lemma_insert_at(o0, "dead_zone"@, di as int, TomlData::Table(command_chain(d0))); }
            notes
        },
    }
}

fn migrate_monitor_dead_zones(monitors: &mut TomlTable, bar_path: &str) -> (notes: Vec<MigrationNote>)
    ensures
        final(monitors)@ == map_subtables(old(monitors)@, monitor_dead_zone_step()),
        notes_view(notes@) == gather_all(old(monitors)@, monitor_dead_zone_notes_step(bar_path@)),
{
    let ghost t0 = monitors@;
    let mut notes: Vec<MigrationNote> = Vec::new();
    let n = monitors.len();
    let mut i: usize = 0;
    assert(notes_view(notes@) =~= Seq::<(Seq<char>, Seq<char>)>::empty());
    while i < n
        invariant
            n == t0.len(),
            0 <= i <= n,
            monitors@.len() == n,
            forall|j: int| 0 <= j < i ==> #[trigger] monitors@[j] == map_subtables(t0, monitor_dead_zone_step())[j],
            forall|j: int| i <= j < n ==> #[trigger] monitors@[j] == t0[j],
            notes_view(notes@) == gather_subtables(t0, monitor_dead_zone_notes_step(bar_path@), i as int),
        decreases n - i,
    {
        let name = monitors.key_at(i).to_owned();
        let v = monitors.replace_value_at(i, TomlValue::Boolean(false));
        match v {
            TomlValue::Table(mut mon) => {
                let a = concat(bar_path, ".monitor.");
                let p = concat(a.as_str(), name.as_str());
                assert(p@ =~= bar_path@ + ".monitor."@ + name@);
                let more = migrate_owner(&mut mon, p.as_str());
                monitors.restore_table(i, mon);
                append_notes(&mut notes, more);
            },
            other => {
                monitors.replace_value_at(i, other);
                assert(notes_view(notes@) =~= notes_view(notes@) + Seq::<(Seq<char>, Seq<char>)>::empty());
            },
        }
        i += 1;
    }
    assert(monitors@ =~= map_subtables(t0, monitor_dead_zone_step()));
    notes
}

fn migrate_dead_zone_bar(bar: &mut TomlTable, name: &str) -> (notes: Vec<MigrationNote>)
    ensures
        final(bar)@ == dead_zone_bar(old(bar)@),
        notes_view(notes@) == dead_zone_bar_notes(name@, old(bar)@),
{
    let bar_path = concat("bar.", name);
    let mut notes = migrate_owner(bar, bar_path.as_str());
    let ghost b1 = bar@;
    match bar.take_table("monitor") {
        Some((mi, mut monitors)) => {
            let ghost m0 = monitors@;
            let more = migrate_monitor_dead_zones(&mut monitors, bar_path.as_str());
            bar.restore_table(mi, monitors);
            proof { lemma_insert_at(b1, "monitor"@, mi as int, TomlData::Table(map_subtables(m0, monitor_dead_zone_step()))); }
            append_notes(&mut notes, more);
        },
        None => {
            assert(notes_view(notes@) =~= notes_view(notes@) + Seq::<(Seq<char>, Seq<char>)>::empty());
        },
    }
    notes
}

/// Moves the five legacy command keys of the dead zone of every bar and bar
/// monitor override to gesture bindings.
pub fn migrate_dead_zone_actions(root: &mut TomlTable) -> (notes: Vec<MigrationNote>)
    ensures
        final(root)@ == spec_migrate_dead_zone_actions(old(root)@),
        notes_view(notes@) == dead_zone_actions_notes(old(root)@),
{
    let ghost r0 = root@;
    let mut notes: Vec<MigrationNote> = Vec::new();
    match root.take_table("bar") {
        None => {
            assert(notes_view(notes@) =~= Seq::<(Seq<char>, Seq<char>)>::empty());
            return notes;
        },
        Some((bi, mut bars)) => {
            let ghost t0 = bars@;
            let n = bars.len();
            let mut i: usize = 0;
            assert(notes_view(notes@) =~= Seq::<(Seq<char>, Seq<char>)>::empty());
            while i < n
                invariant
                    n == t0.len(),
                    0 <= i <= n,
                    bars@.len() == n,
                    forall|j: int| 0 <= j < i ==> #[trigger] bars@[j] == map_subtables(t0, dead_zone_bar_step())[j],
                    forall|j: int| i <= j < n ==> #[trigger] bars@[j] == t0[j],
                    notes_view(notes@) == gather_subtables(t0, dead_zone_bar_notes_step(), i as int),
                decreases n - i,
            {
                let name = bars.key_at(i).to_owned();
                let v = bars.replace_value_at(i, TomlValue::Boolean(false));
                match v {
                    TomlValue::Table(mut bar) => {
                        let more = migrate_dead_zone_bar(&mut bar, name.as_str());
                        bars.restore_table(i, bar);
                        append_notes(&mut notes, more);
                    },
                    other => {
                        bars.replace_value_at(i, other);
                        assert(notes_view(notes@) =~= notes_view(notes@) + Seq::<(Seq<char>, Seq<char>)>::empty());
                    },
                }
                i += 1;
            }
            assert(bars@ =~= map_subtables(t0, dead_zone_bar_step()));
            root.restore_table(bi, bars);
            proof { lemma_insert_at(r0, "bar"@, bi as int, TomlData::Table(map_subtables(t0, dead_zone_bar_step()))); }
        },
    }
    notes
}


// ---- what the migrations leave behind ----

/// After the version 3 migration there is nothing left for it to do.
pub proof fn lemma_widget_actions_quiet_after(root: TableData)
    ensures
        widget_actions_paths(spec_migrate_widget_actions(root)).len() == 0,
{
    lemma_section_keys_apart();
    if let Some(sh) = lookup_table(root, "shell"@) {
        if has_key(sh, middle_click_key()) {
            let sh1 = table_remove(sh, middle_click_key());
            let r1 = without_middle_click(root, sh);
            lemma_insert_lookup(root, "shell"@, TomlData::Table(sh1), "shell"@);
            lemma_remove_lookup(sh, middle_click_key(), middle_click_key());
            if !bool_or_true(lookup(sh, middle_click_key())) {
                let r2 = with_bar_table(r1);
                if !has_key(r1, "bar"@) {
                    lemma_insert_lookup(r1, "bar"@, TomlData::Table(Seq::empty()), "shell"@);
                }
                lemma_update_subtable_other(r2, "bar"@, middle_binding_bars_step(), "shell"@);
            }
        }
    }
}

/// The notes of a dead zone are none exactly when it holds no command key;
/// without notes the owner is left as it is.
pub proof fn lemma_owner_dead_zone_idle(owner: TableData, path: Seq<char>)
    requires
        owner_dead_zone_notes(owner, path).len() == 0,
    ensures
        migrate_owner_dead_zone(owner) == owner,
{
    if let Some(dz) = lookup_table(owner, "dead_zone"@) {
        lemma_command_chain_silent(dz, path + ".dead_zone"@, " binding"@);
    }
    lemma_update_subtable_id(owner, "dead_zone"@, dead_zone_step());
}

/// After its dead zone is migrated, an owner gives no more notes.
pub proof fn lemma_owner_dead_zone_quiet_after(owner: TableData, path: Seq<char>)
    ensures
        owner_dead_zone_notes(migrate_owner_dead_zone(owner), path).len() == 0,
{
    lemma_update_subtable_same(owner, "dead_zone"@, dead_zone_step());
    if let Some(dz) = lookup_table(owner, "dead_zone"@) {
        lemma_command_chain_quiet_after(dz, path + ".dead_zone"@, " binding"@);
    }
}

proof fn lemma_dead_zone_keys_apart()
    ensures
        "dead_zone"@ != "monitor"@,
{
    reveal_strlit("dead_zone");
    reveal_strlit("monitor");
    assert("dead_zone"@[0] == 'd' && "monitor"@[0] == 'm');
}

/// A bar that gives no notes is left as it is by the version 7 migration.
pub proof fn lemma_dead_zone_bar_idle(name: Seq<char>, bar: TableData)
    requires
        dead_zone_bar_notes(name, bar).len() == 0,
    ensures
        dead_zone_bar(bar) == bar,
{
    let bar_path = "bar."@ + name;
    lemma_owner_dead_zone_idle(bar, bar_path);
    if let Some(m) = lookup_table(bar, "monitor"@) {
        let g = monitor_dead_zone_notes_step(bar_path);
        assert forall|n: Seq<char>, mon: TableData| g(n, mon).len() == 0
            implies #[trigger] monitor_dead_zone_step()(n, mon) == mon by {
            lemma_owner_dead_zone_idle(mon, bar_path + ".monitor."@ + n);
        }
        lemma_map_silent_fixed(m, monitor_dead_zone_step(), g);
    }
    lemma_update_subtable_id(bar, "monitor"@, monitors_dead_zone_step());
}

/// A bar migrated by the version 7 migration gives no more notes.
pub proof fn lemma_dead_zone_bar_quiet_after(name: Seq<char>, bar: TableData)
    ensures
        dead_zone_bar_notes(name, dead_zone_bar(bar)).len() == 0,
{
    lemma_dead_zone_keys_apart();
    let bar_path = "bar."@ + name;
    let b1 = migrate_owner_dead_zone(bar);
    let b2 = dead_zone_bar(bar);
    lemma_owner_dead_zone_quiet_after(bar, bar_path);
    lemma_update_subtable_other(b1, "monitor"@, monitors_dead_zone_step(), "dead_zone"@);
    lemma_update_subtable_other(bar, "dead_zone"@, dead_zone_step(), "monitor"@);
    lemma_update_subtable_same(b1, "monitor"@, monitors_dead_zone_step());
    let b3 = migrate_owner_dead_zone(b2);
    lemma_update_subtable_other(b2, "dead_zone"@, dead_zone_step(), "monitor"@);
    if let Some(m) = lookup_table(b1, "monitor"@) {
        let g = monitor_dead_zone_notes_step(bar_path);
        assert forall|n: Seq<char>, mon: TableData| g(n, #[trigger] monitor_dead_zone_step()(n, mon)).len() == 0 by {
            lemma_owner_dead_zone_quiet_after(mon, bar_path + ".monitor."@ + n);
        }
        lemma_gather_after_map(m, monitor_dead_zone_step(), g);
    }
}

/// Without notes the version 7 migration changes nothing.
pub proof fn lemma_dead_zone_idle(root: TableData)
    requires
        dead_zone_actions_notes(root).len() == 0,
    ensures
        spec_migrate_dead_zone_actions(root) == root,
{
    if let Some(bars) = lookup_table(root, "bar"@) {
        assert forall|n: Seq<char>, bar: TableData| dead_zone_bar_notes_step()(n, bar).len() == 0
            implies #[trigger] dead_zone_bar_step()(n, bar) == bar by {
            lemma_dead_zone_bar_idle(n, bar);
        }
        lemma_map_silent_fixed(bars, dead_zone_bar_step(), dead_zone_bar_notes_step());
    }
    lemma_update_subtable_id(root, "bar"@, dead_zone_bars_step());
}

/// After the version 7 migration there is nothing left for it to do.
pub proof fn lemma_dead_zone_quiet_after(root: TableData)
    ensures
        dead_zone_actions_notes(spec_migrate_dead_zone_actions(root)).len() == 0,
{
    lemma_update_subtable_same(root, "bar"@, dead_zone_bars_step());
    if let Some(bars) = lookup_table(root, "bar"@) {
        assert forall|n: Seq<char>, bar: TableData|
            dead_zone_bar_notes_step()(n, #[trigger] dead_zone_bar_step()(n, bar)).len() == 0 by {
            lemma_dead_zone_bar_quiet_after(n, bar);
        }
        lemma_gather_after_map(bars, dead_zone_bar_step(), dead_zone_bar_notes_step());
    }
}

} // verus!
