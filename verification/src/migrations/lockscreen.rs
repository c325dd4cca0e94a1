//! The removed `show_password_hint` setting of lock-screen login boxes.

use vstd::prelude::*;
use crate::value::{
    TomlTable, TomlValue, TomlData, TableData, lookup_table, table_remove, has_key,
    update_subtable, map_subtables, gather_all, gather_subtables, lemma_insert_at, lemma_remove_absent,
    lemma_remove_lookup, lemma_update_subtable_id, lemma_update_subtable_other, lemma_update_subtable_same,
    lemma_map_silent_fixed, lemma_gather_after_map,
};
use crate::text::{concat, str_equal, starts_with};
use crate::migrations::notes::paths_view;
use crate::migrations::bindings::str_or;
use crate::value::lookup;

verus! {

/// A lock-screen widget is a login box: by its type, or by its id.
pub open spec fn is_login_box(id: Seq<char>, w: TableData) -> bool {
    str_or(lookup(w, "type"@), Seq::empty()) == "login_box"@ || "lockscreen-login-box@"@.is_prefix_of(id)
}

/// Applied to the settings table of a login box.
pub open spec fn drop_hint_step() -> spec_fn(TableData) -> TableData {
    |settings: TableData| table_remove(settings, "show_password_hint"@)
}

/// One lock-screen widget after the version 8 migration.
pub open spec fn login_box_widget(id: Seq<char>, w: TableData) -> TableData {
    if is_login_box(id, w) { update_subtable(w, "settings"@, drop_hint_step()) } else { w }
}

/// The path reported for a login box whose hint setting was removed.
pub open spec fn login_box_paths(id: Seq<char>, w: TableData) -> Seq<Seq<char>> {
    if is_login_box(id, w) && match lookup_table(w, "settings"@) {
        Some(settings) => has_key(settings, "show_password_hint"@),
        None => false,
    } {
        seq!["lockscreen_widgets.widget."@ + id + ".settings"@]
    } else {
        Seq::empty()
    }
}

/// Applied to each lock-screen widget.
pub open spec fn login_box_step() -> spec_fn(Seq<char>, TableData) -> TableData {
    |id: Seq<char>, w: TableData| login_box_widget(id, w)
}

/// Gives the paths of each lock-screen widget.
pub open spec fn login_box_paths_step() -> spec_fn(Seq<char>, TableData) -> Seq<Seq<char>> {
    |id: Seq<char>, w: TableData| login_box_paths(id, w)
}

/// Applied to the widget table of the lock-screen section.
pub open spec fn login_box_widgets_step() -> spec_fn(TableData) -> TableData {
    |ws: TableData| map_subtables(ws, login_box_step())
}

/// Applied to the lock-screen section.
pub open spec fn lockscreen_section_step() -> spec_fn(TableData) -> TableData {
    |section: TableData| update_subtable(section, "widget"@, login_box_widgets_step())
}

/// The document after the version 8 migration.
pub open spec fn spec_migrate_login_box_settings(root: TableData) -> TableData {
    update_subtable(root, "lockscreen_widgets"@, lockscreen_section_step())
}

/// The paths that the version 8 migration reports, in document order.
pub open spec fn login_box_settings_paths(root: TableData) -> Seq<Seq<char>> {
    match lookup_table(root, "lockscreen_widgets"@) {
        Some(section) => match lookup_table(section, "widget"@) {
            Some(ws) => gather_all(ws, login_box_paths_step()),
            None => Seq::empty(),
        },
        None => Seq::empty(),
    }
}

fn is_login_box_exec(w: &TomlTable, id: &str) -> (b: bool)
    ensures
        b == is_login_box(id@, w@),
{
    let by_type = match w.get("type") {
        Some(v) => match v.as_str() {
            Some(t) => str_equal(t, "login_box"),
            None => str_equal("", "login_box"),
        },
        None => str_equal("", "login_box"),
    };
    proof { assert(""@ =~= Seq::<char>::empty()) by { reveal_strlit(""); } }
    by_type || starts_with(id, "lockscreen-login-box@")
}

fn drop_hint(w: &mut TomlTable, id: &str) -> (paths: Vec<String>)
    ensures
        final(w)@ == login_box_widget(id@, old(w)@),
        paths_view(paths@) == login_box_paths(id@, old(w)@),
{
    let ghost w0 = w@;
    let mut paths: Vec<String> = Vec::new();
    if !is_login_box_exec(w, id) {
        assert(paths_view(paths@) =~= Seq::<Seq<char>>::empty());
        return paths;
    }
    match w.take_table("settings") {
        None => {
            assert(paths_view(paths@) =~= Seq::<Seq<char>>::empty());
        },
        Some((si, mut settings)) => {
            let ghost s0 = settings@;
            let removed = settings.remove("show_password_hint");
            w.restore_table(si, settings);
            proof { lemma_insert_at(w0, "settings"@, si as int, TomlData::Table(table_remove(s0, "show_password_hint"@))); }
            if removed.is_some() {
                let a = concat("lockscreen_widgets.widget.", id);
                let p = concat(a.as_str(), ".settings");
                paths.push(p);
                assert(paths_view(paths@) =~= seq!["lockscreen_widgets.widget."@ + id@ + ".settings"@]);
            } else {
                assert(paths_view(paths@) =~= Seq::<Seq<char>>::empty());
            }
        },
    }
    paths
}

/// Removes `show_password_hint` from the settings of every lock-screen login
/// box; returns the settings paths it was removed from.
pub fn migrate_lockscreen_login_box_deprecated_settings(root: &mut TomlTable) -> (paths: Vec<String>)
    ensures
        final(root)@ == spec_migrate_login_box_settings(old(root)@),
        paths_view(paths@) == login_box_settings_paths(old(root)@),
{
    let ghost r0 = root@;
    let mut paths: Vec<String> = Vec::new();
    let (li, mut section) = match root.take_table("lockscreen_widgets") {
        None => {
            assert(paths_view(paths@) =~= Seq::<Seq<char>>::empty());
            return paths;
        },
        Some(found) => found,
    };
    let ghost sec0 = section@;
    match section.take_table("widget") {
        None => {
            root.restore_table(li, section);
            proof { lemma_insert_at(r0, "lockscreen_widgets"@, li as int, TomlData::Table(sec0)); }
            assert(update_subtable(sec0, "widget"@, login_box_widgets_step()) == sec0);
            assert(root@ == spec_migrate_login_box_settings(r0));
            assert(paths_view(paths@) =~= Seq::<Seq<char>>::empty());
        },
        Some((wi, mut widgets)) => {
            let ghost t0 = widgets@;
            let n = widgets.len();
            let mut i: usize = 0;
            assert(paths_view(paths@) =~= Seq::<Seq<char>>::empty());
            while i < n
                invariant
                    n == t0.len(),
                    0 <= i <= n,
                    widgets@.len() == n,
                    forall|j: int| 0 <= j < i ==> #[trigger] widgets@[j] == map_subtables(t0, login_box_step())[j],
                    forall|j: int| i <= j < n ==> #[trigger] widgets@[j] == t0[j],
                    paths_view(paths@) == gather_subtables(t0, login_box_paths_step(), i as int),
                decreases n - i,
            {
                let id = widgets.key_at(i).to_owned();
                let v = widgets.replace_value_at(i, TomlValue::Boolean(false));
                match v {
                    TomlValue::Table(mut w) => {
                        let more = drop_hint(&mut w, id.as_str());
                        widgets.restore_table(i, w);
                        crate::migrations::notes::append_paths(&mut paths, more);
                    },
                    other => {
                        widgets.replace_value_at(i, other);
                        assert(paths_view(paths@) =~= paths_view(paths@) + Seq::<Seq<char>>::empty());
                    },
                }
                i += 1;
            }
            assert(widgets@ =~= map_subtables(t0, login_box_step()));
            section.restore_table(wi, widgets);
            proof { lemma_insert_at(sec0, "widget"@, wi as int, TomlData::Table(map_subtables(t0, login_box_step()))); }
            let ghost sec1 = section@;
            root.restore_table(li, section);
            proof { lemma_insert_at(r0, "lockscreen_widgets"@, li as int, TomlData::Table(sec1)); }
            assert(sec1 == update_subtable(sec0, "widget"@, login_box_widgets_step()));
            assert(root@ == spec_migrate_login_box_settings(r0));
        },
    }
    paths
}


// ---- what the migration leaves behind ----

proof fn lemma_settings_key_apart()
    ensures
        "type"@ != "settings"@,
{
    reveal_strlit("type");
    reveal_strlit("settings");
    assert("type"@.len() == 4 && "settings"@.len() == 8);
}

/// A lock-screen widget that gives no path is left as it is.
pub proof fn lemma_login_box_widget_idle(id: Seq<char>, w: TableData)
    requires
        login_box_paths(id, w).len() == 0,
    ensures
        login_box_widget(id, w) == w,
{
    if is_login_box(id, w) {
        if let Some(settings) = lookup_table(w, "settings"@) {
            lemma_remove_absent(settings, "show_password_hint"@);
        }
        lemma_update_subtable_id(w, "settings"@, drop_hint_step());
    }
}

/// A migrated lock-screen widget gives no more paths.
pub proof fn lemma_login_box_widget_after(id: Seq<char>, w: TableData)
    ensures
        login_box_paths(id, login_box_widget(id, w)).len() == 0,
{
    if is_login_box(id, w) {
        lemma_settings_key_apart();
        lemma_update_subtable_other(w, "settings"@, drop_hint_step(), "type"@);
        lemma_update_subtable_same(w, "settings"@, drop_hint_step());
        if let Some(settings) = lookup_table(w, "settings"@) {
            lemma_remove_lookup(settings, "show_password_hint"@, "show_password_hint"@);
        }
    }
}

/// Without paths the version 8 migration changes nothing.
pub proof fn lemma_login_box_idle(root: TableData)
    requires
        login_box_settings_paths(root).len() == 0,
    ensures
        spec_migrate_login_box_settings(root) == root,
{
    if let Some(section) = lookup_table(root, "lockscreen_widgets"@) {
        if let Some(ws) = lookup_table(section, "widget"@) {
            assert forall|n: Seq<char>, w: TableData| login_box_paths_step()(n, w).len() == 0
                implies #[trigger] login_box_step()(n, w) == w by {
                lemma_login_box_widget_idle(n, w);
            }
            lemma_map_silent_fixed(ws, login_box_step(), login_box_paths_step());
        }
        lemma_update_subtable_id(section, "widget"@, login_box_widgets_step());
    }
    lemma_update_subtable_id(root, "lockscreen_widgets"@, lockscreen_section_step());
}

/// After the version 8 migration there is nothing left for it to do.
pub proof fn lemma_login_box_quiet_after(root: TableData)
    ensures
        login_box_settings_paths(spec_migrate_login_box_settings(root)).len() == 0,
{
    lemma_update_subtable_same(root, "lockscreen_widgets"@, lockscreen_section_step());
    if let Some(section) = lookup_table(root, "lockscreen_widgets"@) {
        lemma_update_subtable_same(section, "widget"@, login_box_widgets_step());
        if let Some(ws) = lookup_table(section, "widget"@) {
            assert forall|n: Seq<char>, w: TableData| login_box_paths_step()(n, #[trigger] login_box_step()(n, w)).len() == 0 by {
                lemma_login_box_widget_after(n, w);
            }
            lemma_gather_after_map(ws, login_box_step(), login_box_paths_step());
        }
    }
}

} // verus!
