//! Widget settings that became gesture bindings.

use vstd::prelude::*;
use crate::value::{
    TomlTable, TomlValue, TomlData, TableData, lookup, lookup_table, table_remove, has_key,
    update_subtable, map_subtables, gather_all, gather_subtables, lemma_insert_at, lemma_remove_lookup,
    lemma_update_subtable_id, lemma_update_subtable_same, lemma_map_silent_fixed, lemma_gather_after_map,
    lemma_gather_map_kept,
};
use crate::text::{concat, str_equal, i64_to_decimal, spec_decimal_int};
use crate::migrations::notes::{MigrationNote, notes_view, append_notes};
use crate::migrations::bindings::{
    spec_bind_action, spec_drop_scroll_toggle, spec_move_command, str_or, command_chain,
    command_chain_notes, bind_action, drop_scroll_toggle, move_command, move_commands, is_command_key,
    lemma_bind_keeps, lemma_drop_scroll_keeps, lemma_move_command_keeps, lemma_command_chain_keeps,
    lemma_command_chain_idle, lemma_command_chain_silent,
};

verus! {

/// The note for a removed `enable_scroll`.
pub open spec fn scroll_toggle_message() -> Seq<char> {
    "enable_scroll is now the scroll_up/scroll_down gesture bindings"@
}

/// The note for a removed keyboard-layout `cycle_command`.
pub open spec fn cycle_command_message() -> Seq<char> {
    "cycle_command is now the left gesture binding"@
}

/// The note for a removed `scroll_step`.
pub open spec fn scroll_step_message() -> Seq<char> {
    "scroll_step is now the step argument of the scroll gesture bindings"@
}

/// The note for a removed screenshot `primary_click`.
pub open spec fn primary_click_message() -> Seq<char> {
    "primary_click is now the left gesture binding"@
}

/// A widget's type: its `type` string, or else its name.
pub open spec fn widget_type(name: Seq<char>, w: TableData) -> Seq<char> {
    str_or(lookup(w, "type"@), name)
}

/// The path of a widget.
pub open spec fn widget_path(name: Seq<char>) -> Seq<char> {
    "widget."@ + name
}

/// One note at `path` with `message` when `cond` holds; none otherwise.
pub open spec fn note_if(cond: bool, path: Seq<char>, message: Seq<char>) -> Seq<(Seq<char>, Seq<char>)> {
    if cond { seq![(path, message)] } else { Seq::empty() }
}

fn widget_type_of(w: &TomlTable, name: &str) -> (t: String)
    ensures
        t@ == widget_type(name@, w@),
{
    match w.get("type") {
        Some(v) => match v.as_str() {
            Some(s) => s.to_owned(),
            None => name.to_owned(),
        },
        None => name.to_owned(),
    }
}

fn push_note(notes: &mut Vec<MigrationNote>, path: &str, message: &str)
    ensures
        notes_view(final(notes)@) == notes_view(old(notes)@).push((path@, message@)),
{
    notes.push(MigrationNote { path: path.to_owned(), message: message.to_owned() });
    assert(notes_view(notes@) =~= notes_view(old(notes)@).push((path@, message@)));
}

// ---- configuration version 4: enable_scroll and cycle_command ----

/// `enable_scroll` of a workspaces, taskbar or power-profile widget moves.
pub open spec fn v4_scroll_applies(name: Seq<char>, w: TableData) -> bool {
    let t = widget_type(name, w);
    (t == "workspaces"@ || t == "taskbar"@ || t == "power_profile"@) && has_key(w, "enable_scroll"@)
}

/// The widget after its `enable_scroll` moved, if it does.
pub open spec fn v4_after_scroll(name: Seq<char>, w: TableData) -> TableData {
    if v4_scroll_applies(name, w) { spec_drop_scroll_toggle(w) } else { w }
}

/// `cycle_command` of a keyboard-layout widget moves.
pub open spec fn v4_cycle_applies(name: Seq<char>, w: TableData) -> bool {
    widget_type(name, w) == "keyboard_layout"@ && has_key(v4_after_scroll(name, w), "cycle_command"@)
}

/// One widget after the version 4 migration.
pub open spec fn gesture_settings_widget(name: Seq<char>, w: TableData) -> TableData {
    let w1 = v4_after_scroll(name, w);
    if v4_cycle_applies(name, w) { spec_move_command(w1, "cycle_command"@, "left"@) } else { w1 }
}

/// The notes of one widget under the version 4 migration.
pub open spec fn gesture_settings_notes(name: Seq<char>, w: TableData) -> Seq<(Seq<char>, Seq<char>)> {
    note_if(v4_scroll_applies(name, w), widget_path(name), scroll_toggle_message())
        + note_if(v4_cycle_applies(name, w), widget_path(name), cycle_command_message())
}

fn migrate_gesture_settings_widget(w: &mut TomlTable, name: &str) -> (notes: Vec<MigrationNote>)
    ensures
        final(w)@ == gesture_settings_widget(name@, old(w)@),
        notes_view(notes@) == gesture_settings_notes(name@, old(w)@),
{
    let mut notes: Vec<MigrationNote> = Vec::new();
    let t = widget_type_of(w, name);
    let path = concat("widget.", name);
    let scroll_type = str_equal(t.as_str(), "workspaces") || str_equal(t.as_str(), "taskbar")
        || str_equal(t.as_str(), "power_profile");
    if scroll_type && w.contains_key("enable_scroll") {
        drop_scroll_toggle(w);
        push_note(&mut notes, path.as_str(), "enable_scroll is now the scroll_up/scroll_down gesture bindings");
    }
    if str_equal(t.as_str(), "keyboard_layout") && w.contains_key("cycle_command") {
        move_command(w, "cycle_command", "left");
        push_note(&mut notes, path.as_str(), "cycle_command is now the left gesture binding");
    }
    assert(notes_view(notes@) =~= gesture_settings_notes(name@, old(w)@));
    notes
}

/// Applied to each widget by the version 4 migration.
pub open spec fn gesture_settings_step() -> spec_fn(Seq<char>, TableData) -> TableData {
    |name: Seq<char>, w: TableData| gesture_settings_widget(name, w)
}

/// Gives the notes of each widget under the version 4 migration.
pub open spec fn gesture_settings_notes_step() -> spec_fn(Seq<char>, TableData) -> Seq<(Seq<char>, Seq<char>)> {
    |name: Seq<char>, w: TableData| gesture_settings_notes(name, w)
}

/// Applied to the `widget` table by the version 4 migration.
pub open spec fn gesture_settings_widgets_step() -> spec_fn(TableData) -> TableData {
    |ws: TableData| map_subtables(ws, gesture_settings_step())
}

/// The document after the version 4 migration.
pub open spec fn spec_migrate_widget_gesture_settings(root: TableData) -> TableData {
    update_subtable(root, "widget"@, gesture_settings_widgets_step())
}

/// The notes of the version 4 migration, in document order.
pub open spec fn widget_gesture_settings_notes(root: TableData) -> Seq<(Seq<char>, Seq<char>)> {
    match lookup_table(root, "widget"@) {
        Some(ws) => gather_all(ws, gesture_settings_notes_step()),
        None => Seq::empty(),
    }
}

/// Moves `enable_scroll` of workspaces, taskbar and power-profile widgets and
/// `cycle_command` of keyboard-layout widgets to gesture bindings.
pub fn migrate_widget_gesture_settings(root: &mut TomlTable) -> (notes: Vec<MigrationNote>)
    ensures
        final(root)@ == spec_migrate_widget_gesture_settings(old(root)@),
        notes_view(notes@) == widget_gesture_settings_notes(old(root)@),
{
    let ghost r0 = root@;
    let mut notes: Vec<MigrationNote> = Vec::new();
    match root.take_table("widget") {
        None => {
            assert(notes_view(notes@) =~= Seq::<(Seq<char>, Seq<char>)>::empty());
            return notes;
        },
        Some((wi, mut widgets)) => {
            let ghost t0 = widgets@;
            let n = widgets.len();
            let mut i: usize = 0;
            assert(notes_view(notes@) =~= Seq::<(Seq<char>, Seq<char>)>::empty());
            while i < n
                invariant
                    n == t0.len(),
                    0 <= i <= n,
                    widgets@.len() == n,
                    forall|j: int| 0 <= j < i ==> #[trigger] widgets@[j] == map_subtables(t0, gesture_settings_step())[j],
                    forall|j: int| i <= j < n ==> #[trigger] widgets@[j] == t0[j],
                    notes_view(notes@) == gather_subtables(t0, gesture_settings_notes_step(), i as int),
                decreases n - i,
            {
                let name = widgets.key_at(i).to_owned();
                let v = widgets.replace_value_at(i, TomlValue::Boolean(false));
                match v {
                    TomlValue::Table(mut w) => {
                        let more = migrate_gesture_settings_widget(&mut w, name.as_str());
                        widgets.restore_table(i, w);
                        append_notes(&mut notes, more);
                    },
                    other => {
                        widgets.replace_value_at(i, other);
                        assert(notes_view(notes@) =~= notes_view(notes@) + Seq::<(Seq<char>, Seq<char>)>::empty());
                    },
                }
                i += 1;
            }
            assert(widgets@ =~= map_subtables(t0, gesture_settings_step()));
            root.restore_table(wi, widgets);
            proof { lemma_insert_at(r0, "widget"@, wi as int, TomlData::Table(map_subtables(t0, gesture_settings_step()))); }
        },
    }
    notes
}

// ---- configuration version 5: scroll toggles, scroll steps and screenshot clicks ----

/// The scroll step that needs no argument.
pub const K_DEFAULT_SCROLL_STEP: i64 = 5;

/// `enable_scroll` of a media, volume or brightness widget moves.
pub open spec fn v5_scroll_applies(name: Seq<char>, w: TableData) -> bool {
    let t = widget_type(name, w);
    (t == "media"@ || t == "volume"@ || t == "brightness"@) && has_key(w, "enable_scroll"@)
}

/// The widget after its `enable_scroll` moved, if it does.
pub open spec fn v5_after_scroll(name: Seq<char>, w: TableData) -> TableData {
    if v5_scroll_applies(name, w) { spec_drop_scroll_toggle(w) } else { w }
}

/// `scroll_step` of a volume or brightness widget moves.
pub open spec fn v5_step_applies(name: Seq<char>, w: TableData) -> bool {
    let t = widget_type(name, w);
    (t == "volume"@ || t == "brightness"@) && has_key(v5_after_scroll(name, w), "scroll_step"@)
}

/// The configured scroll step, or the default one.
pub open spec fn scroll_step_of(w: TableData) -> i64 {
    match lookup(w, "scroll_step"@) {
        Some(TomlData::Integer(i)) => i,
        _ => K_DEFAULT_SCROLL_STEP,
    }
}

/// The action verbs for scrolling up and down a widget of type `t`.
pub open spec fn scroll_verbs(t: Seq<char>, w: TableData) -> (Seq<char>, Seq<char>) {
    if t == "volume"@ {
        if str_or(lookup(w, "device"@), "output"@) == "input"@ {
            ("mic-volume-up"@, "mic-volume-down"@)
        } else {
            ("volume-up"@, "volume-down"@)
        }
    } else {
        ("brightness-up"@, "brightness-down"@)
    }
}

/// The widget after its `scroll_step` moved: a step other than the default
/// is bound to both scroll gestures as `<verb> <step>%`.
pub open spec fn move_scroll_step(t: Seq<char>, w: TableData) -> TableData {
    let step = scroll_step_of(w);
    let rest = table_remove(w, "scroll_step"@);
    if step != K_DEFAULT_SCROLL_STEP {
        let suffix = " "@ + spec_decimal_int(step as int) + "%"@;
        let verbs = scroll_verbs(t, rest);
        spec_bind_action(spec_bind_action(rest, "scroll_up"@, verbs.0 + suffix), "scroll_down"@, verbs.1 + suffix)
    } else {
        rest
    }
}

/// The widget after its `scroll_step` moved, if it does.
pub open spec fn v5_after_step(name: Seq<char>, w: TableData) -> TableData {
    let w1 = v5_after_scroll(name, w);
    if v5_step_applies(name, w) { move_scroll_step(widget_type(name, w), w1) } else { w1 }
}

/// `primary_click` of a screenshot widget moves.
pub open spec fn v5_primary_applies(name: Seq<char>, w: TableData) -> bool {
    widget_type(name, w) == "screenshot"@ && has_key(v5_after_step(name, w), "primary_click"@)
}

/// The widget after its `primary_click` moved: `fullscreen` becomes the left binding.
pub open spec fn move_primary_click(w: TableData) -> TableData {
    let primary = str_or(lookup(w, "primary_click"@), "region"@);
    let rest = table_remove(w, "primary_click"@);
    if primary == "fullscreen"@ { spec_bind_action(rest, "left"@, "screenshot-fullscreen"@) } else { rest }
}

/// One widget after the version 5 migration.
pub open spec fn remaining_gestures_widget(name: Seq<char>, w: TableData) -> TableData {
    let w2 = v5_after_step(name, w);
    if v5_primary_applies(name, w) { move_primary_click(w2) } else { w2 }
}

/// The notes of one widget under the version 5 migration.
pub open spec fn remaining_gestures_notes(name: Seq<char>, w: TableData) -> Seq<(Seq<char>, Seq<char>)> {
    note_if(v5_scroll_applies(name, w), widget_path(name), scroll_toggle_message())
        + note_if(v5_step_applies(name, w), widget_path(name), scroll_step_message())
        + note_if(v5_primary_applies(name, w), widget_path(name), primary_click_message())
}

fn scroll_step_binding(verb: &str, suffix: &str) -> (s: String)
    ensures
        s@ == verb@ + suffix@,
{
    concat(verb, suffix)
}

fn move_scroll_step_exec(w: &mut TomlTable, t: &str)
    ensures
        final(w)@ == move_scroll_step(t@, old(w)@),
{
    let removed = w.remove("scroll_step");
    let step: i64 = match removed {
        Some(TomlValue::Integer(i)) => i,
        _ => K_DEFAULT_SCROLL_STEP,
    };
    if step != K_DEFAULT_SCROLL_STEP {
        let digits = i64_to_decimal(step);
        let a = concat(" ", digits.as_str());
        let suffix = concat(a.as_str(), "%");
        assert(suffix@ =~= " "@ + spec_decimal_int(step as int) + "%"@);
        let ghost rest = w@;
        let (up, down) = if str_equal(t, "volume") {
            let microphone = match w.get("device") {
                Some(v) => match v.as_str() {
                    Some(d) => str_equal(d, "input"),
                    None => str_equal("output", "input"),
                },
                None => str_equal("output", "input"),
            };
            if microphone { ("mic-volume-up", "mic-volume-down") } else { ("volume-up", "volume-down") }
        } else {
            ("brightness-up", "brightness-down")
        };
        assert(up@ == scroll_verbs(t@, rest).0 && down@ == scroll_verbs(t@, rest).1);
        bind_action(w, "scroll_up", scroll_step_binding(up, suffix.as_str()));
        bind_action(w, "scroll_down", scroll_step_binding(down, suffix.as_str()));
    }
}

fn move_primary_click_exec(w: &mut TomlTable)
    ensures
        final(w)@ == move_primary_click(old(w)@),
{
    let removed = w.remove("primary_click");
    let fullscreen = match removed {
        Some(TomlValue::String(s)) => str_equal(s.as_str(), "fullscreen"),
        _ => str_equal("region", "fullscreen"),
    };
    if fullscreen {
        bind_action(w, "left", "screenshot-fullscreen".to_owned());
    }
}

fn migrate_remaining_gestures_widget(w: &mut TomlTable, name: &str) -> (notes: Vec<MigrationNote>)
    ensures
        final(w)@ == remaining_gestures_widget(name@, old(w)@),
        notes_view(notes@) == remaining_gestures_notes(name@, old(w)@),
{
    let mut notes: Vec<MigrationNote> = Vec::new();
    let t = widget_type_of(w, name);
    let path = concat("widget.", name);
    let scroll_type = str_equal(t.as_str(), "media") || str_equal(t.as_str(), "volume")
        || str_equal(t.as_str(), "brightness");
    if scroll_type && w.contains_key("enable_scroll") {
        drop_scroll_toggle(w);
        push_note(&mut notes, path.as_str(), "enable_scroll is now the scroll_up/scroll_down gesture bindings");
    }
    if (str_equal(t.as_str(), "volume") || str_equal(t.as_str(), "brightness")) && w.contains_key("scroll_step") {
        move_scroll_step_exec(w, t.as_str());
        push_note(&mut notes, path.as_str(), "scroll_step is now the step argument of the scroll gesture bindings");
    }
    if str_equal(t.as_str(), "screenshot") && w.contains_key("primary_click") {
        move_primary_click_exec(w);
        push_note(&mut notes, path.as_str(), "primary_click is now the left gesture binding");
    }
    assert(notes_view(notes@) =~= remaining_gestures_notes(name@, old(w)@));
    notes
}

/// Applied to each widget by the version 5 migration.
pub open spec fn remaining_gestures_step() -> spec_fn(Seq<char>, TableData) -> TableData {
    |name: Seq<char>, w: TableData| remaining_gestures_widget(name, w)
}

/// Gives the notes of each widget under the version 5 migration.
pub open spec fn remaining_gestures_notes_step() -> spec_fn(Seq<char>, TableData) -> Seq<(Seq<char>, Seq<char>)> {
    |name: Seq<char>, w: TableData| remaining_gestures_notes(name, w)
}

/// Applied to the `widget` table by the version 5 migration.
pub open spec fn remaining_gestures_widgets_step() -> spec_fn(TableData) -> TableData {
    |ws: TableData| map_subtables(ws, remaining_gestures_step())
}

/// The document after the version 5 migration.
pub open spec fn spec_migrate_remaining_widget_gestures(root: TableData) -> TableData {
    update_subtable(root, "widget"@, remaining_gestures_widgets_step())
}

/// The notes of the version 5 migration, in document order.
pub open spec fn remaining_widget_gestures_notes(root: TableData) -> Seq<(Seq<char>, Seq<char>)> {
    match lookup_table(root, "widget"@) {
        Some(ws) => gather_all(ws, remaining_gestures_notes_step()),
        None => Seq::empty(),
    }
}

/// Moves `enable_scroll` of media, volume and brightness widgets, `scroll_step`
/// of volume and brightness widgets and `primary_click` of screenshot widgets
/// to gesture bindings.
pub fn migrate_remaining_widget_gestures(root: &mut TomlTable) -> (notes: Vec<MigrationNote>)
    ensures
        final(root)@ == spec_migrate_remaining_widget_gestures(old(root)@),
        notes_view(notes@) == remaining_widget_gestures_notes(old(root)@),
{
    let ghost r0 = root@;
    let mut notes: Vec<MigrationNote> = Vec::new();
    match root.take_table("widget") {
        None => {
            assert(notes_view(notes@) =~= Seq::<(Seq<char>, Seq<char>)>::empty());
            return notes;
        },
        Some((wi, mut widgets)) => {
            let ghost t0 = widgets@;
            let n = widgets.len();
            let mut i: usize = 0;
            assert(notes_view(notes@) =~= Seq::<(Seq<char>, Seq<char>)>::empty());
            while i < n
                invariant
                    n == t0.len(),
                    0 <= i <= n,
                    widgets@.len() == n,
                    forall|j: int| 0 <= j < i ==> #[trigger] widgets@[j] == map_subtables(t0, remaining_gestures_step())[j],
                    forall|j: int| i <= j < n ==> #[trigger] widgets@[j] == t0[j],
                    notes_view(notes@) == gather_subtables(t0, remaining_gestures_notes_step(), i as int),
                decreases n - i,
            {
                let name = widgets.key_at(i).to_owned();
                let v = widgets.replace_value_at(i, TomlValue::Boolean(false));
                match v {
                    TomlValue::Table(mut w) => {
                        let more = migrate_remaining_gestures_widget(&mut w, name.as_str());
                        widgets.restore_table(i, w);
                        append_notes(&mut notes, more);
                    },
                    other => {
                        widgets.replace_value_at(i, other);
                        assert(notes_view(notes@) =~= notes_view(notes@) + Seq::<(Seq<char>, Seq<char>)>::empty());
                    },
                }
                i += 1;
            }
            assert(widgets@ =~= map_subtables(t0, remaining_gestures_step()));
            root.restore_table(wi, widgets);
            proof { lemma_insert_at(r0, "widget"@, wi as int, TomlData::Table(map_subtables(t0, remaining_gestures_step()))); }
        },
    }
    notes
}

// ---- configuration version 6: custom button commands ----

/// One custom-button widget after the version 6 migration; other widgets are unchanged.
pub open spec fn custom_button_widget(name: Seq<char>, w: TableData) -> TableData {
    if widget_type(name, w) == "custom_button"@ {
        let w1 = if has_key(w, "enable_scroll"@) { spec_drop_scroll_toggle(w) } else { w };
        command_chain(w1)
    } else {
        w
    }
}

/// The notes of one widget under the version 6 migration.
pub open spec fn custom_button_notes(name: Seq<char>, w: TableData) -> Seq<(Seq<char>, Seq<char>)> {
    if widget_type(name, w) == "custom_button"@ {
        let w1 = if has_key(w, "enable_scroll"@) { spec_drop_scroll_toggle(w) } else { w };
        note_if(has_key(w, "enable_scroll"@), widget_path(name), scroll_toggle_message())
            + command_chain_notes(w1, widget_path(name), " gesture binding"@)
    } else {
        Seq::empty()
    }
}

fn migrate_custom_button_widget(w: &mut TomlTable, name: &str) -> (notes: Vec<MigrationNote>)
    ensures
        final(w)@ == custom_button_widget(name@, old(w)@),
        notes_view(notes@) == custom_button_notes(name@, old(w)@),
{
    let mut notes: Vec<MigrationNote> = Vec::new();
    let t = widget_type_of(w, name);
    if !str_equal(t.as_str(), "custom_button") {
        assert(notes_view(notes@) =~= Seq::<(Seq<char>, Seq<char>)>::empty());
        return notes;
    }
    let path = concat("widget.", name);
    if w.contains_key("enable_scroll") {
        drop_scroll_toggle(w);
        push_note(&mut notes, path.as_str(), "enable_scroll is now the scroll_up/scroll_down gesture bindings");
    } else {
        assert(notes_view(notes@) =~= Seq::<(Seq<char>, Seq<char>)>::empty());
    }
    let more = move_commands(w, path.as_str(), " gesture binding");
    append_notes(&mut notes, more);
    notes
}

/// Applied to each widget by the version 6 migration.
pub open spec fn custom_button_step() -> spec_fn(Seq<char>, TableData) -> TableData {
    |name: Seq<char>, w: TableData| custom_button_widget(name, w)
}

/// Gives the notes of each widget under the version 6 migration.
pub open spec fn custom_button_notes_step() -> spec_fn(Seq<char>, TableData) -> Seq<(Seq<char>, Seq<char>)> {
    |name: Seq<char>, w: TableData| custom_button_notes(name, w)
}

/// Applied to the `widget` table by the version 6 migration.
pub open spec fn custom_button_widgets_step() -> spec_fn(TableData) -> TableData {
    |ws: TableData| map_subtables(ws, custom_button_step())
}

/// The document after the version 6 migration.
pub open spec fn spec_migrate_custom_button_commands(root: TableData) -> TableData {
    update_subtable(root, "widget"@, custom_button_widgets_step())
}

/// The notes of the version 6 migration, in document order.
pub open spec fn custom_button_commands_notes(root: TableData) -> Seq<(Seq<char>, Seq<char>)> {
    match lookup_table(root, "widget"@) {
        Some(ws) => gather_all(ws, custom_button_notes_step()),
        None => Seq::empty(),
    }
}

/// Moves `enable_scroll` and the five command keys of custom-button widgets
/// to gesture bindings.
pub fn migrate_custom_button_commands(root: &mut TomlTable) -> (notes: Vec<MigrationNote>)
    ensures
        final(root)@ == spec_migrate_custom_button_commands(old(root)@),
        notes_view(notes@) == custom_button_commands_notes(old(root)@),
{
    let ghost r0 = root@;
    let mut notes: Vec<MigrationNote> = Vec::new();
    match root.take_table("widget") {
        None => {
            assert(notes_view(notes@) =~= Seq::<(Seq<char>, Seq<char>)>::empty());
            return notes;
        },
        Some((wi, mut widgets)) => {
            let ghost t0 = widgets@;
            let n = widgets.len();
            let mut i: usize = 0;
            assert(notes_view(notes@) =~= Seq::<(Seq<char>, Seq<char>)>::empty());
            while i < n
                invariant
                    n == t0.len(),
                    0 <= i <= n,
                    widgets@.len() == n,
                    forall|j: int| 0 <= j < i ==> #[trigger] widgets@[j] == map_subtables(t0, custom_button_step())[j],
                    forall|j: int| i <= j < n ==> #[trigger] widgets@[j] == t0[j],
                    notes_view(notes@) == gather_subtables(t0, custom_button_notes_step(), i as int),
                decreases n - i,
            {
                let name = widgets.key_at(i).to_owned();
                let v = widgets.replace_value_at(i, TomlValue::Boolean(false));
                match v {
                    TomlValue::Table(mut w) => {
                        let more = migrate_custom_button_widget(&mut w, name.as_str());
                        widgets.restore_table(i, w);
                        append_notes(&mut notes, more);
                    },
                    other => {
                        widgets.replace_value_at(i, other);
                        assert(notes_view(notes@) =~= notes_view(notes@) + Seq::<(Seq<char>, Seq<char>)>::empty());
                    },
                }
                i += 1;
            }
            assert(widgets@ =~= map_subtables(t0, custom_button_step()));
            root.restore_table(wi, widgets);
            proof { lemma_insert_at(r0, "widget"@, wi as int, TomlData::Table(map_subtables(t0, custom_button_step()))); }
        },
    }
    notes
}


// ---- what the widget migrations leave behind ----

/// A widget type whose settings the version 4 migration moves.
pub open spec fn is_v4_type(t: Seq<char>) -> bool {
    t == "workspaces"@ || t == "taskbar"@ || t == "power_profile"@ || t == "keyboard_layout"@
}

/// A widget type whose settings the version 5 migration moves.
pub open spec fn is_v5_type(t: Seq<char>) -> bool {
    t == "media"@ || t == "volume"@ || t == "brightness"@ || t == "screenshot"@
}

/// The widget keys the migrations edit are neither `type` nor `actions` nor
/// each other, and each widget type is handled by at most one migration.
pub proof fn lemma_widget_keys_apart()
    ensures
        "type"@ != "actions"@ && "type"@ != "enable_scroll"@ && "type"@ != "cycle_command"@
            && "type"@ != "scroll_step"@ && "type"@ != "primary_click"@ && !is_command_key("type"@),
        "enable_scroll"@ != "actions"@ && "enable_scroll"@ != "scroll_step"@
            && "enable_scroll"@ != "primary_click"@ && !is_command_key("enable_scroll"@),
        "cycle_command"@ != "actions"@ && "scroll_step"@ != "actions"@ && "primary_click"@ != "actions"@,
        "scroll_step"@ != "primary_click"@,
        forall|t: Seq<char>| is_v4_type(t) ==> !is_v5_type(t) && t != "custom_button"@,
        forall|t: Seq<char>| is_v5_type(t) ==> t != "custom_button"@,
        "keyboard_layout"@ != "workspaces"@ && "keyboard_layout"@ != "taskbar"@ && "keyboard_layout"@ != "power_profile"@,
        "screenshot"@ != "media"@ && "screenshot"@ != "volume"@ && "screenshot"@ != "brightness"@,
        "media"@ != "volume"@ && "media"@ != "brightness"@,
{
    reveal_strlit("type");
    reveal_strlit("actions");
    reveal_strlit("enable_scroll");
    reveal_strlit("cycle_command");
    reveal_strlit("scroll_step");
    reveal_strlit("primary_click");
    reveal_strlit("command");
    reveal_strlit("right_command");
    reveal_strlit("middle_command");
    reveal_strlit("scroll_up_command");
    reveal_strlit("scroll_down_command");
    reveal_strlit("workspaces");
    reveal_strlit("taskbar");
    reveal_strlit("power_profile");
    reveal_strlit("keyboard_layout");
    reveal_strlit("media");
    reveal_strlit("volume");
    reveal_strlit("brightness");
    reveal_strlit("screenshot");
    reveal_strlit("custom_button");
    assert("type"@.len() == 4 && "actions"@.len() == 7 && "enable_scroll"@.len() == 13);
    assert("cycle_command"@.len() == 13 && "scroll_step"@.len() == 11 && "primary_click"@.len() == 13);
    assert("command"@.len() == 7 && "right_command"@.len() == 13 && "middle_command"@.len() == 14);
    assert("scroll_up_command"@.len() == 17 && "scroll_down_command"@.len() == 19);
    assert("enable_scroll"@[0] == 'e' && "cycle_command"@[0] == 'c' && "primary_click"@[0] == 'p');
    assert("right_command"@[0] == 'r' && "actions"@[0] == 'a' && "command"@[0] == 'c');
    assert("workspaces"@.len() == 10 && "taskbar"@.len() == 7 && "power_profile"@.len() == 13);
    assert("keyboard_layout"@.len() == 15 && "media"@.len() == 5 && "volume"@.len() == 6);
    assert("brightness"@.len() == 10 && "screenshot"@.len() == 10 && "custom_button"@.len() == 13);
    assert("workspaces"@[0] == 'w' && "brightness"@[0] == 'b' && "screenshot"@[0] == 's');
    assert("power_profile"@[0] == 'p' && "custom_button"@[0] == 'c');
}

/// Moving the scroll step removes `scroll_step` and changes only it and `actions`.
pub proof fn lemma_move_scroll_step_keeps(t: Seq<char>, w: TableData, k: Seq<char>)
    ensures
        lookup(move_scroll_step(t, w), "scroll_step"@) is None,
        k != "actions"@ && k != "scroll_step"@ ==> lookup(move_scroll_step(t, w), k) == lookup(w, k),
{
    lemma_widget_keys_apart();
    let s = "scroll_step"@;
    let rest = table_remove(w, s);
    lemma_remove_lookup(w, s, k);
    let step = scroll_step_of(w);
    let suffix = " "@ + spec_decimal_int(step as int) + "%"@;
    let verbs = scroll_verbs(t, rest);
    let up = spec_bind_action(rest, "scroll_up"@, verbs.0 + suffix);
    lemma_bind_keeps(rest, "scroll_up"@, verbs.0 + suffix, s);
    lemma_bind_keeps(up, "scroll_down"@, verbs.1 + suffix, s);
    if k != "actions"@ {
        lemma_bind_keeps(rest, "scroll_up"@, verbs.0 + suffix, k);
        lemma_bind_keeps(up, "scroll_down"@, verbs.1 + suffix, k);
    }
}

/// Moving the primary click removes `primary_click` and changes only it and `actions`.
pub proof fn lemma_move_primary_keeps(w: TableData, k: Seq<char>)
    ensures
        lookup(move_primary_click(w), "primary_click"@) is None,
        k != "actions"@ && k != "primary_click"@ ==> lookup(move_primary_click(w), k) == lookup(w, k),
{
    lemma_widget_keys_apart();
    let p = "primary_click"@;
    let rest = table_remove(w, p);
    lemma_remove_lookup(w, p, k);
    lemma_bind_keeps(rest, "left"@, "screenshot-fullscreen"@, p);
    if k != "actions"@ {
        lemma_bind_keeps(rest, "left"@, "screenshot-fullscreen"@, k);
    }
}

/// A widget migrated by the version 4 migration keeps its type and gives no more notes.
pub proof fn lemma_gesture_settings_widget_after(name: Seq<char>, w: TableData)
    ensures
        lookup(gesture_settings_widget(name, w), "type"@) == lookup(w, "type"@),
        gesture_settings_notes(name, gesture_settings_widget(name, w)).len() == 0,
{
    lemma_widget_keys_apart();
    let w1 = v4_after_scroll(name, w);
    let w2 = gesture_settings_widget(name, w);
    lemma_drop_scroll_keeps(w, "type"@);
    lemma_drop_scroll_keeps(w, "cycle_command"@);
    lemma_move_command_keeps(w1, "cycle_command"@, "left"@, "type"@);
    lemma_move_command_keeps(w1, "cycle_command"@, "left"@, "enable_scroll"@);
}

/// A widget migrated by the version 5 migration keeps its type and gives no more notes.
pub proof fn lemma_remaining_gestures_widget_after(name: Seq<char>, w: TableData)
    ensures
        lookup(remaining_gestures_widget(name, w), "type"@) == lookup(w, "type"@),
        remaining_gestures_notes(name, remaining_gestures_widget(name, w)).len() == 0,
{
    lemma_widget_keys_apart();
    let t = widget_type(name, w);
    let w1 = v5_after_scroll(name, w);
    let w2 = v5_after_step(name, w);
    let w3 = remaining_gestures_widget(name, w);
    lemma_drop_scroll_keeps(w, "type"@);
    lemma_drop_scroll_keeps(w, "scroll_step"@);
    lemma_drop_scroll_keeps(w, "primary_click"@);
    lemma_move_scroll_step_keeps(t, w1, "type"@);
    lemma_move_scroll_step_keeps(t, w1, "enable_scroll"@);
    lemma_move_scroll_step_keeps(t, w1, "primary_click"@);
    lemma_move_primary_keeps(w2, "type"@);
    lemma_move_primary_keeps(w2, "enable_scroll"@);
    lemma_move_primary_keeps(w2, "scroll_step"@);
}

/// A widget migrated by the version 6 migration keeps its type and gives no more notes.
pub proof fn lemma_custom_button_widget_after(name: Seq<char>, w: TableData)
    ensures
        lookup(custom_button_widget(name, w), "type"@) == lookup(w, "type"@),
        custom_button_notes(name, custom_button_widget(name, w)).len() == 0,
{
    lemma_widget_keys_apart();
    if widget_type(name, w) == "custom_button"@ {
        let w1 = if has_key(w, "enable_scroll"@) { spec_drop_scroll_toggle(w) } else { w };
        let w2 = command_chain(w1);
        lemma_drop_scroll_keeps(w, "type"@);
        lemma_command_chain_keeps(w1, "type"@);
        lemma_drop_scroll_keeps(w, "enable_scroll"@);
        lemma_command_chain_keeps(w1, "enable_scroll"@);
        assert forall|k: Seq<char>| is_command_key(k) implies !#[trigger] has_key(w2, k) by {
            lemma_command_chain_keeps(w1, k);
        }
        lemma_command_chain_idle(w2, widget_path(name), " gesture binding"@);
    }
}

/// A widget that the version 6 migration leaves as it is gives no notes, and the reverse.
pub proof fn lemma_custom_button_widget_idle(name: Seq<char>, w: TableData)
    requires
        custom_button_notes(name, w).len() == 0,
    ensures
        custom_button_widget(name, w) == w,
{
    if widget_type(name, w) == "custom_button"@ {
        lemma_command_chain_silent(w, widget_path(name), " gesture binding"@);
    }
}

/// The version 5 migration leaves widgets of other types as they are, and
/// keeps every widget's type: a widget quiet for version 4 stays quiet.
pub proof fn lemma_v4_quiet_after_v5(name: Seq<char>, w: TableData)
    requires
        gesture_settings_notes(name, w).len() == 0,
    ensures
        gesture_settings_notes(name, remaining_gestures_widget(name, w)).len() == 0,
{
    lemma_widget_keys_apart();
    lemma_remaining_gestures_widget_after(name, w);
    let t = widget_type(name, w);
    let w2 = remaining_gestures_widget(name, w);
    assert(widget_type(name, w2) == t);
    if is_v5_type(t) {
        assert(!is_v4_type(t));
    } else {
        assert(w2 == w);
    }
}

/// Version 6 edits only custom buttons and keeps types: a widget quiet for
/// version 4 stays quiet.
pub proof fn lemma_v4_quiet_after_v6(name: Seq<char>, w: TableData)
    requires
        gesture_settings_notes(name, w).len() == 0,
    ensures
        gesture_settings_notes(name, custom_button_widget(name, w)).len() == 0,
{
    lemma_widget_keys_apart();
    lemma_custom_button_widget_after(name, w);
    let t = widget_type(name, w);
    let w2 = custom_button_widget(name, w);
    assert(widget_type(name, w2) == t);
    if t == "custom_button"@ {
        assert(!is_v4_type(t));
    } else {
        assert(w2 == w);
    }
}

/// Version 6 edits only custom buttons and keeps types: a widget quiet for
/// version 5 stays quiet.
pub proof fn lemma_v5_quiet_after_v6(name: Seq<char>, w: TableData)
    requires
        remaining_gestures_notes(name, w).len() == 0,
    ensures
        remaining_gestures_notes(name, custom_button_widget(name, w)).len() == 0,
{
    lemma_widget_keys_apart();
    lemma_custom_button_widget_after(name, w);
    let t = widget_type(name, w);
    let w2 = custom_button_widget(name, w);
    assert(widget_type(name, w2) == t);
    if t == "custom_button"@ {
        assert(!is_v5_type(t));
    } else {
        assert(w2 == w);
    }
}


/// Without notes the version 4 migration changes nothing.
pub proof fn lemma_gesture_settings_idle(root: TableData)
    requires
        widget_gesture_settings_notes(root).len() == 0,
    ensures
        spec_migrate_widget_gesture_settings(root) == root,
{
    if let Some(ws) = lookup_table(root, "widget"@) {
        assert forall|n: Seq<char>, w: TableData| gesture_settings_notes_step()(n, w).len() == 0
            implies #[trigger] gesture_settings_step()(n, w) == w by {
        }
        lemma_map_silent_fixed(ws, gesture_settings_step(), gesture_settings_notes_step());
    }
    lemma_update_subtable_id(root, "widget"@, gesture_settings_widgets_step());
}

/// After the version 4 migration there is nothing left for it to do.
pub proof fn lemma_gesture_settings_quiet_after(root: TableData)
    ensures
        widget_gesture_settings_notes(spec_migrate_widget_gesture_settings(root)).len() == 0,
{
    lemma_update_subtable_same(root, "widget"@, gesture_settings_widgets_step());
    if let Some(ws) = lookup_table(root, "widget"@) {
        assert forall|n: Seq<char>, w: TableData| gesture_settings_notes_step()(n, #[trigger] gesture_settings_step()(n, w)).len() == 0 by {
            lemma_gesture_settings_widget_after(n, w);
        }
        lemma_gather_after_map(ws, gesture_settings_step(), gesture_settings_notes_step());
    }
}

/// Without notes the version 5 migration changes nothing.
pub proof fn lemma_remaining_gestures_idle(root: TableData)
    requires
        remaining_widget_gestures_notes(root).len() == 0,
    ensures
        spec_migrate_remaining_widget_gestures(root) == root,
{
    if let Some(ws) = lookup_table(root, "widget"@) {
        assert forall|n: Seq<char>, w: TableData| remaining_gestures_notes_step()(n, w).len() == 0
            implies #[trigger] remaining_gestures_step()(n, w) == w by {
        }
        lemma_map_silent_fixed(ws, remaining_gestures_step(), remaining_gestures_notes_step());
    }
    lemma_update_subtable_id(root, "widget"@, remaining_gestures_widgets_step());
}

/// After the version 5 migration there is nothing left for it to do.
pub proof fn lemma_remaining_gestures_quiet_after(root: TableData)
    ensures
        remaining_widget_gestures_notes(spec_migrate_remaining_widget_gestures(root)).len() == 0,
{
    lemma_update_subtable_same(root, "widget"@, remaining_gestures_widgets_step());
    if let Some(ws) = lookup_table(root, "widget"@) {
        assert forall|n: Seq<char>, w: TableData| remaining_gestures_notes_step()(n, #[trigger] remaining_gestures_step()(n, w)).len() == 0 by {
            lemma_remaining_gestures_widget_after(n, w);
        }
        lemma_gather_after_map(ws, remaining_gestures_step(), remaining_gestures_notes_step());
    }
}

/// Without notes the version 6 migration changes nothing.
pub proof fn lemma_custom_button_idle(root: TableData)
    requires
        custom_button_commands_notes(root).len() == 0,
    ensures
        spec_migrate_custom_button_commands(root) == root,
{
    if let Some(ws) = lookup_table(root, "widget"@) {
        assert forall|n: Seq<char>, w: TableData| custom_button_notes_step()(n, w).len() == 0
            implies #[trigger] custom_button_step()(n, w) == w by {
            lemma_custom_button_widget_idle(n, w);
        }
        lemma_map_silent_fixed(ws, custom_button_step(), custom_button_notes_step());
    }
    lemma_update_subtable_id(root, "widget"@, custom_button_widgets_step());
}

/// After the version 6 migration there is nothing left for it to do.
pub proof fn lemma_custom_button_quiet_after(root: TableData)
    ensures
        custom_button_commands_notes(spec_migrate_custom_button_commands(root)).len() == 0,
{
    lemma_update_subtable_same(root, "widget"@, custom_button_widgets_step());
    if let Some(ws) = lookup_table(root, "widget"@) {
        assert forall|n: Seq<char>, w: TableData| custom_button_notes_step()(n, #[trigger] custom_button_step()(n, w)).len() == 0 by {
            lemma_custom_button_widget_after(n, w);
        }
        lemma_gather_after_map(ws, custom_button_step(), custom_button_notes_step());
    }
}

/// The version 5 migration keeps a document quiet for the version 4 migration.
pub proof fn lemma_v4_quiet_kept_by_v5(root: TableData)
    requires
        widget_gesture_settings_notes(root).len() == 0,
    ensures
        widget_gesture_settings_notes(spec_migrate_remaining_widget_gestures(root)).len() == 0,
{
    lemma_update_subtable_same(root, "widget"@, remaining_gestures_widgets_step());
    if let Some(ws) = lookup_table(root, "widget"@) {
        assert forall|n: Seq<char>, w: TableData| gesture_settings_notes_step()(n, w).len() == 0
            implies gesture_settings_notes_step()(n, #[trigger] remaining_gestures_step()(n, w)).len() == 0 by {
            lemma_v4_quiet_after_v5(n, w);
        }
        lemma_gather_map_kept(ws, remaining_gestures_step(), gesture_settings_notes_step());
    }
}

/// The version 6 migration keeps a document quiet for the version 4 migration.
pub proof fn lemma_v4_quiet_kept_by_v6(root: TableData)
    requires
        widget_gesture_settings_notes(root).len() == 0,
    ensures
        widget_gesture_settings_notes(spec_migrate_custom_button_commands(root)).len() == 0,
{
    lemma_update_subtable_same(root, "widget"@, custom_button_widgets_step());
    if let Some(ws) = lookup_table(root, "widget"@) {
        assert forall|n: Seq<char>, w: TableData| gesture_settings_notes_step()(n, w).len() == 0
            implies gesture_settings_notes_step()(n, #[trigger] custom_button_step()(n, w)).len() == 0 by {
            lemma_v4_quiet_after_v6(n, w);
        }
        lemma_gather_map_kept(ws, custom_button_step(), gesture_settings_notes_step());
    }
}

/// The version 6 migration keeps a document quiet for the version 5 migration.
pub proof fn lemma_v5_quiet_kept_by_v6(root: TableData)
    requires
        remaining_widget_gestures_notes(root).len() == 0,
    ensures
        remaining_widget_gestures_notes(spec_migrate_custom_button_commands(root)).len() == 0,
{
    lemma_update_subtable_same(root, "widget"@, custom_button_widgets_step());
    if let Some(ws) = lookup_table(root, "widget"@) {
        assert forall|n: Seq<char>, w: TableData| remaining_gestures_notes_step()(n, w).len() == 0
            implies remaining_gestures_notes_step()(n, #[trigger] custom_button_step()(n, w)).len() == 0 by {
            lemma_v5_quiet_after_v6(n, w);
        }
        lemma_gather_map_kept(ws, custom_button_step(), remaining_gestures_notes_step());
    }
}

} // verus!
