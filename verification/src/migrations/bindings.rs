//! Gesture bindings: the `actions` table of a widget, bar or dead zone, and the
//! edits that move a legacy setting into it.

use vstd::prelude::*;
use crate::value::{
    TomlTable, TomlValue, TomlData, TableData, lookup, lookup_table, table_insert, table_remove,
    has_key, lemma_insert_at, lemma_lookup_at, lemma_insert_lookup, lemma_remove_lookup,
};
use crate::text::concat;
use crate::migrations::notes::{MigrationNote, notes_view};

verus! {

/// `w`, given an empty `actions` table when it has none.
pub open spec fn with_actions(w: TableData) -> TableData {
    if has_key(w, "actions"@) {
        w
    } else {
        table_insert(w, "actions"@, TomlData::Table(Seq::empty()))
    }
}

/// Binding `gesture` adds an entry: the `actions` table has no binding for it yet.
pub open spec fn binds_gesture(w: TableData, gesture: Seq<char>) -> bool {
    match lookup_table(with_actions(w), "actions"@) {
        Some(actions) => !has_key(actions, gesture),
        None => false,
    }
}

/// `w` with `gesture` bound to `action`, unless a binding for it already
/// exists; `actions` is created when missing and left alone when it is not a table.
pub open spec fn spec_bind_action(w: TableData, gesture: Seq<char>, action: Seq<char>) -> TableData {
    let w1 = with_actions(w);
    match lookup_table(w1, "actions"@) {
        Some(actions) => if has_key(actions, gesture) {
            w1
        } else {
            table_insert(w1, "actions"@, TomlData::Table(table_insert(actions, gesture, TomlData::String(action))))
        },
        None => w1,
    }
}

/// The boolean held, or `true` when there is none.
pub open spec fn bool_or_true(v: Option<TomlData>) -> bool {
    match v {
        Some(TomlData::Boolean(b)) => b,
        _ => true,
    }
}

/// The string held, or `default` when there is none.
pub open spec fn str_or(v: Option<TomlData>, default: Seq<char>) -> Seq<char> {
    match v {
        Some(TomlData::String(s)) => s,
        _ => default,
    }
}

/// `w` without `enable_scroll`; when it was `false`, scrolling both ways is bound to `none`.
pub open spec fn spec_drop_scroll_toggle(w: TableData) -> TableData {
    let rest = table_remove(w, "enable_scroll"@);
    if bool_or_true(lookup(w, "enable_scroll"@)) {
        rest
    } else {
        spec_bind_action(spec_bind_action(rest, "scroll_up"@, "none"@), "scroll_down"@, "none"@)
    }
}

/// `w` without `key`; a non-empty command that it held is bound to `gesture` as `exec <command>`.
pub open spec fn spec_move_command(w: TableData, key: Seq<char>, gesture: Seq<char>) -> TableData {
    let command = str_or(lookup(w, key), Seq::empty());
    let rest = table_remove(w, key);
    if command.len() > 0 {
        spec_bind_action(rest, gesture, "exec "@ + command)
    } else {
        rest
    }
}

/// Binds `gesture` to `action` in the `actions` table of `w` unless it is
/// bound already; returns whether a binding was added.
pub fn bind_action(w: &mut TomlTable, gesture: &str, action: String) -> (bound: bool)
    ensures
        final(w)@ == spec_bind_action(old(w)@, gesture@, action@),
        bound == binds_gesture(old(w)@, gesture@),
{
    if !w.contains_key("actions") {
        w.insert("actions".to_owned(), TomlValue::Table(TomlTable::new()));
    }
    let ghost w1 = w@;
    assert(w1 == with_actions(old(w)@));
    match w.take_table("actions") {
        Some((ai, mut actions)) => {
            proof { lemma_lookup_at(w1, "actions"@, ai as int); }
            if actions.contains_key(gesture) {
                w.restore_table(ai, actions);
                assert(w@ =~= w1);
                false
            } else {
                let ghost a0 = actions@;
                actions.insert(gesture.to_owned(), TomlValue::String(action));
                w.restore_table(ai, actions);
                proof {
                    lemma_insert_at(w1, "actions"@, ai as int, TomlData::Table(table_insert(a0, gesture@, TomlData::String(action@))));
                }
                true
            }
        },
        None => false,
    }
}

/// Removes `enable_scroll` from `w`; when it was `false`, binds both scroll
/// gestures to `none`.
pub fn drop_scroll_toggle(w: &mut TomlTable)
    ensures
        final(w)@ == spec_drop_scroll_toggle(old(w)@),
{
    let removed = w.remove("enable_scroll");
    let enabled = match removed {
        Some(TomlValue::Boolean(b)) => b,
        _ => true,
    };
    if !enabled {
        bind_action(w, "scroll_up", "none".to_owned());
        bind_action(w, "scroll_down", "none".to_owned());
    }
}

/// Removes `key` from `w`; a non-empty command that it held is bound to
/// `gesture` as `exec <command>`.
pub fn move_command(w: &mut TomlTable, key: &str, gesture: &str)
    ensures
        final(w)@ == spec_move_command(old(w)@, key@, gesture@),
{
    let removed = w.remove(key);
    let command = match removed {
        Some(TomlValue::String(s)) => s,
        _ => String::new(),
    };
    if !command.as_str().is_empty() {
        let action = concat("exec ", command.as_str());
        bind_action(w, gesture, action);
    }
}

/// `w` after [`spec_move_command`] when it holds `key`; unchanged otherwise.
pub open spec fn command_step(w: TableData, key: Seq<char>, gesture: Seq<char>) -> TableData {
    if has_key(w, key) { spec_move_command(w, key, gesture) } else { w }
}

/// The message for a command under `key` that became the `gesture` binding;
/// `tail` ends it.
pub open spec fn command_message(key: Seq<char>, gesture: Seq<char>, tail: Seq<char>) -> Seq<char> {
    key + " is now the "@ + gesture + tail
}

/// The note for moving `key` of `w`, if `w` holds it.
pub open spec fn command_note(w: TableData, key: Seq<char>, gesture: Seq<char>, path: Seq<char>, tail: Seq<char>) -> Seq<(Seq<char>, Seq<char>)> {
    if has_key(w, key) { seq![(path, command_message(key, gesture, tail))] } else { Seq::empty() }
}

/// `w` after moving, in order, its `command`, `right_command`, `middle_command`,
/// `scroll_up_command` and `scroll_down_command` to the matching gesture bindings.
pub open spec fn command_chain(w: TableData) -> TableData {
    command_step(
        command_step(
            command_step(command_step(command_step(w, "command"@, "left"@), "right_command"@, "right"@), "middle_command"@, "middle"@),
            "scroll_up_command"@,
            "scroll_up"@,
        ),
        "scroll_down_command"@,
        "scroll_down"@,
    )
}

/// The notes of [`command_chain`], in order.
pub open spec fn command_chain_notes(w: TableData, path: Seq<char>, tail: Seq<char>) -> Seq<(Seq<char>, Seq<char>)> {
    let w1 = command_step(w, "command"@, "left"@);
    let w2 = command_step(w1, "right_command"@, "right"@);
    let w3 = command_step(w2, "middle_command"@, "middle"@);
    let w4 = command_step(w3, "scroll_up_command"@, "scroll_up"@);
    command_note(w, "command"@, "left"@, path, tail) + command_note(w1, "right_command"@, "right"@, path, tail)
        + command_note(w2, "middle_command"@, "middle"@, path, tail)
        + command_note(w3, "scroll_up_command"@, "scroll_up"@, path, tail)
        + command_note(w4, "scroll_down_command"@, "scroll_down"@, path, tail)
}

fn command_message_string(key: &str, gesture: &str, tail: &str) -> (m: String)
    ensures
        m@ == command_message(key@, gesture@, tail@),
{
    let a = concat(key, " is now the ");
    let b = concat(a.as_str(), gesture);
    let m = concat(b.as_str(), tail);
    assert(m@ =~= command_message(key@, gesture@, tail@));
    m
}

fn move_command_noted(w: &mut TomlTable, key: &str, gesture: &str, path: &str, tail: &str, notes: &mut Vec<MigrationNote>)
    ensures
        final(w)@ == command_step(old(w)@, key@, gesture@),
        notes_view(final(notes)@) == notes_view(old(notes)@) + command_note(old(w)@, key@, gesture@, path@, tail@),
{
    if w.contains_key(key) {
        move_command(w, key, gesture);
        let m = command_message_string(key, gesture, tail);
        let ghost before = notes@;
        notes.push(MigrationNote { path: path.to_owned(), message: m });
        assert(notes_view(notes@) =~= notes_view(before) + command_note(old(w)@, key@, gesture@, path@, tail@));
    } else {
        assert(notes_view(notes@) =~= notes_view(old(notes)@) + command_note(old(w)@, key@, gesture@, path@, tail@));
    }
}

/// Moves the five legacy command keys of `w` to gesture bindings; each key
/// moved gives a note at `path` whose message ends with `tail`.
pub fn move_commands(w: &mut TomlTable, path: &str, tail: &str) -> (notes: Vec<MigrationNote>)
    ensures
        final(w)@ == command_chain(old(w)@),
        notes_view(notes@) == command_chain_notes(old(w)@, path@, tail@),
{
    let mut notes: Vec<MigrationNote> = Vec::new();
    assert(notes_view(notes@) =~= Seq::<(Seq<char>, Seq<char>)>::empty());
    move_command_noted(w, "command", "left", path, tail, &mut notes);
    move_command_noted(w, "right_command", "right", path, tail, &mut notes);
    move_command_noted(w, "middle_command", "middle", path, tail, &mut notes);
    move_command_noted(w, "scroll_up_command", "scroll_up", path, tail, &mut notes);
    move_command_noted(w, "scroll_down_command", "scroll_down", path, tail, &mut notes);
    assert(notes_view(notes@) =~= command_chain_notes(old(w)@, path@, tail@));
    notes
}


// ---- what the edits leave behind ----

/// `k` is one of the five legacy command keys.
pub open spec fn is_command_key(k: Seq<char>) -> bool {
    k == "command"@ || k == "right_command"@ || k == "middle_command"@ || k == "scroll_up_command"@
        || k == "scroll_down_command"@
}

/// The five command keys are distinct, and none of them, nor `enable_scroll`, is `actions`.
pub proof fn lemma_command_keys_apart()
    ensures
        !is_command_key("actions"@),
        "enable_scroll"@ != "actions"@,
        "command"@ != "right_command"@ && "command"@ != "middle_command"@ && "command"@ != "scroll_up_command"@
            && "command"@ != "scroll_down_command"@,
        "right_command"@ != "middle_command"@ && "right_command"@ != "scroll_up_command"@
            && "right_command"@ != "scroll_down_command"@,
        "middle_command"@ != "scroll_up_command"@ && "middle_command"@ != "scroll_down_command"@,
        "scroll_up_command"@ != "scroll_down_command"@,
{
    reveal_strlit("actions");
    reveal_strlit("enable_scroll");
    reveal_strlit("command");
    reveal_strlit("right_command");
    reveal_strlit("middle_command");
    reveal_strlit("scroll_up_command");
    reveal_strlit("scroll_down_command");
    assert("actions"@.len() == 7 && "enable_scroll"@.len() == 13 && "command"@.len() == 7);
    assert("actions"@[0] == 'a' && "command"@[0] == 'c');
    assert("right_command"@.len() == 13 && "middle_command"@.len() == 14);
    assert("scroll_up_command"@.len() == 17 && "scroll_down_command"@.len() == 19);
}

/// Binding a gesture changes only the `actions` entry.
pub proof fn lemma_bind_keeps(w: TableData, gesture: Seq<char>, action: Seq<char>, k: Seq<char>)
    requires
        k != "actions"@,
    ensures
        lookup(spec_bind_action(w, gesture, action), k) == lookup(w, k),
{
    let w1 = with_actions(w);
    if !has_key(w, "actions"@) {
        lemma_insert_lookup(w, "actions"@, TomlData::Table(Seq::empty()), k);
    }
    if let Some(actions) = lookup_table(w1, "actions"@) {
        if !has_key(actions, gesture) {
            lemma_insert_lookup(w1, "actions"@, TomlData::Table(table_insert(actions, gesture, TomlData::String(action))), k);
        }
    }
}

/// Dropping the scroll toggle removes `enable_scroll` and changes only it and `actions`.
pub proof fn lemma_drop_scroll_keeps(w: TableData, k: Seq<char>)
    ensures
        lookup(spec_drop_scroll_toggle(w), "enable_scroll"@) is None,
        k != "actions"@ && k != "enable_scroll"@ ==> lookup(spec_drop_scroll_toggle(w), k) == lookup(w, k),
{
    lemma_command_keys_apart();
    let e = "enable_scroll"@;
    let rest = table_remove(w, e);
    lemma_remove_lookup(w, e, k);
    let up = spec_bind_action(rest, "scroll_up"@, "none"@);
    lemma_bind_keeps(rest, "scroll_up"@, "none"@, e);
    lemma_bind_keeps(up, "scroll_down"@, "none"@, e);
    if k != "actions"@ {
        lemma_bind_keeps(rest, "scroll_up"@, "none"@, k);
        lemma_bind_keeps(up, "scroll_down"@, "none"@, k);
    }
}

/// Moving a command removes `key` and changes only it and `actions`.
pub proof fn lemma_move_command_keeps(w: TableData, key: Seq<char>, gesture: Seq<char>, k: Seq<char>)
    requires
        key != "actions"@,
    ensures
        lookup(spec_move_command(w, key, gesture), key) is None,
        k != "actions"@ && k != key ==> lookup(spec_move_command(w, key, gesture), k) == lookup(w, k),
{
    let rest = table_remove(w, key);
    let command = str_or(lookup(w, key), Seq::empty());
    lemma_remove_lookup(w, key, k);
    lemma_bind_keeps(rest, gesture, "exec "@ + command, key);
    if k != "actions"@ {
        lemma_bind_keeps(rest, gesture, "exec "@ + command, k);
    }
}

proof fn lemma_command_step_keeps(w: TableData, key: Seq<char>, gesture: Seq<char>, k: Seq<char>)
    requires
        key != "actions"@,
    ensures
        lookup(command_step(w, key, gesture), key) is None,
        k != "actions"@ && k != key ==> lookup(command_step(w, key, gesture), k) == lookup(w, k),
{
    lemma_move_command_keeps(w, key, gesture, k);
}

/// The command chain removes the five command keys and changes only them and `actions`.
pub proof fn lemma_command_chain_keeps(w: TableData, k: Seq<char>)
    ensures
        is_command_key(k) ==> lookup(command_chain(w), k) is None,
        !is_command_key(k) && k != "actions"@ ==> lookup(command_chain(w), k) == lookup(w, k),
{
    lemma_command_keys_apart();
    let w1 = command_step(w, "command"@, "left"@);
    let w2 = command_step(w1, "right_command"@, "right"@);
    let w3 = command_step(w2, "middle_command"@, "middle"@);
    let w4 = command_step(w3, "scroll_up_command"@, "scroll_up"@);
    lemma_command_step_keeps(w, "command"@, "left"@, k);
    lemma_command_step_keeps(w1, "right_command"@, "right"@, k);
    lemma_command_step_keeps(w2, "middle_command"@, "middle"@, k);
    lemma_command_step_keeps(w3, "scroll_up_command"@, "scroll_up"@, k);
    lemma_command_step_keeps(w4, "scroll_down_command"@, "scroll_down"@, k);
}

/// A table without command keys gives no notes and is left as it is.
pub proof fn lemma_command_chain_idle(w: TableData, path: Seq<char>, tail: Seq<char>)
    requires
        forall|k: Seq<char>| is_command_key(k) ==> !#[trigger] has_key(w, k),
    ensures
        command_chain_notes(w, path, tail).len() == 0,
        command_chain(w) == w,
{
    assert(!has_key(w, "command"@));
    assert(!has_key(w, "right_command"@));
    assert(!has_key(w, "middle_command"@));
    assert(!has_key(w, "scroll_up_command"@));
    assert(!has_key(w, "scroll_down_command"@));
}

/// Notes are given exactly when a command key is present; without notes the chain changes nothing.
pub proof fn lemma_command_chain_silent(w: TableData, path: Seq<char>, tail: Seq<char>)
    requires
        command_chain_notes(w, path, tail).len() == 0,
    ensures
        command_chain(w) == w,
        forall|k: Seq<char>| is_command_key(k) ==> !#[trigger] has_key(w, k),
{
}

/// After the chain, the chain has nothing more to do.
pub proof fn lemma_command_chain_quiet_after(w: TableData, path: Seq<char>, tail: Seq<char>)
    ensures
        command_chain_notes(command_chain(w), path, tail).len() == 0,
{
    let c = command_chain(w);
    assert forall|k: Seq<char>| is_command_key(k) implies !#[trigger] has_key(c, k) by {
        lemma_command_chain_keeps(w, k);
    }
    lemma_command_chain_idle(c, path, tail);
}

} // verus!
