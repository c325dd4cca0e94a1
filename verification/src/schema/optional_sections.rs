//! Readers and writers of the sections that hold optional fields: a dmenu
//! entry, a launcher provider and the session power commands. An optional
//! field is read only when the table holds a value of its type under its key
//! (a trimmed one also only when what is left is not empty), and is written
//! only when it is set.

use vstd::prelude::*;
use crate::value::{TomlEntry, TomlTable, TomlValue, TomlData, TableData, lookup, lemma_entries_data};
use crate::schema::fields::{read_bool_field, read_string_field, get_bool, get_string, bool_entry, string_entry};
use crate::text::{trim_whitespace, spec_trim_whitespace};
use crate::types::bar_config::opt_text_view;
use crate::types::shell::{DmenuEntryConfig, LauncherProviderConfig, ShellSessionPowerConfig};

verus! {

/// An optional string field: the string under `key`, else `cur`.
pub open spec fn read_opt_string_field(t: TableData, key: Seq<char>, cur: Option<Seq<char>>) -> Option<Seq<char>> {
    match lookup(t, key) {
        Some(TomlData::String(s)) => Some(s),
        _ => cur,
    }
}

/// An optional boolean field: the boolean under `key`, else `cur`.
pub open spec fn read_opt_bool_field(t: TableData, key: Seq<char>, cur: Option<bool>) -> Option<bool> {
    match lookup(t, key) {
        Some(TomlData::Boolean(b)) => Some(b),
        _ => cur,
    }
}

/// An optional trimmed string field: the string under `key` with surrounding
/// whitespace removed, when that leaves something; else `cur`.
pub open spec fn read_opt_trimmed_field(t: TableData, key: Seq<char>, cur: Option<Seq<char>>) -> Option<Seq<char>> {
    match lookup(t, key) {
        Some(TomlData::String(s)) => if spec_trim_whitespace(s).len() > 0 { Some(spec_trim_whitespace(s)) } else { cur },
        _ => cur,
    }
}

/// Reads an optional string field into `cur` (see [`read_opt_string_field`]).
pub fn get_opt_string(t: &TomlTable, key: &str, cur: &mut Option<String>)
    ensures
        opt_text_view(*final(cur)) == read_opt_string_field(t@, key@, opt_text_view(*old(cur))),
{
    match t.get(key) {
        Some(TomlValue::String(s)) => {
            *cur = Some(s.clone());
        },
        _ => {},
    }
}

/// Reads an optional boolean field (see [`read_opt_bool_field`]).
pub fn get_opt_bool(t: &TomlTable, key: &str, cur: Option<bool>) -> (r: Option<bool>)
    ensures
        r == read_opt_bool_field(t@, key@, cur),
{
    match t.get(key) {
        Some(TomlValue::Boolean(b)) => Some(*b),
        _ => cur,
    }
}

/// Reads an optional trimmed string field into `cur` (see [`read_opt_trimmed_field`]).
pub fn get_opt_trimmed(t: &TomlTable, key: &str, cur: &mut Option<String>)
    ensures
        opt_text_view(*final(cur)) == read_opt_trimmed_field(t@, key@, opt_text_view(*old(cur))),
{
    match t.get(key) {
        Some(TomlValue::String(s)) => {
            let trimmed = trim_whitespace(s.as_str());
            if !trimmed.is_empty() {
                *cur = Some(trimmed.to_owned());
            }
        },
        _ => {},
    }
}

/// Appends the entry of an optional string, when it is set.
fn push_opt_entry(entries: &mut Vec<TomlEntry>, key: &str, v: &Option<String>)
    ensures
        crate::value::entries_data(final(entries)@, final(entries)@.len() as int)
            == push_opt_string(crate::value::entries_data(old(entries)@, old(entries)@.len() as int), key@, opt_text_view(*v)),
{
    proof { lemma_entries_data(old(entries)@, old(entries)@.len() as int); }
    match v {
        Some(s) => {
            entries.push(string_entry(key, s));
        },
        None => {},
    }
    proof {
        lemma_entries_data(entries@, entries@.len() as int);
        assert(crate::value::entries_data(entries@, entries@.len() as int)
            =~= push_opt_string(crate::value::entries_data(old(entries)@, old(entries)@.len() as int), key@, opt_text_view(*v)));
    }
}

// ── dmenu entry ────────────────────────────────────────────────────────────

/// The content of a [`DmenuEntryConfig`].
pub struct DmenuEntryView {
    pub id: Seq<char>,
    pub command: Seq<char>,
    pub exec_: Option<Seq<char>>,
    pub prefix: Option<Seq<char>>,
    pub label: Option<Seq<char>>,
    pub glyph: Option<Seq<char>>,
    pub global: bool,
    pub freeform: bool,
}

impl View for DmenuEntryConfig {
    type V = DmenuEntryView;

    open spec fn view(&self) -> DmenuEntryView {
        DmenuEntryView {
            id: self.id@,
            command: self.command@,
            exec_: opt_text_view(self.exec_),
            prefix: opt_text_view(self.prefix),
            label: opt_text_view(self.label),
            glyph: opt_text_view(self.glyph),
            global: self.global,
            freeform: self.freeform,
        }
    }
}

/// `cur` with the fields that `t` sets read from it: `exec` is the command
/// and `prefix` the command prefix (held in `exec_`).
pub open spec fn spec_read_dmenu_entry(cur: DmenuEntryView, t: TableData) -> DmenuEntryView {
    DmenuEntryView {
        id: read_string_field(t, "id"@, cur.id),
        command: read_string_field(t, "exec"@, cur.command),
        exec_: read_opt_string_field(t, "prefix"@, cur.exec_),
        label: read_opt_string_field(t, "label"@, cur.label),
        glyph: read_opt_string_field(t, "glyph"@, cur.glyph),
        freeform: read_bool_field(t, "freeform"@, cur.freeform),
        ..cur
    }
}

/// `t` with the entry of an optional string appended, when it is set.
pub open spec fn push_opt_string(t: TableData, key: Seq<char>, v: Option<Seq<char>>) -> TableData {
    match v {
        Some(s) => t.push((key, TomlData::String(s))),
        None => t,
    }
}

/// The table `v` is written as, keys in schema order; an unset optional
/// field is left out.
pub open spec fn spec_write_dmenu_entry(v: DmenuEntryView) -> TableData {
    push_opt_string(
        push_opt_string(
            push_opt_string(seq![("id"@, TomlData::String(v.id)), ("exec"@, TomlData::String(v.command))], "prefix"@, v.exec_),
            "label"@,
            v.label,
        ),
        "glyph"@,
        v.glyph,
    ).push(("freeform"@, TomlData::Boolean(v.freeform)))
}

/// Reads the fields that `t` sets into `out`; see [`spec_read_dmenu_entry`].
pub fn read_dmenu_entry(t: &TomlTable, out: &mut DmenuEntryConfig)
    ensures
        final(out)@ == spec_read_dmenu_entry(old(out)@, t@),
{
    get_string(t, "id", &mut out.id);
    get_string(t, "exec", &mut out.command);
    get_opt_string(t, "prefix", &mut out.exec_);
    get_opt_string(t, "label", &mut out.label);
    get_opt_string(t, "glyph", &mut out.glyph);
    out.freeform = get_bool(t, "freeform", out.freeform);
}

/// Writes `v`; see [`spec_write_dmenu_entry`].
pub fn write_dmenu_entry(v: &DmenuEntryConfig) -> (t: TomlTable)
    ensures
        t@ == spec_write_dmenu_entry(v@),
{
    let mut entries: Vec<TomlEntry> = Vec::new();
    entries.push(string_entry("id", &v.id));
    entries.push(string_entry("exec", &v.command));
    proof {
        lemma_entries_data(entries@, entries@.len() as int);
        assert(crate::value::entries_data(entries@, entries@.len() as int)
            =~= seq![("id"@, TomlData::String(v.id@)), ("exec"@, TomlData::String(v.command@))]);
    }
    push_opt_entry(&mut entries, "prefix", &v.exec_);
    push_opt_entry(&mut entries, "label", &v.label);
    push_opt_entry(&mut entries, "glyph", &v.glyph);
    proof { lemma_entries_data(entries@, entries@.len() as int); }
    let ghost before = crate::value::entries_data(entries@, entries@.len() as int);
    entries.push(bool_entry("freeform", v.freeform));
    proof {
        lemma_entries_data(entries@, entries@.len() as int);
        assert(crate::value::entries_data(entries@, entries@.len() as int)
            =~= before.push(("freeform"@, TomlData::Boolean(v.freeform))));
    }
    let t = TomlTable { entries };
    proof { assert(t@ =~= spec_write_dmenu_entry(v@)); }
    t
}

/// Appending an entry keeps the value of a key present before, and gives
/// the appended value to its key when it was absent.
proof fn lemma_lookup_after_push(t: TableData, e: (Seq<char>, TomlData), k: Seq<char>)
    ensures
        lookup(t.push(e), k) == match lookup(t, k) {
            Some(x) => Some(x),
            None => if e.0 == k { Some(e.1) } else { None },
        },
{
    crate::value::lemma_lookup_push(t, e, k);
}

/// [`lemma_lookup_after_push`] for an optional entry.
proof fn lemma_lookup_after_opt(t: TableData, key: Seq<char>, v: Option<Seq<char>>, k: Seq<char>)
    ensures
        lookup(push_opt_string(t, key, v), k) == match lookup(t, k) {
            Some(x) => Some(x),
            None => if v is Some && key == k { Some(TomlData::String(v.unwrap())) } else { None },
        },
{
    if let Some(s) = v {
        lemma_lookup_after_push(t, (key, TomlData::String(s)), k);
    }
}

/// Reading a written dmenu entry back gives it: the fields the table sets
/// come from it, an unset optional field keeps what `cur` held.
pub proof fn lemma_dmenu_entry_round_trip(cur: DmenuEntryView, v: DmenuEntryView)
    ensures
        spec_read_dmenu_entry(cur, spec_write_dmenu_entry(v)) == (DmenuEntryView {
            id: v.id,
            command: v.command,
            exec_: if v.exec_ is Some { v.exec_ } else { cur.exec_ },
            label: if v.label is Some { v.label } else { cur.label },
            glyph: if v.glyph is Some { v.glyph } else { cur.glyph },
            freeform: v.freeform,
            ..cur
        }),
{
    reveal_strlit("id");
    reveal_strlit("exec");
    reveal_strlit("prefix");
    reveal_strlit("label");
    reveal_strlit("glyph");
    reveal_strlit("freeform");
    assert("id"@.len() != "exec"@.len());
    assert("id"@.len() != "prefix"@.len());
    assert("id"@.len() != "label"@.len());
    assert("id"@.len() != "glyph"@.len());
    assert("id"@.len() != "freeform"@.len());
    assert("exec"@.len() != "prefix"@.len());
    assert("exec"@.len() != "label"@.len());
    assert("exec"@.len() != "glyph"@.len());
    assert("exec"@.len() != "freeform"@.len());
    assert("prefix"@.len() != "label"@.len());
    assert("prefix"@.len() != "glyph"@.len());
    assert("prefix"@.len() != "freeform"@.len());
    assert("label"@[0] != "glyph"@[0]);
    assert("label"@.len() != "freeform"@.len());
    assert("glyph"@.len() != "freeform"@.len());
    let t0: TableData = Seq::empty();
    let t1 = t0.push(("id"@, TomlData::String(v.id)));
    let t2 = t1.push(("exec"@, TomlData::String(v.command)));
    assert(t2 =~= seq![("id"@, TomlData::String(v.id)), ("exec"@, TomlData::String(v.command))]);
    let t3 = push_opt_string(t2, "prefix"@, v.exec_);
    let t4 = push_opt_string(t3, "label"@, v.label);
    let t5 = push_opt_string(t4, "glyph"@, v.glyph);
    let t6 = t5.push(("freeform"@, TomlData::Boolean(v.freeform)));
    assert forall|k: Seq<char>| #[trigger] lookup(t6, k) == (
        if k == "id"@ { Some(TomlData::String(v.id)) }
        else if k == "exec"@ { Some(TomlData::String(v.command)) }
        else if k == "prefix"@ && v.exec_ is Some { Some(TomlData::String(v.exec_.unwrap())) }
        else if k == "label"@ && v.label is Some { Some(TomlData::String(v.label.unwrap())) }
        else if k == "glyph"@ && v.glyph is Some { Some(TomlData::String(v.glyph.unwrap())) }
        else if k == "freeform"@ { Some(TomlData::Boolean(v.freeform)) }
        else { None }
    ) by {
        assert(lookup(t0, k) is None);
        lemma_lookup_after_push(t0, ("id"@, TomlData::String(v.id)), k);
        lemma_lookup_after_push(t1, ("exec"@, TomlData::String(v.command)), k);
        lemma_lookup_after_opt(t2, "prefix"@, v.exec_, k);
        lemma_lookup_after_opt(t3, "label"@, v.label, k);
        lemma_lookup_after_opt(t4, "glyph"@, v.glyph, k);
        lemma_lookup_after_push(t5, ("freeform"@, TomlData::Boolean(v.freeform)), k);
    }
    assert(spec_write_dmenu_entry(v) == t6);
    assert(lookup(t6, "id"@) == Some(TomlData::String(v.id)));
    assert(lookup(t6, "exec"@) == Some(TomlData::String(v.command)));
    assert(lookup(t6, "prefix"@) == if v.exec_ is Some { Some(TomlData::String(v.exec_.unwrap())) } else { None });
    assert(lookup(t6, "label"@) == if v.label is Some { Some(TomlData::String(v.label.unwrap())) } else { None });
    assert(lookup(t6, "glyph"@) == if v.glyph is Some { Some(TomlData::String(v.glyph.unwrap())) } else { None });
    assert(lookup(t6, "freeform"@) == Some(TomlData::Boolean(v.freeform)));
    reveal(read_bool_field);
}

// ── launcher provider ──────────────────────────────────────────────────────

/// The content of a [`LauncherProviderConfig`].
pub struct LauncherProviderView {
    pub name: Seq<char>,
    pub prefix: Seq<char>,
    pub global: Option<bool>,
}

impl View for LauncherProviderConfig {
    type V = LauncherProviderView;

    open spec fn view(&self) -> LauncherProviderView {
        LauncherProviderView { name: self.name@, prefix: self.prefix@, global: self.global }
    }
}

/// `cur` with the fields that `t` sets read from it.
pub open spec fn spec_read_launcher_provider(cur: LauncherProviderView, t: TableData) -> LauncherProviderView {
    LauncherProviderView {
        prefix: read_string_field(t, "prefix"@, cur.prefix),
        global: read_opt_bool_field(t, "global"@, cur.global),
        ..cur
    }
}

/// The table `v` is written as: the prefix, then `global` when it is set.
pub open spec fn spec_write_launcher_provider(v: LauncherProviderView) -> TableData {
    match v.global {
        Some(g) => seq![("prefix"@, TomlData::String(v.prefix)), ("global"@, TomlData::Boolean(g))],
        None => seq![("prefix"@, TomlData::String(v.prefix))],
    }
}

/// Reads the fields that `t` sets into `out`; see [`spec_read_launcher_provider`].
pub fn read_launcher_provider(t: &TomlTable, out: &mut LauncherProviderConfig)
    ensures
        final(out)@ == spec_read_launcher_provider(old(out)@, t@),
{
    get_string(t, "prefix", &mut out.prefix);
    out.global = get_opt_bool(t, "global", out.global);
}

/// Writes `v`; see [`spec_write_launcher_provider`].
pub fn write_launcher_provider(v: &LauncherProviderConfig) -> (t: TomlTable)
    ensures
        t@ == spec_write_launcher_provider(v@),
{
    let mut entries: Vec<TomlEntry> = Vec::new();
    entries.push(string_entry("prefix", &v.prefix));
    match v.global {
        Some(g) => {
            entries.push(bool_entry("global", g));
        },
        None => {},
    }
    let t = TomlTable { entries };
    proof {
        lemma_entries_data(t.entries@, t.entries@.len() as int);
        assert(t@ =~= spec_write_launcher_provider(v@));
    }
    t
}

/// Reading a written launcher provider back gives it; an unset `global`
/// keeps what `cur` held.
pub proof fn lemma_launcher_provider_round_trip(cur: LauncherProviderView, v: LauncherProviderView)
    ensures
        spec_read_launcher_provider(cur, spec_write_launcher_provider(v)) == (LauncherProviderView {
            prefix: v.prefix,
            global: if v.global is Some { v.global } else { cur.global },
            ..cur
        }),
{
    reveal_strlit("prefix");
    reveal_strlit("global");
    assert("prefix"@[0] != "global"@[0]);
    let t0: TableData = Seq::empty();
    let t1 = t0.push(("prefix"@, TomlData::String(v.prefix)));
    assert(lookup(t0, "prefix"@) is None);
    assert(lookup(t0, "global"@) is None);
    lemma_lookup_after_push(t0, ("prefix"@, TomlData::String(v.prefix)), "prefix"@);
    lemma_lookup_after_push(t0, ("prefix"@, TomlData::String(v.prefix)), "global"@);
    if let Some(g) = v.global {
        lemma_lookup_after_push(t1, ("global"@, TomlData::Boolean(g)), "prefix"@);
        lemma_lookup_after_push(t1, ("global"@, TomlData::Boolean(g)), "global"@);
        assert(spec_write_launcher_provider(v) =~= t1.push(("global"@, TomlData::Boolean(g))));
    } else {
        assert(spec_write_launcher_provider(v) =~= t1);
    }
}

// ── session power commands ─────────────────────────────────────────────────

/// The content of a [`ShellSessionPowerConfig`].
pub struct SessionPowerView {
    pub suspend: Option<Seq<char>>,
    pub reboot: Option<Seq<char>>,
    pub shutdown: Option<Seq<char>>,
}

impl View for ShellSessionPowerConfig {
    type V = SessionPowerView;

    open spec fn view(&self) -> SessionPowerView {
        SessionPowerView {
            suspend: opt_text_view(self.suspend),
            reboot: opt_text_view(self.reboot),
            shutdown: opt_text_view(self.shutdown),
        }
    }
}

/// `cur` with the commands that `t` sets read from it, trimmed; a command
/// that is only whitespace is ignored.
pub open spec fn spec_read_session_power(cur: SessionPowerView, t: TableData) -> SessionPowerView {
    SessionPowerView {
        suspend: read_opt_trimmed_field(t, "suspend"@, cur.suspend),
        reboot: read_opt_trimmed_field(t, "reboot"@, cur.reboot),
        shutdown: read_opt_trimmed_field(t, "shutdown"@, cur.shutdown),
    }
}

/// The table `v` is written as: each command that is set, in schema order.
pub open spec fn spec_write_session_power(v: SessionPowerView) -> TableData {
    push_opt_string(push_opt_string(push_opt_string(Seq::empty(), "suspend"@, v.suspend), "reboot"@, v.reboot), "shutdown"@, v.shutdown)
}

/// Reads the commands that `t` sets into `out`; see [`spec_read_session_power`].
pub fn read_session_power(t: &TomlTable, out: &mut ShellSessionPowerConfig)
    ensures
        final(out)@ == spec_read_session_power(old(out)@, t@),
{
    get_opt_trimmed(t, "suspend", &mut out.suspend);
    get_opt_trimmed(t, "reboot", &mut out.reboot);
    get_opt_trimmed(t, "shutdown", &mut out.shutdown);
}

/// Writes `v`; see [`spec_write_session_power`].
pub fn write_session_power(v: &ShellSessionPowerConfig) -> (t: TomlTable)
    ensures
        t@ == spec_write_session_power(v@),
{
    let mut entries: Vec<TomlEntry> = Vec::new();
    proof {
        lemma_entries_data(entries@, entries@.len() as int);
        assert(crate::value::entries_data(entries@, entries@.len() as int) =~= Seq::<(Seq<char>, TomlData)>::empty());
    }
    push_opt_entry(&mut entries, "suspend", &v.suspend);
    push_opt_entry(&mut entries, "reboot", &v.reboot);
    push_opt_entry(&mut entries, "shutdown", &v.shutdown);
    let t = TomlTable { entries };
    proof { lemma_entries_data(t.entries@, t.entries@.len() as int); }
    t
}

/// A command that is set reads back as written when it is already trimmed
/// and not empty; an unset one keeps what `cur` held.
pub open spec fn read_back_command(written: Option<Seq<char>>, cur: Option<Seq<char>>) -> Option<Seq<char>> {
    if written is Some { written } else { cur }
}

/// Reading written power commands back gives them, for commands that are
/// trimmed and not empty.
pub proof fn lemma_session_power_round_trip(cur: SessionPowerView, v: SessionPowerView)
    requires
        v.suspend matches Some(s) ==> spec_trim_whitespace(s) == s && s.len() > 0,
        v.reboot matches Some(s) ==> spec_trim_whitespace(s) == s && s.len() > 0,
        v.shutdown matches Some(s) ==> spec_trim_whitespace(s) == s && s.len() > 0,
    ensures
        spec_read_session_power(cur, spec_write_session_power(v)) == (SessionPowerView {
            suspend: read_back_command(v.suspend, cur.suspend),
            reboot: read_back_command(v.reboot, cur.reboot),
            shutdown: read_back_command(v.shutdown, cur.shutdown),
        }),
{
    reveal_strlit("suspend");
    reveal_strlit("reboot");
    reveal_strlit("shutdown");
    assert("suspend"@.len() != "reboot"@.len());
    assert("suspend"@[1] != "shutdown"@[1]);
    assert("reboot"@.len() != "shutdown"@.len());
    let t0: TableData = Seq::empty();
    let t1 = push_opt_string(t0, "suspend"@, v.suspend);
    let t2 = push_opt_string(t1, "reboot"@, v.reboot);
    let t3 = push_opt_string(t2, "shutdown"@, v.shutdown);
    assert forall|k: Seq<char>| #[trigger] lookup(t3, k) == (
        if k == "suspend"@ && v.suspend is Some { Some(TomlData::String(v.suspend.unwrap())) }
        else if k == "reboot"@ && v.reboot is Some { Some(TomlData::String(v.reboot.unwrap())) }
        else if k == "shutdown"@ && v.shutdown is Some { Some(TomlData::String(v.shutdown.unwrap())) }
        else { None }
    ) by {
        assert(lookup(t0, k) is None);
        lemma_lookup_after_opt(t0, "suspend"@, v.suspend, k);
        lemma_lookup_after_opt(t1, "reboot"@, v.reboot, k);
        lemma_lookup_after_opt(t2, "shutdown"@, v.shutdown, k);
    }
    assert(lookup(t3, "suspend"@) == if v.suspend is Some { Some(TomlData::String(v.suspend.unwrap())) } else { None });
    assert(lookup(t3, "reboot"@) == if v.reboot is Some { Some(TomlData::String(v.reboot.unwrap())) } else { None });
    assert(lookup(t3, "shutdown"@) == if v.shutdown is Some { Some(TomlData::String(v.shutdown.unwrap())) } else { None });
}

} // verus!
