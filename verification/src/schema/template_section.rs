//! Reading and writing a user template (`[theme.templates.user.<name>]`).

use vstd::prelude::*;
use crate::value::{TomlEntry, TomlTable, TomlValue, TomlData, TableData, lookup, table_insert, items_data, lemma_items_data, entries_data, lemma_entries_data};
use crate::schema::config_schema::{spec_expand_user_path, expand_user_path};
use crate::schema::fields::{read_bool_field, read_string_field, read_path_field, read_int_field, get_bool,
    get_string, get_path, get_int, bool_entry, string_entry, int_entry};
use crate::schema::value_checks::home_view;
use crate::text::{trim_whitespace, spec_trim_whitespace};
use crate::types::theme::{UserTemplateConfig, TemplateInputPathModesConfig, TemplateCompareColorConfig};
use crate::types::widget_setting_value::string_list_view;

verus! {

/// The content of a [`UserTemplateConfig`]; the per-mode inputs are `(dark, light)`
/// and each compared colour is `(name, colour)`.
pub struct UserTemplateView {
    pub id: Seq<char>,
    pub enabled: bool,
    pub input_path: Seq<char>,
    pub input_path_modes: Option<(Seq<char>, Seq<char>)>,
    pub output_paths: Seq<Seq<char>>,
    pub output_path_dynamic: Seq<char>,
    pub compare_to: Seq<char>,
    pub colors_to_compare: Seq<(Seq<char>, Seq<char>)>,
    pub pre_hook: Seq<char>,
    pub post_hook: Seq<char>,
    pub post_action: Seq<char>,
    pub index: i32,
}

/// The `(name, colour)` pairs of a list of compared colours.
pub open spec fn compare_view(v: Seq<TemplateCompareColorConfig>) -> Seq<(Seq<char>, Seq<char>)> {
    v.map_values(|c: TemplateCompareColorConfig| (c.name@, c.color@))
}

impl View for UserTemplateConfig {
    type V = UserTemplateView;

    open spec fn view(&self) -> UserTemplateView {
        UserTemplateView {
            id: self.id@,
            enabled: self.enabled,
            input_path: self.input_path@,
            input_path_modes: match self.input_path_modes {
                Some(m) => Some((m.dark@, m.light@)),
                None => None,
            },
            output_paths: string_list_view(self.output_paths@),
            output_path_dynamic: self.output_path_dynamic@,
            compare_to: self.compare_to@,
            colors_to_compare: compare_view(self.colors_to_compare@),
            pre_hook: self.pre_hook@,
            post_hook: self.post_hook@,
            post_action: self.post_action@,
            index: self.index,
        }
    }
}

/// A string under `key` with a leading `~` expanded, else empty.
pub open spec fn expanded_or_empty(t: TableData, key: Seq<char>, home: Option<Seq<char>>) -> Seq<char> {
    match lookup(t, key) {
        Some(TomlData::String(s)) => spec_expand_user_path(s, home),
        _ => Seq::empty(),
    }
}

/// The non-empty strings among the first `n` items, each with a leading `~` expanded.
pub open spec fn output_items(items: Seq<TomlData>, home: Option<Seq<char>>, n: int) -> Seq<Seq<char>>
    decreases n,
{
    if n <= 0 || n > items.len() {
        Seq::empty()
    } else {
        output_items(items, home, n - 1) + match items[n - 1] {
            TomlData::String(s) => if s.len() > 0 { seq![spec_expand_user_path(s, home)] } else { Seq::empty() },
            _ => Seq::empty(),
        }
    }
}

/// The `(name, colour)` pairs of the first `n` entries whose value is a string.
pub open spec fn color_pairs(t: TableData, n: int) -> Seq<(Seq<char>, Seq<char>)>
    decreases n,
{
    if n <= 0 || n > t.len() {
        Seq::empty()
    } else {
        color_pairs(t, n - 1) + match t[n - 1].1 {
            TomlData::String(c) => seq![(t[n - 1].0, c)],
            _ => Seq::empty(),
        }
    }
}

/// `cur` with the fields that the template table `t` sets read from it:
/// `name` trimmed into the id, paths with a leading `~` expanded against
/// `home`, `output_path` as one non-empty path or an array of them, and the
/// string entries of `compare_colors`.
pub open spec fn spec_read_user_template(cur: UserTemplateView, t: TableData, home: Option<Seq<char>>) -> UserTemplateView {
    UserTemplateView {
        id: match lookup(t, "name"@) {
            Some(TomlData::String(v)) => spec_trim_whitespace(v),
            _ => cur.id,
        },
        enabled: read_bool_field(t, "enabled"@, cur.enabled),
        input_path: read_path_field(t, "input_path"@, home, cur.input_path),
        input_path_modes: match lookup(t, "input_path_modes"@) {
            Some(TomlData::Table(sub)) => Some((expanded_or_empty(sub, "dark"@, home), expanded_or_empty(sub, "light"@, home))),
            _ => cur.input_path_modes,
        },
        output_paths: match lookup(t, "output_path"@) {
            Some(TomlData::String(s)) => if s.len() > 0 { seq![spec_expand_user_path(s, home)] } else { cur.output_paths },
            Some(TomlData::Array(items)) => output_items(items, home, items.len() as int),
            _ => cur.output_paths,
        },
        output_path_dynamic: read_path_field(t, "dynamic_template"@, home, cur.output_path_dynamic),
        compare_to: read_string_field(t, "compare_mode"@, cur.compare_to),
        colors_to_compare: match lookup(t, "compare_colors"@) {
            Some(TomlData::Table(sub)) => color_pairs(sub, sub.len() as int),
            _ => cur.colors_to_compare,
        },
        pre_hook: read_string_field(t, "pre_command"@, cur.pre_hook),
        post_hook: read_string_field(t, "post_command"@, cur.post_hook),
        post_action: read_string_field(t, "palette_export_kind"@, cur.post_action),
        index: read_int_field(t, "palette_export_variant_index"@, None, cur.index),
    }
}

fn output_paths_of(items: &Vec<TomlValue>, home: Option<&str>) -> (r: Vec<String>)
    ensures
        string_list_view(r@) == output_items(items_data(items@, items@.len() as int), home_view(home), items@.len() as int),
{
    proof { lemma_items_data(items@, items@.len() as int); }
    let ghost iv = items_data(items@, items@.len() as int);
    let mut r: Vec<String> = Vec::new();
    let mut i: usize = 0;
    while i < items.len()
        invariant
            iv == items_data(items@, items@.len() as int),
            iv.len() == items@.len(),
            forall|j: int| 0 <= j < iv.len() ==> #[trigger] iv[j] == items@[j]@,
            0 <= i <= items.len(),
            string_list_view(r@) == output_items(iv, home_view(home), i as int),
        decreases items.len() - i,
    {
        assert(iv[i as int] == items@[i as int]@);
        let ghost before = r@;
        match &items[i] {
            TomlValue::String(s) => {
                if !s.as_str().is_empty() {
                    let p = expand_user_path(s.as_str(), home);
                    r.push(p);
                    assert(string_list_view(r@) =~= string_list_view(before).push(p@));
                }
            },
            _ => {},
        }
        assert(string_list_view(r@) =~= output_items(iv, home_view(home), i as int + 1));
        i += 1;
    }
    r
}

fn compare_colors_of(t: &TomlTable) -> (r: Vec<TemplateCompareColorConfig>)
    ensures
        compare_view(r@) == color_pairs(t@, t@.len() as int),
{
    let n = t.len();
    let mut r: Vec<TemplateCompareColorConfig> = Vec::new();
    let mut i: usize = 0;
    while i < n
        invariant
            n == t@.len(),
            0 <= i <= n,
            compare_view(r@) == color_pairs(t@, i as int),
        decreases n - i,
    {
        let key = t.key_at(i);
        let ghost before = r@;
        match t.value_at(i) {
            TomlValue::String(c) => {
                let item = TemplateCompareColorConfig { name: key.to_owned(), color: c.clone() };
                r.push(item);
                assert(compare_view(r@) =~= compare_view(before).push((key@, c@)));
            },
            _ => {},
        }
        assert(compare_view(r@) =~= color_pairs(t@, i as int + 1));
        i += 1;
    }
    r
}

fn expanded_or_empty_of(t: &TomlTable, key: &str, home: Option<&str>) -> (r: String)
    ensures
        r@ == expanded_or_empty(t@, key@, home_view(home)),
{
    match t.get(key) {
        Some(TomlValue::String(s)) => expand_user_path(s.as_str(), home),
        _ => String::new(),
    }
}

/// Reads the fields that the template table `t` sets into `out`; see
/// [`spec_read_user_template`].
pub fn read_user_template(t: &TomlTable, out: &mut UserTemplateConfig, home: Option<&str>)
    ensures
        final(out)@ == spec_read_user_template(old(out)@, t@, home_view(home)),
{
    match t.get("name") {
        Some(TomlValue::String(v)) => {
            out.id = trim_whitespace(v.as_str()).to_owned();
        },
        _ => {},
    }
    out.enabled = get_bool(t, "enabled", out.enabled);
    get_path(t, "input_path", home, &mut out.input_path);
    match t.get("input_path_modes") {
        Some(TomlValue::Table(sub)) => {
            let dark = expanded_or_empty_of(sub, "dark", home);
            let light = expanded_or_empty_of(sub, "light", home);
            out.input_path_modes = Some(TemplateInputPathModesConfig { dark, light });
        },
        _ => {},
    }
    match t.get("output_path") {
        Some(TomlValue::String(s)) => {
            if !s.as_str().is_empty() {
                let mut paths: Vec<String> = Vec::new();
                paths.push(expand_user_path(s.as_str(), home));
                proof { assert(string_list_view(paths@) =~= seq![spec_expand_user_path(s@, home_view(home))]); }
                out.output_paths = paths;
            }
        },
        Some(TomlValue::Array(items)) => {
            proof { lemma_items_data(items@, items@.len() as int); }
            out.output_paths = output_paths_of(items, home);
        },
        _ => {},
    }
    get_path(t, "dynamic_template", home, &mut out.output_path_dynamic);
    get_string(t, "compare_mode", &mut out.compare_to);
    match t.get("compare_colors") {
        Some(TomlValue::Table(sub)) => {
            out.colors_to_compare = compare_colors_of(sub);
        },
        _ => {},
    }
    get_string(t, "pre_command", &mut out.pre_hook);
    get_string(t, "post_command", &mut out.post_hook);
    get_string(t, "palette_export_kind", &mut out.post_action);
    out.index = get_int(t, "palette_export_variant_index", None, out.index);
}

/// The entries `output_path` is written as: one path as a string, several as
/// an array, none as nothing.
pub open spec fn output_entries(paths: Seq<Seq<char>>) -> TableData {
    if paths.len() == 1 {
        seq![("output_path"@, TomlData::String(paths[0]))]
    } else if paths.len() > 1 {
        seq![("output_path"@, TomlData::Array(paths.map_values(|p: Seq<char>| TomlData::String(p))))]
    } else {
        Seq::empty()
    }
}

/// The table the compared colours are written as: each name bound to its colour, in order.
pub open spec fn colors_table(cs: Seq<(Seq<char>, Seq<char>)>) -> TableData
    decreases cs.len(),
{
    if cs.len() == 0 {
        Seq::empty()
    } else {
        table_insert(colors_table(cs.drop_last()), cs.last().0, TomlData::String(cs.last().1))
    }
}

/// The `input_path_modes` entry: written only when one of the two paths is set.
pub open spec fn modes_entries(m: Option<(Seq<char>, Seq<char>)>) -> TableData {
    match m {
        Some((d, l)) => if d.len() > 0 || l.len() > 0 {
            seq![("input_path_modes"@, TomlData::Table(seq![("dark"@, TomlData::String(d)), ("light"@, TomlData::String(l))]))]
        } else {
            Seq::empty()
        },
        None => Seq::empty(),
    }
}

/// The `compare_colors` entry: written only when there is a colour.
pub open spec fn colors_entries(cs: Seq<(Seq<char>, Seq<char>)>) -> TableData {
    if cs.len() > 0 {
        seq![("compare_colors"@, TomlData::Table(colors_table(cs)))]
    } else {
        Seq::empty()
    }
}

/// The table a template is written as, keys in schema order: the per-mode
/// inputs only when one of them is set, `output_path` as [`output_entries`],
/// `compare_colors` only when there is one.
pub open spec fn spec_write_user_template(v: UserTemplateView) -> TableData {
    seq![
        ("name"@, TomlData::String(v.id)),
        ("enabled"@, TomlData::Boolean(v.enabled)),
        ("input_path"@, TomlData::String(v.input_path)),
    ] + modes_entries(v.input_path_modes) + output_entries(v.output_paths) + seq![
        ("dynamic_template"@, TomlData::String(v.output_path_dynamic)),
        ("compare_mode"@, TomlData::String(v.compare_to)),
    ] + colors_entries(v.colors_to_compare) + seq![
        ("pre_command"@, TomlData::String(v.pre_hook)),
        ("post_command"@, TomlData::String(v.post_hook)),
        ("palette_export_kind"@, TomlData::String(v.post_action)),
        ("palette_export_variant_index"@, TomlData::Integer(v.index as i64)),
    ]
}

fn string_values(v: &Vec<String>) -> (r: Vec<TomlValue>)
    ensures
        items_data(r@, r@.len() as int) == string_list_view(v@).map_values(|p: Seq<char>| TomlData::String(p)),
{
    let mut items: Vec<TomlValue> = Vec::new();
    let mut i: usize = 0;
    while i < v.len()
        invariant
            0 <= i <= v.len(),
            items@.len() == i,
            forall|j: int| 0 <= j < i ==> #[trigger] items@[j] == TomlValue::String(v@[j]),
        decreases v.len() - i,
    {
        items.push(TomlValue::String(v[i].clone()));
        i += 1;
    }
    proof {
        lemma_items_data(items@, items@.len() as int);
        assert(items_data(items@, items@.len() as int) =~= string_list_view(v@).map_values(|p: Seq<char>| TomlData::String(p)));
    }
    items
}

fn colors_table_of(cs: &Vec<TemplateCompareColorConfig>) -> (t: TomlTable)
    ensures
        t@ == colors_table(compare_view(cs@)),
{
    let mut t = TomlTable::new();
    let mut i: usize = 0;
    while i < cs.len()
        invariant
            0 <= i <= cs.len(),
            t@ == colors_table(compare_view(cs@).take(i as int)),
        decreases cs.len() - i,
    {
        assert(compare_view(cs@).take(i as int + 1).drop_last() =~= compare_view(cs@).take(i as int));
        t.insert(cs[i].name.clone(), TomlValue::String(cs[i].color.clone()));
        i += 1;
    }
    assert(compare_view(cs@).take(cs@.len() as int) =~= compare_view(cs@));
    t
}

fn table_view_of(entries: Vec<TomlEntry>) -> (t: TomlTable)
    ensures
        t.entries == entries,
{
    TomlTable { entries }
}

fn push_entry(entries: &mut Vec<TomlEntry>, e: TomlEntry, Ghost(tv): Ghost<TableData>)
    requires
        entries_data(old(entries)@, old(entries)@.len() as int) == tv,
    ensures
        entries_data(final(entries)@, final(entries)@.len() as int) == tv.push((e.key@, e.value@)),
{
    proof { lemma_entries_data(old(entries)@, old(entries)@.len() as int); }
    entries.push(e);
    proof {
        lemma_entries_data(entries@, entries@.len() as int);
        assert(entries_data(entries@, entries@.len() as int) =~= tv.push((e.key@, e.value@)));
    }
}

/// Writes a template; see [`spec_write_user_template`].
#[verifier::spinoff_prover]
#[verifier::rlimit(60)]
pub fn write_user_template(v: &UserTemplateConfig) -> (t: TomlTable)
    ensures
        t@ == spec_write_user_template(v@),
{
    let mut es: Vec<TomlEntry> = Vec::new();
    proof {
        assert(entries_data(es@, 0) =~= Seq::<(Seq<char>, TomlData)>::empty());
    }
    let ghost mut tv: TableData = Seq::empty();
    push_entry(&mut es, string_entry("name", &v.id), Ghost(tv));
    proof { tv = tv.push(("name"@, TomlData::String(v.id@))); }
    push_entry(&mut es, bool_entry("enabled", v.enabled), Ghost(tv));
    proof { tv = tv.push(("enabled"@, TomlData::Boolean(v.enabled))); }
    push_entry(&mut es, string_entry("input_path", &v.input_path), Ghost(tv));
    proof { tv = tv.push(("input_path"@, TomlData::String(v.input_path@))); }
    let ghost head = tv;
    match &v.input_path_modes {
        Some(m) => {
            if !m.dark.as_str().is_empty() || !m.light.as_str().is_empty() {
                let mut sub: Vec<TomlEntry> = Vec::new();
                sub.push(string_entry("dark", &m.dark));
                sub.push(string_entry("light", &m.light));
                let st = table_view_of(sub);
                proof {
                    lemma_entries_data(st.entries@, st.entries@.len() as int);
                    assert(st@ =~= seq![("dark"@, TomlData::String(m.dark@)), ("light"@, TomlData::String(m.light@))]);
                }
                let e = TomlEntry { key: "input_path_modes".to_owned(), value: TomlValue::Table(st) };
                push_entry(&mut es, e, Ghost(tv));
                proof { tv = tv.push((e.key@, e.value@)); }
            }
        },
        None => {},
    }
    assert(tv =~= head + modes_entries(v@.input_path_modes));
    let ghost before_out = tv;
    if v.output_paths.len() == 1 {
        let e = string_entry("output_path", &v.output_paths[0]);
        push_entry(&mut es, e, Ghost(tv));
        proof { tv = tv.push((e.key@, e.value@)); }
    } else if v.output_paths.len() > 1 {
        let items = string_values(&v.output_paths);
        let e = TomlEntry { key: "output_path".to_owned(), value: TomlValue::Array(items) };
        push_entry(&mut es, e, Ghost(tv));
        proof { tv = tv.push((e.key@, e.value@)); }
    }
    assert(tv =~= before_out + output_entries(string_list_view(v.output_paths@)));
    push_entry(&mut es, string_entry("dynamic_template", &v.output_path_dynamic), Ghost(tv));
    proof { tv = tv.push(("dynamic_template"@, TomlData::String(v.output_path_dynamic@))); }
    push_entry(&mut es, string_entry("compare_mode", &v.compare_to), Ghost(tv));
    proof { tv = tv.push(("compare_mode"@, TomlData::String(v.compare_to@))); }
    let ghost before_colors = tv;
    if v.colors_to_compare.len() > 0 {
        let ct = colors_table_of(&v.colors_to_compare);
        let e = TomlEntry { key: "compare_colors".to_owned(), value: TomlValue::Table(ct) };
        push_entry(&mut es, e, Ghost(tv));
        proof { tv = tv.push((e.key@, e.value@)); }
    }
    assert(tv =~= before_colors + colors_entries(v@.colors_to_compare));
    push_entry(&mut es, string_entry("pre_command", &v.pre_hook), Ghost(tv));
    proof { tv = tv.push(("pre_command"@, TomlData::String(v.pre_hook@))); }
    push_entry(&mut es, string_entry("post_command", &v.post_hook), Ghost(tv));
    proof { tv = tv.push(("post_command"@, TomlData::String(v.post_hook@))); }
    push_entry(&mut es, string_entry("palette_export_kind", &v.post_action), Ghost(tv));
    proof { tv = tv.push(("palette_export_kind"@, TomlData::String(v.post_action@))); }
    push_entry(&mut es, int_entry("palette_export_variant_index", v.index), Ghost(tv));
    proof { tv = tv.push(("palette_export_variant_index"@, TomlData::Integer(v.index as i64))); }
    let t = TomlTable { entries: es };
    assert(t@ =~= spec_write_user_template(v@));
    t
}


/// A table with distinct keys holds each entry's value under its key.
pub proof fn lemma_lookup_distinct(t: TableData, i: int)
    requires
        crate::value::keys_distinct(t),
        0 <= i < t.len(),
    ensures
        lookup(t, t[i].0) == Some(t[i].1),
{
    assert(crate::value::first_key_at(t, t[i].0, i));
    crate::value::lemma_lookup_at(t, t[i].0, i);
}

/// Colours with distinct names are written as one entry each, in order.
proof fn lemma_colors_table(cs: Seq<(Seq<char>, Seq<char>)>)
    requires
        forall|i: int, j: int| 0 <= i < j < cs.len() ==> cs[i].0 != cs[j].0,
    ensures
        colors_table(cs) == cs.map_values(|p: (Seq<char>, Seq<char>)| (p.0, TomlData::String(p.1))),
    decreases cs.len(),
{
    if cs.len() > 0 {
        let p = cs.drop_last();
        lemma_colors_table(p);
        let pt = p.map_values(|q: (Seq<char>, Seq<char>)| (q.0, TomlData::String(q.1)));
        assert(!crate::value::has_key(pt, cs.last().0)) by {
            if crate::value::has_key(pt, cs.last().0) {
                let j = choose|j: int| 0 <= j < pt.len() && pt[j].0 == cs.last().0;
                assert(cs[j].0 == cs[cs.len() - 1].0);
            }
        }
        assert(pt.push((cs.last().0, TomlData::String(cs.last().1))) =~= cs.map_values(|q: (Seq<char>, Seq<char>)| (q.0, TomlData::String(q.1))));
    } else {
        assert(cs.map_values(|q: (Seq<char>, Seq<char>)| (q.0, TomlData::String(q.1))) =~= Seq::<(Seq<char>, TomlData)>::empty());
    }
}

/// Reading the colour entries back gives the colours.
proof fn lemma_color_pairs(cs: Seq<(Seq<char>, Seq<char>)>, n: int)
    requires
        0 <= n <= cs.len(),
    ensures
        color_pairs(cs.map_values(|p: (Seq<char>, Seq<char>)| (p.0, TomlData::String(p.1))), n) == cs.take(n),
    decreases n,
{
    if n > 0 {
        lemma_color_pairs(cs, n - 1);
        assert(cs.take(n) =~= cs.take(n - 1).push(cs[n - 1]));
    } else {
        assert(cs.take(0) =~= Seq::<(Seq<char>, Seq<char>)>::empty());
    }
}

/// Reading written output paths back gives them when none is empty.
proof fn lemma_output_items(paths: Seq<Seq<char>>, n: int)
    requires
        0 <= n <= paths.len(),
        forall|i: int| 0 <= i < paths.len() ==> (#[trigger] paths[i]).len() > 0,
    ensures
        output_items(paths.map_values(|p: Seq<char>| TomlData::String(p)), None, n) == paths.take(n),
    decreases n,
{
    if n > 0 {
        lemma_output_items(paths, n - 1);
        assert(paths.take(n) =~= paths.take(n - 1).push(paths[n - 1]));
    } else {
        assert(paths.take(0) =~= Seq::<Seq<char>>::empty());
    }
}

/// Reading a written template back gives it, for a template that sets every
/// optional part: trimmed id, per-mode inputs with a path set, non-empty
/// output paths, and colours with distinct names (paths read without a home
/// directory).
pub proof fn lemma_user_template_round_trip(cur: UserTemplateView, v: UserTemplateView)
    requires
        spec_trim_whitespace(v.id) == v.id,
        v.input_path_modes matches Some((d, l)) && (d.len() > 0 || l.len() > 0),
        v.output_paths.len() > 0,
        forall|i: int| 0 <= i < v.output_paths.len() ==> (#[trigger] v.output_paths[i]).len() > 0,
        v.colors_to_compare.len() > 0,
        forall|i: int, j: int| 0 <= i < j < v.colors_to_compare.len() ==> v.colors_to_compare[i].0 != v.colors_to_compare[j].0,
    ensures
        spec_read_user_template(cur, spec_write_user_template(v), None) == v,
{
    let t = spec_write_user_template(v);
    reveal_strlit("name");
    reveal_strlit("enabled");
    reveal_strlit("input_path");
    reveal_strlit("input_path_modes");
    reveal_strlit("output_path");
    reveal_strlit("dynamic_template");
    reveal_strlit("compare_mode");
    reveal_strlit("compare_colors");
    reveal_strlit("pre_command");
    reveal_strlit("post_command");
    reveal_strlit("palette_export_kind");
    reveal_strlit("palette_export_variant_index");
    assert("name"@.len() != "enabled"@.len());
    assert("name"@.len() != "input_path"@.len());
    assert("enabled"@.len() != "input_path"@.len());
    assert("name"@.len() != "input_path_modes"@.len());
    assert("enabled"@.len() != "input_path_modes"@.len());
    assert("input_path"@.len() != "input_path_modes"@.len());
    assert("name"@.len() != "output_path"@.len());
    assert("enabled"@.len() != "output_path"@.len());
    assert("input_path"@.len() != "output_path"@.len());
    assert("input_path_modes"@.len() != "output_path"@.len());
    assert("name"@.len() != "dynamic_template"@.len());
    assert("enabled"@.len() != "dynamic_template"@.len());
    assert("input_path"@.len() != "dynamic_template"@.len());
    assert("input_path_modes"@[0] != "dynamic_template"@[0]);
    assert("output_path"@.len() != "dynamic_template"@.len());
    assert("name"@.len() != "compare_mode"@.len());
    assert("enabled"@.len() != "compare_mode"@.len());
    assert("input_path"@.len() != "compare_mode"@.len());
    assert("input_path_modes"@.len() != "compare_mode"@.len());
    assert("output_path"@.len() != "compare_mode"@.len());
    assert("dynamic_template"@.len() != "compare_mode"@.len());
    assert("name"@.len() != "compare_colors"@.len());
    assert("enabled"@.len() != "compare_colors"@.len());
    assert("input_path"@.len() != "compare_colors"@.len());
    assert("input_path_modes"@.len() != "compare_colors"@.len());
    assert("output_path"@.len() != "compare_colors"@.len());
    assert("dynamic_template"@.len() != "compare_colors"@.len());
    assert("compare_mode"@.len() != "compare_colors"@.len());
    assert("name"@.len() != "pre_command"@.len());
    assert("enabled"@.len() != "pre_command"@.len());
    assert("input_path"@.len() != "pre_command"@.len());
    assert("input_path_modes"@.len() != "pre_command"@.len());
    assert("output_path"@[0] != "pre_command"@[0]);
    assert("dynamic_template"@.len() != "pre_command"@.len());
    assert("compare_mode"@.len() != "pre_command"@.len());
    assert("compare_colors"@.len() != "pre_command"@.len());
    assert("name"@.len() != "post_command"@.len());
    assert("enabled"@.len() != "post_command"@.len());
    assert("input_path"@.len() != "post_command"@.len());
    assert("input_path_modes"@.len() != "post_command"@.len());
    assert("output_path"@.len() != "post_command"@.len());
    assert("dynamic_template"@.len() != "post_command"@.len());
    assert("compare_mode"@[0] != "post_command"@[0]);
    assert("compare_colors"@.len() != "post_command"@.len());
    assert("pre_command"@.len() != "post_command"@.len());
    assert("name"@.len() != "palette_export_kind"@.len());
    assert("enabled"@.len() != "palette_export_kind"@.len());
    assert("input_path"@.len() != "palette_export_kind"@.len());
    assert("input_path_modes"@.len() != "palette_export_kind"@.len());
    assert("output_path"@.len() != "palette_export_kind"@.len());
    assert("dynamic_template"@.len() != "palette_export_kind"@.len());
    assert("compare_mode"@.len() != "palette_export_kind"@.len());
    assert("compare_colors"@.len() != "palette_export_kind"@.len());
    assert("pre_command"@.len() != "palette_export_kind"@.len());
    assert("post_command"@.len() != "palette_export_kind"@.len());
    assert("name"@.len() != "palette_export_variant_index"@.len());
    assert("enabled"@.len() != "palette_export_variant_index"@.len());
    assert("input_path"@.len() != "palette_export_variant_index"@.len());
    assert("input_path_modes"@.len() != "palette_export_variant_index"@.len());
    assert("output_path"@.len() != "palette_export_variant_index"@.len());
    assert("dynamic_template"@.len() != "palette_export_variant_index"@.len());
    assert("compare_mode"@.len() != "palette_export_variant_index"@.len());
    assert("compare_colors"@.len() != "palette_export_variant_index"@.len());
    assert("pre_command"@.len() != "palette_export_variant_index"@.len());
    assert("post_command"@.len() != "palette_export_variant_index"@.len());
    assert("palette_export_kind"@.len() != "palette_export_variant_index"@.len());
    assert(t.len() == 12);
    assert(crate::value::keys_distinct(t));
    reveal(read_bool_field);
    lemma_lookup_distinct(t, 0);
    lemma_lookup_distinct(t, 1);
    lemma_lookup_distinct(t, 2);
    lemma_lookup_distinct(t, 3);
    lemma_lookup_distinct(t, 4);
    lemma_lookup_distinct(t, 5);
    lemma_lookup_distinct(t, 6);
    lemma_lookup_distinct(t, 7);
    lemma_lookup_distinct(t, 8);
    lemma_lookup_distinct(t, 9);
    lemma_lookup_distinct(t, 10);
    lemma_lookup_distinct(t, 11);
    assert(lookup(t, t[0].0) == Some(t[0].1));
    let cs = v.colors_to_compare;
    lemma_colors_table(cs);
    lemma_color_pairs(cs, cs.len() as int);
    assert(cs.take(cs.len() as int) =~= cs);
    let ps = v.output_paths;
    if ps.len() > 1 {
        lemma_output_items(ps, ps.len() as int);
        assert(ps.take(ps.len() as int) =~= ps);
    } else {
        assert(seq![ps[0]] =~= ps);
    }
    assert(t[0].0 == "name"@);
    assert(t[1].0 == "enabled"@);
    assert(t[2].0 == "input_path"@);
    assert(t[3].0 == "input_path_modes"@);
    assert(t[4].0 == "output_path"@);
    assert(t[5].0 == "dynamic_template"@);
    assert(t[6].0 == "compare_mode"@);
    assert(t[7].0 == "compare_colors"@);
    assert(t[8].0 == "pre_command"@);
    assert(t[9].0 == "post_command"@);
    assert(t[10].0 == "palette_export_kind"@);
    assert(t[11].0 == "palette_export_variant_index"@);
    let idx = v.index;
    assert((idx as i64) as i32 == idx) by (bit_vector);
    reveal_strlit("dark");
    reveal_strlit("light");
    assert("dark"@.len() != "light"@.len());
    let (d, l) = v.input_path_modes.unwrap();
    let sub = seq![("dark"@, TomlData::String(d)), ("light"@, TomlData::String(l))];
    assert(t[3].1 == TomlData::Table(sub));
    assert(crate::value::keys_distinct(sub));
    lemma_lookup_distinct(sub, 0);
    lemma_lookup_distinct(sub, 1);
    let r = spec_read_user_template(cur, t, None);
    assert(r.id == v.id);
    assert(r.enabled == v.enabled);
    assert(r.input_path == v.input_path);
    assert(r.input_path_modes == v.input_path_modes);
    assert(r.output_paths == v.output_paths);
    assert(r.output_path_dynamic == v.output_path_dynamic);
    assert(r.compare_to == v.compare_to);
    assert(r.colors_to_compare == v.colors_to_compare);
    assert(r.pre_hook == v.pre_hook);
    assert(r.post_hook == v.post_hook);
    assert(r.post_action == v.post_action);
    assert(r.index == v.index);
}

} // verus!
