//! Widget entries of the configuration: reading a setting from TOML, the
//! built-in widget instances, and resolving a `[widget.<name>]` table against
//! them.
//!
//! Maps keyed by name are held as `(name, value)` pairs; a name stands for
//! its first pair, and setting a name replaces that pair or appends one.

use vstd::prelude::*;
use crate::text::str_equal;
use crate::value::{
    TomlTable, TomlValue, TomlData, TableData, lookup_str, items_data, entries_data, value_data,
    lemma_items_data, lemma_entries_data,
};
use crate::types::widget_setting_value::{
    WidgetSettingValue, WidgetSettingData, string_list_view, string_pairs_view, copy_strings,
    copy_string_pairs,
};

verus! {

broadcast use vstd::std_specs::vec::axiom_vec_decreases_to_view;

/// The position of the first of `names` from `i` on that is `k`.
pub open spec fn name_position(names: Seq<Seq<char>>, k: Seq<char>, i: int) -> Option<int>
    decreases names.len() - i,
{
    if i < 0 || i >= names.len() {
        None
    } else if names[i] == k {
        Some(i)
    } else {
        name_position(names, k, i + 1)
    }
}

/// The names of keyed pairs.
pub open spec fn names_of<V>(s: Seq<(Seq<char>, V)>) -> Seq<Seq<char>> {
    s.map_values(|e: (Seq<char>, V)| e.0)
}

/// The value of the first pair named `k`.
pub open spec fn entry_of<V>(s: Seq<(Seq<char>, V)>, k: Seq<char>) -> Option<V> {
    match name_position(names_of(s), k, 0) {
        Some(i) => Some(s[i].1),
        None => None,
    }
}

/// `s` with the first pair named `k` set to `v`, or `(k, v)` appended.
pub open spec fn with_entry<V>(s: Seq<(Seq<char>, V)>, k: Seq<char>, v: V) -> Seq<(Seq<char>, V)> {
    match name_position(names_of(s), k, 0) {
        Some(i) => s.update(i, (k, v)),
        None => s.push((k, v)),
    }
}

proof fn lemma_name_position(names: Seq<Seq<char>>, k: Seq<char>, i: int)
    requires
        0 <= i,
    ensures
        match name_position(names, k, i) {
            Some(p) => i <= p < names.len() && names[p] == k && forall|j: int| i <= j < p ==> names[j] != k,
            None => forall|j: int| i <= j < names.len() ==> names[j] != k,
        },
    decreases names.len() - i,
{
    if i < names.len() && names[i] != k {
        lemma_name_position(names, k, i + 1);
    }
}

/// The position of the first pair of `v` named `k`.
fn find_name<V>(v: &Vec<(String, V)>, k: &str) -> (r: Option<usize>)
    ensures
        match r {
            Some(i) => name_position(v@.map_values(|e: (String, V)| e.0@), k@, 0) == Some(i as int),
            None => name_position(v@.map_values(|e: (String, V)| e.0@), k@, 0) is None,
        },
{
    let ghost names = v@.map_values(|e: (String, V)| e.0@);
    let mut i: usize = 0;
    while i < v.len()
        invariant
            names == v@.map_values(|e: (String, V)| e.0@),
            0 <= i <= v@.len(),
            name_position(names, k@, 0) == name_position(names, k@, i as int),
        decreases v.len() - i,
    {
        assert(names[i as int] == v@[i as int].0@);
        if str_equal(v[i].0.as_str(), k) {
            return Some(i);
        }
        i += 1;
    }
    None
}

/// The keyed settings of a widget.
pub open spec fn settings_view(v: Seq<(String, WidgetSettingValue)>) -> Seq<(Seq<char>, WidgetSettingData)> {
    v.map_values(|e: (String, WidgetSettingValue)| (e.0@, e.1@))
}

/// The keyed string maps of a widget.
pub open spec fn tables_view(v: Seq<(String, Vec<(String, String)>)>) -> Seq<(Seq<char>, Seq<(Seq<char>, Seq<char>)>)> {
    v.map_values(|e: (String, Vec<(String, String)>)| (e.0@, string_pairs_view(e.1@)))
}

/// Sets `k` to `value` among keyed settings.
pub fn set_setting(settings: &mut Vec<(String, WidgetSettingValue)>, k: String, value: WidgetSettingValue)
    ensures
        settings_view(final(settings)@) == with_entry(settings_view(old(settings)@), k@, value@),
{
    let ghost s0 = settings_view(settings@);
    assert(names_of(s0) =~= settings@.map_values(|e: (String, WidgetSettingValue)| e.0@));
    proof { lemma_name_position(settings@.map_values(|e: (String, WidgetSettingValue)| e.0@), k@, 0); }
    match find_name(settings, k.as_str()) {
        Some(i) => {
            let ghost kv = k@;
            let ghost vv = value@;
            settings.set(i, (k, value));
            assert(settings_view(settings@) =~= s0.update(i as int, (kv, vv)));
        },
        None => {
            let ghost kv = k@;
            let ghost vv = value@;
            settings.push((k, value));
            assert(settings_view(settings@) =~= s0.push((kv, vv)));
        },
    }
}

/// Sets `k` to `value` in a string map.
pub fn set_string_pair(pairs: &mut Vec<(String, String)>, k: String, value: String)
    ensures
        string_pairs_view(final(pairs)@) == with_entry(string_pairs_view(old(pairs)@), k@, value@),
{
    let ghost s0 = string_pairs_view(pairs@);
    assert(names_of(s0) =~= pairs@.map_values(|e: (String, String)| e.0@));
    proof { lemma_name_position(pairs@.map_values(|e: (String, String)| e.0@), k@, 0); }
    match find_name(pairs, k.as_str()) {
        Some(i) => {
            let ghost kv = k@;
            let ghost vv = value@;
            pairs.set(i, (k, value));
            assert(string_pairs_view(pairs@) =~= s0.update(i as int, (kv, vv)));
        },
        None => {
            let ghost kv = k@;
            let ghost vv = value@;
            pairs.push((k, value));
            assert(string_pairs_view(pairs@) =~= s0.push((kv, vv)));
        },
    }
}

/// Sets `k` to the string map `value` among keyed string maps.
pub fn set_table(tables: &mut Vec<(String, Vec<(String, String)>)>, k: String, value: Vec<(String, String)>)
    ensures
        tables_view(final(tables)@) == with_entry(tables_view(old(tables)@), k@, string_pairs_view(value@)),
{
    let ghost s0 = tables_view(tables@);
    assert(names_of(s0) =~= tables@.map_values(|e: (String, Vec<(String, String)>)| e.0@));
    proof { lemma_name_position(tables@.map_values(|e: (String, Vec<(String, String)>)| e.0@), k@, 0); }
    match find_name(tables, k.as_str()) {
        Some(i) => {
            let ghost kv = k@;
            let ghost vv = string_pairs_view(value@);
            tables.set(i, (k, value));
            assert(tables_view(tables@) =~= s0.update(i as int, (kv, vv)));
        },
        None => {
            let ghost kv = k@;
            let ghost vv = string_pairs_view(value@);
            tables.push((k, value));
            assert(tables_view(tables@) =~= s0.push((kv, vv)));
        },
    }
}

// ---- reading one setting ----

/// The strings among `items`, in order.
pub open spec fn strings_among(items: Seq<TomlData>) -> Seq<Seq<char>>
    decreases items.len(),
{
    if items.len() == 0 {
        Seq::empty()
    } else {
        let prev = strings_among(items.drop_last());
        match items.last() {
            TomlData::String(s) => prev.push(s),
            _ => prev,
        }
    }
}

/// Every value of `t` is a string.
pub open spec fn all_strings(t: TableData) -> bool {
    forall|i: int| 0 <= i < t.len() ==> (#[trigger] t[i]).1 is String
}

/// The string entries of `t` as a string map, in order; the other entries are left out.
pub open spec fn string_entries(t: TableData) -> Seq<(Seq<char>, Seq<char>)>
    decreases t.len(),
{
    if t.len() == 0 {
        Seq::empty()
    } else {
        let prev = string_entries(t.drop_last());
        match t.last().1 {
            TomlData::String(s) => with_entry(prev, t.last().0, s),
            _ => prev,
        }
    }
}

/// The setting a TOML value gives: a scalar as itself, an array as its string
/// elements (others are dropped), a table whose values are all strings as a
/// string map; a table with another value, or a date-time, gives none.
pub open spec fn spec_read_widget_setting(v: TomlData) -> Option<WidgetSettingData> {
    match v {
        TomlData::String(s) => Some(WidgetSettingData::String(s)),
        TomlData::Integer(i) => Some(WidgetSettingData::Int(i)),
        TomlData::Float(bits) => Some(WidgetSettingData::Float(bits)),
        TomlData::Boolean(b) => Some(WidgetSettingData::Bool(b)),
        TomlData::Array(items) => Some(WidgetSettingData::StringList(strings_among(items))),
        TomlData::Table(t) => if all_strings(t) {
            Some(WidgetSettingData::StringMap(string_entries(t)))
        } else {
            None
        },
        TomlData::Datetime(_) => None,
    }
}

fn strings_of_items(items: &Vec<TomlValue>) -> (r: Vec<String>)
    ensures
        string_list_view(r@) == strings_among(items_data(items@, items@.len() as int)),
{
    let mut r: Vec<String> = Vec::new();
    let mut i: usize = 0;
    proof { lemma_items_data(items@, items@.len() as int); }
    while i < items.len()
        invariant
            0 <= i <= items@.len(),
            string_list_view(r@) == strings_among(items_data(items@, i as int)),
        decreases items.len() - i,
    {
        let ghost prev = items_data(items@, i as int);
        assert(items_data(items@, i + 1) == prev.push(value_data(items@[i as int])));
        assert(prev.push(value_data(items@[i as int])).drop_last() =~= prev);
        match &items[i] {
            TomlValue::String(s) => {
                let c = s.clone();
                let ghost before = r@;
                r.push(c);
                assert(string_list_view(r@) =~= string_list_view(before).push(c@));
            },
            _ => {},
        }
        i += 1;
    }
    r
}

/// The string entries of a table as a string map; the other entries are left out.
pub fn string_entries_of(t: &TomlTable) -> (r: Vec<(String, String)>)
    ensures
        string_pairs_view(r@) == string_entries(t@),
{
    let mut r: Vec<(String, String)> = Vec::new();
    let mut i: usize = 0;
    assert(string_pairs_view(r@) =~= string_entries(entries_data(t.entries@, 0)));
    while i < t.entries.len()
        invariant
            0 <= i <= t.entries@.len(),
            string_pairs_view(r@) == string_entries(entries_data(t.entries@, i as int)),
        decreases t.entries.len() - i,
    {
        let ghost prev = entries_data(t.entries@, i as int);
        let ghost e = (t.entries@[i as int].key@, value_data(t.entries@[i as int].value));
        assert(entries_data(t.entries@, i + 1) == prev.push(e));
        assert(prev.push(e).drop_last() =~= prev);
        match &t.entries[i].value {
            TomlValue::String(s) => {
                set_string_pair(&mut r, t.entries[i].key.clone(), s.clone());
            },
            _ => {},
        }
        i += 1;
    }
    r
}

/// Reads a TOML value as a widget setting; see [`spec_read_widget_setting`].
pub fn read_widget_setting_value(node: &TomlValue) -> (r: Option<WidgetSettingValue>)
    ensures
        match r {
            Some(v) => spec_read_widget_setting(node@) == Some(v@),
            None => spec_read_widget_setting(node@) is None,
        },
{
    match node {
        TomlValue::String(s) => Some(WidgetSettingValue::String(s.clone())),
        TomlValue::Integer(i) => Some(WidgetSettingValue::Int(*i)),
        TomlValue::Float(bits) => Some(WidgetSettingValue::Float(*bits)),
        TomlValue::Boolean(b) => Some(WidgetSettingValue::Bool(*b)),
        TomlValue::Array(items) => Some(WidgetSettingValue::StringList(strings_of_items(items))),
        TomlValue::Table(t) => {
            let mut i: usize = 0;
            proof { lemma_entries_data(t.entries@, t.entries@.len() as int); }
            assert(node@ == TomlData::Table(t@));
            while i < t.entries.len()
                invariant
                    node@ == TomlData::Table(t@),
                    0 <= i <= t.entries@.len(),
                    forall|j: int| 0 <= j < i ==> (#[trigger] t@[j]).1 is String,
                    t@.len() == t.entries@.len(),
                    forall|j: int| 0 <= j < t.entries@.len() ==> #[trigger] t@[j] == (t.entries@[j].key@, value_data(t.entries@[j].value)),
                decreases t.entries.len() - i,
            {
                match &t.entries[i].value {
                    TomlValue::String(_) => {},
                    _ => {
                        assert(!(t@[i as int].1 is String));
                        assert(!all_strings(t@));
                        return None;
                    },
                }
                i += 1;
            }
            Some(WidgetSettingValue::StringMap(string_entries_of(t)))
        },
        TomlValue::Datetime(_) => None,
    }
}


// ---- widget instances ----

/// A widget instance: its type, its settings, and its string-map tables.
#[derive(Debug, PartialEq)]
pub struct WidgetConfig {
    /// The widget type (such as `clock` or `spacer`); defaults to the entry name.
    pub type_: String,
    pub settings: Vec<(String, WidgetSettingValue)>,
    pub tables: Vec<(String, Vec<(String, String)>)>,
}

/// The mathematical content of a [`WidgetConfig`].
pub struct WidgetConfigData {
    pub type_: Seq<char>,
    pub settings: Seq<(Seq<char>, WidgetSettingData)>,
    pub tables: Seq<(Seq<char>, Seq<(Seq<char>, Seq<char>)>)>,
}

impl View for WidgetConfig {
    type V = WidgetConfigData;

    open spec fn view(&self) -> WidgetConfigData {
        WidgetConfigData { type_: self.type_@, settings: settings_view(self.settings@), tables: tables_view(self.tables@) }
    }
}

/// A widget of type `t` with no settings and no tables.
pub open spec fn bare_widget(t: Seq<char>) -> WidgetConfigData {
    WidgetConfigData { type_: t, settings: Seq::empty(), tables: Seq::empty() }
}

impl Default for WidgetConfig {
    fn default() -> (r: Self)
        ensures
            r@ == bare_widget(Seq::empty()),
    {
        let r = WidgetConfig { type_: String::new(), settings: Vec::new(), tables: Vec::new() };
        assert(settings_view(r.settings@) =~= Seq::empty());
        assert(tables_view(r.tables@) =~= Seq::empty());
        r
    }
}

fn bare_widget_of(t: &str) -> (r: WidgetConfig)
    ensures
        r@ == bare_widget(t@),
{
    let r = WidgetConfig { type_: t.to_owned(), settings: Vec::new(), tables: Vec::new() };
    assert(settings_view(r.settings@) =~= Seq::empty());
    assert(tables_view(r.tables@) =~= Seq::empty());
    r
}

fn copy_settings(v: &Vec<(String, WidgetSettingValue)>) -> (r: Vec<(String, WidgetSettingValue)>)
    ensures
        settings_view(r@) == settings_view(v@),
{
    let mut r: Vec<(String, WidgetSettingValue)> = Vec::new();
    let mut i: usize = 0;
    while i < v.len()
        invariant
            0 <= i <= v@.len(),
            settings_view(r@) == settings_view(v@).take(i as int),
        decreases v.len() - i,
    {
        let k = v[i].0.clone();
        let x = v[i].1.duplicate();
        let ghost before = r@;
        r.push((k, x));
        assert(r@ == before.push((k, x)));
        assert(settings_view(r@) =~= settings_view(before).push((v@[i as int].0@, v@[i as int].1@)));
        assert(settings_view(v@).take(i + 1) =~= settings_view(v@).take(i as int).push((v@[i as int].0@, v@[i as int].1@)));
        i += 1;
    }
    assert(settings_view(v@).take(i as int) =~= settings_view(v@));
    r
}

fn copy_tables(v: &Vec<(String, Vec<(String, String)>)>) -> (r: Vec<(String, Vec<(String, String)>)>)
    ensures
        tables_view(r@) == tables_view(v@),
{
    let mut r: Vec<(String, Vec<(String, String)>)> = Vec::new();
    let mut i: usize = 0;
    while i < v.len()
        invariant
            0 <= i <= v@.len(),
            tables_view(r@) == tables_view(v@).take(i as int),
        decreases v.len() - i,
    {
        let k = v[i].0.clone();
        let x = copy_string_pairs(&v[i].1);
        let ghost before = r@;
        r.push((k, x));
        assert(r@ == before.push((k, x)));
        assert(tables_view(r@) =~= tables_view(before).push((v@[i as int].0@, string_pairs_view(v@[i as int].1@))));
        assert(tables_view(v@).take(i + 1) =~= tables_view(v@).take(i as int).push((v@[i as int].0@, string_pairs_view(v@[i as int].1@))));
        i += 1;
    }
    assert(tables_view(v@).take(i as int) =~= tables_view(v@));
    r
}

impl WidgetConfig {
    /// A copy of the widget.
    pub fn duplicate(&self) -> (r: WidgetConfig)
        ensures
            r@ == self@,
    {
        WidgetConfig { type_: self.type_.clone(), settings: copy_settings(&self.settings), tables: copy_tables(&self.tables) }
    }

    /// The setting under `key`, if any.
    pub fn find_setting(&self, key: &str) -> (r: Option<&WidgetSettingValue>)
        ensures
            match r {
                Some(v) => entry_of(self@.settings, key@) == Some(v@),
                None => entry_of(self@.settings, key@) is None,
            },
    {
        proof {
            assert(names_of(self@.settings) =~= self.settings@.map_values(|e: (String, WidgetSettingValue)| e.0@));
            lemma_name_position(names_of(self@.settings), key@, 0);
        }
        match find_name(&self.settings, key) {
            Some(i) => Some(&self.settings[i].1),
            None => None,
        }
    }

    /// Whether there is a setting under `key`.
    pub fn has_setting(&self, key: &str) -> (r: bool)
        ensures
            r == entry_of(self@.settings, key@) is Some,
    {
        self.find_setting(key).is_some()
    }

    /// The string under `key`, or `fallback` when there is none or it is not a string.
    pub fn get_string(&self, key: &str, fallback: &str) -> (r: String)
        ensures
            r@ == match entry_of(self@.settings, key@) {
                Some(WidgetSettingData::String(s)) => s,
                _ => fallback@,
            },
    {
        match self.find_setting(key) {
            Some(v) => match v.as_string() {
                Some(s) => s,
                None => fallback.to_owned(),
            },
            None => fallback.to_owned(),
        }
    }

    /// The list of strings under `key` (a single string reads as a one-element
    /// list), or `fallback` when there is none or it is neither.
    pub fn get_string_list(&self, key: &str, fallback: &Vec<String>) -> (r: Vec<String>)
        ensures
            string_list_view(r@) == match entry_of(self@.settings, key@) {
                Some(WidgetSettingData::StringList(l)) => l,
                Some(WidgetSettingData::String(s)) => seq![s],
                _ => string_list_view(fallback@),
            },
    {
        match self.find_setting(key) {
            Some(v) => match v.as_string_list() {
                Some(l) => l,
                None => copy_strings(fallback),
            },
            None => copy_strings(fallback),
        }
    }

    /// The boolean under `key`, or `fallback` when there is none or it is not a boolean.
    pub fn get_bool(&self, key: &str, fallback: bool) -> (r: bool)
        ensures
            r == match entry_of(self@.settings, key@) {
                Some(WidgetSettingData::Bool(b)) => b,
                _ => fallback,
            },
    {
        match self.find_setting(key) {
            Some(v) => match v.as_bool() {
                Some(b) => b,
                None => fallback,
            },
            None => fallback,
        }
    }

    /// The string-map table under `key`, or `fallback` when there is none.
    pub fn get_string_map(&self, key: &str, fallback: &Vec<(String, String)>) -> (r: Vec<(String, String)>)
        ensures
            string_pairs_view(r@) == match entry_of(self@.tables, key@) {
                Some(m) => m,
                None => string_pairs_view(fallback@),
            },
    {
        proof {
            assert(names_of(self@.tables) =~= self.tables@.map_values(|e: (String, Vec<(String, String)>)| e.0@));
            lemma_name_position(names_of(self@.tables), key@, 0);
        }
        match find_name(&self.tables, key) {
            Some(i) => copy_string_pairs(&self.tables[i].1),
            None => copy_string_pairs(fallback),
        }
    }
}


// ---- the built-in widget instances ----

/// Named widgets.
pub open spec fn widgets_view(v: Seq<(String, WidgetConfig)>) -> Seq<(Seq<char>, WidgetConfigData)> {
    v.map_values(|e: (String, WidgetConfig)| (e.0@, e.1@))
}

/// `s` with each pair of `add` set in turn.
pub open spec fn with_entries<V>(s: Seq<(Seq<char>, V)>, add: Seq<(Seq<char>, V)>) -> Seq<(Seq<char>, V)>
    decreases add.len(),
{
    if add.len() == 0 {
        s
    } else {
        let prev = with_entries(s, add.drop_last());
        with_entry(prev, add.last().0, add.last().1)
    }
}

/// A widget of type `t` with the given settings and no tables.
pub open spec fn widget_with(t: Seq<char>, settings: Seq<(Seq<char>, WidgetSettingData)>) -> WidgetConfigData {
    WidgetConfigData { type_: t, settings: settings, tables: Seq::empty() }
}

/// A string setting.
pub open spec fn text(k: Seq<char>, v: Seq<char>) -> (Seq<char>, WidgetSettingData) {
    (k, WidgetSettingData::String(v))
}

/// A boolean setting.
pub open spec fn flag(k: Seq<char>, b: bool) -> (Seq<char>, WidgetSettingData) {
    (k, WidgetSettingData::Bool(b))
}

/// A number setting, by the bit pattern of its double.
pub open spec fn number(k: Seq<char>, bits: u64) -> (Seq<char>, WidgetSettingData) {
    (k, WidgetSettingData::Float(bits))
}

/// The double 260.0.
pub const F64_260: u64 = 0x4070400000000000;
/// The double 220.0.
pub const F64_220: u64 = 0x406B800000000000;
/// The double 80.0.
pub const F64_80: u64 = 0x4054000000000000;
/// The double 16.0.
pub const F64_16: u64 = 0x4030000000000000;
/// The double 14.0, the body font size.
pub const F64_14: u64 = 0x402C000000000000;

/// The built-in widget instances, in the order they are added.
pub open spec fn builtin_widgets() -> Seq<(Seq<char>, WidgetConfigData)> {
    seq![
        ("cpu"@, widget_with("sysmon"@, seq![text("stat"@, "cpu_usage"@)])),
        ("temp"@, widget_with("sysmon"@, seq![text("stat"@, "cpu_temp"@)])),
        ("ram"@, widget_with("sysmon"@, seq![text("stat"@, "ram_used"@)])),
        ("network_tx"@, widget_with("sysmon"@, seq![text("stat"@, "net_tx"@)])),
        ("network_rx"@, widget_with("sysmon"@, seq![text("stat"@, "net_rx"@)])),
        ("output_volume"@, widget_with("volume"@, seq![text("device"@, "output"@)])),
        ("input_volume"@, widget_with("volume"@, seq![text("device"@, "input"@)])),
        ("date"@, widget_with("clock"@, seq![text("format"@, "{:%a %d %b}"@)])),
        ("active_window"@, widget_with("active_window"@, seq![
            number("max_length"@, F64_260), number("min_length"@, F64_80), number("icon_size"@, F64_14),
            text("title_scroll"@, "none"@),
        ])),
        ("media"@, widget_with("media"@, seq![
            number("max_length"@, F64_220), number("min_length"@, F64_80), number("art_size"@, F64_16),
            text("title_scroll"@, "none"@),
        ])),
        ("keyboard_layout"@, widget_with("keyboard_layout"@, seq![flag("hide_when_single_layout"@, false)])),
        ("lock_keys"@, widget_with("lock_keys"@, seq![
            flag("show_caps_lock"@, true), flag("show_num_lock"@, true), flag("show_scroll_lock"@, false),
            flag("hide_when_off"@, false), text("display"@, "short"@),
        ])),
        ("spacer"@, widget_with("spacer"@, seq![flag("interactive"@, false)])),
    ]
}

fn text_setting(k: &str, v: &str) -> (r: (String, WidgetSettingValue))
    ensures
        (r.0@, r.1@) == text(k@, v@),
{
    (k.to_owned(), WidgetSettingValue::String(v.to_owned()))
}

fn flag_setting(k: &str, b: bool) -> (r: (String, WidgetSettingValue))
    ensures
        (r.0@, r.1@) == flag(k@, b),
{
    (k.to_owned(), WidgetSettingValue::Bool(b))
}

fn number_setting(k: &str, bits: u64) -> (r: (String, WidgetSettingValue))
    ensures
        (r.0@, r.1@) == number(k@, bits),
{
    (k.to_owned(), WidgetSettingValue::Float(bits))
}

fn builtin(name: &str, t: &str, settings: Vec<(String, WidgetSettingValue)>) -> (r: (String, WidgetConfig))
    ensures
        r.0@ == name@,
        r.1@ == widget_with(t@, settings_view(settings@)),
{
    let w = WidgetConfig { type_: t.to_owned(), settings: settings, tables: Vec::new() };
    assert(tables_view(w.tables@) =~= Seq::empty());
    (name.to_owned(), w)
}

fn one_setting(a: (String, WidgetSettingValue)) -> (r: Vec<(String, WidgetSettingValue)>)
    ensures
        settings_view(r@) == seq![(a.0@, a.1@)],
{
    let r = vec![a];
    assert(settings_view(r@) =~= seq![(a.0@, a.1@)]);
    r
}

fn settings_of(
    a: (String, WidgetSettingValue),
    b: (String, WidgetSettingValue),
    c: (String, WidgetSettingValue),
    d: (String, WidgetSettingValue),
) -> (r: Vec<(String, WidgetSettingValue)>)
    ensures
        settings_view(r@) == seq![(a.0@, a.1@), (b.0@, b.1@), (c.0@, c.1@), (d.0@, d.1@)],
{
    let r = vec![a, b, c, d];
    assert(settings_view(r@) =~= seq![(a.0@, a.1@), (b.0@, b.1@), (c.0@, c.1@), (d.0@, d.1@)]);
    r
}

fn push_builtin(r: &mut Vec<(String, WidgetConfig)>, e: (String, WidgetConfig), Ghost(k): Ghost<int>)
    requires
        0 <= k < builtin_widgets().len(),
        widgets_view(old(r)@) == builtin_widgets().take(k),
        (e.0@, e.1@) == builtin_widgets()[k],
    ensures
        widgets_view(final(r)@) == builtin_widgets().take(k + 1),
{
    let ghost before = r@;
    let ghost ev = (e.0@, e.1@);
    r.push(e);
    assert(widgets_view(r@) =~= widgets_view(before).push(ev));
    assert(builtin_widgets().take(k + 1) =~= builtin_widgets().take(k).push(builtin_widgets()[k]));
}

fn builtin_widget_list() -> (r: Vec<(String, WidgetConfig)>)
    ensures
        widgets_view(r@) == builtin_widgets(),
{
    let mut r: Vec<(String, WidgetConfig)> = Vec::new();
    assert(widgets_view(r@) =~= builtin_widgets().take(0));
    push_builtin(&mut r, builtin("cpu", "sysmon", one_setting(text_setting("stat", "cpu_usage"))), Ghost(0));
    push_builtin(&mut r, builtin("temp", "sysmon", one_setting(text_setting("stat", "cpu_temp"))), Ghost(1));
    push_builtin(&mut r, builtin("ram", "sysmon", one_setting(text_setting("stat", "ram_used"))), Ghost(2));
    push_builtin(&mut r, builtin("network_tx", "sysmon", one_setting(text_setting("stat", "net_tx"))), Ghost(3));
    push_builtin(&mut r, builtin("network_rx", "sysmon", one_setting(text_setting("stat", "net_rx"))), Ghost(4));
    push_builtin(&mut r, builtin("output_volume", "volume", one_setting(text_setting("device", "output"))), Ghost(5));
    push_builtin(&mut r, builtin("input_volume", "volume", one_setting(text_setting("device", "input"))), Ghost(6));
    push_builtin(&mut r, builtin("date", "clock", one_setting(text_setting("format", "{:%a %d %b}"))), Ghost(7));
    let active_window = settings_of(
        number_setting("max_length", F64_260), number_setting("min_length", F64_80),
        number_setting("icon_size", F64_14), text_setting("title_scroll", "none"),
    );
    push_builtin(&mut r, builtin("active_window", "active_window", active_window), Ghost(8));
    let media = settings_of(
        number_setting("max_length", F64_220), number_setting("min_length", F64_80),
        number_setting("art_size", F64_16), text_setting("title_scroll", "none"),
    );
    push_builtin(&mut r, builtin("media", "media", media), Ghost(9));
    push_builtin(&mut r, builtin("keyboard_layout", "keyboard_layout", one_setting(flag_setting("hide_when_single_layout", false))), Ghost(10));
    let mut lock_keys = settings_of(
        flag_setting("show_caps_lock", true), flag_setting("show_num_lock", true),
        flag_setting("show_scroll_lock", false), flag_setting("hide_when_off", false),
    );
    let display = text_setting("display", "short");
    let ghost before = lock_keys@;
    lock_keys.push(display);
    assert(settings_view(lock_keys@) =~= settings_view(before).push((display.0@, display.1@)));
    assert(settings_view(lock_keys@) =~= seq![
        flag("show_caps_lock"@, true), flag("show_num_lock"@, true), flag("show_scroll_lock"@, false),
        flag("hide_when_off"@, false), text("display"@, "short"@),
    ]);
    push_builtin(&mut r, builtin("lock_keys", "lock_keys", lock_keys), Ghost(11));
    push_builtin(&mut r, builtin("spacer", "spacer", one_setting(flag_setting("interactive", false))), Ghost(12));
    assert(builtin_widgets().take(13) =~= builtin_widgets());
    r
}

/// Sets the widget named `name` among named widgets.
pub fn set_widget(widgets: &mut Vec<(String, WidgetConfig)>, name: String, widget: WidgetConfig)
    ensures
        widgets_view(final(widgets)@) == with_entry(widgets_view(old(widgets)@), name@, widget@),
{
    let ghost s0 = widgets_view(widgets@);
    assert(names_of(s0) =~= widgets@.map_values(|e: (String, WidgetConfig)| e.0@));
    proof { lemma_name_position(widgets@.map_values(|e: (String, WidgetConfig)| e.0@), name@, 0); }
    match find_name(widgets, name.as_str()) {
        Some(i) => {
            let ghost kv = name@;
            let ghost vv = widget@;
            widgets.set(i, (name, widget));
            assert(widgets_view(widgets@) =~= s0.update(i as int, (kv, vv)));
        },
        None => {
            let ghost kv = name@;
            let ghost vv = widget@;
            widgets.push((name, widget));
            assert(widgets_view(widgets@) =~= s0.push((kv, vv)));
        },
    }
}

/// Adds the built-in widget instances (system monitors, volumes, date, active
/// window, media, keyboard layout, lock keys and spacer), each replacing a
/// widget of the same name.
pub fn seed_builtin_widgets(widgets: &mut Vec<(String, WidgetConfig)>)
    ensures
        widgets_view(final(widgets)@) == with_entries(widgets_view(old(widgets)@), builtin_widgets()),
{
    let ghost w0 = widgets_view(widgets@);
    let list = builtin_widget_list();
    let ghost b = widgets_view(list@);
    let mut rest = list;
    let ghost n = b.len();
    let mut i: usize = 0;
    assert(b.take(0) =~= Seq::<(Seq<char>, WidgetConfigData)>::empty());
    while rest.len() > 0
        invariant
            b == builtin_widgets(),
            n == b.len(),
            0 <= i <= n,
            rest@.len() == n - i,
            forall|j: int| 0 <= j < rest@.len() ==> (#[trigger] rest@[j]).0@ == b[i + j].0 && rest@[j].1@ == b[i + j].1,
            widgets_view(widgets@) == with_entries(w0, b.take(i as int)),
        decreases rest.len(),
    {
        let (name, widget) = rest.remove(0);
        assert(b.take(i + 1).drop_last() =~= b.take(i as int));
        set_widget(widgets, name, widget);
        i += 1;
    }
    assert(b.take(n as int) =~= b);
}


// ---- resolving a widget entry ----

/// The widget a `[widget.<name>]` entry starts from: with a string `type`, the
/// built-in or earlier widget of that name when it has that type (its
/// settings and tables kept), else a bare widget of that type; without one,
/// the widget of that name, else a bare widget whose type is the name.
pub open spec fn starting_widget(name: Seq<char>, entry: TableData, base: Seq<(Seq<char>, WidgetConfigData)>) -> WidgetConfigData {
    match lookup_str(entry, "type"@) {
        Some(t) => match entry_of(base, name) {
            Some(b) => if b.type_ == t { WidgetConfigData { type_: t, settings: b.settings, tables: b.tables } } else { bare_widget(t) },
            None => bare_widget(t),
        },
        None => match entry_of(base, name) {
            Some(b) => b,
            None => bare_widget(name),
        },
    }
}

/// `w` with one entry of the widget table layered on: `type` is skipped, a
/// table becomes the string-map table of that name (its string entries), and
/// any other value that reads as a setting becomes the setting of that name.
pub open spec fn layer_entry(w: WidgetConfigData, key: Seq<char>, v: TomlData) -> WidgetConfigData {
    if key == "type"@ {
        w
    } else {
        match v {
            TomlData::Table(t) => WidgetConfigData { type_: w.type_, settings: w.settings, tables: with_entry(w.tables, key, string_entries(t)) },
            _ => match spec_read_widget_setting(v) {
                Some(p) => WidgetConfigData { type_: w.type_, settings: with_entry(w.settings, key, p), tables: w.tables },
                None => w,
            },
        }
    }
}

/// `w` with the first `n` entries of the widget table layered on, in order.
pub open spec fn layer_entries(w: WidgetConfigData, entry: TableData, n: int) -> WidgetConfigData
    decreases n,
{
    if n <= 0 || n > entry.len() {
        w
    } else {
        layer_entry(layer_entries(w, entry, n - 1), entry[n - 1].0, entry[n - 1].1)
    }
}

/// The widget a `[widget.<name>]` entry resolves to against the widgets known so far.
pub open spec fn spec_read_bar_widget_config(name: Seq<char>, entry: TableData, base: Seq<(Seq<char>, WidgetConfigData)>) -> WidgetConfigData {
    layer_entries(starting_widget(name, entry, base), entry, entry.len() as int)
}

/// Resolves the `[widget.<name>]` table `entry_table` against the widgets
/// known so far (the built-in ones and those already read); see
/// [`spec_read_bar_widget_config`].
pub fn read_bar_widget_config(widget_name: &str, entry_table: &TomlTable, base_widgets: &Vec<(String, WidgetConfig)>) -> (r: WidgetConfig)
    ensures
        r@ == spec_read_bar_widget_config(widget_name@, entry_table@, widgets_view(base_widgets@)),
{
    let ghost bv = widgets_view(base_widgets@);
    proof {
        assert(names_of(bv) =~= base_widgets@.map_values(|e: (String, WidgetConfig)| e.0@));
        lemma_name_position(names_of(bv), widget_name@, 0);
    }
    let type_value: Option<&str> = match entry_table.get("type") {
        Some(v) => v.as_str(),
        None => None,
    };
    let found = find_name(base_widgets, widget_name);
    let mut wc = match type_value {
        Some(t) => match found {
            Some(i) => {
                if str_equal(base_widgets[i].1.type_.as_str(), t) {
                    WidgetConfig {
                        type_: t.to_owned(),
                        settings: copy_settings(&base_widgets[i].1.settings),
                        tables: copy_tables(&base_widgets[i].1.tables),
                    }
                } else {
                    bare_widget_of(t)
                }
            },
            None => bare_widget_of(t),
        },
        None => match found {
            Some(i) => base_widgets[i].1.duplicate(),
            None => bare_widget_of(widget_name),
        },
    };
    let ghost start = wc@;
    assert(start == starting_widget(widget_name@, entry_table@, bv));
    proof { lemma_entries_data(entry_table.entries@, entry_table.entries@.len() as int); }
    let mut i: usize = 0;
    while i < entry_table.entries.len()
        invariant
            0 <= i <= entry_table.entries@.len(),
            entry_table@.len() == entry_table.entries@.len(),
            forall|j: int| 0 <= j < entry_table.entries@.len() ==> #[trigger] entry_table@[j]
                == (entry_table.entries@[j].key@, value_data(entry_table.entries@[j].value)),
            wc@ == layer_entries(start, entry_table@, i as int),
        decreases entry_table.entries.len() - i,
    {
        let entry = &entry_table.entries[i];
        assert(entry_table@[i as int] == (entry.key@, entry.value@));
        if !str_equal(entry.key.as_str(), "type") {
            match &entry.value {
                TomlValue::Table(t) => {
                    let pairs = string_entries_of(t);
                    set_table(&mut wc.tables, entry.key.clone(), pairs);
                },
                other => {
                    match read_widget_setting_value(other) {
                        Some(p) => {
                            set_setting(&mut wc.settings, entry.key.clone(), p);
                        },
                        None => {},
                    }
                },
            }
        }
        i += 1;
    }
    wc
}


// ---- how an entry layers on ----

/// Setting `k` makes `k` read as the new value and leaves the other names as they were.
pub proof fn lemma_with_entry_get<V>(s: Seq<(Seq<char>, V)>, k: Seq<char>, v: V, other: Seq<char>)
    ensures
        entry_of(with_entry(s, k, v), other) == if other == k { Some(v) } else { entry_of(s, other) },
{
    let names = names_of(s);
    let w = with_entry(s, k, v);
    let wn = names_of(w);
    lemma_name_position(names, k, 0);
    lemma_name_position(names, other, 0);
    lemma_name_position(wn, other, 0);
    match name_position(names, k, 0) {
        Some(i) => {
            assert(wn =~= names);
        },
        None => {
            assert(wn =~= names.push(k));
            if other != k {
                match name_position(names, other, 0) {
                    Some(p) => {
                        assert(wn[p] == other);
                    },
                    None => {
                        assert(wn[names.len() as int] == k);
                    },
                }
            } else {
                assert(wn[names.len() as int] == k);
            }
        },
    }
}

/// Layering entries whose names differ from `k` leaves the setting `k` as it was.
proof fn lemma_layers_keep_setting(w: WidgetConfigData, entry: TableData, n: int, k: Seq<char>)
    requires
        0 <= n <= entry.len(),
        forall|j: int| 0 <= j < n ==> (#[trigger] entry[j]).0 != k,
    ensures
        entry_of(layer_entries(w, entry, n).settings, k) == entry_of(w.settings, k),
    decreases n,
{
    if n > 0 {
        lemma_layers_keep_setting(w, entry, n - 1, k);
        let prev = layer_entries(w, entry, n - 1);
        assert(entry[n - 1].0 != k);
        if let Some(p) = spec_read_widget_setting(entry[n - 1].1) {
            lemma_with_entry_get(prev.settings, entry[n - 1].0, p, k);
        }
    }
}

/// An entry's own setting is what the resolved widget holds under its name:
/// a key other than `type` whose value is not a table and reads as a setting
/// gives that setting, whatever the widget started from (the keys of a TOML
/// table are distinct).
pub proof fn lemma_entry_setting_on_top(name: Seq<char>, entry: TableData, base: Seq<(Seq<char>, WidgetConfigData)>, j: int)
    requires
        forall|a: int, b: int| 0 <= a < entry.len() && 0 <= b < entry.len() && a != b ==> entry[a].0 != entry[b].0,
        0 <= j < entry.len(),
        entry[j].0 != "type"@,
        !(entry[j].1 is Table),
        spec_read_widget_setting(entry[j].1) is Some,
    ensures
        entry_of(spec_read_bar_widget_config(name, entry, base).settings, entry[j].0)
            == spec_read_widget_setting(entry[j].1),
{
    let k = entry[j].0;
    let start = starting_widget(name, entry, base);
    let after_j = layer_entries(start, entry, j + 1);
    lemma_with_entry_get(layer_entries(start, entry, j).settings, k, spec_read_widget_setting(entry[j].1).unwrap(), k);
    assert(entry_of(after_j.settings, k) == spec_read_widget_setting(entry[j].1));
    lemma_layers_from(start, entry, j + 1, k);
}

/// Layering the entries after position `m`, none named `k`, leaves the setting `k` as it was at `m`.
proof fn lemma_layers_from(w: WidgetConfigData, entry: TableData, m: int, k: Seq<char>)
    requires
        0 <= m <= entry.len(),
        forall|j: int| m <= j < entry.len() ==> (#[trigger] entry[j]).0 != k,
    ensures
        entry_of(layer_entries(w, entry, entry.len() as int).settings, k) == entry_of(layer_entries(w, entry, m).settings, k),
    decreases entry.len() - m,
{
    if m < entry.len() {
        lemma_layers_from(w, entry, m + 1, k);
        let prev = layer_entries(w, entry, m);
        assert(entry[m].0 != k);
        if let Some(p) = spec_read_widget_setting(entry[m].1) {
            lemma_with_entry_get(prev.settings, entry[m].0, p, k);
        }
    }
}

/// Layering entries never changes the widget's type.
proof fn lemma_layers_keep_type(w: WidgetConfigData, entry: TableData, n: int)
    ensures
        layer_entries(w, entry, n).type_ == w.type_,
    decreases n,
{
    if 0 < n <= entry.len() {
        lemma_layers_keep_type(w, entry, n - 1);
    }
}

/// The type of a resolved widget: the entry's string `type` when it has one;
/// otherwise the type of the known widget of that name, or else the name
/// itself.
pub proof fn lemma_widget_type(name: Seq<char>, entry: TableData, base: Seq<(Seq<char>, WidgetConfigData)>)
    ensures
        lookup_str(entry, "type"@) matches Some(t) ==> spec_read_bar_widget_config(name, entry, base).type_ == t,
        lookup_str(entry, "type"@) is None ==> (entry_of(base, name) matches Some(b) ==> spec_read_bar_widget_config(name, entry, base).type_ == b.type_),
        lookup_str(entry, "type"@) is None && entry_of(base, name) is None ==> spec_read_bar_widget_config(name, entry, base).type_ == name,
{
    lemma_layers_keep_type(starting_widget(name, entry, base), entry, entry.len() as int);
}

/// An entry without a string `type` inherits the widget of its name: a setting
/// the entry does not name reads as in that widget.
pub proof fn lemma_entry_inherits_setting(name: Seq<char>, entry: TableData, base: Seq<(Seq<char>, WidgetConfigData)>, k: Seq<char>)
    requires
        lookup_str(entry, "type"@) is None,
        entry_of(base, name) is Some,
        forall|j: int| 0 <= j < entry.len() ==> (#[trigger] entry[j]).0 != k,
    ensures
        entry_of(spec_read_bar_widget_config(name, entry, base).settings, k)
            == entry_of(entry_of(base, name).unwrap().settings, k),
{
    lemma_layers_keep_setting(starting_widget(name, entry, base), entry, entry.len() as int, k);
}


/// The value of the last pair named `k`.
pub open spec fn last_entry_of<V>(s: Seq<(Seq<char>, V)>, k: Seq<char>) -> Option<V>
    decreases s.len(),
{
    if s.len() == 0 {
        None
    } else if s.last().0 == k {
        Some(s.last().1)
    } else {
        last_entry_of(s.drop_last(), k)
    }
}

/// After setting each pair of `add` in turn, a name reads as its last value
/// in `add`, and a name `add` does not hold reads as before.
pub proof fn lemma_with_entries_get<V>(s: Seq<(Seq<char>, V)>, add: Seq<(Seq<char>, V)>, k: Seq<char>)
    ensures
        entry_of(with_entries(s, add), k) == match last_entry_of(add, k) {
            Some(v) => Some(v),
            None => entry_of(s, k),
        },
    decreases add.len(),
{
    if add.len() > 0 {
        lemma_with_entries_get(s, add.drop_last(), k);
        lemma_with_entry_get(with_entries(s, add.drop_last()), add.last().0, add.last().1, k);
    }
}

/// Seeding changes exactly the built-in names: each reads as its built-in
/// widget (replaced whole, with no tables), and every other name reads as before.
pub proof fn lemma_seed_changes_only_builtins(widgets: Seq<(Seq<char>, WidgetConfigData)>, k: Seq<char>)
    ensures
        entry_of(with_entries(widgets, builtin_widgets()), k) == match last_entry_of(builtin_widgets(), k) {
            Some(b) => Some(b),
            None => entry_of(widgets, k),
        },
        last_entry_of(builtin_widgets(), k) matches Some(b) ==> b.tables.len() == 0,
{
    lemma_with_entries_get(widgets, builtin_widgets(), k);
    lemma_builtins_have_no_tables(builtin_widgets().len() as int, k);
    assert(builtin_widgets().take(builtin_widgets().len() as int) =~= builtin_widgets());
}

proof fn lemma_builtins_have_no_tables(n: int, k: Seq<char>)
    requires
        0 <= n <= builtin_widgets().len(),
    ensures
        last_entry_of(builtin_widgets().take(n), k) matches Some(b) ==> b.tables.len() == 0,
    decreases n,
{
    let b = builtin_widgets();
    if n > 0 {
        assert(b.take(n).drop_last() =~= b.take(n - 1));
        lemma_builtins_have_no_tables(n - 1, k);
        assert(b.take(n).last() == b[n - 1]);
        assert(b[n - 1].1.tables.len() == 0);
    } else {
        assert(b.take(0).len() == 0);
    }
    if n == b.len() {
        assert(b.take(n) =~= b);
    }
}

} // verus!
