//! Reading and writing the hot-corners section, whose corners are sub-tables.
//! A corner sub-table is read into a fresh default corner, which then
//! replaces the held one; a corner the table does not set keeps what it held.

use vstd::prelude::*;
use crate::value::{TomlEntry, TomlTable, TomlValue, TomlData, TableData, lookup, keys_distinct, lemma_entries_data};
use crate::schema::fields::{read_bool_field, read_int_field, get_bool, get_int, bool_entry, int_entry};
use crate::schema::plain_sections::{HotCornerConfigView, spec_read_corner, spec_write_corner, read_corner, write_corner,
    lemma_corner_round_trip};
use crate::schema::template_section::lemma_lookup_distinct;
use crate::types::hotcorners::{HotCornerConfig, HotCornersConfig};

verus! {

/// The content of a default corner: no action, no command.
pub open spec fn default_corner_view() -> HotCornerConfigView {
    HotCornerConfigView { action: "none"@, command: Seq::empty() }
}

/// A corner sub-table field: a default corner with the sub-table under `key`
/// read into it, else `cur`.
pub open spec fn read_corner_field(t: TableData, key: Seq<char>, cur: HotCornerConfigView) -> HotCornerConfigView {
    match lookup(t, key) {
        Some(TomlData::Table(sub)) => spec_read_corner(default_corner_view(), sub),
        _ => cur,
    }
}

/// The content of a [`HotCornersConfig`].
pub struct HotCornersView {
    pub enabled: bool,
    pub delay_ms: i32,
    pub top_left: HotCornerConfigView,
    pub top_right: HotCornerConfigView,
    pub bottom_left: HotCornerConfigView,
    pub bottom_right: HotCornerConfigView,
}

impl View for HotCornersConfig {
    type V = HotCornersView;

    open spec fn view(&self) -> HotCornersView {
        HotCornersView {
            enabled: self.enabled,
            delay_ms: self.delay_ms,
            top_left: self.top_left@,
            top_right: self.top_right@,
            bottom_left: self.bottom_left@,
            bottom_right: self.bottom_right@,
        }
    }
}

/// `cur` with the fields that `t` sets read from it; the delay is clamped
/// into `[0, 2000]` milliseconds.
pub open spec fn spec_read_hot_corners(cur: HotCornersView, t: TableData) -> HotCornersView {
    HotCornersView {
        enabled: read_bool_field(t, "enabled"@, cur.enabled),
        delay_ms: read_int_field(t, "delay_ms"@, Some((0i64, 2000i64)), cur.delay_ms),
        top_left: read_corner_field(t, "top_left"@, cur.top_left),
        top_right: read_corner_field(t, "top_right"@, cur.top_right),
        bottom_left: read_corner_field(t, "bottom_left"@, cur.bottom_left),
        bottom_right: read_corner_field(t, "bottom_right"@, cur.bottom_right),
    }
}

/// The table `v` is written as: every field in schema order, each corner as
/// its own sub-table.
pub open spec fn spec_write_hot_corners(v: HotCornersView) -> TableData {
    seq![
        ("enabled"@, TomlData::Boolean(v.enabled)),
        ("delay_ms"@, TomlData::Integer(v.delay_ms as i64)),
        ("top_left"@, TomlData::Table(spec_write_corner(v.top_left))),
        ("top_right"@, TomlData::Table(spec_write_corner(v.top_right))),
        ("bottom_left"@, TomlData::Table(spec_write_corner(v.bottom_left))),
        ("bottom_right"@, TomlData::Table(spec_write_corner(v.bottom_right))),
    ]
}

/// Reads the corner sub-table under `key` into `cur` (see [`read_corner_field`]).
fn read_corner_sub(t: &TomlTable, key: &str, cur: &mut HotCornerConfig)
    ensures
        final(cur)@ == read_corner_field(t@, key@, old(cur)@),
{
    match t.get(key) {
        Some(TomlValue::Table(sub)) => {
            let mut c = HotCornerConfig::default();
            proof { assert(c.command@ =~= Seq::<char>::empty()); }
            read_corner(sub, &mut c);
            *cur = c;
        },
        _ => {},
    }
}

/// Reads the fields that `t` sets into `out`; see [`spec_read_hot_corners`].
pub fn read_hot_corners(t: &TomlTable, out: &mut HotCornersConfig)
    ensures
        final(out)@ == spec_read_hot_corners(old(out)@, t@),
{
    out.enabled = get_bool(t, "enabled", out.enabled);
    out.delay_ms = get_int(t, "delay_ms", Some((0i64, 2000i64)), out.delay_ms);
    read_corner_sub(t, "top_left", &mut out.top_left);
    read_corner_sub(t, "top_right", &mut out.top_right);
    read_corner_sub(t, "bottom_left", &mut out.bottom_left);
    read_corner_sub(t, "bottom_right", &mut out.bottom_right);
}

/// The entry `key = { .. }` for a corner.
fn corner_entry(key: &str, c: &HotCornerConfig) -> (e: TomlEntry)
    ensures
        e.key@ == key@,
        e.value@ == TomlData::Table(spec_write_corner(c@)),
{
    TomlEntry { key: key.to_owned(), value: TomlValue::Table(write_corner(c)) }
}

/// Writes every field of `v`, in schema order; see [`spec_write_hot_corners`].
pub fn write_hot_corners(v: &HotCornersConfig) -> (t: TomlTable)
    ensures
        t@ == spec_write_hot_corners(v@),
{
    let t = TomlTable {
        entries: vec![
            bool_entry("enabled", v.enabled),
            int_entry("delay_ms", v.delay_ms),
            corner_entry("top_left", &v.top_left),
            corner_entry("top_right", &v.top_right),
            corner_entry("bottom_left", &v.bottom_left),
            corner_entry("bottom_right", &v.bottom_right),
        ],
    };
    proof {
        lemma_entries_data(t.entries@, t.entries@.len() as int);
        assert(t@ =~= spec_write_hot_corners(v@));
    }
    t
}

/// Reading written hot corners back gives them, for a delay within
/// `[0, 2000]` milliseconds.
pub proof fn lemma_hot_corners_round_trip(cur: HotCornersView, v: HotCornersView)
    requires
        0 <= v.delay_ms <= 2000,
    ensures
        spec_read_hot_corners(cur, spec_write_hot_corners(v)) == v,
{
    let t = spec_write_hot_corners(v);
    reveal_strlit("enabled");
    reveal_strlit("delay_ms");
    reveal_strlit("top_left");
    reveal_strlit("top_right");
    reveal_strlit("bottom_left");
    reveal_strlit("bottom_right");
    assert("enabled"@.len() != "delay_ms"@.len());
    assert("enabled"@[0] != "top_left"@[0]);
    assert("enabled"@[0] != "top_right"@[0]);
    assert("enabled"@.len() != "bottom_left"@.len());
    assert("enabled"@.len() != "bottom_right"@.len());
    assert("delay_ms"@[0] != "top_left"@[0]);
    assert("delay_ms"@[0] != "top_right"@[0]);
    assert("delay_ms"@.len() != "bottom_left"@.len());
    assert("delay_ms"@.len() != "bottom_right"@.len());
    assert("top_left"@.len() != "top_right"@.len());
    assert("top_left"@.len() != "bottom_left"@.len());
    assert("top_left"@.len() != "bottom_right"@.len());
    assert("top_right"@.len() != "bottom_left"@.len());
    assert("top_right"@.len() != "bottom_right"@.len());
    assert("bottom_left"@.len() != "bottom_right"@.len());
    assert(keys_distinct(t));
    lemma_lookup_distinct(t, 0);
    lemma_lookup_distinct(t, 1);
    lemma_lookup_distinct(t, 2);
    lemma_lookup_distinct(t, 3);
    lemma_lookup_distinct(t, 4);
    lemma_lookup_distinct(t, 5);
    lemma_corner_round_trip(default_corner_view(), v.top_left);
    lemma_corner_round_trip(default_corner_view(), v.top_right);
    lemma_corner_round_trip(default_corner_view(), v.bottom_left);
    lemma_corner_round_trip(default_corner_view(), v.bottom_right);
    let d = v.delay_ms;
    assert((d as i64) as i32 == d) by (bit_vector);
    reveal(read_bool_field);
}

} // verus!
