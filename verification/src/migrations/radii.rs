//! Negative bar corner radii become positive radii drawn as concave edge corners.

use vstd::prelude::*;
use crate::value::{
    TomlTable, TomlValue, TomlData, TableData, lookup, lookup_integer, lookup_table, table_insert,
    update_subtable, map_subtables, gather_all, gather_subtables, lemma_insert_at,
    lemma_insert_lookup, entry_fixed, entry_silent, lemma_map_subtables_id, lemma_gather_empty,
    lemma_update_subtable_id, lemma_update_subtable_other, lemma_update_subtable_same,
};
use crate::text::concat;
use crate::migrations::notes::{paths_view, append_paths};

verus! {

/// The largest corner radius a migrated negative radius becomes.
pub const K_MAX_BAR_RADIUS: i64 = 500;

/// The positive radius that the negative radius `r` becomes.
pub open spec fn radius_magnitude(r: i64) -> i64 {
    if r <= -K_MAX_BAR_RADIUS { K_MAX_BAR_RADIUS } else { (-r) as i64 }
}

/// `t` holds a negative integer under `k`.
pub open spec fn is_negative_radius(t: TableData, k: Seq<char>) -> bool {
    match lookup_integer(t, k) {
        Some(r) => r < 0,
        None => false,
    }
}

/// `t` with a negative radius under `k` made positive.
pub open spec fn fix_radius(t: TableData, k: Seq<char>) -> TableData {
    if is_negative_radius(t, k) {
        table_insert(t, k, TomlData::Integer(radius_magnitude(lookup_integer(t, k).unwrap())))
    } else {
        t
    }
}

/// The table holds a negative value under one of the five radius keys.
pub open spec fn has_negative_radius(t: TableData) -> bool {
    is_negative_radius(t, "radius"@) || is_negative_radius(t, "radius_top_left"@)
        || is_negative_radius(t, "radius_top_right"@) || is_negative_radius(t, "radius_bottom_left"@)
        || is_negative_radius(t, "radius_bottom_right"@)
}

/// A bar or monitor table with its negative radii made positive and, when
/// there were any, `concave_edge_corners = true`.
pub open spec fn spec_migrate_radii(t: TableData) -> TableData {
    let fixed = fix_radius(
        fix_radius(
            fix_radius(fix_radius(fix_radius(t, "radius"@), "radius_top_left"@), "radius_top_right"@),
            "radius_bottom_left"@,
        ),
        "radius_bottom_right"@,
    );
    if has_negative_radius(t) {
        table_insert(fixed, "concave_edge_corners"@, TomlData::Boolean(true))
    } else {
        fixed
    }
}

/// Applied to each monitor override of a bar.
pub open spec fn monitor_radii_step() -> spec_fn(Seq<char>, TableData) -> TableData {
    |name: Seq<char>, mon: TableData| spec_migrate_radii(mon)
}

/// Applied to the monitor table of a bar.
pub open spec fn monitors_radii_step() -> spec_fn(TableData) -> TableData {
    |m: TableData| map_subtables(m, monitor_radii_step())
}

/// One bar with its own radii and those of its monitor overrides migrated.
pub open spec fn migrate_bar_radii(bar: TableData) -> TableData {
    update_subtable(spec_migrate_radii(bar), "monitor"@, monitors_radii_step())
}

/// Applied to each bar.
pub open spec fn bar_radii_step() -> spec_fn(Seq<char>, TableData) -> TableData {
    |name: Seq<char>, bar: TableData| migrate_bar_radii(bar)
}

/// Applied to the `bar` table.
pub open spec fn bars_radii_step() -> spec_fn(TableData) -> TableData {
    |bars: TableData| map_subtables(bars, bar_radii_step())
}

/// The document after the negative-radius migration.
pub open spec fn spec_migrate_negative_bar_radii(root: TableData) -> TableData {
    update_subtable(root, "bar"@, bars_radii_step())
}

/// The path reported for a monitor override of the bar at `bar_path`.
pub open spec fn monitor_radii_paths(bar_path: Seq<char>) -> spec_fn(Seq<char>, TableData) -> Seq<Seq<char>> {
    |name: Seq<char>, mon: TableData|
        if has_negative_radius(mon) { seq![bar_path + ".monitor."@ + name] } else { Seq::empty() }
}

/// The paths reported for one bar: the bar, then each changed monitor override.
pub open spec fn bar_radii_paths(name: Seq<char>, bar: TableData) -> Seq<Seq<char>> {
    let bar_path = "bar."@ + name;
    (if has_negative_radius(bar) { seq![bar_path] } else { Seq::empty() })
        + match lookup_table(spec_migrate_radii(bar), "monitor"@) {
            Some(m) => gather_all(m, monitor_radii_paths(bar_path)),
            None => Seq::empty(),
        }
}

/// Applied to each bar for its paths.
pub open spec fn bar_radii_paths_step() -> spec_fn(Seq<char>, TableData) -> Seq<Seq<char>> {
    |name: Seq<char>, bar: TableData| bar_radii_paths(name, bar)
}

/// The paths of the bars and monitor overrides that the migration changes, in order.
pub open spec fn negative_bar_radii_paths(root: TableData) -> Seq<Seq<char>> {
    match lookup_table(root, "bar"@) {
        Some(bars) => gather_all(bars, bar_radii_paths_step()),
        None => Seq::empty(),
    }
}

proof fn lemma_radius_keys_distinct()
    ensures
        "radius"@ != "radius_top_left"@,
        "radius"@ != "radius_top_right"@,
        "radius"@ != "radius_bottom_left"@,
        "radius"@ != "radius_bottom_right"@,
        "radius_top_left"@ != "radius_top_right"@,
        "radius_top_left"@ != "radius_bottom_left"@,
        "radius_top_left"@ != "radius_bottom_right"@,
        "radius_top_right"@ != "radius_bottom_left"@,
        "radius_top_right"@ != "radius_bottom_right"@,
        "radius_bottom_left"@ != "radius_bottom_right"@,
{
    reveal_strlit("radius");
    reveal_strlit("radius_top_left");
    reveal_strlit("radius_top_right");
    reveal_strlit("radius_bottom_left");
    reveal_strlit("radius_bottom_right");
    assert("radius"@.len() != "radius_top_left"@.len());
    assert("radius"@.len() != "radius_top_right"@.len());
    assert("radius"@.len() != "radius_bottom_left"@.len());
    assert("radius"@.len() != "radius_bottom_right"@.len());
    assert("radius_top_left"@.len() != "radius_top_right"@.len());
    assert("radius_top_left"@.len() != "radius_bottom_left"@.len());
    assert("radius_top_left"@.len() != "radius_bottom_right"@.len());
    assert("radius_top_right"@.len() != "radius_bottom_left"@.len());
    assert("radius_top_right"@.len() != "radius_bottom_right"@.len());
    assert("radius_bottom_left"@.len() != "radius_bottom_right"@.len());
}

proof fn lemma_fix_radius_other(t: TableData, a: Seq<char>, b: Seq<char>)
    requires
        a != b,
    ensures
        is_negative_radius(fix_radius(t, a), b) == is_negative_radius(t, b),
{
    if is_negative_radius(t, a) {
        lemma_insert_lookup(t, a, TomlData::Integer(radius_magnitude(lookup_integer(t, a).unwrap())), b);
    }
}

fn fix_radius_key(t: &mut TomlTable, key: &str) -> (changed: bool)
    ensures
        changed == is_negative_radius(old(t)@, key@),
        final(t)@ == fix_radius(old(t)@, key@),
{
    let r_opt = match t.get(key) {
        Some(v) => v.as_integer(),
        None => None,
    };
    match r_opt {
        Some(r) => {
            if r < 0 {
                let m: i64 = if r <= -K_MAX_BAR_RADIUS { K_MAX_BAR_RADIUS } else { -r };
                t.insert(key.to_owned(), TomlValue::Integer(m));
                true
            } else {
                false
            }
        },
        None => false,
    }
}

/// Makes the negative radii of one bar or monitor table positive and, when
/// any was negative, sets `concave_edge_corners = true`; returns whether any was.
pub fn migrate_negative_radii(table: &mut TomlTable) -> (changed: bool)
    ensures
        changed == has_negative_radius(old(table)@),
        final(table)@ == spec_migrate_radii(old(table)@),
{
    let ghost t0 = table@;
    proof { lemma_radius_keys_distinct(); }
    let c0 = fix_radius_key(table, "radius");
    let ghost t1 = table@;
    let c1 = fix_radius_key(table, "radius_top_left");
    let ghost t2 = table@;
    let c2 = fix_radius_key(table, "radius_top_right");
    let ghost t3 = table@;
    let c3 = fix_radius_key(table, "radius_bottom_left");
    let ghost t4 = table@;
    let c4 = fix_radius_key(table, "radius_bottom_right");
    proof {
        lemma_fix_radius_other(t0, "radius"@, "radius_top_left"@);
        lemma_fix_radius_other(t0, "radius"@, "radius_top_right"@);
        lemma_fix_radius_other(t1, "radius_top_left"@, "radius_top_right"@);
        lemma_fix_radius_other(t0, "radius"@, "radius_bottom_left"@);
        lemma_fix_radius_other(t1, "radius_top_left"@, "radius_bottom_left"@);
        lemma_fix_radius_other(t2, "radius_top_right"@, "radius_bottom_left"@);
        lemma_fix_radius_other(t0, "radius"@, "radius_bottom_right"@);
        lemma_fix_radius_other(t1, "radius_top_left"@, "radius_bottom_right"@);
        lemma_fix_radius_other(t2, "radius_top_right"@, "radius_bottom_right"@);
        lemma_fix_radius_other(t3, "radius_bottom_left"@, "radius_bottom_right"@);
    }
    let changed = c0 || c1 || c2 || c3 || c4;
    if changed {
        table.insert("concave_edge_corners".to_owned(), TomlValue::Boolean(true));
    }
    changed
}

/// Migrates every monitor override of a bar; returns the paths changed.
fn migrate_monitor_radii(monitors: &mut TomlTable, bar_path: &str) -> (paths: Vec<String>)
    ensures
        final(monitors)@ == map_subtables(old(monitors)@, monitor_radii_step()),
        paths_view(paths@) == gather_all(old(monitors)@, monitor_radii_paths(bar_path@)),
{
    let ghost t0 = monitors@;
    let mut paths: Vec<String> = Vec::new();
    let n = monitors.len();
    let mut i: usize = 0;
    while i < n
        invariant
            n == t0.len(),
            0 <= i <= n,
            monitors@.len() == n,
            forall|j: int| 0 <= j < i ==> #[trigger] monitors@[j] == map_subtables(t0, monitor_radii_step())[j],
            forall|j: int| i <= j < n ==> #[trigger] monitors@[j] == t0[j],
            paths_view(paths@) == gather_subtables(t0, monitor_radii_paths(bar_path@), i as int),
        decreases n - i,
    {
        let name = monitors.key_at(i).to_owned();
        let v = monitors.replace_value_at(i, TomlValue::Boolean(false));
        match v {
            TomlValue::Table(mut mon) => {
                let changed = migrate_negative_radii(&mut mon);
                monitors.restore_table(i, mon);
                if changed {
                    let p1 = concat(bar_path, ".monitor.");
                    let p = concat(p1.as_str(), name.as_str());
                    let mut one: Vec<String> = Vec::new();
                    one.push(p);
                    append_paths(&mut paths, one);
                    assert(paths_view(one@) =~= seq![bar_path@ + ".monitor."@ + name@]);
                } else {
                    assert(paths_view(paths@) =~= paths_view(paths@) + Seq::<Seq<char>>::empty());
                }
            },
            other => {
                monitors.replace_value_at(i, other);
            },
        }
        i += 1;
    }
    assert(monitors@ =~= map_subtables(t0, monitor_radii_step()));
    paths
}

/// Migrates one bar and its monitor overrides; returns the paths changed.
fn migrate_bar(bar: &mut TomlTable, name: &str) -> (paths: Vec<String>)
    ensures
        final(bar)@ == migrate_bar_radii(old(bar)@),
        paths_view(paths@) == bar_radii_paths(name@, old(bar)@),
{
    let ghost t0 = bar@;
    let bar_path = concat("bar.", name);
    let mut paths: Vec<String> = Vec::new();
    if migrate_negative_radii(bar) {
        paths.push(bar_path.clone());
    }
    let ghost t1 = bar@;
    match bar.take_table("monitor") {
        Some((mi, mut monitors)) => {
            let more = migrate_monitor_radii(&mut monitors, bar_path.as_str());
            bar.restore_table(mi, monitors);
            proof { lemma_insert_at(t1, "monitor"@, mi as int, TomlData::Table(map_subtables(lookup_table(t1, "monitor"@).unwrap(), monitor_radii_step()))); }
            append_paths(&mut paths, more);
        },
        None => {},
    }
    assert(paths_view(paths@) =~= bar_radii_paths(name@, t0));
    paths
}

/// Makes the negative corner radii of every bar and bar monitor override
/// positive, marking each changed table with `concave_edge_corners = true`;
/// returns the paths of the tables changed, in document order.
pub fn migrate_negative_bar_radii(root: &mut TomlTable) -> (paths: Vec<String>)
    ensures
        final(root)@ == spec_migrate_negative_bar_radii(old(root)@),
        paths_view(paths@) == negative_bar_radii_paths(old(root)@),
{
    let ghost r0 = root@;
    let mut paths: Vec<String> = Vec::new();
    match root.take_table("bar") {
        None => {
            return paths;
        },
        Some((bi, mut bars)) => {
            let ghost b0 = bars@;
            let n = bars.len();
            let mut i: usize = 0;
            while i < n
                invariant
                    n == b0.len(),
                    0 <= i <= n,
                    bars@.len() == n,
                    forall|j: int| 0 <= j < i ==> #[trigger] bars@[j] == map_subtables(b0, bar_radii_step())[j],
                    forall|j: int| i <= j < n ==> #[trigger] bars@[j] == b0[j],
                    paths_view(paths@) == gather_subtables(b0, bar_radii_paths_step(), i as int),
                decreases n - i,
            {
                let name = bars.key_at(i).to_owned();
                let v = bars.replace_value_at(i, TomlValue::Boolean(false));
                match v {
                    TomlValue::Table(mut bar) => {
                        let more = migrate_bar(&mut bar, name.as_str());
                        bars.restore_table(i, bar);
                        append_paths(&mut paths, more);
                    },
                    other => {
                        bars.replace_value_at(i, other);
                    },
                }
                i += 1;
            }
            assert(bars@ =~= map_subtables(b0, bar_radii_step()));
            root.restore_table(bi, bars);
            proof { lemma_insert_at(r0, "bar"@, bi as int, TomlData::Table(map_subtables(b0, bar_radii_step()))); }
        },
    }
    paths
}


// ---- what the migration leaves behind ----

/// `k` is one of the five corner-radius keys.
pub open spec fn is_radius_key(k: Seq<char>) -> bool {
    k == "radius"@ || k == "radius_top_left"@ || k == "radius_top_right"@ || k == "radius_bottom_left"@
        || k == "radius_bottom_right"@
}

/// The radius keys are neither `monitor`, `actions`, `dead_zone` nor `concave_edge_corners`.
pub proof fn lemma_radius_keys_apart()
    ensures
        !is_radius_key("monitor"@),
        !is_radius_key("actions"@),
        !is_radius_key("dead_zone"@),
        !is_radius_key("concave_edge_corners"@),
        "monitor"@ != "concave_edge_corners"@,
{
    reveal_strlit("radius");
    reveal_strlit("radius_top_left");
    reveal_strlit("radius_top_right");
    reveal_strlit("radius_bottom_left");
    reveal_strlit("radius_bottom_right");
    reveal_strlit("monitor");
    reveal_strlit("actions");
    reveal_strlit("dead_zone");
    reveal_strlit("concave_edge_corners");
    assert(forall|k: Seq<char>| is_radius_key(k) ==> k.len() > 0 && #[trigger] k[0] == 'r');
    assert("monitor"@[0] == 'm' && "actions"@[0] == 'a' && "dead_zone"@[0] == 'd');
    assert("concave_edge_corners"@[0] == 'c');
}

proof fn lemma_fix_radius_clears(t: TableData, k: Seq<char>)
    ensures
        !is_negative_radius(fix_radius(t, k), k),
{
    if is_negative_radius(t, k) {
        lemma_insert_lookup(t, k, TomlData::Integer(radius_magnitude(lookup_integer(t, k).unwrap())), k);
    }
}

proof fn lemma_fix_radius_keeps(t: TableData, a: Seq<char>, b: Seq<char>)
    requires
        a != b,
    ensures
        lookup(fix_radius(t, a), b) == lookup(t, b),
{
    if is_negative_radius(t, a) {
        lemma_insert_lookup(t, a, TomlData::Integer(radius_magnitude(lookup_integer(t, a).unwrap())), b);
    }
}

/// A migrated table holds no negative radius.
pub proof fn lemma_migrated_radii_clean(t: TableData)
    ensures
        !has_negative_radius(spec_migrate_radii(t)),
{
    lemma_radius_keys_distinct();
    lemma_radius_keys_apart();
    let t1 = fix_radius(t, "radius"@);
    let t2 = fix_radius(t1, "radius_top_left"@);
    let t3 = fix_radius(t2, "radius_top_right"@);
    let t4 = fix_radius(t3, "radius_bottom_left"@);
    let t5 = fix_radius(t4, "radius_bottom_right"@);
    lemma_fix_radius_clears(t, "radius"@);
    lemma_fix_radius_clears(t1, "radius_top_left"@);
    lemma_fix_radius_clears(t2, "radius_top_right"@);
    lemma_fix_radius_clears(t3, "radius_bottom_left"@);
    lemma_fix_radius_clears(t4, "radius_bottom_right"@);
    lemma_fix_radius_keeps(t1, "radius_top_left"@, "radius"@);
    lemma_fix_radius_keeps(t2, "radius_top_right"@, "radius"@);
    lemma_fix_radius_keeps(t3, "radius_bottom_left"@, "radius"@);
    lemma_fix_radius_keeps(t4, "radius_bottom_right"@, "radius"@);
    lemma_fix_radius_keeps(t2, "radius_top_right"@, "radius_top_left"@);
    lemma_fix_radius_keeps(t3, "radius_bottom_left"@, "radius_top_left"@);
    lemma_fix_radius_keeps(t4, "radius_bottom_right"@, "radius_top_left"@);
    lemma_fix_radius_keeps(t3, "radius_bottom_left"@, "radius_top_right"@);
    lemma_fix_radius_keeps(t4, "radius_bottom_right"@, "radius_top_right"@);
    lemma_fix_radius_keeps(t4, "radius_bottom_right"@, "radius_bottom_left"@);
    if has_negative_radius(t) {
        let c = "concave_edge_corners"@;
        lemma_insert_lookup(t5, c, TomlData::Boolean(true), "radius"@);
        lemma_insert_lookup(t5, c, TomlData::Boolean(true), "radius_top_left"@);
        lemma_insert_lookup(t5, c, TomlData::Boolean(true), "radius_top_right"@);
        lemma_insert_lookup(t5, c, TomlData::Boolean(true), "radius_bottom_left"@);
        lemma_insert_lookup(t5, c, TomlData::Boolean(true), "radius_bottom_right"@);
    }
}

/// A table without negative radii is left as it is.
pub proof fn lemma_radii_unchanged(t: TableData)
    requires
        !has_negative_radius(t),
    ensures
        spec_migrate_radii(t) == t,
{
}

/// Keys other than the radii and `concave_edge_corners` read as before.
pub proof fn lemma_radii_keep_other(t: TableData, k: Seq<char>)
    requires
        !is_radius_key(k),
        k != "concave_edge_corners"@,
    ensures
        lookup(spec_migrate_radii(t), k) == lookup(t, k),
{
    let t1 = fix_radius(t, "radius"@);
    let t2 = fix_radius(t1, "radius_top_left"@);
    let t3 = fix_radius(t2, "radius_top_right"@);
    let t4 = fix_radius(t3, "radius_bottom_left"@);
    let t5 = fix_radius(t4, "radius_bottom_right"@);
    lemma_fix_radius_keeps(t, "radius"@, k);
    lemma_fix_radius_keeps(t1, "radius_top_left"@, k);
    lemma_fix_radius_keeps(t2, "radius_top_right"@, k);
    lemma_fix_radius_keeps(t3, "radius_bottom_left"@, k);
    lemma_fix_radius_keeps(t4, "radius_bottom_right"@, k);
    if has_negative_radius(t) {
        lemma_insert_lookup(t5, "concave_edge_corners"@, TomlData::Boolean(true), k);
    }
}

/// Whether a table has negative radii depends only on its radius keys.
pub proof fn lemma_negative_radius_same(a: TableData, b: TableData)
    requires
        forall|k: Seq<char>| is_radius_key(k) ==> #[trigger] lookup(b, k) == lookup(a, k),
    ensures
        has_negative_radius(b) == has_negative_radius(a),
{
    assert(lookup(b, "radius"@) == lookup(a, "radius"@));
    assert(lookup(b, "radius_top_left"@) == lookup(a, "radius_top_left"@));
    assert(lookup(b, "radius_top_right"@) == lookup(a, "radius_top_right"@));
    assert(lookup(b, "radius_bottom_left"@) == lookup(a, "radius_bottom_left"@));
    assert(lookup(b, "radius_bottom_right"@) == lookup(a, "radius_bottom_right"@));
}

/// No bar or monitor override of the document has a negative radius left.
pub open spec fn radii_quiet(root: TableData) -> bool {
    negative_bar_radii_paths(root).len() == 0
}

proof fn lemma_monitors_quiet_after(m: TableData, bar_path: Seq<char>)
    ensures
        gather_all(map_subtables(m, monitor_radii_step()), monitor_radii_paths(bar_path)).len() == 0,
{
    let mm = map_subtables(m, monitor_radii_step());
    assert forall|i: int| 0 <= i < mm.len() implies #[trigger] entry_silent(mm, monitor_radii_paths(bar_path), i) by {
        if let TomlData::Table(sub) = m[i].1 {
            lemma_migrated_radii_clean(sub);
        }
    }
    lemma_gather_empty(mm, monitor_radii_paths(bar_path), mm.len() as int);
}

/// A migrated bar reports nothing more.
proof fn lemma_bar_quiet_after(name: Seq<char>, bar: TableData)
    ensures
        bar_radii_paths(name, migrate_bar_radii(bar)).len() == 0,
{
    lemma_radius_keys_apart();
    let b1 = spec_migrate_radii(bar);
    let b2 = migrate_bar_radii(bar);
    lemma_migrated_radii_clean(bar);
    assert forall|k: Seq<char>| is_radius_key(k) implies #[trigger] lookup(b2, k) == lookup(b1, k) by {
        lemma_update_subtable_other(b1, "monitor"@, monitors_radii_step(), k);
    }
    lemma_negative_radius_same(b1, b2);
    lemma_radii_unchanged(b2);
    lemma_update_subtable_same(b1, "monitor"@, monitors_radii_step());
    if let Some(m) = lookup_table(b1, "monitor"@) {
        lemma_monitors_quiet_after(m, "bar."@ + name);
    }
}

/// A bar that reports nothing is left as it is.
proof fn lemma_bar_unchanged(name: Seq<char>, bar: TableData)
    requires
        bar_radii_paths(name, bar).len() == 0,
    ensures
        migrate_bar_radii(bar) == bar,
{
    lemma_radii_unchanged(bar);
    if let Some(m) = lookup_table(bar, "monitor"@) {
        let p = monitor_radii_paths("bar."@ + name);
        lemma_gather_empty(m, p, m.len() as int);
        assert forall|i: int| 0 <= i < m.len() implies #[trigger] entry_fixed(m, monitor_radii_step(), i) by {
            assert(entry_silent(m, p, i));
        }
        lemma_map_subtables_id(m, monitor_radii_step());
    }
    lemma_update_subtable_id(bar, "monitor"@, monitors_radii_step());
}

/// After the migration, it has nothing more to do.
pub proof fn lemma_radii_quiet_after(root: TableData)
    ensures
        radii_quiet(spec_migrate_negative_bar_radii(root)),
{
    lemma_update_subtable_same(root, "bar"@, bars_radii_step());
    if let Some(bars) = lookup_table(root, "bar"@) {
        let mb = map_subtables(bars, bar_radii_step());
        assert forall|i: int| 0 <= i < mb.len() implies #[trigger] entry_silent(mb, bar_radii_paths_step(), i) by {
            if let TomlData::Table(sub) = bars[i].1 {
                lemma_bar_quiet_after(bars[i].0, sub);
            }
        }
        lemma_gather_empty(mb, bar_radii_paths_step(), mb.len() as int);
    }
}

/// When there is nothing to do, the migration changes nothing.
pub proof fn lemma_radii_idle(root: TableData)
    requires
        radii_quiet(root),
    ensures
        spec_migrate_negative_bar_radii(root) == root,
{
    if let Some(bars) = lookup_table(root, "bar"@) {
        lemma_gather_empty(bars, bar_radii_paths_step(), bars.len() as int);
        assert forall|i: int| 0 <= i < bars.len() implies #[trigger] entry_fixed(bars, bar_radii_step(), i) by {
            assert(entry_silent(bars, bar_radii_paths_step(), i));
            if let TomlData::Table(sub) = bars[i].1 {
                lemma_bar_unchanged(bars[i].0, sub);
            }
        }
        lemma_map_subtables_id(bars, bar_radii_step());
    }
    lemma_update_subtable_id(root, "bar"@, bars_radii_step());
}

/// A bar edit that keeps the radius keys and the monitor overrides' radius
/// keys keeps a quiet bar quiet.
pub proof fn lemma_bar_quiet_kept(name: Seq<char>, bar: TableData, bar2: TableData)
    requires
        bar_radii_paths(name, bar).len() == 0,
        forall|k: Seq<char>| is_radius_key(k) ==> #[trigger] lookup(bar2, k) == lookup(bar, k),
        match lookup_table(bar2, "monitor"@) {
            Some(m2) => forall|i: int| 0 <= i < m2.len() ==> #[trigger] entry_silent(m2, monitor_radii_paths("bar."@ + name), i),
            None => true,
        },
    ensures
        bar_radii_paths(name, bar2).len() == 0,
{
    lemma_negative_radius_same(bar, bar2);
    lemma_radii_unchanged(bar2);
    if let Some(m2) = lookup_table(bar2, "monitor"@) {
        lemma_gather_empty(m2, monitor_radii_paths("bar."@ + name), m2.len() as int);
    }
}

// ---- the laws of the migration, key by key ----

/// A table has a negative radius exactly when one of the five corner-radius
/// keys holds a negative integer.
pub proof fn lemma_negative_radius_at_some_key(t: TableData)
    ensures
        has_negative_radius(t) <==> exists|k: Seq<char>| is_radius_key(k) && #[trigger] is_negative_radius(t, k),
{
    if has_negative_radius(t) {
        if is_negative_radius(t, "radius"@) {
            assert(is_radius_key("radius"@));
        } else if is_negative_radius(t, "radius_top_left"@) {
            assert(is_radius_key("radius_top_left"@));
        } else if is_negative_radius(t, "radius_top_right"@) {
            assert(is_radius_key("radius_top_right"@));
        } else if is_negative_radius(t, "radius_bottom_left"@) {
            assert(is_radius_key("radius_bottom_left"@));
        } else {
            assert(is_radius_key("radius_bottom_right"@));
        }
    }
}

/// Migrating one bar or monitor table: no corner-radius key holds a negative
/// integer afterwards; a negative radius `r` becomes `-r` (at most 500); a
/// radius key that held no negative integer reads as before; and a table that
/// had a negative radius is marked `concave_edge_corners = true`.
pub proof fn lemma_migrated_table_radii(t: TableData, k: Seq<char>)
    requires
        is_radius_key(k),
    ensures
        !is_negative_radius(spec_migrate_radii(t), k),
        is_negative_radius(t, k) ==> lookup(spec_migrate_radii(t), k)
            == Some(TomlData::Integer(radius_magnitude(lookup_integer(t, k).unwrap()))),
        !is_negative_radius(t, k) ==> lookup(spec_migrate_radii(t), k) == lookup(t, k),
        is_negative_radius(t, k) ==> lookup(spec_migrate_radii(t), "concave_edge_corners"@) == Some(TomlData::Boolean(true)),
{
    lemma_radius_keys_distinct();
    lemma_radius_keys_apart();
    lemma_migrated_radii_clean(t);
    lemma_negative_radius_at_some_key(t);
    lemma_negative_radius_at_some_key(spec_migrate_radii(t));
    let keys = seq!["radius"@, "radius_top_left"@, "radius_top_right"@, "radius_bottom_left"@, "radius_bottom_right"@];
    let t1 = fix_radius(t, keys[0]);
    let t2 = fix_radius(t1, keys[1]);
    let t3 = fix_radius(t2, keys[2]);
    let t4 = fix_radius(t3, keys[3]);
    let t5 = fix_radius(t4, keys[4]);
    assert(t5 == fix_radius(fix_radius(fix_radius(fix_radius(fix_radius(t, "radius"@), "radius_top_left"@), "radius_top_right"@), "radius_bottom_left"@), "radius_bottom_right"@));
    let stages = seq![t, t1, t2, t3, t4];
    if keys[0] != k { lemma_fix_radius_keeps(t, keys[0], k); }
    if keys[1] != k { lemma_fix_radius_keeps(t1, keys[1], k); }
    if keys[2] != k { lemma_fix_radius_keeps(t2, keys[2], k); }
    if keys[3] != k { lemma_fix_radius_keeps(t3, keys[3], k); }
    if keys[4] != k { lemma_fix_radius_keeps(t4, keys[4], k); }
    let idx = if k == keys[0] { 0int } else if k == keys[1] { 1int } else if k == keys[2] { 2int } else if k == keys[3] { 3int } else { 4int };
    assert(keys[idx] == k);
    assert(lookup(stages[idx], k) == lookup(t, k));
    if is_negative_radius(t, k) {
        lemma_insert_lookup(stages[idx], k, TomlData::Integer(radius_magnitude(lookup_integer(t, k).unwrap())), k);
    }
    if has_negative_radius(t) {
        lemma_insert_lookup(t5, "concave_edge_corners"@, TomlData::Boolean(true), k);
        lemma_insert_lookup(t5, "concave_edge_corners"@, TomlData::Boolean(true), "concave_edge_corners"@);
    }
}

/// Every bar and every bar monitor override of a migrated document holds no
/// negative integer under any corner-radius key.
pub proof fn lemma_no_negative_radius_left(root: TableData, i: int, k: Seq<char>)
    requires
        is_radius_key(k),
    ensures
        lookup_table(spec_migrate_negative_bar_radii(root), "bar"@) matches Some(bars) ==> (
            0 <= i < bars.len() ==> (bars[i].1 matches TomlData::Table(bar) ==> {
                &&& !is_negative_radius(bar, k)
                &&& (lookup_table(bar, "monitor"@) matches Some(mons) ==> forall|j: int| 0 <= j < mons.len() ==> (
                    #[trigger] mons[j].1 matches TomlData::Table(mon) ==> !is_negative_radius(mon, k)))
            })),
{
    let r = spec_migrate_negative_bar_radii(root);
    lemma_radii_quiet_after(root);
    if let Some(bars) = lookup_table(r, "bar"@) {
        if 0 <= i < bars.len() {
            if let TomlData::Table(bar) = bars[i].1 {
                lemma_gather_empty(bars, bar_radii_paths_step(), bars.len() as int);
                assert(entry_silent(bars, bar_radii_paths_step(), i));
                let name = bars[i].0;
                assert(bar_radii_paths(name, bar).len() == 0);
                assert(!has_negative_radius(bar));
                lemma_negative_radius_at_some_key(bar);
                lemma_radii_unchanged(bar);
                if let Some(mons) = lookup_table(bar, "monitor"@) {
                    let f = monitor_radii_paths("bar."@ + name);
                    lemma_gather_empty(mons, f, mons.len() as int);
                    assert forall|j: int| 0 <= j < mons.len() implies (#[trigger] mons[j].1 matches TomlData::Table(mon) ==> !is_negative_radius(mon, k)) by {
                        assert(entry_silent(mons, f, j));
                        if let TomlData::Table(mon) = mons[j].1 {
                            lemma_negative_radius_at_some_key(mon);
                        }
                    }
                }
            }
        }
    }
}

/// An entry that gathers `x` puts it in the gathered whole.
proof fn lemma_gather_contains<E>(t: TableData, f: spec_fn(Seq<char>, TableData) -> Seq<E>, n: int, i: int, sub: TableData, x: E)
    requires
        0 <= i < n <= t.len(),
        t[i].1 == TomlData::Table(sub),
        f(t[i].0, sub).contains(x),
    ensures
        gather_subtables(t, f, n).contains(x),
    decreases n,
{
    let g = gather_subtables(t, f, n);
    if i < n - 1 {
        lemma_gather_contains(t, f, n - 1, i, sub, x);
        let prev = gather_subtables(t, f, n - 1);
        let j = choose|j: int| 0 <= j < prev.len() && prev[j] == x;
        assert(g[j] == prev[j]);
    } else {
        let prev = gather_subtables(t, f, n - 1);
        let own = f(t[i].0, sub);
        let j = choose|j: int| 0 <= j < own.len() && own[j] == x;
        assert(g[prev.len() + j] == own[j]);
    }
}

/// A bar that holds a negative integer under a corner-radius key is reported
/// at `bar.<name>`.
pub proof fn lemma_negative_bar_reported(root: TableData, i: int, k: Seq<char>)
    requires
        is_radius_key(k),
    ensures
        lookup_table(root, "bar"@) matches Some(bars) ==> (
            0 <= i < bars.len() ==> (bars[i].1 matches TomlData::Table(bar) ==> (
                is_negative_radius(bar, k) ==> negative_bar_radii_paths(root).contains("bar."@ + bars[i].0)))),
{
    if let Some(bars) = lookup_table(root, "bar"@) {
        if 0 <= i < bars.len() {
            if let TomlData::Table(bar) = bars[i].1 {
                if is_negative_radius(bar, k) {
                    lemma_negative_radius_at_some_key(bar);
                    let ps = bar_radii_paths(bars[i].0, bar);
                    assert(ps[0] == "bar."@ + bars[i].0);
                    assert(ps.contains("bar."@ + bars[i].0));
                    lemma_gather_contains(bars, bar_radii_paths_step(), bars.len() as int, i, bar, "bar."@ + bars[i].0);
                }
            }
        }
    }
}

} // verus!
