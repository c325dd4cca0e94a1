//! Overlaying one configuration table onto another.

use vstd::prelude::*;
use crate::value::{TomlValue, TomlTable, TomlData, TableData, lookup, table_insert, lemma_lookup_at, has_key, keys_distinct, lemma_insert_lookup, lemma_lookup_drop_last_other, first_key_at, lemma_insert_existing};

verus! {

/// `overlay` merged into `base`, entry by entry in `overlay`'s order: where both
/// hold a table under a key the tables merge recursively; otherwise `overlay`'s
/// value replaces `base`'s (arrays are replaced wholesale, never merged).
pub open spec fn spec_deep_merge(base: TableData, overlay: TableData) -> TableData
    decreases overlay,
{
    if overlay.len() == 0 {
        base
    } else {
        let prev = spec_deep_merge(base, overlay.drop_last());
        let k = overlay.last().0;
        let v = overlay.last().1;
        match v {
            TomlData::Table(ov) => match lookup(prev, k) {
                Some(TomlData::Table(bv)) => table_insert(prev, k, TomlData::Table(spec_deep_merge(bv, ov))),
                _ => table_insert(prev, k, v),
            },
            _ => table_insert(prev, k, v),
        }
    }
}

/// Recursively merges `overlay` into `base` in place (see [`spec_deep_merge`]).
pub fn deep_merge(base: &mut TomlTable, overlay: &TomlTable)
    ensures
        final(base)@ == spec_deep_merge(old(base)@, overlay@),
    decreases overlay,
{
    let n = overlay.len();
    let mut i: usize = 0;
    while i < n
        invariant
            n == overlay@.len(),
            0 <= i <= n,
            base@ == spec_deep_merge(old(base)@, overlay@.take(i as int)),
        decreases n - i,
    {
        let ghost prev = base@;
        proof {
            assert(overlay@.take(i + 1).drop_last() =~= overlay@.take(i as int));
            assert(overlay@.take(i + 1).last() == overlay@[i as int]);
        }
        let k = overlay.key_at(i);
        let v = overlay.value_at(i);
        let mut merged_in_place = false;
        if let TomlValue::Table(ov) = v {
            if let Some(p) = base.find(k) {
                proof { lemma_lookup_at(base@, k@, p as int); }
                if base.value_at(p).is_table() {
                    let cur = base.replace_value_at(p, TomlValue::Boolean(false));
                    if let TomlValue::Table(mut bt) = cur {
                        proof {
                            vstd::std_specs::vec::axiom_vec_index_decreases(overlay.entries, i as int);
                            assert(decreases_to!(*overlay => overlay.entries));
                            assert(decreases_to!(overlay.entries => overlay.entries@[i as int]));
                            assert(decreases_to!(overlay.entries@[i as int] => overlay.entries@[i as int].value));
                            assert(decreases_to!(*v => *ov));
                            assert(decreases_to!(*overlay => *ov));
                        }
                        deep_merge(&mut bt, ov);
                        let _ = base.replace_value_at(p, TomlValue::Table(bt));
                        proof {
                            assert(base@ =~= table_insert(prev, k@, TomlData::Table(spec_deep_merge(prev[p as int].1->Table_0, ov@))));
                        }
                        merged_in_place = true;
                    }
                }
            }
        }
        if !merged_in_place {
            let c = v.duplicate();
            base.insert(k.to_owned(), c);
        }
        i += 1;
    }
    proof { assert(overlay@.take(n as int) =~= overlay@); }
}


/// Merging an empty overlay changes nothing.
pub proof fn lemma_merge_empty_overlay(base: TableData)
    ensures
        spec_deep_merge(base, Seq::empty()) == base,
{
}

/// A key that the overlay does not hold reads in the merge as in the base.
pub proof fn lemma_merge_keeps_other_keys(base: TableData, overlay: TableData, k: Seq<char>)
    requires
        !has_key(overlay, k),
    ensures
        lookup(spec_deep_merge(base, overlay), k) == lookup(base, k),
    decreases overlay.len(),
{
    if overlay.len() > 0 {
        let p = overlay.drop_last();
        assert(!has_key(p, k)) by {
            if has_key(p, k) {
                let j = choose|j: int| 0 <= j < p.len() && p[j].0 == k;
                assert(overlay[j].0 == k);
            }
        }
        lemma_merge_keeps_other_keys(base, p, k);
        let prev = spec_deep_merge(base, p);
        let e = overlay.last();
        assert(e.0 != k) by {
            assert(overlay[overlay.len() - 1].0 == e.0);
        }
        match e.1 {
            TomlData::Table(ov) => match lookup(prev, e.0) {
                Some(TomlData::Table(bv)) => lemma_insert_lookup(prev, e.0, TomlData::Table(spec_deep_merge(bv, ov)), k),
                _ => lemma_insert_lookup(prev, e.0, e.1, k),
            },
            _ => lemma_insert_lookup(prev, e.0, e.1, k),
        }
    }
}

/// What a key of the overlay holds after merging over a base value `b`: tables
/// merge recursively; anything else is replaced by the overlay's value `v`.
pub open spec fn merged_value(b: Option<TomlData>, v: TomlData) -> TomlData {
    match v {
        TomlData::Table(ov) => match b {
            Some(TomlData::Table(bv)) => TomlData::Table(spec_deep_merge(bv, ov)),
            _ => v,
        },
        _ => v,
    }
}

/// For an overlay with distinct keys, each of its keys reads in the merge as
/// its value laid over the base's: a table over a table merges recursively,
/// anything else replaces the base's value (arrays wholesale).
pub proof fn lemma_merge_overlay_key(base: TableData, overlay: TableData, k: Seq<char>, v: TomlData)
    requires
        keys_distinct(overlay),
        lookup(overlay, k) == Some(v),
    ensures
        lookup(spec_deep_merge(base, overlay), k) == Some(merged_value(lookup(base, k), v)),
    decreases overlay.len(),
{
    let p = overlay.drop_last();
    let e = overlay.last();
    let prev = spec_deep_merge(base, p);
    assert(keys_distinct(p)) by {
        assert forall|i: int, j: int| 0 <= i < j < p.len() implies p[i].0 != p[j].0 by {
            assert(overlay[i] == p[i] && overlay[j] == p[j]);
        }
    }
    if e.0 == k {
        assert(!has_key(p, k)) by {
            if has_key(p, k) {
                let j = choose|j: int| 0 <= j < p.len() && p[j].0 == k;
                assert(overlay[j].0 == overlay[overlay.len() - 1].0);
            }
        }
        lemma_merge_keeps_other_keys(base, p, k);
        assert(lookup(overlay, k) == Some(e.1)) by {
            crate::value::lemma_lookup_push(p, e, k);
            assert(p.push(e) =~= overlay);
        }
        match e.1 {
            TomlData::Table(ov) => match lookup(prev, e.0) {
                Some(TomlData::Table(bv)) => lemma_insert_lookup(prev, e.0, TomlData::Table(spec_deep_merge(bv, ov)), k),
                _ => lemma_insert_lookup(prev, e.0, e.1, k),
            },
            _ => lemma_insert_lookup(prev, e.0, e.1, k),
        }
    } else {
        lemma_lookup_drop_last_other(overlay, k);
        lemma_merge_overlay_key(base, p, k, v);
        match e.1 {
            TomlData::Table(ov) => match lookup(prev, e.0) {
                Some(TomlData::Table(bv)) => lemma_insert_lookup(prev, e.0, TomlData::Table(spec_deep_merge(bv, ov)), k),
                _ => lemma_insert_lookup(prev, e.0, e.1, k),
            },
            _ => lemma_insert_lookup(prev, e.0, e.1, k),
        }
    }
}

/// No key occurs twice in `t`, nor in any table that `t` holds, at any depth
/// (arrays are not entered). Every table read from a TOML document is so.
pub open spec fn deeply_distinct(t: TableData) -> bool
    decreases t, t.len() + 1,
{
    keys_distinct(t) && subtables_distinct(t, t.len() as int)
}

/// The tables held by the first `n` entries of `t` are [`deeply_distinct`].
pub open spec fn subtables_distinct(t: TableData, n: int) -> bool
    decreases t, n,
{
    if n <= 0 || n > t.len() {
        true
    } else {
        subtables_distinct(t, n - 1) && match t[n - 1].1 {
            TomlData::Table(sub) => {
                proof {
                    assert(decreases_to!(t => t[n - 1]));
                }
                deeply_distinct(sub)
            },
            _ => true,
        }
    }
}

proof fn lemma_subtables_distinct_at(t: TableData, n: int, i: int)
    requires
        subtables_distinct(t, n),
        0 <= i < n <= t.len(),
    ensures
        t[i].1 matches TomlData::Table(sub) ==> deeply_distinct(sub),
    decreases n,
{
    if i < n - 1 {
        lemma_subtables_distinct_at(t, n - 1, i);
    }
}

/// Merging a table with distinct keys into an empty one gives the table itself.
pub proof fn lemma_merge_into_empty(overlay: TableData)
    requires
        keys_distinct(overlay),
    ensures
        spec_deep_merge(Seq::empty(), overlay) == overlay,
    decreases overlay.len(),
{
    if overlay.len() > 0 {
        let p = overlay.drop_last();
        let e = overlay.last();
        assert(keys_distinct(p)) by {
            assert forall|i: int, j: int| 0 <= i < j < p.len() implies p[i].0 != p[j].0 by {
                assert(overlay[i] == p[i] && overlay[j] == p[j]);
            }
        }
        lemma_merge_into_empty(p);
        assert(!has_key(p, e.0)) by {
            if has_key(p, e.0) {
                let j = choose|j: int| 0 <= j < p.len() && p[j].0 == e.0;
                assert(overlay[j].0 == overlay[overlay.len() - 1].0);
            }
        }
        assert(p.push(e) =~= overlay);
    }
}

/// A second deep merge of the same overlay leaves the merged table unchanged:
/// `deep_merge(base, overlay)` twice equals it once, for an overlay whose keys
/// are distinct at every depth (as in any TOML document).
pub proof fn lemma_deep_merge_twice(base: TableData, overlay: TableData)
    requires
        deeply_distinct(overlay),
    ensures
        spec_deep_merge(spec_deep_merge(base, overlay), overlay) == spec_deep_merge(base, overlay),
    decreases overlay, overlay.len() + 1,
{
    lemma_merge_twice_prefix(base, overlay, overlay.len() as int);
    assert(overlay.take(overlay.len() as int) =~= overlay);
}

proof fn lemma_merge_twice_prefix(base: TableData, overlay: TableData, n: int)
    requires
        deeply_distinct(overlay),
        0 <= n <= overlay.len(),
    ensures
        spec_deep_merge(spec_deep_merge(base, overlay), overlay.take(n)) == spec_deep_merge(base, overlay),
    decreases overlay, n,
{
    let m = spec_deep_merge(base, overlay);
    if n == 0 {
        assert(overlay.take(0) =~= Seq::<(Seq<char>, TomlData)>::empty());
    } else {
        lemma_merge_twice_prefix(base, overlay, n - 1);
        let q = overlay.take(n);
        assert(q.drop_last() =~= overlay.take(n - 1));
        assert(q.last() == overlay[n - 1]);
        let k = overlay[n - 1].0;
        let v = overlay[n - 1].1;
        assert(first_key_at(overlay, k, n - 1));
        lemma_lookup_at(overlay, k, n - 1);
        lemma_merge_overlay_key(base, overlay, k, v);
        assert(has_key(m, k));
        lemma_insert_existing(m, k);
        match v {
            TomlData::Table(ov) => {
                lemma_subtables_distinct_at(overlay, overlay.len() as int, n - 1);
                assert(decreases_to!(overlay => overlay[n - 1]));
                match lookup(base, k) {
                    Some(TomlData::Table(bv)) => {
                        lemma_deep_merge_twice(bv, ov);
                    },
                    _ => {
                        lemma_merge_into_empty(ov);
                        lemma_deep_merge_twice(Seq::empty(), ov);
                    },
                }
            },
            _ => {},
        }
    }
}

} // verus!
