//! The in-memory model of a TOML document that the configuration logic works on.
//!
//! Keys of a table are kept in insertion order; a lookup returns the first
//! entry with the key, and the mutating operations never create a second one.

use vstd::prelude::*;
use crate::text::str_equal;

verus! {

broadcast use vstd::std_specs::vec::axiom_vec_decreases_to_view;

/// One TOML value. Floats are carried as their IEEE-754 bit pattern: the
/// configuration logic only moves them around, it never computes with them.
#[derive(Debug)]
pub enum TomlValue {
    String(String),
    Integer(i64),
    Float(u64),
    Boolean(bool),
    /// An offset or local date/time, kept as its TOML text.
    Datetime(String),
    Array(Vec<TomlValue>),
    Table(TomlTable),
}

/// One `key = value` entry of a table.
#[derive(Debug)]
pub struct TomlEntry {
    pub key: String,
    pub value: TomlValue,
}

/// A TOML table: entries in insertion order.
#[derive(Debug)]
pub struct TomlTable {
    pub entries: Vec<TomlEntry>,
}

/// The mathematical content of a [`TomlValue`].
pub enum TomlData {
    String(Seq<char>),
    Integer(i64),
    Float(u64),
    Boolean(bool),
    Datetime(Seq<char>),
    Array(Seq<TomlData>),
    Table(Seq<(Seq<char>, TomlData)>),
}

/// The content of a table: `(key, value)` pairs in order.
pub type TableData = Seq<(Seq<char>, TomlData)>;

pub open spec fn value_data(v: TomlValue) -> TomlData
    decreases v, 0int,
{
    match v {
        TomlValue::String(s) => TomlData::String(s@),
        TomlValue::Integer(i) => TomlData::Integer(i),
        TomlValue::Float(bits) => TomlData::Float(bits),
        TomlValue::Boolean(b) => TomlData::Boolean(b),
        TomlValue::Datetime(s) => TomlData::Datetime(s@),
        TomlValue::Array(items) => TomlData::Array(items_data(items@, items@.len() as int)),
        TomlValue::Table(t) => TomlData::Table(entries_data(t.entries@, t.entries@.len() as int)),
    }
}

pub open spec fn items_data(s: Seq<TomlValue>, n: int) -> Seq<TomlData>
    decreases s, n,
{
    if n <= 0 || n > s.len() {
        Seq::empty()
    } else {
        items_data(s, n - 1).push(value_data(s[n - 1]))
    }
}

pub open spec fn entries_data(s: Seq<TomlEntry>, n: int) -> TableData
    decreases s, n,
{
    if n <= 0 || n > s.len() {
        Seq::empty()
    } else {
        entries_data(s, n - 1).push((s[n - 1].key@, value_data(s[n - 1].value)))
    }
}

impl View for TomlValue {
    type V = TomlData;

    open spec fn view(&self) -> TomlData {
        value_data(*self)
    }
}

impl View for TomlTable {
    type V = TableData;

    open spec fn view(&self) -> TableData {
        entries_data(self.entries@, self.entries@.len() as int)
    }
}

pub proof fn lemma_items_data(s: Seq<TomlValue>, n: int)
    requires
        0 <= n <= s.len(),
    ensures
        items_data(s, n).len() == n,
        forall|i: int| 0 <= i < n ==> #[trigger] items_data(s, n)[i] == value_data(s[i]),
    decreases n,
{
    if n > 0 {
        lemma_items_data(s, n - 1);
    }
}

pub proof fn lemma_entries_data(s: Seq<TomlEntry>, n: int)
    requires
        0 <= n <= s.len(),
    ensures
        entries_data(s, n).len() == n,
        forall|i: int|
            0 <= i < n ==> #[trigger] entries_data(s, n)[i] == (s[i].key@, value_data(s[i].value)),
    decreases n,
{
    if n > 0 {
        lemma_entries_data(s, n - 1);
    }
}

/// `i` is the position of the first entry of `t` whose key is `k`.
pub open spec fn first_key_at(t: TableData, k: Seq<char>, i: int) -> bool {
    &&& 0 <= i < t.len()
    &&& t[i].0 == k
    &&& forall|j: int| 0 <= j < i ==> t[j].0 != k
}

/// `t` has an entry with key `k`.
pub open spec fn has_key(t: TableData, k: Seq<char>) -> bool {
    exists|i: int| 0 <= i < t.len() && t[i].0 == k
}

/// The position of the first entry with key `k` (meaningful when `has_key`).
pub open spec fn key_index(t: TableData, k: Seq<char>) -> int {
    choose|i: int| first_key_at(t, k, i)
}

/// The value stored under `k`, if any.
pub open spec fn lookup(t: TableData, k: Seq<char>) -> Option<TomlData> {
    if has_key(t, k) {
        Some(t[key_index(t, k)].1)
    } else {
        None
    }
}

/// `t` with `k` bound to `v`: the first entry with `k` is replaced in place,
/// or a new entry is appended.
pub open spec fn table_insert(t: TableData, k: Seq<char>, v: TomlData) -> TableData {
    if has_key(t, k) {
        t.update(key_index(t, k), (k, v))
    } else {
        t.push((k, v))
    }
}

/// `t` without any entry whose key is `k`.
pub open spec fn table_remove(t: TableData, k: Seq<char>) -> TableData
    decreases t.len(),
{
    if t.len() == 0 {
        t
    } else {
        let prev = table_remove(t.drop_last(), k);
        if t.last().0 == k {
            prev
        } else {
            prev.push(t.last())
        }
    }
}

/// The keys of `t`, in order.
pub open spec fn table_keys(t: TableData) -> Seq<Seq<char>> {
    t.map_values(|e: (Seq<char>, TomlData)| e.0)
}

/// The nested table under `k`, if `k` holds a table.
pub open spec fn lookup_table(t: TableData, k: Seq<char>) -> Option<TableData> {
    match lookup(t, k) {
        Some(TomlData::Table(sub)) => Some(sub),
        _ => None,
    }
}

/// The string under `k`, if `k` holds a string.
pub open spec fn lookup_str(t: TableData, k: Seq<char>) -> Option<Seq<char>> {
    match lookup(t, k) {
        Some(TomlData::String(s)) => Some(s),
        _ => None,
    }
}

/// The boolean under `k`, if `k` holds a boolean.
pub open spec fn lookup_bool(t: TableData, k: Seq<char>) -> Option<bool> {
    match lookup(t, k) {
        Some(TomlData::Boolean(b)) => Some(b),
        _ => None,
    }
}

/// The integer under `k`, if `k` holds an integer.
pub open spec fn lookup_integer(t: TableData, k: Seq<char>) -> Option<i64> {
    match lookup(t, k) {
        Some(TomlData::Integer(i)) => Some(i),
        _ => None,
    }
}

pub proof fn lemma_first_key_at_unique(t: TableData, k: Seq<char>, i: int, j: int)
    requires
        first_key_at(t, k, i),
        first_key_at(t, k, j),
    ensures
        i == j,
{
}

pub proof fn lemma_lookup_at(t: TableData, k: Seq<char>, i: int)
    requires
        first_key_at(t, k, i),
    ensures
        has_key(t, k),
        key_index(t, k) == i,
        lookup(t, k) == Some(t[i].1),
{
    assert(exists|j: int| first_key_at(t, k, j));
    lemma_first_key_at_unique(t, k, i, key_index(t, k));
}

pub proof fn lemma_has_key_first(t: TableData, k: Seq<char>)
    requires
        has_key(t, k),
    ensures
        first_key_at(t, k, key_index(t, k)),
    decreases t.len(),
{
    let p = t.drop_last();
    if has_key(p, k) {
        lemma_has_key_first(p, k);
        let i = key_index(p, k);
        assert forall|j: int| 0 <= j < i implies t[j].0 != k by {
            assert(p[j] == t[j]);
        }
        assert(first_key_at(t, k, i));
    } else {
        let w = choose|i: int| 0 <= i < t.len() && t[i].0 == k;
        if w < t.len() - 1 {
            assert(p[w].0 == k);
        }
        assert forall|j: int| 0 <= j < t.len() - 1 implies t[j].0 != k by {
            assert(p[j] == t[j]);
        }
        assert(first_key_at(t, k, t.len() - 1));
    }
}

/// No key occurs twice in `t`.
pub open spec fn keys_distinct(t: TableData) -> bool {
    forall|i: int, j: int| 0 <= i < j < t.len() ==> t[i].0 != t[j].0
}

/// Binding a key that is present rewrites its first entry in place.
pub proof fn lemma_insert_at(t: TableData, k: Seq<char>, i: int, v: TomlData)
    requires
        first_key_at(t, k, i),
    ensures
        table_insert(t, k, v) == t.update(i, (k, v)),
{
    lemma_lookup_at(t, k, i);
}

/// `t` with the table under `k` replaced by `f` of it; unchanged when `k` holds no table.
pub open spec fn update_subtable(t: TableData, k: Seq<char>, f: spec_fn(TableData) -> TableData) -> TableData {
    match lookup_table(t, k) {
        Some(sub) => table_insert(t, k, TomlData::Table(f(sub))),
        None => t,
    }
}

/// The value `v` of the entry named `name`, with `f` applied when it is a table.
pub open spec fn map_entry_value(name: Seq<char>, v: TomlData, f: spec_fn(Seq<char>, TableData) -> TableData) -> TomlData {
    match v {
        TomlData::Table(sub) => TomlData::Table(f(name, sub)),
        _ => v,
    }
}

/// `t` with `f` applied to every entry that holds a table, keys and order kept.
pub open spec fn map_subtables(t: TableData, f: spec_fn(Seq<char>, TableData) -> TableData) -> TableData {
    t.map_values(|e: (Seq<char>, TomlData)| (e.0, map_entry_value(e.0, e.1, f)))
}

/// The concatenation, in entry order, of `f` of the first `n` entries that hold a table.
pub open spec fn gather_subtables<E>(t: TableData, f: spec_fn(Seq<char>, TableData) -> Seq<E>, n: int) -> Seq<E>
    decreases n,
{
    if n <= 0 || n > t.len() {
        Seq::empty()
    } else {
        gather_subtables(t, f, n - 1) + match t[n - 1].1 {
            TomlData::Table(sub) => f(t[n - 1].0, sub),
            _ => Seq::empty(),
        }
    }
}

/// [`gather_subtables`] over all entries.
pub open spec fn gather_all<E>(t: TableData, f: spec_fn(Seq<char>, TableData) -> Seq<E>) -> Seq<E> {
    gather_subtables(t, f, t.len() as int)
}

/// Binding a present key to the value it holds changes nothing.
pub proof fn lemma_insert_existing(t: TableData, k: Seq<char>)
    requires
        has_key(t, k),
    ensures
        table_insert(t, k, lookup(t, k).unwrap()) == t,
{
    lemma_has_key_first(t, k);
    let i = key_index(t, k);
    lemma_lookup_at(t, k, i);
    lemma_insert_at(t, k, i, t[i].1);
    assert(t.update(i, (k, t[i].1)) =~= t);
}

/// Updating a sub-table with a function that leaves it as it is changes nothing.
pub proof fn lemma_update_subtable_id(t: TableData, k: Seq<char>, f: spec_fn(TableData) -> TableData)
    requires
        lookup_table(t, k) matches Some(sub) ==> f(sub) == sub,
    ensures
        update_subtable(t, k, f) == t,
{
    if let Some(sub) = lookup_table(t, k) {
        lemma_insert_existing(t, k);
    }
}

/// A key other than the updated one reads as before.
pub proof fn lemma_update_subtable_other(t: TableData, k: Seq<char>, f: spec_fn(TableData) -> TableData, other: Seq<char>)
    requires
        other != k,
    ensures
        lookup(update_subtable(t, k, f), other) == lookup(t, other),
{
    if let Some(sub) = lookup_table(t, k) {
        lemma_insert_lookup(t, k, TomlData::Table(f(sub)), other);
    }
}

/// The updated key holds the updated sub-table.
pub proof fn lemma_update_subtable_same(t: TableData, k: Seq<char>, f: spec_fn(TableData) -> TableData)
    ensures
        lookup_table(update_subtable(t, k, f), k) == match lookup_table(t, k) {
            Some(sub) => Some(f(sub)),
            None => None::<TableData>,
        },
{
    if let Some(sub) = lookup_table(t, k) {
        lemma_insert_lookup(t, k, TomlData::Table(f(sub)), k);
    }
}

/// The entry at `i` holds a table that `f` leaves as it is, or no table.
pub open spec fn entry_fixed(t: TableData, f: spec_fn(Seq<char>, TableData) -> TableData, i: int) -> bool {
    match t[i].1 {
        TomlData::Table(sub) => f(t[i].0, sub) == sub,
        _ => true,
    }
}

/// Mapping sub-tables with a function that leaves each as it is changes nothing.
pub proof fn lemma_map_subtables_id(t: TableData, f: spec_fn(Seq<char>, TableData) -> TableData)
    requires
        forall|i: int| 0 <= i < t.len() ==> #[trigger] entry_fixed(t, f, i),
    ensures
        map_subtables(t, f) == t,
{
    assert forall|i: int| 0 <= i < t.len() implies map_subtables(t, f)[i] == t[i] by {
        assert(entry_fixed(t, f, i));
    }
    assert(map_subtables(t, f) =~= t);
}

/// The entry at `i` holds a table for which `f` gives nothing, or no table.
pub open spec fn entry_silent<E>(t: TableData, f: spec_fn(Seq<char>, TableData) -> Seq<E>, i: int) -> bool {
    match t[i].1 {
        TomlData::Table(sub) => f(t[i].0, sub).len() == 0,
        _ => true,
    }
}

/// Gathering gives nothing exactly when every entry gives nothing.
pub proof fn lemma_gather_empty<E>(t: TableData, f: spec_fn(Seq<char>, TableData) -> Seq<E>, n: int)
    requires
        0 <= n <= t.len(),
    ensures
        (gather_subtables(t, f, n).len() == 0) <==> (forall|i: int| 0 <= i < n ==> #[trigger] entry_silent(t, f, i)),
    decreases n,
{
    if n > 0 {
        lemma_gather_empty(t, f, n - 1);
        if gather_subtables(t, f, n).len() == 0 {
            assert forall|i: int| 0 <= i < n implies #[trigger] entry_silent(t, f, i) by {
                if i < n - 1 {
                    assert(entry_silent(t, f, i));
                }
            }
        }
        if forall|i: int| 0 <= i < n ==> #[trigger] entry_silent(t, f, i) {
            assert(entry_silent(t, f, n - 1));
            assert forall|i: int| 0 <= i < n - 1 implies #[trigger] entry_silent(t, f, i) by {
                assert(entry_silent(t, f, i));
            }
        }
    }
}

/// When `f` of every sub-table gives a sub-table for which `g` gives nothing,
/// gathering `g` over the mapped table gives nothing.
pub proof fn lemma_gather_after_map<E>(
    t: TableData,
    f: spec_fn(Seq<char>, TableData) -> TableData,
    g: spec_fn(Seq<char>, TableData) -> Seq<E>,
)
    requires
        forall|name: Seq<char>, sub: TableData| g(name, #[trigger] f(name, sub)).len() == 0,
    ensures
        gather_all(map_subtables(t, f), g).len() == 0,
{
    let m = map_subtables(t, f);
    assert forall|i: int| 0 <= i < m.len() implies #[trigger] entry_silent(m, g, i) by {
        if let TomlData::Table(sub) = t[i].1 {
            assert(m[i].1 == TomlData::Table(f(t[i].0, sub)));
        }
    }
    lemma_gather_empty(m, g, m.len() as int);
}

/// When `f` keeps every sub-table for which `g` gives nothing so, and `g`
/// gives nothing over `t`, it gives nothing over the mapped table either.
pub proof fn lemma_gather_map_kept<E>(
    t: TableData,
    f: spec_fn(Seq<char>, TableData) -> TableData,
    g: spec_fn(Seq<char>, TableData) -> Seq<E>,
)
    requires
        gather_all(t, g).len() == 0,
        forall|name: Seq<char>, sub: TableData| g(name, sub).len() == 0 ==> g(name, #[trigger] f(name, sub)).len() == 0,
    ensures
        gather_all(map_subtables(t, f), g).len() == 0,
{
    let m = map_subtables(t, f);
    lemma_gather_empty(t, g, t.len() as int);
    assert forall|i: int| 0 <= i < m.len() implies #[trigger] entry_silent(m, g, i) by {
        assert(entry_silent(t, g, i));
        if let TomlData::Table(sub) = t[i].1 {
            assert(m[i].1 == TomlData::Table(f(t[i].0, sub)));
        }
    }
    lemma_gather_empty(m, g, m.len() as int);
}

/// When `f` leaves every sub-table for which `g` gives nothing as it is, and
/// `g` gives nothing over `t`, mapping `t` by `f` changes nothing.
pub proof fn lemma_map_silent_fixed<E>(
    t: TableData,
    f: spec_fn(Seq<char>, TableData) -> TableData,
    g: spec_fn(Seq<char>, TableData) -> Seq<E>,
)
    requires
        gather_all(t, g).len() == 0,
        forall|name: Seq<char>, sub: TableData| g(name, sub).len() == 0 ==> #[trigger] f(name, sub) == sub,
    ensures
        map_subtables(t, f) == t,
{
    lemma_gather_empty(t, g, t.len() as int);
    assert forall|i: int| 0 <= i < t.len() implies #[trigger] entry_fixed(t, f, i) by {
        assert(entry_silent(t, g, i));
    }
    lemma_map_subtables_id(t, f);
}

/// Removing a key that is absent changes nothing.
pub proof fn lemma_remove_absent(t: TableData, k: Seq<char>)
    requires
        !has_key(t, k),
    ensures
        table_remove(t, k) == t,
    decreases t.len(),
{
    if t.len() > 0 {
        assert(!has_key(t.drop_last(), k)) by {
            if has_key(t.drop_last(), k) {
                let j = choose|j: int| 0 <= j < t.drop_last().len() && t.drop_last()[j].0 == k;
                assert(t[j].0 == k);
            }
        }
        lemma_remove_absent(t.drop_last(), k);
        assert(t.last().0 != k) by {
            if t.last().0 == k {
                assert(t[t.len() - 1].0 == k);
            }
        }
        assert(t.drop_last().push(t.last()) =~= t);
    }
}

/// Reading back a key just bound gives the bound value; other keys are unaffected.
pub proof fn lemma_insert_lookup(t: TableData, k: Seq<char>, v: TomlData, other: Seq<char>)
    ensures
        lookup(table_insert(t, k, v), k) == Some(v),
        other != k ==> lookup(table_insert(t, k, v), other) == lookup(t, other),
        has_key(t, k) ==> table_insert(t, k, v).len() == t.len(),
        !has_key(t, k) ==> table_insert(t, k, v).len() == t.len() + 1,
{
    let r = table_insert(t, k, v);
    if has_key(t, k) {
        lemma_has_key_first(t, k);
        let i = key_index(t, k);
        assert(first_key_at(r, k, i));
        lemma_lookup_at(r, k, i);
        if other != k {
            if has_key(t, other) {
                lemma_has_key_first(t, other);
                let j = key_index(t, other);
                assert(first_key_at(r, other, j));
                lemma_lookup_at(r, other, j);
            } else {
                assert(!has_key(r, other)) by {
                    if has_key(r, other) {
                        let j = choose|j: int| 0 <= j < r.len() && r[j].0 == other;
                        assert(t[j].0 == other);
                    }
                }
            }
        }
    } else {
        assert(first_key_at(r, k, t.len() as int));
        lemma_lookup_at(r, k, t.len() as int);
        if other != k {
            if has_key(t, other) {
                lemma_has_key_first(t, other);
                let j = key_index(t, other);
                assert(first_key_at(r, other, j));
                lemma_lookup_at(r, other, j);
            } else {
                assert(!has_key(r, other)) by {
                    if has_key(r, other) {
                        let j = choose|j: int| 0 <= j < r.len() && r[j].0 == other;
                        assert(t[j].0 == other);
                    }
                }
            }
        }
    }
}

/// After removing `k` there is no entry with `k`, and other keys read as before.
pub proof fn lemma_remove_lookup(t: TableData, k: Seq<char>, other: Seq<char>)
    ensures
        !has_key(table_remove(t, k), k),
        lookup(table_remove(t, k), k) == None::<TomlData>,
        other != k ==> lookup(table_remove(t, k), other) == lookup(t, other),
    decreases t.len(),
{
    if t.len() > 0 {
        let p = t.drop_last();
        lemma_remove_lookup(p, k, other);
        let rp = table_remove(p, k);
        let r = table_remove(t, k);
        if t.last().0 == k {
            if other != k {
                lemma_lookup_drop_last_other(t, other);
            }
        } else {
            assert(!has_key(r, k)) by {
                if has_key(r, k) {
                    let j = choose|j: int| 0 <= j < r.len() && r[j].0 == k;
                    if j < rp.len() {
                        assert(rp[j].0 == k);
                    }
                }
            }
            if other != k {
                lemma_lookup_push(rp, t.last(), other);
                lemma_lookup_push(p, t.last(), other);
                assert(t =~= p.push(t.last()));
            }
        }
    }
}

pub proof fn lemma_lookup_push(t: TableData, e: (Seq<char>, TomlData), k: Seq<char>)
    ensures
        lookup(t.push(e), k) == if has_key(t, k) {
            lookup(t, k)
        } else if e.0 == k {
            Some(e.1)
        } else {
            None
        },
{
    let r = t.push(e);
    if has_key(t, k) {
        lemma_has_key_first(t, k);
        let i = key_index(t, k);
        assert(first_key_at(r, k, i));
        lemma_lookup_at(r, k, i);
    } else if e.0 == k {
        assert(first_key_at(r, k, t.len() as int));
        lemma_lookup_at(r, k, t.len() as int);
    } else {
        assert(!has_key(r, k)) by {
            if has_key(r, k) {
                let j = choose|j: int| 0 <= j < r.len() && r[j].0 == k;
                assert(t[j].0 == k);
            }
        }
    }
}

pub proof fn lemma_lookup_drop_last_other(t: TableData, k: Seq<char>)
    requires
        t.len() > 0,
        t.last().0 != k,
    ensures
        lookup(t.drop_last(), k) == lookup(t, k),
{
    lemma_lookup_push(t.drop_last(), t.last(), k);
    assert(t =~= t.drop_last().push(t.last()));
}

impl TomlValue {
    /// The string held, if this is a string.
    pub fn as_str(&self) -> (r: Option<&str>)
        ensures
            match self@ {
                TomlData::String(s) => r is Some && r.unwrap()@ == s,
                _ => r is None,
            },
    {
        match self {
            TomlValue::String(s) => Some(s.as_str()),
            _ => None,
        }
    }

    /// The boolean held, if this is a boolean.
    pub fn as_bool(&self) -> (r: Option<bool>)
        ensures
            match self@ {
                TomlData::Boolean(b) => r == Some(b),
                _ => r is None,
            },
    {
        match self {
            TomlValue::Boolean(b) => Some(*b),
            _ => None,
        }
    }

    /// The integer held, if this is an integer.
    pub fn as_integer(&self) -> (r: Option<i64>)
        ensures
            match self@ {
                TomlData::Integer(i) => r == Some(i),
                _ => r is None,
            },
    {
        match self {
            TomlValue::Integer(i) => Some(*i),
            _ => None,
        }
    }

    /// The table held, if this is a table.
    pub fn as_table(&self) -> (r: Option<&TomlTable>)
        ensures
            match self@ {
                TomlData::Table(t) => r is Some && r.unwrap()@ == t,
                _ => r is None,
            },
    {
        match self {
            TomlValue::Table(t) => Some(t),
            _ => None,
        }
    }

    /// Whether this is a table.
    pub fn is_table(&self) -> (r: bool)
        ensures
            r == (self@ is Table),
    {
        match self {
            TomlValue::Table(_) => true,
            _ => false,
        }
    }

    /// A deep copy.
    pub fn duplicate(&self) -> (r: TomlValue)
        ensures
            r@ == self@,
        decreases self,
    {
        match self {
            TomlValue::String(s) => TomlValue::String(s.clone()),
            TomlValue::Integer(i) => TomlValue::Integer(*i),
            TomlValue::Float(bits) => TomlValue::Float(*bits),
            TomlValue::Boolean(b) => TomlValue::Boolean(*b),
            TomlValue::Datetime(s) => TomlValue::Datetime(s.clone()),
            TomlValue::Array(items) => TomlValue::Array(duplicate_items(items)),
            TomlValue::Table(t) => {
                TomlValue::Table(t.duplicate())
            },
        }
    }
}

fn duplicate_items(items: &Vec<TomlValue>) -> (out: Vec<TomlValue>)
    ensures
        items_data(out@, out@.len() as int) == items_data(items@, items@.len() as int),
    decreases items,
{
    let mut out: Vec<TomlValue> = Vec::new();
    let mut i: usize = 0;
    while i < items.len()
        invariant
            0 <= i <= items.len(),
            out@.len() == i,
            forall|j: int| 0 <= j < i ==> #[trigger] value_data(out@[j]) == value_data(items@[j]),
        decreases items.len() - i,
    {
        proof { vstd::std_specs::vec::axiom_vec_index_decreases(*items, i as int); }
        let c = items[i].duplicate();
        out.push(c);
        i += 1;
    }
    proof {
        lemma_items_data(out@, out@.len() as int);
        lemma_items_data(items@, items@.len() as int);
        assert(items_data(out@, out@.len() as int) =~= items_data(items@, items@.len() as int));
    }
    out
}

impl TomlTable {
    /// An empty table.
    pub fn new() -> (t: TomlTable)
        ensures
            t@ == TableData::empty(),
    {
        let t = TomlTable { entries: Vec::new() };
        assert(t@ =~= TableData::empty());
        t
    }

    /// A deep copy.
    pub fn duplicate(&self) -> (r: TomlTable)
        ensures
            r@ == self@,
        decreases self,
    {
        let mut out: Vec<TomlEntry> = Vec::new();
        let mut i: usize = 0;
        while i < self.entries.len()
            invariant
                0 <= i <= self.entries.len(),
                out@.len() == i,
                forall|j: int|
                    0 <= j < i ==> (#[trigger] out@[j]).key@ == self.entries@[j].key@
                        && value_data(out@[j].value) == value_data(self.entries@[j].value),
            decreases self.entries.len() - i,
        {
            let e = &self.entries[i];
            proof { vstd::std_specs::vec::axiom_vec_index_decreases(self.entries, i as int); }
            let v = e.value.duplicate();
            out.push(TomlEntry { key: e.key.clone(), value: v });
            i += 1;
        }
        let r = TomlTable { entries: out };
        proof {
            lemma_entries_data(out@, out@.len() as int);
            lemma_entries_data(self.entries@, self.entries@.len() as int);
            assert(r@ =~= self@);
        }
        r
    }

    /// Number of entries.
    pub fn len(&self) -> (n: usize)
        ensures
            n == self@.len(),
    {
        proof { lemma_entries_data(self.entries@, self.entries@.len() as int); }
        self.entries.len()
    }

    /// Whether the table has no entry.
    pub fn is_empty(&self) -> (b: bool)
        ensures
            b == (self@.len() == 0),
    {
        self.len() == 0
    }

    /// Position of the first entry with `key`.
    pub fn find(&self, key: &str) -> (r: Option<usize>)
        ensures
            match r {
                Some(i) => first_key_at(self@, key@, i as int),
                None => !has_key(self@, key@),
            },
    {
        proof { lemma_entries_data(self.entries@, self.entries@.len() as int); }
        let mut i: usize = 0;
        while i < self.entries.len()
            invariant
                0 <= i <= self.entries.len(),
                self@.len() == self.entries.len(),
                forall|j: int| 0 <= j < i ==> self@[j].0 != key@,
            decreases self.entries.len() - i,
        {
            proof { lemma_entries_data(self.entries@, self.entries@.len() as int); }
            if str_equal(self.entries[i].key.as_str(), key) {
                return Some(i);
            }
            i += 1;
        }
        None
    }

    /// The value under `key`.
    pub fn get(&self, key: &str) -> (r: Option<&TomlValue>)
        ensures
            match r {
                Some(v) => lookup(self@, key@) == Some(v@),
                None => lookup(self@, key@) is None,
            },
    {
        proof { lemma_entries_data(self.entries@, self.entries@.len() as int); }
        match self.find(key) {
            Some(i) => {
                proof { lemma_lookup_at(self@, key@, i as int); }
                Some(&self.entries[i].value)
            },
            None => None,
        }
    }

    /// Whether `key` has an entry.
    pub fn contains_key(&self, key: &str) -> (b: bool)
        ensures
            b == has_key(self@, key@),
    {
        self.find(key).is_some()
    }

    /// The key of the entry at position `i`.
    pub fn key_at(&self, i: usize) -> (k: &str)
        requires
            i < self@.len(),
        ensures
            k@ == self@[i as int].0,
    {
        proof { lemma_entries_data(self.entries@, self.entries@.len() as int); }
        self.entries[i].key.as_str()
    }

    /// The value of the entry at position `i`.
    pub fn value_at(&self, i: usize) -> (v: &TomlValue)
        requires
            i < self@.len(),
        ensures
            v@ == self@[i as int].1,
            i < self.entries@.len(),
            *v == self.entries@[i as int].value,
    {
        proof { lemma_entries_data(self.entries@, self.entries@.len() as int); }
        &self.entries[i].value
    }

    /// The keys, in order.
    pub fn keys(&self) -> (ks: Vec<String>)
        ensures
            ks@.map_values(|s: String| s@) == table_keys(self@),
    {
        proof { lemma_entries_data(self.entries@, self.entries@.len() as int); }
        let mut ks: Vec<String> = Vec::new();
        let mut i: usize = 0;
        while i < self.entries.len()
            invariant
                0 <= i <= self.entries.len(),
                self@.len() == self.entries.len(),
                ks@.len() == i,
                forall|j: int| 0 <= j < i ==> (#[trigger] ks@[j])@ == self@[j].0,
            decreases self.entries.len() - i,
        {
            proof { lemma_entries_data(self.entries@, self.entries@.len() as int); }
            ks.push(self.entries[i].key.clone());
            i += 1;
        }
        assert(ks@.map_values(|s: String| s@) =~= table_keys(self@));
        ks
    }

    /// Swaps the value at position `i` for `v`; returns the value it held.
    pub fn replace_value_at(&mut self, i: usize, v: TomlValue) -> (r: TomlValue)
        requires
            i < old(self)@.len(),
        ensures
            final(self)@ == old(self)@.update(i as int, (old(self)@[i as int].0, v@)),
            r@ == old(self)@[i as int].1,
    {
        proof { lemma_entries_data(self.entries@, self.entries@.len() as int); }
        let ghost before = self.entries@;
        let ghost vv = v@;
        let e = self.entries.remove(i);
        self.entries.insert(i, TomlEntry { key: e.key, value: v });
        proof {
            lemma_entries_data(self.entries@, self.entries@.len() as int);
            assert forall|m: int| 0 <= m < self.entries@.len() && m != i implies self.entries@[m] == before[m] by {}
            assert(self@ =~= old(self)@.update(i as int, (old(self)@[i as int].0, vv)));
        }
        e.value
    }

    /// Detaches the table under `key`, leaving a placeholder in its entry, and
    /// returns the entry's position with the table; `None` when `key` holds no table.
    pub fn take_table(&mut self, key: &str) -> (r: Option<(usize, TomlTable)>)
        ensures
            match r {
                Some((i, sub)) => {
                    &&& first_key_at(old(self)@, key@, i as int)
                    &&& lookup_table(old(self)@, key@) == Some(sub@)
                    &&& final(self)@ == old(self)@.update(i as int, (key@, TomlData::Boolean(false)))
                },
                None => {
                    &&& lookup_table(old(self)@, key@) is None
                    &&& final(self)@ == old(self)@
                },
            },
    {
        match self.find(key) {
            None => None,
            Some(i) => {
                proof { lemma_lookup_at(self@, key@, i as int); }
                let v = self.replace_value_at(i, TomlValue::Boolean(false));
                match v {
                    TomlValue::Table(sub) => Some((i, sub)),
                    other => {
                        self.replace_value_at(i, other);
                        assert(self@ =~= old(self)@);
                        None
                    },
                }
            },
        }
    }

    /// Puts the table back at position `i` after [`Self::take_table`] returned it.
    pub fn restore_table(&mut self, i: usize, sub: TomlTable)
        requires
            i < old(self)@.len(),
        ensures
            final(self)@ == old(self)@.update(i as int, (old(self)@[i as int].0, TomlData::Table(sub@))),
    {
        self.replace_value_at(i, TomlValue::Table(sub));
    }

    /// Binds `key` to `value`: replaces the first entry with `key` in place, or appends one.
    pub fn insert(&mut self, key: String, value: TomlValue)
        ensures
            final(self)@ == table_insert(old(self)@, key@, value@),
    {
        proof { lemma_entries_data(self.entries@, self.entries@.len() as int); }
        let ghost kv = key@;
        let ghost vv = value@;
        match self.find(key.as_str()) {
            Some(i) => {
                proof { lemma_lookup_at(self@, kv, i as int); }
                self.entries.set(i, TomlEntry { key, value });
                proof {
                    lemma_entries_data(self.entries@, self.entries@.len() as int);
                    assert(self@ =~= old(self)@.update(i as int, (kv, vv)));
                }
            },
            None => {
                self.entries.push(TomlEntry { key, value });
                proof {
                    lemma_entries_data(self.entries@, self.entries@.len() as int);
                    assert(self@ =~= old(self)@.push((kv, vv)));
                }
            },
        }
    }

    /// Removes every entry with `key`; returns the value of the first one.
    pub fn remove(&mut self, key: &str) -> (r: Option<TomlValue>)
        ensures
            final(self)@ == table_remove(old(self)@, key@),
            match r {
                Some(v) => lookup(old(self)@, key@) == Some(v@),
                None => lookup(old(self)@, key@) is None,
            },
    {
        proof { lemma_entries_data(self.entries@, self.entries@.len() as int); }
        let ghost t0 = self@;
        let mut found: Option<TomlValue> = None;
        let mut i: usize = 0;
        let ghost mut j: int = 0;
        while i < self.entries.len()
            invariant
                0 <= j <= t0.len(),
                0 <= i <= self.entries.len(),
                self@ == table_remove(t0.take(j), key@) + t0.skip(j),
                i == table_remove(t0.take(j), key@).len(),
                self.entries.len() == i + (t0.len() - j),
                match found {
                    Some(v) => lookup(t0.take(j), key@) == Some(v@),
                    None => lookup(t0.take(j), key@) is None,
                },
            decreases self.entries.len() - i,
        {
            proof {
                lemma_entries_data(self.entries@, self.entries@.len() as int);
                assert(t0.take(j + 1).drop_last() =~= t0.take(j));
                assert(self@[i as int] == t0[j]);
                lemma_lookup_push(t0.take(j), t0[j], key@);
                assert(t0.take(j + 1) =~= t0.take(j).push(t0[j]));
            }
            if str_equal(self.entries[i].key.as_str(), key) {
                let ghost before = self.entries@;
                let ghost sv = self@;
                let e = self.entries.remove(i);
                if found.is_none() {
                    found = Some(e.value);
                }
                proof {
                    let jo = j;
                    let tr = table_remove(t0.take(jo), key@);
                    assert(t0[jo].0 == key@);
                    assert(t0.take(jo + 1).last() == t0[jo]);
                    assert(table_remove(t0.take(jo + 1), key@) == tr);
                    lemma_entries_data(self.entries@, self.entries@.len() as int);
                    lemma_entries_data(before, before.len() as int);
                    assert(sv == tr + t0.skip(jo));
                    assert forall|m: int| 0 <= m < self@.len() implies self@[m] == (tr + t0.skip(jo + 1))[m] by {
                        if m < i {
                            assert(self.entries@[m] == before[m]);
                            assert(sv[m] == tr[m]);
                        } else {
                            assert(self.entries@[m] == before[m + 1]);
                            assert(sv[m + 1] == t0.skip(jo)[m + 1 - i]);
                        }
                    }
                    j = jo + 1;
                    assert(self@ =~= table_remove(t0.take(j), key@) + t0.skip(j));
                }
            } else {
                i += 1;
                proof {
                    let jo = j;
                    let tr = table_remove(t0.take(jo), key@);
                    assert(t0[jo].0 != key@);
                    assert(t0.take(jo + 1).last() == t0[jo]);
                    assert(table_remove(t0.take(jo + 1), key@) == tr.push(t0[jo]));
                    assert(t0.skip(jo) =~= seq![t0[jo]] + t0.skip(jo + 1));
                    assert(self@ == tr + t0.skip(jo));
                    assert(tr + t0.skip(jo) =~= tr.push(t0[jo]) + t0.skip(jo + 1));
                    j = jo + 1;
                    assert(self@ == table_remove(t0.take(j), key@) + t0.skip(j));
                }
            }
        }
        proof {
            assert(t0.take(j) =~= t0);
            assert(self@ =~= table_remove(t0, key@));
        }
        found
    }
}

} // verus!
