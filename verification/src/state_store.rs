//! The owner-scoped persistent key-value state: identifier rules and the
//! table operations behind reads and writes. Reading and writing the file is
//! the caller's business: a write reports whether the file must be rewritten.

use vstd::prelude::*;
use vstd::string::StringSliceAdditionalSpecFns;
use crate::value::{TomlTable, TomlValue, TomlData, TableData, lookup, lookup_table, table_insert, table_remove, has_key, lemma_lookup_at, lemma_insert_at, lemma_insert_lookup, lemma_remove_lookup};
use crate::text::str_equal;
use crate::toml_text::{parse_toml_table, toml_parse, toml_parse_error};

verus! {

/// A byte allowed in state owners and keys: `a-z`, `0-9` or `_`.
pub open spec fn is_state_identifier_byte(b: u8) -> bool {
    (0x61 <= b && b <= 0x7A) || (0x30 <= b && b <= 0x39) || b == 0x5F
}

/// A non-empty string of lower-case ASCII letters, digits and underscores.
pub open spec fn spec_valid_state_identifier(bytes: Seq<u8>) -> bool {
    bytes.len() > 0 && forall|i: int| 0 <= i < bytes.len() ==> is_state_identifier_byte(#[trigger] bytes[i])
}

/// Whether `value` may name a state owner or key.
pub fn valid_state_identifier(value: &str) -> (r: bool)
    ensures
        r == spec_valid_state_identifier(value.spec_bytes()),
{
    let bytes = value.as_bytes();
    if bytes.len() == 0 {
        return false;
    }
    let mut i: usize = 0;
    while i < bytes.len()
        invariant
            bytes@ == value.spec_bytes(),
            bytes@.len() == bytes.len(),
            0 <= i <= bytes.len(),
            forall|k: int| 0 <= k < i ==> is_state_identifier_byte(#[trigger] bytes@[k]),
        decreases bytes.len() - i,
    {
        let b = bytes[i];
        if !((0x61 <= b && b <= 0x7A) || (0x30 <= b && b <= 0x39) || b == 0x5F) {
            return false;
        }
        i += 1;
    }
    true
}

/// What reading the state file produced, as the library needs it.
#[derive(Debug)]
pub enum StateLoad {
    /// No path is set, or no file exists at it.
    NoFile,
    /// The file was read and parsed.
    Parsed(TomlTable),
    /// The file was read but is not valid TOML; the message says why.
    ParseFailed(String),
    /// The file exists but could not be read.
    ReadFailed,
}

/// The outcome of a write request.
#[derive(Debug, Clone, Copy, PartialEq, Eq, Structural)]
pub enum StateUpdate {
    /// No path is set, or an owner or key is not a valid identifier; nothing changed.
    Rejected,
    /// The state already held the value; nothing changed and nothing needs writing.
    Unchanged,
    /// The state changed and the file must be rewritten.
    Changed,
}

/// Owner-scoped persistent state: a table of owner tables of values.
#[derive(Debug)]
pub struct StateStore {
    path: String,
    state: TomlTable,
    parse_error: String,
}

/// The mathematical content of a [`StateStore`].
pub struct StateStoreView {
    pub path: Seq<char>,
    pub state: TableData,
    pub parse_error: Seq<char>,
}

impl View for StateStore {
    type V = StateStoreView;

    closed spec fn view(&self) -> StateStoreView {
        StateStoreView { path: self.path@, state: self.state@, parse_error: self.parse_error@ }
    }
}

/// Both names are valid state identifiers.
pub open spec fn valid_names(owner: &str, key: &str) -> bool {
    spec_valid_state_identifier(owner.spec_bytes()) && spec_valid_state_identifier(key.spec_bytes())
}

/// The value stored for `owner.key`, if `owner` holds a table.
pub open spec fn state_value(state: TableData, owner: Seq<char>, key: Seq<char>) -> Option<TomlData> {
    match lookup_table(state, owner) {
        Some(t) => lookup(t, key),
        None => None,
    }
}

/// The table of `owner`; empty when `owner` holds none.
pub open spec fn owner_table(state: TableData, owner: Seq<char>) -> TableData {
    match lookup_table(state, owner) {
        Some(t) => t,
        None => Seq::empty(),
    }
}

/// `state` already holds `v` for `owner.key`.
pub open spec fn holds_value(state: TableData, owner: Seq<char>, key: Seq<char>, v: TomlData) -> bool {
    state_value(state, owner, key) == Some(v)
}

/// `state` with `owner.key` bound to `v`; a non-table owner entry is replaced
/// by a table. Unchanged when it already holds `v`.
pub open spec fn spec_set_value(state: TableData, owner: Seq<char>, key: Seq<char>, v: TomlData) -> TableData {
    if holds_value(state, owner, key, v) {
        state
    } else {
        table_insert(state, owner, TomlData::Table(table_insert(owner_table(state, owner), key, v)))
    }
}

impl StateStore {
    /// A store for the file at `path`, with empty state.
    pub fn new(path: String) -> (s: StateStore)
        ensures
            s@.path == path@,
            s@.state == TableData::empty(),
            s@.parse_error == Seq::<char>::empty(),
    {
        StateStore { path, state: TomlTable::new(), parse_error: String::new() }
    }

    /// Points the store at another file; the state is kept.
    pub fn set_path(&mut self, path: String)
        ensures
            final(self)@.path == path@,
            final(self)@.state == old(self)@.state,
            final(self)@.parse_error == old(self)@.parse_error,
    {
        self.path = path;
    }

    /// The file the store reads and writes.
    pub fn path(&self) -> (p: &str)
        ensures
            p@ == self@.path,
    {
        self.path.as_str()
    }

    /// Why the last load could not parse the file; empty when it could.
    pub fn parse_error(&self) -> (e: &str)
        ensures
            e@ == self@.parse_error,
    {
        self.parse_error.as_str()
    }

    /// Takes in what reading the file gave: the parsed table becomes the
    /// state; otherwise the state is empty. A parse failure is remembered.
    pub fn finish_load(&mut self, outcome: StateLoad)
        ensures
            final(self)@.path == old(self)@.path,
            final(self)@.state == match outcome {
                StateLoad::Parsed(t) => t@,
                _ => TableData::empty(),
            },
            final(self)@.parse_error == match outcome {
                StateLoad::ParseFailed(m) => m@,
                _ => Seq::<char>::empty(),
            },
    {
        match outcome {
            StateLoad::Parsed(t) => {
                self.state = t;
                self.parse_error = String::new();
            },
            StateLoad::ParseFailed(m) => {
                self.state = TomlTable::new();
                self.parse_error = m;
            },
            _ => {
                self.state = TomlTable::new();
                self.parse_error = String::new();
            },
        }
    }

    /// Takes in the text read from the state file named `file_name`: when it is
    /// valid TOML its table becomes the state and no parse error is kept;
    /// otherwise the state is empty and the parse error is
    /// `<file_name>: <why>`.
    pub fn load_text(&mut self, content: &str, file_name: &str)
        ensures
            final(self)@.path == old(self)@.path,
            final(self)@.state == match toml_parse(content@) {
                Some(t) => t,
                None => TableData::empty(),
            },
            final(self)@.parse_error == match toml_parse(content@) {
                Some(_) => Seq::<char>::empty(),
                None => file_name@ + ": "@ + toml_parse_error(content@),
            },
    {
        match parse_toml_table(content) {
            Ok(t) => self.finish_load(StateLoad::Parsed(t)),
            Err(why) => {
                let head = crate::text::concat(file_name, ": ");
                let message = crate::text::concat(head.as_str(), why.as_str());
                self.finish_load(StateLoad::ParseFailed(message));
            },
        }
    }

    /// The boolean stored for `owner.key`: `None` when a name is invalid, the
    /// owner holds no table, or the value is missing or not a boolean.
    pub fn bool_value(&self, owner: &str, key: &str) -> (r: Option<bool>)
        ensures
            r == if valid_names(owner, key) {
                match state_value(self@.state, owner@, key@) {
                    Some(TomlData::Boolean(b)) => Some(b),
                    _ => None,
                }
            } else {
                None
            },
    {
        if !valid_state_identifier(owner) || !valid_state_identifier(key) {
            return None;
        }
        match self.state.get(owner) {
            Some(TomlValue::Table(t)) => match t.get(key) {
                Some(v) => v.as_bool(),
                None => None,
            },
            _ => None,
        }
    }

    /// The string stored for `owner.key`: `None` when a name is invalid, the
    /// owner holds no table, or the value is missing or not a string.
    pub fn string_value(&self, owner: &str, key: &str) -> (r: Option<String>)
        ensures
            match r {
                Some(s) => valid_names(owner, key) && state_value(self@.state, owner@, key@) == Some(TomlData::String(s@)),
                None => !valid_names(owner, key) || !(state_value(self@.state, owner@, key@) matches Some(TomlData::String(_))),
            },
    {
        if !valid_state_identifier(owner) || !valid_state_identifier(key) {
            return None;
        }
        match self.state.get(owner) {
            Some(TomlValue::Table(t)) => match t.get(key) {
                Some(v) => match v.as_str() {
                    Some(s) => Some(s.to_owned()),
                    None => None,
                },
                None => None,
            },
            _ => None,
        }
    }

    fn set_value(&mut self, owner: &str, key: &str, v: TomlValue, same: bool) -> (r: StateUpdate)
        requires
            same == holds_value(old(self)@.state, owner@, key@, v@),
        ensures
            final(self)@.path == old(self)@.path,
            final(self)@.parse_error == old(self)@.parse_error,
            final(self)@.state == spec_set_value(old(self)@.state, owner@, key@, v@),
            r == if same { StateUpdate::Unchanged } else { StateUpdate::Changed },
    {
        let ghost s0 = self.state@;
        let ghost vv = v@;
        match self.state.take_table(owner) {
            Some((oi, mut t)) => {
                proof { lemma_lookup_at(s0, owner@, oi as int); }
                if same {
                    self.state.restore_table(oi, t);
                    assert(self.state@ =~= s0);
                    return StateUpdate::Unchanged;
                }
                let ghost t0 = t@;
                t.insert(key.to_owned(), v);
                self.state.restore_table(oi, t);
                proof { lemma_insert_at(s0, owner@, oi as int, TomlData::Table(table_insert(t0, key@, vv))); }
                StateUpdate::Changed
            },
            None => {
                let mut t = TomlTable::new();
                t.insert(key.to_owned(), v);
                self.state.insert(owner.to_owned(), TomlValue::Table(t));
                StateUpdate::Changed
            },
        }
    }

    /// Binds `owner.key` to the boolean `value`. `Rejected` when no path is set
    /// or a name is invalid; `Unchanged` when the value is already stored;
    /// otherwise the state changes (a non-table owner entry is replaced by a
    /// table) and the file must be rewritten.
    pub fn set_bool(&mut self, owner: &str, key: &str, value: bool) -> (r: StateUpdate)
        ensures
            final(self)@.path == old(self)@.path,
            final(self)@.parse_error == old(self)@.parse_error,
            (old(self)@.path.len() == 0 || !valid_names(owner, key)) ==> r == StateUpdate::Rejected && final(self)@.state == old(self)@.state,
            (old(self)@.path.len() > 0 && valid_names(owner, key)) ==> {
                &&& final(self)@.state == spec_set_value(old(self)@.state, owner@, key@, TomlData::Boolean(value))
                &&& r == if holds_value(old(self)@.state, owner@, key@, TomlData::Boolean(value)) { StateUpdate::Unchanged } else { StateUpdate::Changed }
            },
    {
        if self.path.as_str().is_empty() || !valid_state_identifier(owner) || !valid_state_identifier(key) {
            return StateUpdate::Rejected;
        }
        let same = match self.state.get(owner) {
            Some(TomlValue::Table(t)) => match t.get(key) {
                Some(TomlValue::Boolean(b)) => *b == value,
                _ => false,
            },
            _ => false,
        };
        self.set_value(owner, key, TomlValue::Boolean(value), same)
    }

    /// Binds `owner.key` to the string `value`, like [`Self::set_bool`].
    pub fn set_string(&mut self, owner: &str, key: &str, value: &str) -> (r: StateUpdate)
        ensures
            final(self)@.path == old(self)@.path,
            final(self)@.parse_error == old(self)@.parse_error,
            (old(self)@.path.len() == 0 || !valid_names(owner, key)) ==> r == StateUpdate::Rejected && final(self)@.state == old(self)@.state,
            (old(self)@.path.len() > 0 && valid_names(owner, key)) ==> {
                &&& final(self)@.state == spec_set_value(old(self)@.state, owner@, key@, TomlData::String(value@))
                &&& r == if holds_value(old(self)@.state, owner@, key@, TomlData::String(value@)) { StateUpdate::Unchanged } else { StateUpdate::Changed }
            },
    {
        if self.path.as_str().is_empty() || !valid_state_identifier(owner) || !valid_state_identifier(key) {
            return StateUpdate::Rejected;
        }
        let same = match self.state.get(owner) {
            Some(TomlValue::Table(t)) => match t.get(key) {
                Some(TomlValue::String(s)) => str_equal(s.as_str(), value),
                _ => false,
            },
            _ => false,
        };
        self.set_value(owner, key, TomlValue::String(value.to_owned()), same)
    }

    /// Removes everything stored for `owner`. `Rejected` when no path is set or
    /// the name is invalid; `Unchanged` when nothing is stored for it.
    pub fn clear_owner(&mut self, owner: &str) -> (r: StateUpdate)
        ensures
            final(self)@.path == old(self)@.path,
            final(self)@.parse_error == old(self)@.parse_error,
            (old(self)@.path.len() == 0 || !spec_valid_state_identifier(owner.spec_bytes()))
                ==> r == StateUpdate::Rejected && final(self)@.state == old(self)@.state,
            (old(self)@.path.len() > 0 && spec_valid_state_identifier(owner.spec_bytes())) ==> {
                &&& final(self)@.state == table_remove(old(self)@.state, owner@)
                &&& r == if has_key(old(self)@.state, owner@) { StateUpdate::Changed } else { StateUpdate::Unchanged }
            },
    {
        if self.path.as_str().is_empty() || !valid_state_identifier(owner) {
            return StateUpdate::Rejected;
        }
        if !self.state.contains_key(owner) {
            proof { lemma_table_remove_absent(self.state@, owner@); }
            return StateUpdate::Unchanged;
        }
        self.state.remove(owner);
        StateUpdate::Changed
    }

    /// Records that the file now holds the state: the parse error is cleared.
    pub fn mark_written(&mut self)
        ensures
            final(self)@.path == old(self)@.path,
            final(self)@.state == old(self)@.state,
            final(self)@.parse_error == Seq::<char>::empty(),
    {
        self.parse_error = String::new();
    }

    /// The state table, for writing it out.
    pub fn state(&self) -> (t: &TomlTable)
        ensures
            t@ == self@.state,
    {
        &self.state
    }
}

impl Default for StateStore {
    fn default() -> (s: StateStore)
        ensures
            s@.path == Seq::<char>::empty(),
            s@.state == TableData::empty(),
            s@.parse_error == Seq::<char>::empty(),
    {
        StateStore::new(String::new())
    }
}

proof fn lemma_table_remove_absent(t: TableData, k: Seq<char>)
    requires
        !has_key(t, k),
    ensures
        table_remove(t, k) == t,
    decreases t.len(),
{
    if t.len() > 0 {
        let p = t.drop_last();
        assert(!has_key(p, k)) by {
            if has_key(p, k) {
                let j = choose|j: int| 0 <= j < p.len() && p[j].0 == k;
                assert(t[j].0 == k);
            }
        }
        lemma_table_remove_absent(p, k);
        assert(t.last().0 != k);
        assert(p.push(t.last()) =~= t);
    }
}

/// A value just stored reads back: after a write of `v` to `owner.key`, the
/// state holds `v` there, and every other owner and key reads as before.
pub proof fn lemma_state_read_after_write(state: TableData, owner: Seq<char>, key: Seq<char>, v: TomlData, owner2: Seq<char>, key2: Seq<char>)
    ensures
        state_value(spec_set_value(state, owner, key, v), owner, key) == Some(v),
        (owner2 != owner || key2 != key) ==> state_value(spec_set_value(state, owner, key, v), owner2, key2)
            == state_value(state, owner2, key2),
{
    if !holds_value(state, owner, key, v) {
        let ot = owner_table(state, owner);
        let nt = table_insert(ot, key, v);
        let s1 = table_insert(state, owner, TomlData::Table(nt));
        lemma_insert_lookup(state, owner, TomlData::Table(nt), owner2);
        lemma_insert_lookup(ot, key, v, key2);
        if owner2 == owner {
            assert(lookup_table(s1, owner) == Some(nt));
            if key2 != key {
                if lookup_table(state, owner) is None {
                    assert(lookup(ot, key2) is None);
                }
            }
        }
    }
}

/// After clearing `owner`, nothing is stored for it, and other owners read as before.
pub proof fn lemma_state_cleared(state: TableData, owner: Seq<char>, key: Seq<char>, owner2: Seq<char>, key2: Seq<char>)
    ensures
        state_value(table_remove(state, owner), owner, key) is None,
        owner2 != owner ==> state_value(table_remove(state, owner), owner2, key2) == state_value(state, owner2, key2),
{
    lemma_remove_lookup(state, owner, owner2);
}

} // verus!
