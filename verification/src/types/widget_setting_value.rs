//! Widget settings: the values a widget entry of the configuration holds.

use vstd::prelude::*;

verus! {

/// One widget setting. Floats are carried as their IEEE-754 bit pattern: the
/// setting logic stores and hands them on, it never computes with them. A
/// string map holds `(key, value)` pairs; a key stands for the first pair with it.
#[derive(Debug, PartialEq)]
pub enum WidgetSettingValue {
    Bool(bool),
    Int(i64),
    Float(u64),
    String(String),
    StringList(Vec<String>),
    StringMap(Vec<(String, String)>),
}

/// The mathematical content of a [`WidgetSettingValue`].
pub enum WidgetSettingData {
    Bool(bool),
    Int(i64),
    Float(u64),
    String(Seq<char>),
    StringList(Seq<Seq<char>>),
    StringMap(Seq<(Seq<char>, Seq<char>)>),
}

/// The strings of a list.
pub open spec fn string_list_view(v: Seq<String>) -> Seq<Seq<char>> {
    v.map_values(|s: String| s@)
}

/// The `(key, value)` pairs of a string map.
pub open spec fn string_pairs_view(v: Seq<(String, String)>) -> Seq<(Seq<char>, Seq<char>)> {
    v.map_values(|p: (String, String)| (p.0@, p.1@))
}

impl View for WidgetSettingValue {
    type V = WidgetSettingData;

    open spec fn view(&self) -> WidgetSettingData {
        match self {
            WidgetSettingValue::Bool(b) => WidgetSettingData::Bool(*b),
            WidgetSettingValue::Int(i) => WidgetSettingData::Int(*i),
            WidgetSettingValue::Float(bits) => WidgetSettingData::Float(*bits),
            WidgetSettingValue::String(s) => WidgetSettingData::String(s@),
            WidgetSettingValue::StringList(v) => WidgetSettingData::StringList(string_list_view(v@)),
            WidgetSettingValue::StringMap(m) => WidgetSettingData::StringMap(string_pairs_view(m@)),
        }
    }
}

/// A copy of a list of strings.
pub fn copy_strings(v: &Vec<String>) -> (r: Vec<String>)
    ensures
        string_list_view(r@) == string_list_view(v@),
{
    let mut r: Vec<String> = Vec::new();
    let mut i: usize = 0;
    while i < v.len()
        invariant
            0 <= i <= v@.len(),
            string_list_view(r@) == string_list_view(v@).take(i as int),
        decreases v.len() - i,
    {
        let c = v[i].clone();
        let ghost before = r@;
        r.push(c);
        assert(r@ == before.push(c));
        assert(string_list_view(r@) =~= string_list_view(before).push(v@[i as int]@));
        assert(string_list_view(v@).take(i + 1) =~= string_list_view(v@).take(i as int).push(v@[i as int]@));
        i += 1;
    }
    assert(string_list_view(v@).take(i as int) =~= string_list_view(v@));
    r
}

/// A copy of a string map.
pub fn copy_string_pairs(v: &Vec<(String, String)>) -> (r: Vec<(String, String)>)
    ensures
        string_pairs_view(r@) == string_pairs_view(v@),
{
    let mut r: Vec<(String, String)> = Vec::new();
    let mut i: usize = 0;
    while i < v.len()
        invariant
            0 <= i <= v@.len(),
            string_pairs_view(r@) == string_pairs_view(v@).take(i as int),
        decreases v.len() - i,
    {
        let a = v[i].0.clone();
        let b = v[i].1.clone();
        let ghost before = r@;
        r.push((a, b));
        assert(r@ == before.push((a, b)));
        assert(string_pairs_view(r@) =~= string_pairs_view(before).push((v@[i as int].0@, v@[i as int].1@)));
        assert(string_pairs_view(v@).take(i + 1) =~= string_pairs_view(v@).take(i as int).push((v@[i as int].0@, v@[i as int].1@)));
        i += 1;
    }
    assert(string_pairs_view(v@).take(i as int) =~= string_pairs_view(v@));
    r
}

impl WidgetSettingValue {
    /// A copy of the setting.
    pub fn duplicate(&self) -> (r: WidgetSettingValue)
        ensures
            r@ == self@,
    {
        match self {
            WidgetSettingValue::Bool(b) => WidgetSettingValue::Bool(*b),
            WidgetSettingValue::Int(i) => WidgetSettingValue::Int(*i),
            WidgetSettingValue::Float(bits) => WidgetSettingValue::Float(*bits),
            WidgetSettingValue::String(s) => WidgetSettingValue::String(s.clone()),
            WidgetSettingValue::StringList(v) => WidgetSettingValue::StringList(copy_strings(v)),
            WidgetSettingValue::StringMap(m) => WidgetSettingValue::StringMap(copy_string_pairs(m)),
        }
    }

    /// The boolean held, if the setting is one.
    pub fn as_bool(&self) -> (r: Option<bool>)
        ensures
            r == match self@ {
                WidgetSettingData::Bool(b) => Some(b),
                _ => None::<bool>,
            },
    {
        match self {
            WidgetSettingValue::Bool(b) => Some(*b),
            _ => None,
        }
    }

    /// The string held, if the setting is one.
    pub fn as_string(&self) -> (r: Option<String>)
        ensures
            match self@ {
                WidgetSettingData::String(s) => r matches Some(x) && x@ == s,
                _ => r is None,
            },
    {
        match self {
            WidgetSettingValue::String(s) => Some(s.clone()),
            _ => None,
        }
    }

    /// The list of strings held; a single string reads as a one-element list.
    pub fn as_string_list(&self) -> (r: Option<Vec<String>>)
        ensures
            match self@ {
                WidgetSettingData::StringList(l) => r matches Some(x) && string_list_view(x@) == l,
                WidgetSettingData::String(s) => r matches Some(x) && string_list_view(x@) == seq![s],
                _ => r is None,
            },
    {
        match self {
            WidgetSettingValue::StringList(v) => Some(copy_strings(v)),
            WidgetSettingValue::String(s) => {
                let mut v: Vec<String> = Vec::new();
                v.push(s.clone());
                assert(string_list_view(v@) =~= seq![s@]);
                Some(v)
            },
            _ => None,
        }
    }

    /// The string map held, if the setting is one.
    pub fn as_string_map(&self) -> (r: Option<Vec<(String, String)>>)
        ensures
            match self@ {
                WidgetSettingData::StringMap(m) => r matches Some(x) && string_pairs_view(x@) == m,
                _ => r is None,
            },
    {
        match self {
            WidgetSettingValue::StringMap(m) => Some(copy_string_pairs(m)),
            _ => None,
        }
    }
}

/// Raised when a value cannot be stored as a widget setting.
#[derive(Debug, Clone, Copy, PartialEq, Eq, Structural)]
pub enum WidgetSettingValueOverflowError {
    /// The integer is outside the supported range.
    IntegerOutOfRange,
    /// The number is not finite or is outside the supported range.
    NotFinite,
}

impl WidgetSettingValueOverflowError {
    /// The error's message.
    pub fn message(&self) -> (r: &'static str)
        ensures
            r@ == match *self {
                WidgetSettingValueOverflowError::IntegerOutOfRange => "widget setting integer is outside the supported range"@,
                WidgetSettingValueOverflowError::NotFinite => "widget setting number is not finite or is outside the supported range"@,
            },
    {
        match self {
            WidgetSettingValueOverflowError::IntegerOutOfRange => "widget setting integer is outside the supported range",
            WidgetSettingValueOverflowError::NotFinite => "widget setting number is not finite or is outside the supported range",
        }
    }
}

} // verus!
