//! Plugin sources and the rules for their names.

use vstd::prelude::*;
use crate::text::{chars_of, str_equal};

verus! {

/// How a plugin source is fetched.
#[derive(Debug, Clone, Copy, PartialEq, Eq, Hash, Structural)]
pub enum PluginSourceKind {
    Git,
    Path,
}

impl PluginSourceKind {
    /// The variant a missing setting takes.
    pub open spec fn spec_default() -> PluginSourceKind {
        PluginSourceKind::Git
    }
}

impl Default for PluginSourceKind {
    fn default() -> (r: Self)
        ensures
            r == PluginSourceKind::Git,
    {
        PluginSourceKind::Git
    }
}

/// One plugin source.
#[derive(Debug, Clone, PartialEq, Eq)]
pub struct PluginSourceConfig {
    pub kind: PluginSourceKind,
    pub name: String,
    pub location: String,
    pub enabled: bool,
}

impl PluginSourceConfig {
    /// Every field holds its default value.
    pub open spec fn has_default_values(&self) -> bool {
        &&& self.kind == PluginSourceKind::spec_default()
        &&& self.name@.len() == 0
        &&& self.location@.len() == 0
        &&& self.enabled
    }
}

impl Default for PluginSourceConfig {
    fn default() -> (r: Self)
        ensures
            r.has_default_values(),
    {
        PluginSourceConfig {
            kind: PluginSourceKind::default(),
            name: String::new(),
            location: String::new(),
            enabled: true,
        }
    }
}

/// The official and community plugin repositories, in that order.
pub fn default_plugin_sources() -> (r: Vec<PluginSourceConfig>)
    ensures
        r@.len() == 2,
        r@[0].kind == PluginSourceKind::Git,
        r@[0].name@ == "official"@,
        r@[0].location@ == "https://github.com/noctalia-dev/official-plugins"@,
        r@[0].enabled,
        r@[1].kind == PluginSourceKind::Git,
        r@[1].name@ == "community"@,
        r@[1].location@ == "https://github.com/noctalia-dev/community-plugins"@,
        r@[1].enabled,
{
    let mut r: Vec<PluginSourceConfig> = Vec::new();
    r.push(PluginSourceConfig {
        kind: PluginSourceKind::Git,
        name: "official".to_owned(),
        location: "https://github.com/noctalia-dev/official-plugins".to_owned(),
        enabled: true,
    });
    r.push(PluginSourceConfig {
        kind: PluginSourceKind::Git,
        name: "community".to_owned(),
        location: "https://github.com/noctalia-dev/community-plugins".to_owned(),
        enabled: true,
    });
    r
}

/// Whether `name` is one of the two built-in source names.
pub fn is_default_plugin_source_name(name: &str) -> (r: bool)
    ensures
        r == (name@ == "official"@ || name@ == "community"@),
{
    str_equal(name, "official") || str_equal(name, "community")
}

/// An ASCII letter or digit.
pub open spec fn is_ascii_alphanumeric(c: char) -> bool {
    ('a' <= c && c <= 'z') || ('A' <= c && c <= 'Z') || ('0' <= c && c <= '9')
}

/// A character that may follow the first one in a plugin source name.
pub open spec fn is_plugin_source_name_char(c: char) -> bool {
    is_ascii_alphanumeric(c) || c == '_' || c == '-' || c == '.'
}

/// A plugin source name: not `.` or `..`, starts with an ASCII letter or digit,
/// and continues with ASCII letters, digits, `_`, `-` or `.`.
pub open spec fn spec_valid_plugin_source_name(s: Seq<char>) -> bool {
    &&& s.len() > 0
    &&& s != "."@
    &&& s != ".."@
    &&& is_ascii_alphanumeric(s[0])
    &&& forall|i: int| 1 <= i < s.len() ==> is_plugin_source_name_char(#[trigger] s[i])
}

fn ascii_alphanumeric(c: char) -> (r: bool)
    ensures
        r == is_ascii_alphanumeric(c),
{
    ('a' <= c && c <= 'z') || ('A' <= c && c <= 'Z') || ('0' <= c && c <= '9')
}

/// Whether `name` may name a plugin source.
pub fn is_valid_plugin_source_name(name: &str) -> (r: bool)
    ensures
        r == spec_valid_plugin_source_name(name@),
{
    let cs = chars_of(name);
    if cs.len() == 0 || str_equal(name, ".") || str_equal(name, "..") {
        return false;
    }
    if !ascii_alphanumeric(cs[0]) {
        return false;
    }
    let mut i: usize = 1;
    while i < cs.len()
        invariant
            cs@ == name@,
            1 <= i <= cs.len(),
            forall|k: int| 1 <= k < i ==> is_plugin_source_name_char(#[trigger] name@[k]),
        decreases cs.len() - i,
    {
        let c = cs[i];
        if !(ascii_alphanumeric(c) || c == '_' || c == '-' || c == '.') {
            return false;
        }
        i += 1;
    }
    true
}

} // verus!
