//! Reading and writing brightness monitor overrides, which the brightness
//! section holds as a map from a monitor selector to its settings
//! (`[brightness.monitor.<match>]`). Each entry is read into a default
//! override named by its key, in map order; entries that are not tables are
//! skipped.

use vstd::prelude::*;
use crate::value::{TomlEntry, TomlTable, TomlValue, TomlData, TableData, lookup, lemma_entries_data};
use crate::schema::fields::{read_string_field, get_string, string_entry};
use crate::text::{str_equal, trim_whitespace, spec_trim_whitespace};
use crate::types::bar_config::opt_text_view;
use crate::types::brightness::{BrightnessBackendPreference, BrightnessMonitorOverride};

verus! {

/// The backend a name stands for, if any (`none` is no backend).
pub open spec fn backend_of_name(name: Seq<char>) -> Option<BrightnessBackendPreference> {
    if name == "auto"@ {
        Some(BrightnessBackendPreference::Auto)
    } else if name == "none"@ {
        Some(BrightnessBackendPreference::Disabled)
    } else if name == "backlight"@ {
        Some(BrightnessBackendPreference::Backlight)
    } else if name == "ddcutil"@ {
        Some(BrightnessBackendPreference::Ddcutil)
    } else {
        None
    }
}

/// The name a backend is written as.
pub open spec fn name_of_backend(b: BrightnessBackendPreference) -> Seq<char> {
    match b {
        BrightnessBackendPreference::Auto => "auto"@,
        BrightnessBackendPreference::Disabled => "none"@,
        BrightnessBackendPreference::Backlight => "backlight"@,
        BrightnessBackendPreference::Ddcutil => "ddcutil"@,
    }
}

/// The content of a [`BrightnessMonitorOverride`].
pub struct MonitorOverrideView {
    pub match_: Seq<char>,
    pub backend: Option<BrightnessBackendPreference>,
    pub backlight_device: Option<Seq<char>>,
}

impl View for BrightnessMonitorOverride {
    type V = MonitorOverrideView;

    open spec fn view(&self) -> MonitorOverrideView {
        MonitorOverrideView {
            match_: self.match_@,
            backend: self.backend,
            backlight_device: opt_text_view(self.backlight_device),
        }
    }
}

/// `cur` with the fields that `t` sets read from it: the selector under
/// `match`, and the backend named by the trimmed string under `backend`
/// (an unknown name leaves it as it was).
pub open spec fn spec_read_monitor_override(cur: MonitorOverrideView, t: TableData) -> MonitorOverrideView {
    MonitorOverrideView {
        match_: read_string_field(t, "match"@, cur.match_),
        backend: match lookup(t, "backend"@) {
            Some(TomlData::String(s)) => match backend_of_name(spec_trim_whitespace(s)) {
                Some(b) => Some(b),
                None => cur.backend,
            },
            _ => cur.backend,
        },
        ..cur
    }
}

/// The table `v` is written as: the selector, then the backend when it is set.
pub open spec fn spec_write_monitor_override(v: MonitorOverrideView) -> TableData {
    match v.backend {
        Some(b) => seq![("match"@, TomlData::String(v.match_)), ("backend"@, TomlData::String(name_of_backend(b)))],
        None => seq![("match"@, TomlData::String(v.match_))],
    }
}

/// The overrides the first `n` entries of the map `m` are read as.
pub open spec fn read_monitor_map(m: TableData, n: int) -> Seq<MonitorOverrideView>
    decreases n,
{
    if n <= 0 || n > m.len() {
        Seq::empty()
    } else {
        read_monitor_map(m, n - 1) + match m[n - 1].1 {
            TomlData::Table(sub) => seq![spec_read_monitor_override(
                MonitorOverrideView { match_: m[n - 1].0, backend: None, backlight_device: None },
                sub,
            )],
            _ => Seq::empty(),
        }
    }
}

/// The backend a name stands for (see [`backend_of_name`]).
pub fn parse_backend(name: &str) -> (r: Option<BrightnessBackendPreference>)
    ensures
        r == backend_of_name(name@),
{
    if str_equal(name, "auto") {
        Some(BrightnessBackendPreference::Auto)
    } else if str_equal(name, "none") {
        Some(BrightnessBackendPreference::Disabled)
    } else if str_equal(name, "backlight") {
        Some(BrightnessBackendPreference::Backlight)
    } else if str_equal(name, "ddcutil") {
        Some(BrightnessBackendPreference::Ddcutil)
    } else {
        None
    }
}

/// The name a backend is written as (see [`name_of_backend`]).
pub fn backend_name(b: BrightnessBackendPreference) -> (r: &'static str)
    ensures
        r@ == name_of_backend(b),
{
    match b {
        BrightnessBackendPreference::Auto => "auto",
        BrightnessBackendPreference::Disabled => "none",
        BrightnessBackendPreference::Backlight => "backlight",
        BrightnessBackendPreference::Ddcutil => "ddcutil",
    }
}

/// Reads the fields that `t` sets into `out`; see [`spec_read_monitor_override`].
pub fn read_monitor_override(t: &TomlTable, out: &mut BrightnessMonitorOverride)
    ensures
        final(out)@ == spec_read_monitor_override(old(out)@, t@),
{
    get_string(t, "match", &mut out.match_);
    match t.get("backend") {
        Some(TomlValue::String(s)) => {
            match parse_backend(trim_whitespace(s.as_str())) {
                Some(b) => {
                    out.backend = Some(b);
                },
                None => {},
            }
        },
        _ => {},
    }
}

/// Writes `v`; see [`spec_write_monitor_override`].
pub fn write_monitor_override(v: &BrightnessMonitorOverride) -> (t: TomlTable)
    ensures
        t@ == spec_write_monitor_override(v@),
{
    let mut entries: Vec<TomlEntry> = Vec::new();
    entries.push(string_entry("match", &v.match_));
    match v.backend {
        Some(b) => {
            let name = backend_name(b).to_owned();
            entries.push(string_entry("backend", &name));
        },
        None => {},
    }
    let t = TomlTable { entries };
    proof {
        lemma_entries_data(t.entries@, t.entries@.len() as int);
        assert(t@ =~= spec_write_monitor_override(v@));
    }
    t
}

/// Reads every override of the map `m`, in map order; see [`read_monitor_map`].
pub fn read_monitor_overrides(m: &TomlTable) -> (r: Vec<BrightnessMonitorOverride>)
    ensures
        r@.map_values(|o: BrightnessMonitorOverride| o@) == read_monitor_map(m@, m@.len() as int),
{
    proof { lemma_entries_data(m.entries@, m.entries@.len() as int); }
    let mut r: Vec<BrightnessMonitorOverride> = Vec::new();
    let mut i: usize = 0;
    while i < m.entries.len()
        invariant
            0 <= i <= m.entries.len(),
            m@.len() == m.entries@.len(),
            forall|j: int| 0 <= j < m.entries@.len() ==> (#[trigger] m@[j]) == (m.entries@[j].key@, m.entries@[j].value@),
            r@.map_values(|o: BrightnessMonitorOverride| o@) == read_monitor_map(m@, i as int),
        decreases m.entries.len() - i,
    {
        let e = &m.entries[i];
        let ghost before = r@;
        match &e.value {
            TomlValue::Table(sub) => {
                let mut o = BrightnessMonitorOverride { match_: e.key.clone(), backend: None, backlight_device: None };
                read_monitor_override(sub, &mut o);
                r.push(o);
                proof {
                    assert(r@.map_values(|o: BrightnessMonitorOverride| o@)
                        =~= before.map_values(|o: BrightnessMonitorOverride| o@).push(o@));
                }
            },
            _ => {
                proof {
                    assert(read_monitor_map(m@, i as int + 1) =~= read_monitor_map(m@, i as int));
                }
            },
        }
        i = i + 1;
    }
    r
}

/// Reading a written override back gives it; the backlight device, which
/// the map does not hold, keeps what `cur` held.
pub proof fn lemma_monitor_override_round_trip(cur: MonitorOverrideView, v: MonitorOverrideView)
    ensures
        spec_read_monitor_override(cur, spec_write_monitor_override(v)) == (MonitorOverrideView {
            match_: v.match_,
            backend: if v.backend is Some { v.backend } else { cur.backend },
            backlight_device: cur.backlight_device,
        }),
{
    reveal_strlit("match");
    reveal_strlit("backend");
    reveal_strlit("auto");
    reveal_strlit("none");
    reveal_strlit("backlight");
    reveal_strlit("ddcutil");
    assert("match"@.len() != "backend"@.len());
    assert("auto"@[0] != "none"@[0]);
    assert("auto"@.len() != "backlight"@.len());
    assert("auto"@.len() != "ddcutil"@.len());
    assert("none"@.len() != "backlight"@.len());
    assert("none"@.len() != "ddcutil"@.len());
    assert("backlight"@.len() != "ddcutil"@.len());
    let t = spec_write_monitor_override(v);
    assert(crate::value::first_key_at(t, "match"@, 0));
    crate::value::lemma_lookup_at(t, "match"@, 0);
    if let Some(b) = v.backend {
        assert(crate::value::first_key_at(t, "backend"@, 1));
        crate::value::lemma_lookup_at(t, "backend"@, 1);
        let n = name_of_backend(b);
        assert(spec_trim_whitespace(n) == n) by {
            crate::text::lemma_trim_untouched(n);
        }
    } else {
        assert(!crate::value::has_key(t, "backend"@));
    }
}

} // verus!
