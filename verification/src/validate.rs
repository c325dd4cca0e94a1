//! Semantic checks of an already-parsed configuration table.

use vstd::prelude::*;
use vstd::string::StringSliceAdditionalSpecFns;
use crate::value::{TomlTable, TomlValue, TomlData, TableData, lookup, lookup_table, lookup_str, lookup_bool, has_key, gather_all, gather_subtables, items_data, lemma_items_data};
use crate::schema::diagnostics::{Diagnostics, DiagnosticEntryView, Severity, RecoveryScope, spec_entry};
use crate::schema::config_sections::{is_known_root_key, spec_section_names, spec_custom_root_keys};
use crate::text::{chars_of, concat, str_equal};
use crate::schema::diagnostics::{join_path, spec_join_path};
use crate::schema::registry::{unknown_paths, collect_unknown_keys, strs_of, SchemaId, SEARCH_DEPTH, section_schema, schema_of_section};
use crate::schema::config_sections::{section_names, strs_view};
use crate::schema::value_checks::{layer_diags, check_layer, value_diags, check_values, home_view};

verus! {

/// An ASCII digit byte.
pub open spec fn is_digit_byte(b: u8) -> bool {
    0x30 <= b && b <= 0x39
}

/// `HH:MM` with `HH` at most 23 and `MM` at most 59.
pub open spec fn spec_is_clock(b: Seq<u8>) -> bool {
    &&& b.len() == 5
    &&& b[2] == 0x3A
    &&& is_digit_byte(b[0]) && is_digit_byte(b[1]) && is_digit_byte(b[3]) && is_digit_byte(b[4])
    &&& (b[0] - 0x30) * 10 + (b[1] - 0x30) <= 23
    &&& (b[3] - 0x30) * 10 + (b[4] - 0x30) <= 59
}

fn digit_byte(b: u8) -> (r: bool)
    ensures
        r == is_digit_byte(b),
{
    0x30 <= b && b <= 0x39
}

/// `value` itself when it is a valid `HH:MM` time of day (00:00 to 23:59).
pub fn normalized_clock(value: &str) -> (r: Option<&str>)
    ensures
        match r {
            Some(v) => v@ == value@ && spec_is_clock(value.spec_bytes()),
            None => !spec_is_clock(value.spec_bytes()),
        },
{
    let bytes = value.as_bytes();
    if bytes.len() != 5 || bytes[2] != 0x3A {
        return None;
    }
    if !digit_byte(bytes[0]) || !digit_byte(bytes[1]) || !digit_byte(bytes[3]) || !digit_byte(bytes[4]) {
        return None;
    }
    let hour: u32 = (bytes[0] - 0x30) as u32 * 10 + (bytes[1] - 0x30) as u32;
    let minute: u32 = (bytes[3] - 0x30) as u32 * 10 + (bytes[4] - 0x30) as u32;
    if hour > 23 || minute > 59 {
        return None;
    }
    Some(value)
}


/// The entry of an advisory warning.
pub open spec fn warning(path: Seq<char>, message: Seq<char>) -> DiagnosticEntryView {
    spec_entry(Severity::Warning, RecoveryScope::Advisory, "config.warning"@, path, message, Seq::empty())
}

/// The entry of a rejected value.
pub open spec fn value_error(path: Seq<char>, message: Seq<char>, code: Seq<char>) -> DiagnosticEntryView {
    spec_entry(Severity::Error, RecoveryScope::Value, code, path, message, Seq::empty())
}

/// The entry of an error that makes the document unusable.
pub open spec fn fatal(path: Seq<char>, message: Seq<char>, code: Seq<char>) -> DiagnosticEntryView {
    spec_entry(Severity::Error, RecoveryScope::Document, code, path, message, Seq::empty())
}

// ---- [include] ----

/// Some item is not a string.
pub open spec fn has_non_string(items: Seq<TomlData>) -> bool {
    exists|i: int| 0 <= i < items.len() && !(items[i] is String)
}

/// The diagnostics for one entry of `[include]`.
pub open spec fn include_entry_diags(key: Seq<char>, node: TomlData) -> Seq<DiagnosticEntryView> {
    if key == "autoload"@ {
        if node is Boolean { Seq::empty() } else { seq![fatal("include.autoload"@, "must be a boolean"@, "config.include.type"@)] }
    } else if key == "files"@ {
        match node {
            TomlData::Array(items) => if has_non_string(items) {
                seq![fatal("include.files"@, "every entry must be a string"@, "config.include.type"@)]
            } else {
                Seq::empty()
            },
            _ => seq![fatal("include.files"@, "must be an array of strings"@, "config.include.type"@)],
        }
    } else {
        seq![warning("include."@ + key, "unknown setting"@)]
    }
}

/// The diagnostics for the first `n` entries of `[include]`.
pub open spec fn include_diags_upto(inc: TableData, n: int) -> Seq<DiagnosticEntryView>
    decreases n,
{
    if n <= 0 || n > inc.len() {
        Seq::empty()
    } else {
        include_diags_upto(inc, n - 1) + include_entry_diags(inc[n - 1].0, inc[n - 1].1)
    }
}

/// The diagnostics for the shape of `[include]`.
pub open spec fn include_shape_diags(tbl: TableData) -> Seq<DiagnosticEntryView> {
    match lookup(tbl, "include"@) {
        None => Seq::empty(),
        Some(TomlData::Table(inc)) => include_diags_upto(inc, inc.len() as int),
        Some(_) => seq![fatal("include"@, "[include] must be a table"@, "config.include.type"@)],
    }
}

fn all_strings(items: &Vec<TomlValue>) -> (r: bool)
    ensures
        r == !has_non_string(items_data(items@, items@.len() as int)),
{
    proof { lemma_items_data(items@, items@.len() as int); }
    let ghost iv = items_data(items@, items@.len() as int);
    let mut i: usize = 0;
    while i < items.len()
        invariant
            iv == items_data(items@, items@.len() as int),
            iv.len() == items@.len(),
            forall|j: int| 0 <= j < iv.len() ==> #[trigger] iv[j] == items@[j]@,
            0 <= i <= items.len(),
            forall|j: int| 0 <= j < i ==> iv[j] is String,
        decreases items.len() - i,
    {
        match &items[i] {
            TomlValue::String(_) => {},
            _ => {
                assert(!(iv[i as int] is String));
                return false;
            },
        }
        i += 1;
    }
    true
}

/// Checks the shape of `[include]`: a table whose `autoload` is a boolean and
/// whose `files` is an array of strings; other keys are warned about.
pub fn validate_include_shape(tbl: &TomlTable, diag: &mut Diagnostics)
    ensures
        final(diag)@ == old(diag)@ + include_shape_diags(tbl@),
{
    let inc = match tbl.get("include") {
        None => {
            assert(old(diag)@ + Seq::<DiagnosticEntryView>::empty() =~= old(diag)@);
            return;
        },
        Some(TomlValue::Table(inc)) => inc,
        Some(_) => {
            diag.fatal_with_code("include", "[include] must be a table", "config.include.type");
            return;
        },
    };
    let ghost d0 = diag@;
    let n = inc.len();
    let mut i: usize = 0;
    while i < n
        invariant
            n == inc@.len(),
            0 <= i <= n,
            diag@ == d0 + include_diags_upto(inc@, i as int),
        decreases n - i,
    {
        let key = inc.key_at(i);
        let node = inc.value_at(i);
        let ghost before = diag@;
        if str_equal(key, "autoload") {
            match node {
                TomlValue::Boolean(_) => {},
                _ => { diag.fatal_with_code("include.autoload", "must be a boolean", "config.include.type"); },
            }
        } else if str_equal(key, "files") {
            match node {
                TomlValue::Array(items) => {
                    if !all_strings(items) {
                        diag.fatal_with_code("include.files", "every entry must be a string", "config.include.type");
                    }
                },
                _ => { diag.fatal_with_code("include.files", "must be an array of strings", "config.include.type"); },
            }
        } else {
            let path = concat("include.", key);
            diag.warn(path.as_str(), "unknown setting");
        }
        assert(diag@ =~= before + include_entry_diags(inc@[i as int].0, inc@[i as int].1));
        i += 1;
    }
}

// ---- calendar ----

/// The message for the old array syntax of calendar accounts.
pub open spec fn old_accounts_message() -> Seq<char> {
    "calendar accounts now use [calendar.account.<id>] named tables"@
}

/// The message for an account that still sets a collection URL.
pub open spec fn account_url_message() -> Seq<char> {
    "CalDAV collection url was removed; use provider/server_url discovery syntax instead"@
}

/// The diagnostic for one calendar account that sets `url`.
pub open spec fn account_url_step() -> spec_fn(Seq<char>, TableData) -> Seq<DiagnosticEntryView> {
    |id: Seq<char>, account: TableData| if has_key(account, "url"@) {
        seq![value_error("calendar.account."@ + id + ".url"@, account_url_message(), "config.invalid-value"@)]
    } else {
        Seq::empty()
    }
}

/// The diagnostics for calendar syntax that is no longer accepted.
pub open spec fn calendar_syntax_diags(root: TableData) -> Seq<DiagnosticEntryView> {
    match lookup_table(root, "calendar"@) {
        None => Seq::empty(),
        Some(cal) => (if lookup(cal, "accounts"@) matches Some(TomlData::Array(_)) {
            seq![value_error("calendar.accounts"@, old_accounts_message(), "config.invalid-value"@)]
        } else {
            Seq::empty()
        }) + match lookup_table(cal, "account"@) {
            Some(accounts) => gather_all(accounts, account_url_step()),
            None => Seq::empty(),
        },
    }
}

/// Reports calendar syntax that is no longer accepted: an `accounts` array,
/// and accounts that set a collection `url`.
pub fn validate_calendar_syntax(root: &TomlTable, diag: &mut Diagnostics)
    ensures
        final(diag)@ == old(diag)@ + calendar_syntax_diags(root@),
{
    let cal = match root.get("calendar") {
        Some(TomlValue::Table(cal)) => cal,
        _ => {
            assert(old(diag)@ + Seq::<DiagnosticEntryView>::empty() =~= old(diag)@);
            return;
        },
    };
    let ghost d0 = diag@;
    match cal.get("accounts") {
        Some(TomlValue::Array(_)) => {
            diag.error("calendar.accounts", "calendar accounts now use [calendar.account.<id>] named tables");
        },
        _ => {},
    }
    let ghost d1 = diag@;
    match cal.get("account") {
        Some(TomlValue::Table(accounts)) => {
            let n = accounts.len();
            let mut i: usize = 0;
            while i < n
                invariant
                    n == accounts@.len(),
                    0 <= i <= n,
                    diag@ == d1 + gather_subtables(accounts@, account_url_step(), i as int),
                decreases n - i,
            {
                let ghost before = diag@;
                match accounts.value_at(i) {
                    TomlValue::Table(account) => {
                        if account.contains_key("url") {
                            let a = concat("calendar.account.", accounts.key_at(i));
                            let path = concat(a.as_str(), ".url");
                            diag.error(path.as_str(), "CalDAV collection url was removed; use provider/server_url discovery syntax instead");
                        }
                    },
                    _ => {},
                }
                assert(diag@ =~= d1 + gather_subtables(accounts@, account_url_step(), i as int + 1));
                i += 1;
            }
        },
        _ => {},
    }
    assert(diag@ =~= d0 + calendar_syntax_diags(root@));
}

// ---- location ----

/// An ASCII digit.
pub open spec fn is_digit_char(c: char) -> bool {
    '0' <= c && c <= '9'
}

/// `HH:MM` with `HH` at most 23 and `MM` at most 59, read as characters.
pub open spec fn spec_is_clock_text(s: Seq<char>) -> bool {
    &&& s.len() == 5
    &&& s[2] == ':'
    &&& is_digit_char(s[0]) && is_digit_char(s[1]) && is_digit_char(s[3]) && is_digit_char(s[4])
    &&& (s[0] as int - 48) * 10 + (s[1] as int - 48) <= 23
    &&& (s[3] as int - 48) * 10 + (s[4] as int - 48) <= 59
}

fn is_clock_text(v: &str) -> (r: bool)
    ensures
        r == spec_is_clock_text(v@),
{
    let cs = chars_of(v);
    if cs.len() != 5 || cs[2] != ':' {
        return false;
    }
    let all_digits = ('0' <= cs[0] && cs[0] <= '9') && ('0' <= cs[1] && cs[1] <= '9')
        && ('0' <= cs[3] && cs[3] <= '9') && ('0' <= cs[4] && cs[4] <= '9');
    if !all_digits {
        return false;
    }
    let hour: u32 = (cs[0] as u32 - 48) * 10 + (cs[1] as u32 - 48);
    let minute: u32 = (cs[3] as u32 - 48) * 10 + (cs[4] as u32 - 48);
    hour <= 23 && minute <= 59
}

/// The diagnostics for the `sunset` or `sunrise` time (`key`) of a location.
pub open spec fn clock_diags(loc: TableData, key: Seq<char>, custom_schedule: bool) -> Seq<DiagnosticEntryView> {
    let path = "location."@ + key;
    match lookup_str(loc, key) {
        Some(v) => if v.len() > 0 {
            if spec_is_clock_text(v) {
                Seq::empty()
            } else {
                let m = "\""@ + v + "\" is not a time of day in HH:MM form"@;
                if custom_schedule { seq![value_error(path, m, "location.clock.invalid"@)] } else { seq![warning(path, m)] }
            }
        } else if custom_schedule {
            seq![value_error(path, "custom_schedule needs a "@ + key + " time in HH:MM form"@, "location.clock.missing"@)]
        } else {
            Seq::empty()
        },
        None => if custom_schedule {
            seq![value_error(path, "custom_schedule needs a "@ + key + " time in HH:MM form"@, "location.clock.missing"@)]
        } else {
            Seq::empty()
        },
    }
}

/// The diagnostics for the schedule times of `[location]`.
pub open spec fn location_diags(merged: TableData) -> Seq<DiagnosticEntryView> {
    match lookup_table(merged, "location"@) {
        None => Seq::empty(),
        Some(loc) => {
            let cs = lookup_bool(loc, "custom_schedule"@) == Some(true);
            clock_diags(loc, "sunset"@, cs) + clock_diags(loc, "sunrise"@, cs)
        },
    }
}

fn check_clock(loc: &TomlTable, key: &str, custom_schedule: bool, diag: &mut Diagnostics)
    ensures
        final(diag)@ == old(diag)@ + clock_diags(loc@, key@, custom_schedule),
{
    let path = concat("location.", key);
    let value = match loc.get(key) {
        Some(v) => v.as_str(),
        None => None,
    };
    match value {
        Some(v) => {
            if !v.is_empty() {
                if !is_clock_text(v) {
                    let a = concat("\"", v);
                    let message = concat(a.as_str(), "\" is not a time of day in HH:MM form");
                    if custom_schedule {
                        diag.error_with_code(path.as_str(), message.as_str(), "location.clock.invalid");
                    } else {
                        diag.warn(path.as_str(), message.as_str());
                    }
                } else {
                    assert(old(diag)@ + Seq::<DiagnosticEntryView>::empty() =~= old(diag)@);
                }
                return;
            }
        },
        None => {},
    }
    if custom_schedule {
        let a = concat("custom_schedule needs a ", key);
        let message = concat(a.as_str(), " time in HH:MM form");
        diag.error_with_code(path.as_str(), message.as_str(), "location.clock.missing");
    } else {
        assert(old(diag)@ + Seq::<DiagnosticEntryView>::empty() =~= old(diag)@);
    }
}

/// Checks the `sunset` and `sunrise` times of `[location]`: a time not in
/// `HH:MM` form is an error under `custom_schedule` and a warning otherwise; a
/// missing time is an error under `custom_schedule`.
pub fn validate_location(merged: &TomlTable, diag: &mut Diagnostics)
    ensures
        final(diag)@ == old(diag)@ + location_diags(merged@),
{
    let loc = match merged.get("location") {
        Some(TomlValue::Table(loc)) => loc,
        _ => {
            assert(old(diag)@ + Seq::<DiagnosticEntryView>::empty() =~= old(diag)@);
            return;
        },
    };
    let custom_schedule = match loc.get("custom_schedule") {
        Some(TomlValue::Boolean(b)) => *b,
        _ => false,
    };
    let ghost d0 = diag@;
    check_clock(loc, "sunset", custom_schedule, diag);
    check_clock(loc, "sunrise", custom_schedule, diag);
    assert(diag@ =~= d0 + location_diags(merged@));
}

/// Every diagnostic about one schedule time is at that time's path.
proof fn lemma_clock_paths(loc: TableData, key: Seq<char>, cs: bool)
    ensures
        forall|i: int| 0 <= i < clock_diags(loc, key, cs).len() ==> (#[trigger] clock_diags(loc, key, cs)[i]).path == "location."@ + key,
        clock_diags(loc, key, cs).len() <= 1,
{
}

/// `sunset` and `sunrise` are checked alike. For either time of a
/// `[location]` table: a non-empty string not in `HH:MM` form is reported at
/// `location.<time>` (an error under `custom_schedule`, a warning otherwise);
/// a missing or empty time is an error there under `custom_schedule`; and
/// a time in `HH:MM` form, or a missing one without `custom_schedule`, gives
/// nothing at that path. Without a `[location]` table there is nothing.
pub proof fn lemma_location_checks_each_time(merged: TableData, key: Seq<char>)
    requires
        key == "sunset"@ || key == "sunrise"@,
    ensures
        lookup_table(merged, "location"@) is None ==> location_diags(merged) == Seq::<DiagnosticEntryView>::empty(),
        lookup_table(merged, "location"@) matches Some(loc) ==> {
            let d = location_diags(merged);
            let cs = lookup_bool(loc, "custom_schedule"@) == Some(true);
            let path = "location."@ + key;
            let given = lookup_str(loc, key);
            &&& (given is Some && given.unwrap().len() > 0 && !spec_is_clock_text(given.unwrap())) ==> {
                let m = "\""@ + given.unwrap() + "\" is not a time of day in HH:MM form"@;
                d.contains(if cs { value_error(path, m, "location.clock.invalid"@) } else { warning(path, m) })
            }
            &&& ((given is None || given.unwrap().len() == 0) && cs) ==> d.contains(
                value_error(path, "custom_schedule needs a "@ + key + " time in HH:MM form"@, "location.clock.missing"@))
            &&& ((given is Some && spec_is_clock_text(given.unwrap())) || ((given is None || given.unwrap().len() == 0) && !cs))
                ==> forall|i: int| 0 <= i < d.len() ==> (#[trigger] d[i]).path != path
        },
{
    if let Some(loc) = lookup_table(merged, "location"@) {
        let cs = lookup_bool(loc, "custom_schedule"@) == Some(true);
        let a = clock_diags(loc, "sunset"@, cs);
        let b = clock_diags(loc, "sunrise"@, cs);
        let d = location_diags(merged);
        assert(d == a + b);
        lemma_clock_paths(loc, "sunset"@, cs);
        lemma_clock_paths(loc, "sunrise"@, cs);
        reveal_strlit("location.");
        reveal_strlit("sunset");
        reveal_strlit("sunrise");
        assert(("location."@ + "sunset"@).len() != ("location."@ + "sunrise"@).len());
        if key == "sunset"@ {
            if a.len() > 0 {
                assert(d[0] == a[0]);
            }
            assert forall|i: int| 0 <= i < d.len() && (#[trigger] d[i]).path == "location."@ + key implies i < a.len() by {
                if i >= a.len() {
                    assert(d[i] == b[i - a.len()]);
                }
            }
        } else {
            if b.len() > 0 {
                assert(d[a.len() as int] == b[0]);
            }
            assert forall|i: int| 0 <= i < d.len() && (#[trigger] d[i]).path == "location."@ + key implies i >= a.len() by {
                if i < a.len() {
                    assert(d[i] == a[i]);
                }
            }
            assert forall|i: int| a.len() <= i < d.len() implies (#[trigger] d[i]) == b[i - a.len()] by {}
        }
    } else {
        assert(location_diags(merged) == Seq::<DiagnosticEntryView>::empty());
    }
}

// ---- root keys ----

/// The warnings for the first `n` root keys that are not known.
pub open spec fn unknown_section_diags(t: TableData, n: int) -> Seq<DiagnosticEntryView>
    decreases n,
{
    if n <= 0 || n > t.len() {
        Seq::empty()
    } else {
        let k = t[n - 1].0;
        unknown_section_diags(t, n - 1) + if spec_section_names().contains(k) || spec_custom_root_keys().contains(k) {
            Seq::empty()
        } else {
            seq![warning(k, "unknown section"@)]
        }
    }
}

/// Warns about every root key that names no known section.
pub fn warn_unknown_sections(merged: &TomlTable, diag: &mut Diagnostics)
    ensures
        final(diag)@ == old(diag)@ + unknown_section_diags(merged@, merged@.len() as int),
{
    let ghost d0 = diag@;
    let n = merged.len();
    let mut i: usize = 0;
    while i < n
        invariant
            n == merged@.len(),
            0 <= i <= n,
            diag@ == d0 + unknown_section_diags(merged@, i as int),
        decreases n - i,
    {
        let key = merged.key_at(i);
        let ghost before = diag@;
        if !is_known_root_key(key) {
            diag.warn(key, "unknown section");
        }
        assert(diag@ =~= d0 + unknown_section_diags(merged@, i as int + 1));
        i += 1;
    }
}


// ---- bars ----

/// An `unknown setting` warning for each of the first `n` paths.
pub open spec fn setting_warnings(paths: Seq<Seq<char>>, n: int) -> Seq<DiagnosticEntryView>
    decreases n,
{
    if n <= 0 || n > paths.len() {
        Seq::empty()
    } else {
        setting_warnings(paths, n - 1).push(warning(paths[n - 1], "unknown setting"@))
    }
}

/// Like [`setting_warnings`], but `<base>.position` and `<base>.monitor`, which
/// a bar table reads outside its schema, are passed over.
pub open spec fn bar_key_warnings(paths: Seq<Seq<char>>, base: Seq<char>, n: int) -> Seq<DiagnosticEntryView>
    decreases n,
{
    if n <= 0 || n > paths.len() {
        Seq::empty()
    } else if paths[n - 1] == base + ".position"@ || paths[n - 1] == base + ".monitor"@ {
        bar_key_warnings(paths, base, n - 1)
    } else {
        bar_key_warnings(paths, base, n - 1).push(warning(paths[n - 1], "unknown setting"@))
    }
}

/// The diagnostics for one entry `name` of a bar's `monitor` table.
pub open spec fn monitor_diags(name: Seq<char>, node: TomlData, base: Seq<char>) -> Seq<DiagnosticEntryView> {
    match node {
        TomlData::Table(mon) => {
            let mb = base + ".monitor."@ + name;
            let paths = unknown_paths(mon, SchemaId::BarMonitorOverride, mb, SEARCH_DEPTH as nat);
            setting_warnings(paths, paths.len() as int) + layer_diags(mon, mb)
        },
        _ => Seq::empty(),
    }
}

/// The diagnostics for the first `n` entries of a bar's `monitor` table.
pub open spec fn monitors_diags_upto(mons: TableData, base: Seq<char>, n: int) -> Seq<DiagnosticEntryView>
    decreases n,
{
    if n <= 0 || n > mons.len() {
        Seq::empty()
    } else {
        monitors_diags_upto(mons, base, n - 1) + monitor_diags(mons[n - 1].0, mons[n - 1].1, base)
    }
}

/// The diagnostics for one entry `name` of the `[bar]` table (`order` is not a bar).
pub open spec fn one_bar_diags(name: Seq<char>, node: TomlData) -> Seq<DiagnosticEntryView> {
    if name == "order"@ {
        Seq::empty()
    } else {
        match node {
            TomlData::Table(bar) => {
                let base = "bar."@ + name;
                let paths = unknown_paths(bar, SchemaId::BarFields, base, SEARCH_DEPTH as nat);
                bar_key_warnings(paths, base, paths.len() as int) + layer_diags(bar, base)
                    + match lookup(bar, "monitor"@) {
                        Some(TomlData::Table(mons)) => monitors_diags_upto(mons, base, mons.len() as int),
                        _ => Seq::empty(),
                    }
            },
            _ => Seq::empty(),
        }
    }
}

/// The diagnostics for the first `n` entries of the `[bar]` table.
pub open spec fn bars_diags_upto(bars: TableData, n: int) -> Seq<DiagnosticEntryView>
    decreases n,
{
    if n <= 0 || n > bars.len() {
        Seq::empty()
    } else {
        bars_diags_upto(bars, n - 1) + one_bar_diags(bars[n - 1].0, bars[n - 1].1)
    }
}

/// The diagnostics of the bar checks: per bar, in table order, the keys its
/// schema does not know, a wrong `layer`, then per monitor override the same.
pub open spec fn bars_diags(root: TableData) -> Seq<DiagnosticEntryView> {
    match lookup(root, "bar"@) {
        Some(TomlData::Table(bars)) => bars_diags_upto(bars, bars.len() as int),
        _ => Seq::empty(),
    }
}

fn warn_settings(paths: &Vec<String>, diag: &mut Diagnostics)
    ensures
        final(diag)@ == old(diag)@ + setting_warnings(strs_of(paths@), paths@.len() as int),
{
    let ghost d0 = diag@;
    let ghost pv = strs_of(paths@);
    let mut i: usize = 0;
    while i < paths.len()
        invariant
            pv == strs_of(paths@),
            0 <= i <= paths.len(),
            diag@ == d0 + setting_warnings(pv, i as int),
        decreases paths.len() - i,
    {
        diag.warn(paths[i].as_str(), "unknown setting");
        assert(diag@ =~= d0 + setting_warnings(pv, i as int + 1));
        i += 1;
    }
}

fn warn_bar_keys(paths: &Vec<String>, base: &str, diag: &mut Diagnostics)
    ensures
        final(diag)@ == old(diag)@ + bar_key_warnings(strs_of(paths@), base@, paths@.len() as int),
{
    let ghost d0 = diag@;
    let ghost pv = strs_of(paths@);
    let position = concat(base, ".position");
    let monitor = concat(base, ".monitor");
    let mut i: usize = 0;
    while i < paths.len()
        invariant
            pv == strs_of(paths@),
            position@ == base@ + ".position"@,
            monitor@ == base@ + ".monitor"@,
            0 <= i <= paths.len(),
            diag@ == d0 + bar_key_warnings(pv, base@, i as int),
        decreases paths.len() - i,
    {
        let p = paths[i].as_str();
        if !str_equal(p, position.as_str()) && !str_equal(p, monitor.as_str()) {
            diag.warn(p, "unknown setting");
        }
        assert(diag@ =~= d0 + bar_key_warnings(pv, base@, i as int + 1));
        i += 1;
    }
}

fn check_monitors(bar: &TomlTable, base: &str, diag: &mut Diagnostics)
    ensures
        final(diag)@ == old(diag)@ + match lookup(bar@, "monitor"@) {
            Some(TomlData::Table(mons)) => monitors_diags_upto(mons, base@, mons.len() as int),
            _ => Seq::empty(),
        },
{
    let mons = match bar.get("monitor") {
        Some(TomlValue::Table(m)) => m,
        _ => {
            assert(old(diag)@ + Seq::<DiagnosticEntryView>::empty() =~= old(diag)@);
            return;
        },
    };
    let ghost d0 = diag@;
    let n = mons.len();
    let mut i: usize = 0;
    while i < n
        invariant
            n == mons@.len(),
            0 <= i <= n,
            diag@ == d0 + monitors_diags_upto(mons@, base@, i as int),
        decreases n - i,
    {
        let key = mons.key_at(i);
        let ghost before = diag@;
        match mons.value_at(i).as_table() {
            Some(mon) => {
                let head = concat(base, ".monitor.");
                let mb = concat(head.as_str(), key);
                let mut paths: Vec<String> = Vec::new();
                collect_unknown_keys(mon, SchemaId::BarMonitorOverride, mb.as_str(), SEARCH_DEPTH, &mut paths);
                assert(strs_of(paths@) =~= unknown_paths(mon@, SchemaId::BarMonitorOverride, mb@, SEARCH_DEPTH as nat));
                warn_settings(&paths, diag);
                check_layer(mon, mb.as_str(), diag);
                assert(diag@ =~= before + monitor_diags(mons@[i as int].0, mons@[i as int].1, base@));
            },
            None => {
                assert(diag@ =~= before + monitor_diags(mons@[i as int].0, mons@[i as int].1, base@));
            },
        }
        assert(diag@ =~= d0 + monitors_diags_upto(mons@, base@, i as int + 1));
        i += 1;
    }
}

/// Checks every bar table: the keys the bar schema does not know (but
/// `position` and `monitor`), a `layer` that is neither `top` nor `overlay`,
/// and the same for each of its monitor overrides.
pub fn validate_bars(root: &TomlTable, diag: &mut Diagnostics)
    ensures
        final(diag)@ == old(diag)@ + bars_diags(root@),
{
    let bars = match root.get("bar") {
        Some(TomlValue::Table(b)) => b,
        _ => {
            assert(old(diag)@ + Seq::<DiagnosticEntryView>::empty() =~= old(diag)@);
            return;
        },
    };
    let ghost d0 = diag@;
    let n = bars.len();
    let mut i: usize = 0;
    while i < n
        invariant
            n == bars@.len(),
            0 <= i <= n,
            diag@ == d0 + bars_diags_upto(bars@, i as int),
        decreases n - i,
    {
        let name = bars.key_at(i);
        let ghost before = diag@;
        if !str_equal(name, "order") {
            match bars.value_at(i).as_table() {
                Some(bar) => {
                    let base = concat("bar.", name);
                    let mut paths: Vec<String> = Vec::new();
                    collect_unknown_keys(bar, SchemaId::BarFields, base.as_str(), SEARCH_DEPTH, &mut paths);
                    assert(strs_of(paths@) =~= unknown_paths(bar@, SchemaId::BarFields, base@, SEARCH_DEPTH as nat));
                    warn_bar_keys(&paths, base.as_str(), diag);
                    check_layer(bar, base.as_str(), diag);
                    check_monitors(bar, base.as_str(), diag);
                },
                None => {},
            }
        }
        assert(diag@ =~= before + one_bar_diags(bars@[i as int].0, bars@[i as int].1));
        assert(diag@ =~= d0 + bars_diags_upto(bars@, i as int + 1));
        i += 1;
    }
}

// ---- section keys ----

/// The paths under a section that are known although its schema does not list them.
pub open spec fn section_allowed_unknown(name: Seq<char>) -> Seq<Seq<char>> {
    if name == "wallpaper"@ {
        seq!["wallpaper.default"@, "wallpaper.last"@, "wallpaper.monitors"@, "wallpaper.favorite"@]
    } else {
        Seq::empty()
    }
}

/// An `unknown setting` warning for each of the first `n` paths that is not in `allowed`.
pub open spec fn allowed_setting_warnings(paths: Seq<Seq<char>>, allowed: Seq<Seq<char>>, n: int) -> Seq<DiagnosticEntryView>
    decreases n,
{
    if n <= 0 || n > paths.len() {
        Seq::empty()
    } else if allowed.contains(paths[n - 1]) {
        allowed_setting_warnings(paths, allowed, n - 1)
    } else {
        allowed_setting_warnings(paths, allowed, n - 1).push(warning(paths[n - 1], "unknown setting"@))
    }
}

/// The diagnostics of section `name`: warnings for the keys its schema does
/// not know, then the checks its readers make of the values.
pub open spec fn section_diags(root: TableData, name: Seq<char>, home: Option<Seq<char>>) -> Seq<DiagnosticEntryView> {
    match lookup(root, name) {
        Some(TomlData::Table(tbl)) => match section_schema(name) {
            Some(id) => {
                let paths = unknown_paths(tbl, id, name, SEARCH_DEPTH as nat);
                allowed_setting_warnings(paths, section_allowed_unknown(name), paths.len() as int)
                    + value_diags(tbl, id, name, home, SEARCH_DEPTH as nat)
            },
            None => Seq::empty(),
        },
        _ => Seq::empty(),
    }
}

/// The diagnostics of the first `n` registered sections, in registry order.
pub open spec fn sections_diags(root: TableData, home: Option<Seq<char>>, n: int) -> Seq<DiagnosticEntryView>
    decreases n,
{
    if n <= 0 || n > spec_section_names().len() {
        Seq::empty()
    } else {
        sections_diags(root, home, n - 1) + section_diags(root, spec_section_names()[n - 1], home)
    }
}

fn allowed_list(name: &str) -> (r: Vec<&'static str>)
    ensures
        strs_view(r@) == section_allowed_unknown(name@),
{
    if str_equal(name, "wallpaper") {
        let r: Vec<&'static str> = vec!["wallpaper.default", "wallpaper.last", "wallpaper.monitors", "wallpaper.favorite"];
        assert(strs_view(r@) =~= section_allowed_unknown(name@));
        r
    } else {
        let r: Vec<&'static str> = Vec::new();
        assert(strs_view(r@) =~= section_allowed_unknown(name@));
        r
    }
}

fn in_list(list: &Vec<&'static str>, s: &str) -> (r: bool)
    ensures
        r == strs_view(list@).contains(s@),
{
    let mut i: usize = 0;
    while i < list.len()
        invariant
            0 <= i <= list.len(),
            forall|k: int| 0 <= k < i ==> strs_view(list@)[k] != s@,
        decreases list.len() - i,
    {
        if str_equal(list[i], s) {
            assert(strs_view(list@)[i as int] == s@);
            return true;
        }
        i += 1;
    }
    false
}

fn warn_unlisted(paths: &Vec<String>, allowed: &Vec<&'static str>, diag: &mut Diagnostics)
    ensures
        final(diag)@ == old(diag)@ + allowed_setting_warnings(strs_of(paths@), strs_view(allowed@), paths@.len() as int),
{
    let ghost d0 = diag@;
    let ghost pv = strs_of(paths@);
    let mut i: usize = 0;
    while i < paths.len()
        invariant
            pv == strs_of(paths@),
            0 <= i <= paths.len(),
            diag@ == d0 + allowed_setting_warnings(pv, strs_view(allowed@), i as int),
        decreases paths.len() - i,
    {
        if !in_list(allowed, paths[i].as_str()) {
            diag.warn(paths[i].as_str(), "unknown setting");
        }
        assert(diag@ =~= d0 + allowed_setting_warnings(pv, strs_view(allowed@), i as int + 1));
        i += 1;
    }
}

/// Checks section `name` of `root`: the keys its schema does not know, then
/// the values as its readers read them (paths expand against `home`).
pub fn check_section(root: &TomlTable, name: &str, home: Option<&str>, diag: &mut Diagnostics)
    ensures
        final(diag)@ == old(diag)@ + section_diags(root@, name@, home_view(home)),
{
    let tbl = match root.get(name) {
        Some(TomlValue::Table(t)) => t,
        _ => {
            assert(old(diag)@ + Seq::<DiagnosticEntryView>::empty() =~= old(diag)@);
            return;
        },
    };
    match schema_of_section(name) {
        Some(id) => {
            let mut paths: Vec<String> = Vec::new();
            collect_unknown_keys(tbl, id, name, SEARCH_DEPTH, &mut paths);
            assert(strs_of(paths@) =~= unknown_paths(tbl@, id, name@, SEARCH_DEPTH as nat));
            warn_unlisted(&paths, &allowed_list(name), diag);
            check_values(tbl, id, name, home, SEARCH_DEPTH, diag);
        },
        None => {
            assert(old(diag)@ + Seq::<DiagnosticEntryView>::empty() =~= old(diag)@);
        },
    }
}

/// Checks every registered section in registry order (see [`check_section`];
/// the wallpaper section's `default`, `last`, `monitors` and `favorite` are
/// not unknown settings).
pub fn check_sections(root: &TomlTable, home: Option<&str>, diag: &mut Diagnostics)
    ensures
        final(diag)@ == old(diag)@ + sections_diags(root@, home_view(home), spec_section_names().len() as int),
{
    let names = section_names();
    let ghost d0 = diag@;
    let mut i: usize = 0;
    while i < names.len()
        invariant
            strs_view(names@) == spec_section_names(),
            names@.len() == spec_section_names().len(),
            0 <= i <= names.len(),
            diag@ == d0 + sections_diags(root@, home_view(home), i as int),
        decreases names.len() - i,
    {
        assert(strs_view(names@)[i as int] == names@[i as int]@);
        check_section(root, names[i], home, diag);
        assert(diag@ =~= d0 + sections_diags(root@, home_view(home), i as int + 1));
        i += 1;
    }
}

/// The diagnostics of a merged configuration, in the order the checks run:
/// each registered section (unknown keys, then values), calendar syntax,
/// location clocks, the bars, the `[include]` shape, then unknown root
/// sections. `home` is the home directory that `~` in paths expands to.
pub open spec fn merged_config_diags(merged: TableData, home: Option<Seq<char>>) -> Seq<DiagnosticEntryView> {
    sections_diags(merged, home, spec_section_names().len() as int)
        + calendar_syntax_diags(merged) + location_diags(merged) + bars_diags(merged)
        + include_shape_diags(merged) + unknown_section_diags(merged, merged.len() as int)
}

/// Validates a merged configuration: every check, in the order of
/// [`merged_config_diags`]. `home` is the value of `HOME`, if set: paths
/// in the configuration that start with `~` expand against it.
pub fn validate_merged_config(merged: &TomlTable, home: Option<&str>) -> (d: Diagnostics)
    ensures
        d@ == merged_config_diags(merged@, home_view(home)),
{
    let mut d = Diagnostics::new();
    check_sections(merged, home, &mut d);
    validate_calendar_syntax(merged, &mut d);
    validate_location(merged, &mut d);
    validate_bars(merged, &mut d);
    validate_include_shape(merged, &mut d);
    warn_unknown_sections(merged, &mut d);
    assert(d@ =~= merged_config_diags(merged@, home_view(home)));
    d
}

} // verus!
