//! Config migrations and legacy-config reminders.

pub mod notes;
pub mod radii;
pub mod bindings;
pub mod widgets;
pub mod schedule;
pub mod bar_actions;
pub mod lockscreen;
pub mod settled;

use vstd::prelude::*;
use vstd::string::StringSliceAdditionalSpecFns;
use crate::text::{chars_of, push_char, i64_to_decimal, spec_decimal_int, push_hex_padded, spec_hex_padded, concat};
use crate::value::{TomlTable, TomlData, TableData, lookup};
use crate::schema::diagnostics::{Diagnostics, DiagnosticEntryView, Severity, RecoveryScope, spec_entry};
use crate::migrations::notes::{MigrationNote, paths_view, notes_view};
use crate::migrations::radii::{migrate_negative_bar_radii, spec_migrate_negative_bar_radii, negative_bar_radii_paths};
use crate::migrations::schedule::{migrate_custom_schedule, spec_migrate_custom_schedule, custom_schedule_paths};
use crate::migrations::bar_actions::{
    migrate_widget_actions, spec_migrate_widget_actions, widget_actions_paths, migrate_dead_zone_actions,
    spec_migrate_dead_zone_actions, dead_zone_actions_notes,
};
use crate::migrations::widgets::{
    migrate_widget_gesture_settings, spec_migrate_widget_gesture_settings, widget_gesture_settings_notes,
    migrate_remaining_widget_gestures, spec_migrate_remaining_widget_gestures, remaining_widget_gestures_notes,
    migrate_custom_button_commands, spec_migrate_custom_button_commands, custom_button_commands_notes,
};
use crate::migrations::lockscreen::{migrate_lockscreen_login_box_deprecated_settings, spec_migrate_login_box_settings, login_box_settings_paths};

verus! {

/// The key of the document's schema version.
pub const K_CONFIG_VERSION_KEY: &'static str = "config_version";
/// How long a dismissed legacy-config reminder stays quiet: three days.
pub const K_LEGACY_CONFIG_REMINDER_INTERVAL_SECONDS: i64 = 259200;

/// A deprecated setting found in a configuration that predates a migration.
#[derive(Debug, Clone, PartialEq, Eq)]
pub struct LegacyConfigIssue {
    pub migration_version: i32,
    pub path: String,
    pub message: String,
}

/// The FNV-1a offset basis.
pub const FNV_OFFSET: u64 = 14695981039346656037;
/// The FNV-1a prime.
pub const FNV_PRIME: u64 = 1099511628211;

/// FNV-1a over `bytes`, starting from `h`.
pub open spec fn fnv1a(h: u64, bytes: Seq<u8>) -> u64
    decreases bytes.len(),
{
    if bytes.len() == 0 {
        h
    } else {
        ((fnv1a(h, bytes.drop_last()) ^ (bytes.last() as u64)) as u64).wrapping_mul(FNV_PRIME)
    }
}

/// The stable hash of an issue: FNV-1a over `<version>:<path>`.
pub open spec fn spec_stable_issue_hash(version: i32, path_bytes: Seq<u8>) -> u64 {
    fnv1a(fnv1a(fnv1a(FNV_OFFSET, vstd::utf8::encode_utf8(spec_decimal_int(version as int))), seq![0x3Au8]), path_bytes)
}

fn fnv1a_append(h: u64, bytes: &[u8]) -> (r: u64)
    ensures
        r == fnv1a(h, bytes@),
{
    let mut hash = h;
    let mut i: usize = 0;
    while i < bytes.len()
        invariant
            0 <= i <= bytes@.len(),
            bytes@.len() == bytes.len(),
            hash == fnv1a(h, bytes@.take(i as int)),
        decreases bytes.len() - i,
    {
        proof {
            assert(bytes@.take(i + 1).drop_last() =~= bytes@.take(i as int));
            assert(bytes@.take(i + 1).last() == bytes@[i as int]);
        }
        hash = (hash ^ (bytes[i] as u64)).wrapping_mul(FNV_PRIME);
        i += 1;
    }
    assert(bytes@.take(bytes@.len() as int) =~= bytes@);
    hash
}

/// The stable hash of an issue at `path` found by migration `migration_version`.
pub fn stable_issue_hash(migration_version: i32, path: &str) -> (r: u64)
    ensures
        r == spec_stable_issue_hash(migration_version, path.spec_bytes()),
{
    let v = i64_to_decimal(migration_version as i64);
    let mut hash = fnv1a_append(FNV_OFFSET, v.as_str().as_bytes());
    let colon: [u8; 1] = [0x3A];
    hash = fnv1a_append(hash, &colon);
    proof { assert(colon@ =~= seq![0x3Au8]); }
    fnv1a_append(hash, path.as_bytes())
}

/// `s` is strictly increasing.
pub open spec fn strictly_increasing(s: Seq<u64>) -> bool {
    forall|i: int, j: int| 0 <= i < j < s.len() ==> s[i] < s[j]
}

/// The comma-separated, zero-padded 16-digit hexadecimal numerals of `hashes`.
pub open spec fn spec_join_hex(hashes: Seq<u64>) -> Seq<char>
    decreases hashes.len(),
{
    if hashes.len() == 0 {
        Seq::empty()
    } else if hashes.len() == 1 {
        spec_hex_padded(hashes[0] as nat, 16)
    } else {
        spec_join_hex(hashes.drop_last()).push(',') + spec_hex_padded(hashes.last() as nat, 16)
    }
}

/// The stable hashes of `issues`, in order.
pub open spec fn issue_hashes(issues: Seq<LegacyConfigIssue>) -> Seq<u64> {
    issues.map_values(|i: LegacyConfigIssue| spec_stable_issue_hash(i.migration_version, vstd::utf8::encode_utf8(i.path@)))
}

/// The distinct values of `s` in increasing order.
pub open spec fn sorted_distinct(s: Seq<u64>) -> Seq<u64> {
    choose|hs: Seq<u64>| strictly_increasing(hs) && hs.to_set() == s.to_set()
}

/// The fingerprint of a set of legacy issues: the distinct stable issue hashes,
/// in increasing order, as zero-padded 16-digit hexadecimal numerals separated
/// by commas. It depends only on the set of (version, path) pairs, not on the
/// messages or the order of the issues.
pub open spec fn spec_issue_fingerprint(issues: Seq<LegacyConfigIssue>) -> Seq<char> {
    spec_join_hex(sorted_distinct(issue_hashes(issues)))
}

/// The fingerprint depends only on which (version, path) pairs occur: two
/// issue lists with the same pairs, in any order and with any messages, have
/// the same fingerprint.
pub proof fn lemma_fingerprint_ignores_order_and_messages(a: Seq<LegacyConfigIssue>, b: Seq<LegacyConfigIssue>)
    requires
        forall|i: int| 0 <= i < a.len() ==> exists|j: int| 0 <= j < b.len()
            && (#[trigger] a[i]).migration_version == (#[trigger] b[j]).migration_version && a[i].path@ == b[j].path@,
        forall|j: int| 0 <= j < b.len() ==> exists|i: int| 0 <= i < a.len()
            && (#[trigger] a[i]).migration_version == (#[trigger] b[j]).migration_version && a[i].path@ == b[j].path@,
    ensures
        spec_issue_fingerprint(a) == spec_issue_fingerprint(b),
{
    let ha = issue_hashes(a);
    let hb = issue_hashes(b);
    assert(ha.to_set() =~= hb.to_set()) by {
        assert forall|x: u64| ha.to_set().contains(x) implies hb.to_set().contains(x) by {
            let i = choose|i: int| 0 <= i < ha.len() && ha[i] == x;
            let j = choose|j: int| 0 <= j < b.len() && a[i].migration_version == b[j].migration_version && a[i].path@ == b[j].path@;
            assert(hb[j] == x);
        }
        assert forall|x: u64| hb.to_set().contains(x) implies ha.to_set().contains(x) by {
            let j = choose|j: int| 0 <= j < hb.len() && hb[j] == x;
            let i = choose|i: int| 0 <= i < a.len() && a[i].migration_version == b[j].migration_version && a[i].path@ == b[j].path@;
            assert(ha[i] == x);
        }
    }
}

proof fn lemma_sorted_distinct(s: Seq<u64>, hs: Seq<u64>)
    requires
        strictly_increasing(hs),
        hs.to_set() == s.to_set(),
    ensures
        sorted_distinct(s) == hs,
{
    let c = sorted_distinct(s);
    assert(strictly_increasing(c) && c.to_set() == s.to_set());
    lemma_increasing_unique(c, hs);
}

#[verifier::spinoff_prover]
proof fn lemma_increasing_unique(a: Seq<u64>, b: Seq<u64>)
    requires
        strictly_increasing(a),
        strictly_increasing(b),
        a.to_set() == b.to_set(),
    ensures
        a == b,
    decreases a.len() + b.len(),
{
    if a.len() == 0 || b.len() == 0 {
        broadcast use vstd::seq_lib::group_seq_properties;
        if a.len() > 0 {
            assert(a.contains(a[0]));
            assert(a.to_set().contains(a[0]));
            assert(b.to_set().contains(a[0]));
            assert(b.contains(a[0]));
            let j = choose|j: int| 0 <= j < b.len() && b[j] == a[0];
            assert(b.len() > 0);
        } else if b.len() > 0 {
            assert(b.contains(b[0]));
            assert(b.to_set().contains(b[0]));
            assert(a.to_set().contains(b[0]));
            assert(a.contains(b[0]));
            let j = choose|j: int| 0 <= j < a.len() && a[j] == b[0];
            assert(a.len() > 0);
        } else {
            assert(a =~= b);
        }
    } else {
        let x = a.last();
        let y = b.last();
        assert(a.to_set().contains(x));
        assert(b.to_set().contains(y));
        assert(x == y) by {
            if x < y {
                let j = choose|j: int| 0 <= j < a.len() && a[j] == y;
                assert(a[j] <= a.last());
            } else if y < x {
                let j = choose|j: int| 0 <= j < b.len() && b[j] == x;
                assert(b[j] <= b.last());
            }
        }
        let a2 = a.drop_last();
        let b2 = b.drop_last();
        assert(a2.to_set() =~= b2.to_set()) by {
            assert forall|v: u64| a2.to_set().contains(v) implies b2.to_set().contains(v) by {
                let i = choose|i: int| 0 <= i < a2.len() && a2[i] == v;
                assert(a.to_set().contains(v));
                let j = choose|j: int| 0 <= j < b.len() && b[j] == v;
                if j == b.len() - 1 {
                    assert(a[i] < a.last());
                }
                assert(b2[j] == v);
            }
            assert forall|v: u64| b2.to_set().contains(v) implies a2.to_set().contains(v) by {
                let i = choose|i: int| 0 <= i < b2.len() && b2[i] == v;
                assert(b.to_set().contains(v));
                let j = choose|j: int| 0 <= j < a.len() && a[j] == v;
                if j == a.len() - 1 {
                    assert(b[i] < b.last());
                }
                assert(a2[j] == v);
            }
        }
        lemma_increasing_unique(a2, b2);
        assert(a2.len() == b2.len());
        assert(a.len() == a2.len() + 1 && b.len() == b2.len() + 1);
        assert forall|k: int| 0 <= k < a.len() implies a[k] == b[k] by {
            if k < a.len() - 1 {
                assert(a[k] == a2[k]);
                assert(b[k] == b2[k]);
            }
        }
        assert(a =~= b);
    }
}

proof fn lemma_push_to_set(s: Seq<u64>, h: u64)
    ensures
        s.push(h).to_set() == s.to_set().insert(h),
{
    assert forall|x: u64| s.push(h).to_set().contains(x) implies s.to_set().insert(h).contains(x) by {
        let i = choose|i: int| 0 <= i < s.push(h).len() && s.push(h)[i] == x;
        if i < s.len() {
            assert(s[i] == x);
            assert(s.contains(x));
        }
    }
    assert forall|x: u64| s.to_set().insert(h).contains(x) implies s.push(h).to_set().contains(x) by {
        if x == h {
            assert(s.push(h)[s.len() as int] == h);
            assert(s.push(h).contains(h));
        } else {
            assert(s.contains(x));
            let i = choose|i: int| 0 <= i < s.len() && s[i] == x;
            assert(s.push(h)[i] == x);
            assert(s.push(h).contains(x));
        }
    }
    assert(s.push(h).to_set() =~= s.to_set().insert(h));
}

/// Inserts `h` into the strictly increasing `v`, unless already present.
fn insert_sorted(v: &mut Vec<u64>, h: u64)
    requires
        strictly_increasing(old(v)@),
    ensures
        strictly_increasing(final(v)@),
        final(v)@.to_set() == old(v)@.to_set().insert(h),
{
    let mut j: usize = 0;
    while j < v.len() && v[j] < h
        invariant
            0 <= j <= v.len(),
            forall|k: int| 0 <= k < j ==> v@[k] < h,
        decreases v.len() - j,
    {
        j += 1;
    }
    if j < v.len() && v[j] == h {
        assert(v@.to_set() =~= v@.to_set().insert(h)) by {
            assert(v@.to_set().contains(v@[j as int]));
        }
        return;
    }
    let ghost before = v@;
    v.insert(j, h);
    proof {
        assert forall|a: int, b: int| 0 <= a < b < v@.len() implies v@[a] < v@[b] by {
            if b < j {
            } else if b == j {
            } else if a < j {
                assert(v@[b] == before[b - 1]);
                assert(before[b - 1] > h || before[b - 1] >= h);
            } else if a == j {
                assert(v@[b] == before[b - 1]);
            } else {
                assert(v@[a] == before[a - 1]);
                assert(v@[b] == before[b - 1]);
            }
        }
        assert(v@.to_set() =~= before.to_set().insert(h)) by {
            assert forall|x: u64| v@.to_set().contains(x) implies before.to_set().insert(h).contains(x) by {
                let i = choose|i: int| 0 <= i < v@.len() && v@[i] == x;
                if i < j {
                    assert(before[i] == x);
                } else if i > j {
                    assert(before[i - 1] == x);
                }
            }
            assert forall|x: u64| before.to_set().insert(h).contains(x) implies v@.to_set().contains(x) by {
                if x == h {
                    assert(v@[j as int] == h);
                } else {
                    let i = choose|i: int| 0 <= i < before.len() && before[i] == x;
                    if i < j {
                        assert(v@[i] == x);
                    } else {
                        assert(v@[i + 1] == x);
                    }
                }
            }
        }
    }
}

/// The fingerprint of `issues` (see [`spec_issue_fingerprint`]).
pub fn legacy_config_issue_fingerprint(issues: &[LegacyConfigIssue]) -> (r: String)
    ensures
        r@ == spec_issue_fingerprint(issues@),
{
    let ghost hs = issue_hashes(issues@);
    let mut entries: Vec<u64> = Vec::new();
    let mut i: usize = 0;
    while i < issues.len()
        invariant
            0 <= i <= issues@.len(),
            issues@.len() == issues.len(),
            hs == issue_hashes(issues@),
            strictly_increasing(entries@),
            entries@.to_set() == hs.take(i as int).to_set(),
        decreases issues.len() - i,
    {
        let h = stable_issue_hash(issues[i].migration_version, issues[i].path.as_str());
        insert_sorted(&mut entries, h);
        proof {
            assert(hs[i as int] == h);
            assert(hs.take(i + 1) =~= hs.take(i as int).push(h));
            lemma_push_to_set(hs.take(i as int), h);
        }
        i += 1;
    }
    proof {
        assert(hs.take(i as int) =~= hs);
        lemma_sorted_distinct(hs, entries@);
    }
    let mut r = String::new();
    let mut k: usize = 0;
    while k < entries.len()
        invariant
            0 <= k <= entries@.len(),
            r@ == spec_join_hex(entries@.take(k as int)),
        decreases entries.len() - k,
    {
        proof {
            assert(entries@.take(k + 1).drop_last() =~= entries@.take(k as int));
            assert(entries@.take(k + 1).last() == entries@[k as int]);
        }
        if k > 0 {
            push_char(&mut r, ',');
        }
        push_hex_padded(&mut r, entries[k], 16);
        proof {
            if k == 0 {
                assert(spec_hex_padded(entries@[0] as nat, 16) =~= Seq::<char>::empty() + spec_hex_padded(entries@[0] as nat, 16));
            }
        }
        k += 1;
    }
    proof { assert(entries@.take(entries@.len() as int) =~= entries@); }
    r
}

/// `s` split at every comma (what `str::split(',')` yields: always at least one piece).
pub open spec fn split_commas(s: Seq<char>) -> Seq<Seq<char>>
    decreases s.len(),
{
    if s.len() == 0 {
        seq![Seq::empty()]
    } else {
        let p = split_commas(s.drop_last());
        if s.last() == ',' {
            p.push(Seq::empty())
        } else {
            p.update(p.len() - 1, p.last().push(s.last()))
        }
    }
}

/// The non-empty comma-separated entries of a fingerprint.
pub open spec fn fingerprint_entries(s: Seq<char>) -> Set<Seq<char>> {
    split_commas(s).to_set().filter(|e: Seq<char>| e.len() > 0)
}

/// The current fingerprint holds an entry the previous one did not.
pub open spec fn spec_fingerprint_has_new_issues(current: Seq<char>, previous: Seq<char>) -> bool {
    exists|e: Seq<char>| fingerprint_entries(current).contains(e) && !fingerprint_entries(previous).contains(e)
}

fn split_fingerprint(s: &str) -> (r: Vec<Vec<char>>)
    ensures
        r@.map_values(|v: Vec<char>| v@) == split_commas(s@),
{
    let cs = chars_of(s);
    let mut r: Vec<Vec<char>> = Vec::new();
    r.push(Vec::new());
    let mut i: usize = 0;
    proof { assert(r@.map_values(|v: Vec<char>| v@) =~= split_commas(s@.take(0))); }
    while i < cs.len()
        invariant
            cs@ == s@,
            0 <= i <= cs@.len(),
            r@.len() >= 1,
            r@.map_values(|v: Vec<char>| v@) == split_commas(s@.take(i as int)),
        decreases cs.len() - i,
    {
        proof {
            assert(s@.take(i + 1).drop_last() =~= s@.take(i as int));
            assert(s@.take(i + 1).last() == s@[i as int]);
        }
        let c = cs[i];
        if c == ',' {
            r.push(Vec::new());
            proof {
                assert(r@.map_values(|v: Vec<char>| v@) =~= split_commas(s@.take(i as int)).push(Seq::empty()));
            }
        } else {
            let last = r.len() - 1;
            let mut piece = r.remove(last);
            let ghost old_piece = piece@;
            piece.push(c);
            r.push(piece);
            proof {
                let p = split_commas(s@.take(i as int));
                assert(r@.map_values(|v: Vec<char>| v@) =~= p.update(p.len() - 1, p.last().push(c)));
            }
        }
        i += 1;
    }
    proof { assert(s@.take(cs@.len() as int) =~= s@); }
    r
}

fn same_chars(a: &Vec<char>, b: &Vec<char>) -> (r: bool)
    ensures
        r == (a@ == b@),
{
    if a.len() != b.len() {
        return false;
    }
    let mut i: usize = 0;
    while i < a.len()
        invariant
            a.len() == b.len(),
            0 <= i <= a.len(),
            forall|k: int| 0 <= k < i ==> a@[k] == b@[k],
        decreases a.len() - i,
    {
        if a[i] != b[i] {
            return false;
        }
        i += 1;
    }
    assert(a@ =~= b@);
    true
}

/// Whether `current_fingerprint` holds an issue that `previous_fingerprint` does not.
pub fn legacy_config_fingerprint_has_new_issues(current_fingerprint: &str, previous_fingerprint: &str) -> (r: bool)
    ensures
        r == spec_fingerprint_has_new_issues(current_fingerprint@, previous_fingerprint@),
{
    let cur = split_fingerprint(current_fingerprint);
    let prev = split_fingerprint(previous_fingerprint);
    let ghost cv = cur@.map_values(|v: Vec<char>| v@);
    let ghost pv = prev@.map_values(|v: Vec<char>| v@);
    let mut i: usize = 0;
    while i < cur.len()
        invariant
            0 <= i <= cur@.len(),
            cv == cur@.map_values(|v: Vec<char>| v@),
            pv == prev@.map_values(|v: Vec<char>| v@),
            cv == split_commas(current_fingerprint@),
            pv == split_commas(previous_fingerprint@),
            forall|k: int| 0 <= k < i ==> cv[k].len() == 0 || pv.contains(#[trigger] cv[k]),
        decreases cur.len() - i,
    {
        if cur[i].len() > 0 {
            let mut found = false;
            let mut j: usize = 0;
            while j < prev.len()
                invariant
                    0 <= j <= prev@.len(),
                    pv == prev@.map_values(|v: Vec<char>| v@),
                    cv == cur@.map_values(|v: Vec<char>| v@),
                    0 <= i < cur@.len(),
                    found ==> pv.contains(cv[i as int]),
                    !found ==> forall|m: int| 0 <= m < j ==> pv[m] != cv[i as int],
                decreases prev.len() - j,
            {
                if same_chars(&prev[j], &cur[i]) {
                    proof { assert(pv[j as int] == cv[i as int]); }
                    found = true;
                }
                j += 1;
            }
            if !found {
                proof {
                    let e = cv[i as int];
                    assert(split_commas(current_fingerprint@).to_set().contains(e));
                    assert(fingerprint_entries(current_fingerprint@).contains(e));
                    assert(!fingerprint_entries(previous_fingerprint@).contains(e));
                }
                return true;
            }
        }
        i += 1;
    }
    proof {
        assert forall|e: Seq<char>| fingerprint_entries(current_fingerprint@).contains(e)
            implies fingerprint_entries(previous_fingerprint@).contains(e) by {
            let k = choose|k: int| 0 <= k < cv.len() && cv[k] == e;
            assert(pv.contains(cv[k]));
            assert(pv.to_set().contains(e));
        }
    }
    false
}

/// Whether the reminder interval has passed since `previous_epoch_seconds`, or
/// the clock went backwards.
pub fn legacy_config_reminder_interval_elapsed(now_epoch_seconds: i64, previous_epoch_seconds: i64) -> (r: bool)
    requires
        previous_epoch_seconds > now_epoch_seconds
            || now_epoch_seconds - previous_epoch_seconds <= i64::MAX,
    ensures
        r == (previous_epoch_seconds > now_epoch_seconds
            || now_epoch_seconds - previous_epoch_seconds >= K_LEGACY_CONFIG_REMINDER_INTERVAL_SECONDS),
{
    previous_epoch_seconds > now_epoch_seconds
        || now_epoch_seconds - previous_epoch_seconds >= K_LEGACY_CONFIG_REMINDER_INTERVAL_SECONDS
}

/// One migration of the configuration document.
#[derive(Debug, Clone, Copy, PartialEq, Eq, Structural)]
pub enum MigrationStep {
    /// Negative bar corner radii become concave edge corners.
    NegativeBarRadii,
    /// Legacy sunset/sunrise schedules opt into `custom_schedule`.
    CustomSchedule,
    /// `shell.middle_click_opens_widget_settings` becomes bar middle-click bindings.
    WidgetActions,
    /// Widget `enable_scroll` and `cycle_command` become gesture bindings.
    WidgetGestureSettings,
    /// Widget `scroll_step` and `primary_click` become gesture bindings.
    RemainingWidgetGestures,
    /// Custom-button commands become gesture bindings.
    CustomButtonCommands,
    /// Dead-zone commands become gesture bindings.
    DeadZoneActions,
    /// The removed login-box `show_password_hint` is dropped.
    LoginBoxSettings,
}

/// A registered migration: the version it brings a document to, a summary,
/// and the step it runs.
#[derive(Debug, Clone, Copy)]
pub struct ConfigMigration {
    pub to_version: i32,
    pub summary: &'static str,
    pub step: MigrationStep,
}

impl View for ConfigMigration {
    type V = (i32, MigrationStep);

    open spec fn view(&self) -> (i32, MigrationStep) {
        (self.to_version, self.step)
    }
}

/// The step that brings a document to configuration version `v` (1 to 8).
pub open spec fn step_for_version(v: int) -> MigrationStep {
    if v == 1 { MigrationStep::NegativeBarRadii }
    else if v == 2 { MigrationStep::CustomSchedule }
    else if v == 3 { MigrationStep::WidgetActions }
    else if v == 4 { MigrationStep::WidgetGestureSettings }
    else if v == 5 { MigrationStep::RemainingWidgetGestures }
    else if v == 6 { MigrationStep::CustomButtonCommands }
    else if v == 7 { MigrationStep::DeadZoneActions }
    else { MigrationStep::LoginBoxSettings }
}

/// The configuration version that the registered migrations reach.
pub open spec fn spec_current_config_version() -> i32 {
    8
}

/// The document after `step`.
pub open spec fn spec_apply_step(step: MigrationStep, root: TableData) -> TableData {
    match step {
        MigrationStep::NegativeBarRadii => spec_migrate_negative_bar_radii(root),
        MigrationStep::CustomSchedule => spec_migrate_custom_schedule(root),
        MigrationStep::WidgetActions => spec_migrate_widget_actions(root),
        MigrationStep::WidgetGestureSettings => spec_migrate_widget_gesture_settings(root),
        MigrationStep::RemainingWidgetGestures => spec_migrate_remaining_widget_gestures(root),
        MigrationStep::CustomButtonCommands => spec_migrate_custom_button_commands(root),
        MigrationStep::DeadZoneActions => spec_migrate_dead_zone_actions(root),
        MigrationStep::LoginBoxSettings => spec_migrate_login_box_settings(root),
    }
}

/// Each path paired with `message`.
pub open spec fn with_message(paths: Seq<Seq<char>>, message: Seq<char>) -> Seq<(Seq<char>, Seq<char>)> {
    paths.map_values(|p: Seq<char>| (p, message))
}

/// The `(path, message)` warnings that `step` records when it migrates `root`.
pub open spec fn step_warnings(step: MigrationStep, root: TableData) -> Seq<(Seq<char>, Seq<char>)> {
    match step {
        MigrationStep::NegativeBarRadii => with_message(negative_bar_radii_paths(root), "migrated negative corner radii to concave_edge_corners"@),
        MigrationStep::CustomSchedule => with_message(custom_schedule_paths(root), "sunset/sunrise now require custom_schedule; enabled it to keep the schedule"@),
        MigrationStep::WidgetActions => with_message(widget_actions_paths(root), "middle_click_opens_widget_settings is now the `middle` widget gesture binding"@),
        MigrationStep::WidgetGestureSettings => widget_gesture_settings_notes(root),
        MigrationStep::RemainingWidgetGestures => remaining_widget_gestures_notes(root),
        MigrationStep::CustomButtonCommands => custom_button_commands_notes(root),
        MigrationStep::DeadZoneActions => dead_zone_actions_notes(root),
        MigrationStep::LoginBoxSettings => with_message(login_box_settings_paths(root), "removed deprecated show_password_hint"@),
    }
}

/// The advisory warning entries recorded for `(path, message)` pairs.
pub open spec fn warning_entries(ws: Seq<(Seq<char>, Seq<char>)>) -> Seq<DiagnosticEntryView> {
    ws.map_values(|w: (Seq<char>, Seq<char>)| spec_entry(Severity::Warning, RecoveryScope::Advisory, "config.warning"@, w.0, w.1, Seq::empty()))
}

fn warn_paths(diag: &mut Diagnostics, paths: &Vec<String>, message: &str)
    ensures
        final(diag)@ == old(diag)@ + warning_entries(with_message(paths_view(paths@), message@)),
{
    let mut i: usize = 0;
    while i < paths.len()
        invariant
            0 <= i <= paths.len(),
            diag@ == old(diag)@ + warning_entries(with_message(paths_view(paths@), message@)).take(i as int),
        decreases paths.len() - i,
    {
        diag.warn(paths[i].as_str(), message);
        assert(warning_entries(with_message(paths_view(paths@), message@)).take(i as int + 1)
            =~= warning_entries(with_message(paths_view(paths@), message@)).take(i as int).push(
                spec_entry(Severity::Warning, RecoveryScope::Advisory, "config.warning"@, paths@[i as int]@, message@, Seq::empty())));
        i += 1;
    }
    assert(warning_entries(with_message(paths_view(paths@), message@)).take(i as int)
        =~= warning_entries(with_message(paths_view(paths@), message@)));
}

fn warn_notes(diag: &mut Diagnostics, notes: &Vec<MigrationNote>)
    ensures
        final(diag)@ == old(diag)@ + warning_entries(notes_view(notes@)),
{
    let mut i: usize = 0;
    while i < notes.len()
        invariant
            0 <= i <= notes.len(),
            diag@ == old(diag)@ + warning_entries(notes_view(notes@)).take(i as int),
        decreases notes.len() - i,
    {
        diag.warn(notes[i].path.as_str(), notes[i].message.as_str());
        assert(warning_entries(notes_view(notes@)).take(i as int + 1)
            =~= warning_entries(notes_view(notes@)).take(i as int).push(
                spec_entry(Severity::Warning, RecoveryScope::Advisory, "config.warning"@, notes@[i as int].path@, notes@[i as int].message@, Seq::empty())));
        i += 1;
    }
    assert(warning_entries(notes_view(notes@)).take(i as int) =~= warning_entries(notes_view(notes@)));
}

/// Runs one migration step on `root`, recording an advisory warning for each
/// place it changed.
pub fn apply_migration(step: MigrationStep, root: &mut TomlTable, diag: &mut Diagnostics)
    ensures
        final(root)@ == spec_apply_step(step, old(root)@),
        final(diag)@ == old(diag)@ + warning_entries(step_warnings(step, old(root)@)),
{
    match step {
        MigrationStep::NegativeBarRadii => {
            let paths = migrate_negative_bar_radii(root);
            warn_paths(diag, &paths, "migrated negative corner radii to concave_edge_corners");
        },
        MigrationStep::CustomSchedule => {
            let paths = migrate_custom_schedule(root);
            warn_paths(diag, &paths, "sunset/sunrise now require custom_schedule; enabled it to keep the schedule");
        },
        MigrationStep::WidgetActions => {
            let paths = migrate_widget_actions(root);
            warn_paths(diag, &paths, "middle_click_opens_widget_settings is now the `middle` widget gesture binding");
        },
        MigrationStep::WidgetGestureSettings => {
            let notes = migrate_widget_gesture_settings(root);
            warn_notes(diag, &notes);
        },
        MigrationStep::RemainingWidgetGestures => {
            let notes = migrate_remaining_widget_gestures(root);
            warn_notes(diag, &notes);
        },
        MigrationStep::CustomButtonCommands => {
            let notes = migrate_custom_button_commands(root);
            warn_notes(diag, &notes);
        },
        MigrationStep::DeadZoneActions => {
            let notes = migrate_dead_zone_actions(root);
            warn_notes(diag, &notes);
        },
        MigrationStep::LoginBoxSettings => {
            let paths = migrate_lockscreen_login_box_deprecated_settings(root);
            warn_paths(diag, &paths, "removed deprecated show_password_hint");
        },
    }
}

/// The summary of the migration to version `v` (1 to 8).
pub open spec fn migration_summary(v: int) -> Seq<char> {
    if v == 1 { "bar: migrate negative corner radii"@ }
    else if v == 2 { "location: opt legacy sunset/sunrise schedules into custom_schedule"@ }
    else if v == 3 { "bar: move middle_click_opens_widget_settings to widget gesture actions"@ }
    else if v == 4 { "widget: move enable_scroll and cycle_command to gesture actions"@ }
    else if v == 5 { "widget: move scroll_step and primary_click to gesture actions"@ }
    else if v == 6 { "widget: move custom_button commands to gesture actions"@ }
    else if v == 7 { "bar: move dead zone commands to gesture actions"@ }
    else { "lockscreen: drop removed login box show_password_hint setting"@ }
}

/// The registered migrations, in order: version `k` is reached by the `k`-th.
pub fn config_migrations() -> (ms: Vec<ConfigMigration>)
    ensures
        ms@.len() == spec_current_config_version(),
        forall|i: int| 0 <= i < ms@.len() ==> #[trigger] ms@[i].to_version == i + 1 && ms@[i].step == step_for_version(i + 1)
            && ms@[i].summary@ == migration_summary(i + 1),
{
    let ms = vec![
        ConfigMigration { to_version: 1, summary: "bar: migrate negative corner radii", step: MigrationStep::NegativeBarRadii },
        ConfigMigration { to_version: 2, summary: "location: opt legacy sunset/sunrise schedules into custom_schedule", step: MigrationStep::CustomSchedule },
        ConfigMigration { to_version: 3, summary: "bar: move middle_click_opens_widget_settings to widget gesture actions", step: MigrationStep::WidgetActions },
        ConfigMigration { to_version: 4, summary: "widget: move enable_scroll and cycle_command to gesture actions", step: MigrationStep::WidgetGestureSettings },
        ConfigMigration { to_version: 5, summary: "widget: move scroll_step and primary_click to gesture actions", step: MigrationStep::RemainingWidgetGestures },
        ConfigMigration { to_version: 6, summary: "widget: move custom_button commands to gesture actions", step: MigrationStep::CustomButtonCommands },
        ConfigMigration { to_version: 7, summary: "bar: move dead zone commands to gesture actions", step: MigrationStep::DeadZoneActions },
        ConfigMigration { to_version: 8, summary: "lockscreen: drop removed login box show_password_hint setting", step: MigrationStep::LoginBoxSettings },
    ];
    ms
}

/// The version of the last registered migration.
pub fn current_config_version() -> (v: i32)
    ensures
        v == spec_current_config_version(),
{
    let ms = config_migrations();
    match ms.last() {
        Some(m) => m.to_version,
        None => 0,
    }
}

/// The document after running, in order, the migrations of `ms` whose version
/// is above `stored`, among the first `n`.
pub open spec fn pending_root(ms: Seq<(i32, MigrationStep)>, stored: i32, root: TableData, n: int) -> TableData
    decreases n,
{
    if n <= 0 {
        root
    } else {
        let prev = pending_root(ms, stored, root, n - 1);
        if ms[n - 1].0 <= stored { prev } else { spec_apply_step(ms[n - 1].1, prev) }
    }
}

/// The warnings recorded by the migrations that [`pending_root`] runs.
pub open spec fn pending_warnings(ms: Seq<(i32, MigrationStep)>, stored: i32, root: TableData, n: int) -> Seq<(Seq<char>, Seq<char>)>
    decreases n,
{
    if n <= 0 {
        Seq::empty()
    } else {
        let prev = pending_warnings(ms, stored, root, n - 1);
        if ms[n - 1].0 <= stored {
            prev
        } else {
            prev + step_warnings(ms[n - 1].1, pending_root(ms, stored, root, n - 1))
        }
    }
}

/// The version reached: that of the last migration run, or `stored` when none ran.
pub open spec fn pending_version(ms: Seq<(i32, MigrationStep)>, stored: i32, n: int) -> i32
    decreases n,
{
    if n <= 0 {
        stored
    } else if ms[n - 1].0 <= stored {
        pending_version(ms, stored, n - 1)
    } else {
        ms[n - 1].0
    }
}

/// The views of a list of migrations.
pub open spec fn migrations_view(ms: Seq<ConfigMigration>) -> Seq<(i32, MigrationStep)> {
    ms.map_values(|m: ConfigMigration| m@)
}

/// Runs, in order, each migration of `migrations` whose version is above
/// `stored_version`; returns the version of the last one run, or
/// `stored_version` when none ran.
pub fn apply_pending_config_migrations(
    root: &mut TomlTable,
    stored_version: i32,
    diag: &mut Diagnostics,
    migrations: &[ConfigMigration],
) -> (applied: i32)
    ensures
        final(root)@ == pending_root(migrations_view(migrations@), stored_version, old(root)@, migrations@.len() as int),
        final(diag)@ == old(diag)@ + warning_entries(
            pending_warnings(migrations_view(migrations@), stored_version, old(root)@, migrations@.len() as int),
        ),
        applied == pending_version(migrations_view(migrations@), stored_version, migrations@.len() as int),
{
    let ghost ms = migrations_view(migrations@);
    let ghost r0 = root@;
    let ghost d0 = diag@;
    let mut applied_version = stored_version;
    let mut i: usize = 0;
    while i < migrations.len()
        invariant
            ms == migrations_view(migrations@),
            0 <= i <= migrations@.len(),
            root@ == pending_root(ms, stored_version, r0, i as int),
            diag@ == d0 + warning_entries(pending_warnings(ms, stored_version, r0, i as int)),
            applied_version == pending_version(ms, stored_version, i as int),
        decreases migrations@.len() - i,
    {
        let m = &migrations[i];
        assert(ms[i as int] == m@);
        if m.to_version > stored_version {
            let ghost before = root@;
            apply_migration(m.step, root, diag);
            applied_version = m.to_version;
            assert(warning_entries(pending_warnings(ms, stored_version, r0, i as int + 1))
                =~= warning_entries(pending_warnings(ms, stored_version, r0, i as int))
                    + warning_entries(step_warnings(m.step, before)));
        }
        i += 1;
    }
    applied_version
}

/// The message of the diagnostic for a version that is not a non-negative `i32`.
pub open spec fn invalid_version_message() -> Seq<char> {
    "expected a non-negative integer"@
}

/// The message of the diagnostic for a version newer than this build supports.
pub open spec fn unsupported_version_message(v: i64) -> Seq<char> {
    "version "@ + spec_decimal_int(v as int) + " is newer than supported version "@ + spec_decimal_int(spec_current_config_version() as int)
}

/// The stored `config_version`: `Some(0)` when absent, the version when it is
/// an integer from 0 to the current version. Otherwise `None`, with a fatal
/// diagnostic (`config.version.invalid` when it is not an integer in `i32`
/// range, `config.version.unsupported` when it is newer than this build).
pub fn stored_config_version(root: &TomlTable, diag: &mut Diagnostics) -> (r: Option<i32>)
    ensures
        match lookup(root@, K_CONFIG_VERSION_KEY@) {
            None => r == Some(0i32) && final(diag)@ == old(diag)@,
            Some(TomlData::Integer(v)) => if 0 <= v <= i32::MAX {
                if v <= spec_current_config_version() {
                    r == Some(v as i32) && final(diag)@ == old(diag)@
                } else {
                    r is None && final(diag)@ == old(diag)@.push(spec_entry(Severity::Error, RecoveryScope::Document,
                        "config.version.unsupported"@, K_CONFIG_VERSION_KEY@, unsupported_version_message(v), Seq::empty()))
                }
            } else {
                r is None && final(diag)@ == old(diag)@.push(spec_entry(Severity::Error, RecoveryScope::Document,
                    "config.version.invalid"@, K_CONFIG_VERSION_KEY@, invalid_version_message(), Seq::empty()))
            },
            Some(_) => r is None && final(diag)@ == old(diag)@.push(spec_entry(Severity::Error, RecoveryScope::Document,
                "config.version.invalid"@, K_CONFIG_VERSION_KEY@, invalid_version_message(), Seq::empty())),
        },
{
    let node = match root.get(K_CONFIG_VERSION_KEY) {
        None => {
            return Some(0);
        },
        Some(node) => node,
    };
    let value = match node.as_integer() {
        None => {
            diag.fatal_with_code(K_CONFIG_VERSION_KEY, "expected a non-negative integer", "config.version.invalid");
            return None;
        },
        Some(value) => value,
    };
    if value < 0 || value > 2147483647 {
        diag.fatal_with_code(K_CONFIG_VERSION_KEY, "expected a non-negative integer", "config.version.invalid");
        return None;
    }
    let version = value as i32;
    let current = current_config_version();
    if version > current {
        let a = concat("version ", i64_to_decimal(value).as_str());
        let b = concat(a.as_str(), " is newer than supported version ");
        let message = concat(b.as_str(), i64_to_decimal(current as i64).as_str());
        assert(message@ =~= unsupported_version_message(value));
        diag.fatal_with_code(K_CONFIG_VERSION_KEY, message.as_str(), "config.version.unsupported");
        return None;
    }
    Some(version)
}

impl View for LegacyConfigIssue {
    type V = (i32, Seq<char>, Seq<char>);

    open spec fn view(&self) -> (i32, Seq<char>, Seq<char>) {
        (self.migration_version, self.path@, self.message@)
    }
}

/// The `(version, path, message)` triples of a list of issues.
pub open spec fn issues_view(v: Seq<LegacyConfigIssue>) -> Seq<(i32, Seq<char>, Seq<char>)> {
    v.map_values(|i: LegacyConfigIssue| i@)
}

/// Each `(path, message)` pair as an issue of migration `version`.
pub open spec fn as_issues(version: i32, ws: Seq<(Seq<char>, Seq<char>)>) -> Seq<(i32, Seq<char>, Seq<char>)> {
    ws.map_values(|w: (Seq<char>, Seq<char>)| (version, w.0, w.1))
}

/// The issues that the migration to version `v` reports for `root` when a
/// legacy configuration is normalized.
pub open spec fn legacy_issues_of(v: int, root: TableData) -> Seq<(i32, Seq<char>, Seq<char>)> {
    let vv = v as i32;
    if v == 1 {
        as_issues(vv, with_message(negative_bar_radii_paths(root), "negative corner radii are deprecated; use positive radii and concave_edge_corners = true"@))
    } else if v == 2 {
        as_issues(vv, with_message(custom_schedule_paths(root), "sunset/sunrise no longer schedule on their own; set custom_schedule = true"@))
    } else if v == 3 {
        as_issues(vv, with_message(widget_actions_paths(root), "middle_click_opens_widget_settings is now the `middle` bar widget gesture binding"@))
    } else if v == 8 {
        as_issues(vv, with_message(login_box_settings_paths(root), "removed deprecated show_password_hint"@))
    } else {
        as_issues(vv, step_warnings(step_for_version(v), root))
    }
}

/// The document after the migrations to versions 1 through `n`.
pub open spec fn migrated_through(root: TableData, n: int) -> TableData
    decreases n,
{
    if n <= 0 { root } else { spec_apply_step(step_for_version(n), migrated_through(root, n - 1)) }
}

/// The issues reported by the migrations to versions 1 through `n`, in order.
pub open spec fn legacy_issues_through(root: TableData, n: int) -> Seq<(i32, Seq<char>, Seq<char>)>
    decreases n,
{
    if n <= 0 {
        Seq::empty()
    } else {
        legacy_issues_through(root, n - 1) + legacy_issues_of(n, migrated_through(root, n - 1))
    }
}

fn push_path_issues(issues: &mut Vec<LegacyConfigIssue>, version: i32, paths: &Vec<String>, message: &str)
    ensures
        issues_view(final(issues)@) == issues_view(old(issues)@) + as_issues(version, with_message(paths_view(paths@), message@)),
{
    let mut i: usize = 0;
    while i < paths.len()
        invariant
            0 <= i <= paths.len(),
            issues_view(issues@) == issues_view(old(issues)@) + as_issues(version, with_message(paths_view(paths@), message@)).take(i as int),
        decreases paths.len() - i,
    {
        let ghost before = issues@;
        issues.push(LegacyConfigIssue { migration_version: version, path: paths[i].clone(), message: message.to_owned() });
        assert(as_issues(version, with_message(paths_view(paths@), message@)).take(i as int + 1)
            =~= as_issues(version, with_message(paths_view(paths@), message@)).take(i as int).push((version, paths@[i as int]@, message@)));
        assert(issues_view(issues@) =~= issues_view(before).push((version, paths@[i as int]@, message@)));
        i += 1;
    }
    assert(as_issues(version, with_message(paths_view(paths@), message@)).take(i as int)
        =~= as_issues(version, with_message(paths_view(paths@), message@)));
}

fn push_note_issues(issues: &mut Vec<LegacyConfigIssue>, version: i32, notes: &Vec<MigrationNote>)
    ensures
        issues_view(final(issues)@) == issues_view(old(issues)@) + as_issues(version, notes_view(notes@)),
{
    let mut i: usize = 0;
    while i < notes.len()
        invariant
            0 <= i <= notes.len(),
            issues_view(issues@) == issues_view(old(issues)@) + as_issues(version, notes_view(notes@)).take(i as int),
        decreases notes.len() - i,
    {
        let ghost before = issues@;
        issues.push(LegacyConfigIssue { migration_version: version, path: notes[i].path.clone(), message: notes[i].message.clone() });
        assert(as_issues(version, notes_view(notes@)).take(i as int + 1)
            =~= as_issues(version, notes_view(notes@)).take(i as int).push((version, notes@[i as int].path@, notes@[i as int].message@)));
        assert(issues_view(issues@) =~= issues_view(before).push((version, notes@[i as int].path@, notes@[i as int].message@)));
        i += 1;
    }
    assert(as_issues(version, notes_view(notes@)).take(i as int) =~= as_issues(version, notes_view(notes@)));
}

/// Runs every registered migration on `root`, whatever its stored version,
/// and appends an issue for each place a migration changed.
pub fn normalize_legacy_config(root: &mut TomlTable, issues: &mut Vec<LegacyConfigIssue>)
    ensures
        final(root)@ == migrated_through(old(root)@, spec_current_config_version() as int),
        issues_view(final(issues)@) == issues_view(old(issues)@) + legacy_issues_through(old(root)@, spec_current_config_version() as int),
{
    let ghost r0 = root@;
    let ghost i0 = issues_view(issues@);
    assert(migrated_through(r0, 0) == r0);
    assert(legacy_issues_through(r0, 0) =~= Seq::<(i32, Seq<char>, Seq<char>)>::empty());
    let p1 = migrate_negative_bar_radii(root);
    push_path_issues(issues, 1, &p1, "negative corner radii are deprecated; use positive radii and concave_edge_corners = true");
    assert(root@ == migrated_through(r0, 1));
    assert(issues_view(issues@) =~= i0 + legacy_issues_through(r0, 1));
    let p2 = migrate_custom_schedule(root);
    push_path_issues(issues, 2, &p2, "sunset/sunrise no longer schedule on their own; set custom_schedule = true");
    assert(root@ == migrated_through(r0, 2));
    assert(issues_view(issues@) =~= i0 + legacy_issues_through(r0, 2));
    let p3 = migrate_widget_actions(root);
    push_path_issues(issues, 3, &p3, "middle_click_opens_widget_settings is now the `middle` bar widget gesture binding");
    assert(root@ == migrated_through(r0, 3));
    assert(issues_view(issues@) =~= i0 + legacy_issues_through(r0, 3));
    let n4 = migrate_widget_gesture_settings(root);
    push_note_issues(issues, 4, &n4);
    assert(root@ == migrated_through(r0, 4));
    assert(issues_view(issues@) =~= i0 + legacy_issues_through(r0, 4));
    let n5 = migrate_remaining_widget_gestures(root);
    push_note_issues(issues, 5, &n5);
    assert(root@ == migrated_through(r0, 5));
    assert(issues_view(issues@) =~= i0 + legacy_issues_through(r0, 5));
    let n6 = migrate_custom_button_commands(root);
    push_note_issues(issues, 6, &n6);
    assert(root@ == migrated_through(r0, 6));
    assert(issues_view(issues@) =~= i0 + legacy_issues_through(r0, 6));
    let n7 = migrate_dead_zone_actions(root);
    push_note_issues(issues, 7, &n7);
    assert(root@ == migrated_through(r0, 7));
    assert(issues_view(issues@) =~= i0 + legacy_issues_through(r0, 7));
    let p8 = migrate_lockscreen_login_box_deprecated_settings(root);
    push_path_issues(issues, 8, &p8, "removed deprecated show_password_hint");
    assert(root@ == migrated_through(r0, 8));
    assert(issues_view(issues@) =~= i0 + legacy_issues_through(r0, 8));
}


/// The document after the migrations to versions `stored + 1` through `n`.
pub open spec fn migrated_between(root: TableData, stored: i32, n: int) -> TableData
    decreases n,
{
    if n <= 0 {
        root
    } else {
        let prev = migrated_between(root, stored, n - 1);
        if n <= stored { prev } else { spec_apply_step(step_for_version(n), prev) }
    }
}

/// The document brought from version `stored` to the current version.
pub open spec fn migrated_from(root: TableData, stored: i32) -> TableData {
    migrated_between(root, stored, spec_current_config_version() as int)
}

/// `ms` lists the migrations to versions 1 through the current one, in order.
pub open spec fn is_registry(ms: Seq<ConfigMigration>) -> bool {
    &&& ms.len() == spec_current_config_version()
    &&& forall|i: int| 0 <= i < ms.len() ==> (#[trigger] ms[i]).to_version == i + 1 && ms[i].step == step_for_version(i + 1)
}

/// The registered migrations run from version `stored` give [`migrated_between`].
pub proof fn lemma_registry_pending(ms: Seq<ConfigMigration>, stored: i32, root: TableData, n: int)
    requires
        is_registry(ms),
        0 <= n <= ms.len(),
    ensures
        pending_root(migrations_view(ms), stored, root, n) == migrated_between(root, stored, n),
    decreases n,
{
    if n > 0 {
        lemma_registry_pending(ms, stored, root, n - 1);
        assert(ms[n - 1].to_version == n);
        assert(migrations_view(ms)[n - 1] == (ms[n - 1].to_version, ms[n - 1].step));
    }
}

/// Once a document is at a version, the migrations up to it are skipped:
/// running the migrations from a version at or above `n` changes nothing.
pub proof fn lemma_current_document_unchanged(root: TableData, stored: i32, n: int)
    requires
        n <= stored,
    ensures
        migrated_between(root, stored, n) == root,
    decreases n,
{
    if n > 0 {
        lemma_current_document_unchanged(root, stored, n - 1);
    }
}

} // verus!
