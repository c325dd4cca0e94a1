//! Bar helpers: capsule group tokens, output selectors, dead zones.

use std::collections::HashMap;
use vstd::prelude::*;
use vstd::string::StringSliceAdditionalSpecFns;
use crate::text::{chars_of, str_equal, spec_trim, lemma_trim_bounds};

verus! {

/// C's `isspace` byte set: space, tab, newline, vertical tab, form feed, carriage return.
pub open spec fn spec_is_c_isspace_byte(b: u8) -> bool {
    b == 0x20 || b == 0x09 || b == 0x0A || b == 0x0B || b == 0x0C || b == 0x0D
}

/// Whether `b` is one of C's `isspace` bytes.
pub fn is_c_isspace_byte(b: u8) -> (r: bool)
    ensures
        r == spec_is_c_isspace_byte(b),
{
    b == 0x20 || b == 0x09 || b == 0x0A || b == 0x0B || b == 0x0C || b == 0x0D
}

/// An ASCII character in C's `isspace` set.
pub open spec fn spec_is_c_isspace_char(c: char) -> bool {
    c == ' ' || c == '\t' || c == '\n' || c == '\x0B' || c == '\x0C' || c == '\r'
}

/// `s` without leading and trailing `isspace` characters.
pub open spec fn spec_trim_c_whitespace(s: Seq<char>) -> Seq<char> {
    spec_trim(s, |c: char| spec_is_c_isspace_char(c))
}

fn c_space_char(c: char) -> (r: bool)
    ensures
        r == spec_is_c_isspace_char(c),
{
    c == ' ' || c == '\t' || c == '\n' || c == '\x0B' || c == '\x0C' || c == '\r'
}

/// `s` without leading and trailing C `isspace` characters.
pub fn trim_c_whitespace(s: &str) -> (r: &str)
    ensures
        r@ == spec_trim_c_whitespace(s@),
{
    let cs = chars_of(s);
    let n = cs.len();
    let mut a: usize = 0;
    while a < n && c_space_char(cs[a])
        invariant
            cs@ == s@,
            n == cs.len(),
            0 <= a <= n,
            forall|k: int| 0 <= k < a ==> spec_is_c_isspace_char(#[trigger] s@[k]),
        decreases n - a,
    {
        a += 1;
    }
    let mut b: usize = n;
    while b > a && c_space_char(cs[b - 1])
        invariant
            cs@ == s@,
            n == cs.len(),
            0 <= a <= b <= n,
            forall|k: int| b <= k < n ==> spec_is_c_isspace_char(#[trigger] s@[k]),
        decreases b - a,
    {
        b -= 1;
    }
    proof { lemma_trim_bounds(s@, |c: char| spec_is_c_isspace_char(c), a as int, b as int); }
    s.substring_char(a, b)
}

/// The prefix that marks a lane entry as a capsule group reference.
pub const CAPSULE_GROUP_TOKEN_PREFIX: &'static str = "group:";

/// `s` starts with `group:`.
pub open spec fn spec_is_capsule_group_token(s: Seq<char>) -> bool {
    s.len() >= 6 && s.take(6) == "group:"@
}

/// Whether a lane entry refers to a capsule group.
pub fn is_capsule_group_token(lane_entry: &str) -> (r: bool)
    ensures
        r == spec_is_capsule_group_token(lane_entry@),
{
    proof { reveal_strlit("group:"); }
    let cs = chars_of(lane_entry);
    if cs.len() < 6 {
        return false;
    }
    let r = cs[0] == 'g' && cs[1] == 'r' && cs[2] == 'o' && cs[3] == 'u' && cs[4] == 'p' && cs[5] == ':';
    proof {
        if r {
            assert(lane_entry@.take(6) =~= "group:"@);
        } else if lane_entry@.take(6) == "group:"@ {
            assert(lane_entry@.take(6)[0] == 'g');
            assert(lane_entry@.take(6)[1] == 'r');
            assert(lane_entry@.take(6)[2] == 'o');
            assert(lane_entry@.take(6)[3] == 'u');
            assert(lane_entry@.take(6)[4] == 'p');
            assert(lane_entry@.take(6)[5] == ':');
        }
    }
    r
}

/// The group id a lane entry refers to, or the empty string if it is no group reference.
pub fn capsule_group_token_id(lane_entry: &str) -> (r: String)
    ensures
        r@ == if spec_is_capsule_group_token(lane_entry@) {
            lane_entry@.skip(6)
        } else {
            Seq::empty()
        },
{
    if !is_capsule_group_token(lane_entry) {
        return String::new();
    }
    let n = lane_entry.unicode_len();
    lane_entry.substring_char(6, n).to_owned()
}

/// The lane entry that refers to group `group_id`.
pub fn make_capsule_group_token(group_id: &str) -> (r: String)
    ensures
        r@ == "group:"@ + group_id@,
{
    let mut r = "group:".to_owned();
    r.append(group_id);
    r
}

/// A token made from a group id is a group reference, and reads back as that id.
pub proof fn lemma_capsule_group_token_round_trip(group_id: Seq<char>)
    ensures
        spec_is_capsule_group_token("group:"@ + group_id),
        ("group:"@ + group_id).skip(6) == group_id,
{
    reveal_strlit("group:");
    assert(("group:"@ + group_id).take(6) =~= "group:"@);
    assert(("group:"@ + group_id).skip(6) =~= group_id);
}

/// The group ids that the entries of `lane` refer to.
pub open spec fn lane_group_refs(lane: Seq<Seq<char>>) -> Set<Seq<char>> {
    Set::new(|id: Seq<char>| exists|i: int| 0 <= i < lane.len() && spec_is_capsule_group_token(#[trigger] lane[i]) && lane[i].skip(6) == id)
}

/// The strings held by a list.
pub open spec fn strings_view(v: Seq<String>) -> Seq<Seq<char>> {
    v.map_values(|s: String| s@)
}

fn holds_string(v: &Vec<String>, s: &str) -> (r: bool)
    ensures
        r == strings_view(v@).contains(s@),
{
    let mut i: usize = 0;
    while i < v.len()
        invariant
            0 <= i <= v.len(),
            forall|k: int| 0 <= k < i ==> strings_view(v@)[k] != s@,
        decreases v.len() - i,
    {
        if str_equal(v[i].as_str(), s) {
            assert(strings_view(v@)[i as int] == s@);
            return true;
        }
        i += 1;
    }
    false
}

proof fn lemma_lane_refs_step(lv: Seq<Seq<char>>, i: int)
    requires
        0 <= i < lv.len(),
    ensures
        forall|id: Seq<char>| lane_group_refs(lv.take(i + 1)).contains(id)
            <==> (lane_group_refs(lv.take(i)).contains(id) || (spec_is_capsule_group_token(lv[i]) && lv[i].skip(6) == id)),
{
    let t1 = lv.take(i + 1);
    let t0 = lv.take(i);
    assert forall|id: Seq<char>| lane_group_refs(t1).contains(id)
        <==> (lane_group_refs(t0).contains(id) || (spec_is_capsule_group_token(lv[i]) && lv[i].skip(6) == id)) by {
        if lane_group_refs(t1).contains(id) {
            let k = choose|k: int| 0 <= k < t1.len() && spec_is_capsule_group_token(#[trigger] t1[k]) && t1[k].skip(6) == id;
            if k < i {
                assert(t0[k] == t1[k]);
                assert(lane_group_refs(t0).contains(id));
            }
        }
        if lane_group_refs(t0).contains(id) {
            let k = choose|k: int| 0 <= k < t0.len() && spec_is_capsule_group_token(#[trigger] t0[k]) && t0[k].skip(6) == id;
            assert(t1[k] == t0[k]);
            assert(lane_group_refs(t1).contains(id));
        }
        if spec_is_capsule_group_token(lv[i]) && lv[i].skip(6) == id {
            assert(t1[i] == lv[i]);
            assert(lane_group_refs(t1).contains(id));
        }
    }
}

/// Adds to `out` the id of each capsule group that `lane` refers to, keeping
/// `out` free of repeats it did not already hold.
pub fn collect_capsule_group_refs(lane: &[String], out: &mut Vec<String>)
    ensures
        forall|id: Seq<char>| strings_view(final(out)@).contains(id)
            <==> (strings_view(old(out)@).contains(id) || lane_group_refs(strings_view(lane@)).contains(id)),
        strings_view(old(out)@).is_prefix_of(strings_view(final(out)@)),
        strings_view(old(out)@).no_duplicates() ==> strings_view(final(out)@).no_duplicates(),
{
    let ghost lv = strings_view(lane@);
    let ghost o0 = strings_view(out@);
    let mut i: usize = 0;
    while i < lane.len()
        invariant
            lv == strings_view(lane@),
            0 <= i <= lane.len(),
            o0.is_prefix_of(strings_view(out@)),
            o0.no_duplicates() ==> strings_view(out@).no_duplicates(),
            forall|id: Seq<char>| #![trigger strings_view(out@).contains(id)] strings_view(out@).contains(id)
                <==> (o0.contains(id) || lane_group_refs(lv.take(i as int)).contains(id)),
        decreases lane.len() - i,
    {
        let entry = lane[i].as_str();
        assert(lv[i as int] == entry@);
        let ghost before = strings_view(out@);
        if is_capsule_group_token(entry) {
            let id = capsule_group_token_id(entry);
            if !holds_string(out, id.as_str()) {
                out.push(id);
                assert(strings_view(out@) =~= before.push(entry@.skip(6)));
                proof {
                    if o0.no_duplicates() {
                        let after = strings_view(out@);
                        assert forall|a: int, b: int| 0 <= a < after.len() && 0 <= b < after.len() && a != b
                            implies after[a] != after[b] by {
                            if a == before.len() as int {
                                assert(after[b] == before[b]);
                            } else if b == before.len() as int {
                                assert(after[a] == before[a]);
                            }
                        }
                    }
                }
            } else {
                assert(before.contains(entry@.skip(6)));
            }
        }
        proof {
            lemma_lane_refs_step(lv, i as int);
            assert forall|id: Seq<char>| #![trigger strings_view(out@).contains(id)] strings_view(out@).contains(id)
                <==> (o0.contains(id) || lane_group_refs(lv.take(i as int + 1)).contains(id)) by {
                crate::text::lemma_push_contains(before, entry@.skip(6), id);
                assert(before.contains(id) <==> (o0.contains(id) || lane_group_refs(lv.take(i as int)).contains(id)));
                assert(lv[i as int] == entry@);
                if spec_is_capsule_group_token(entry@) {
                    assert(strings_view(out@).contains(id) <==> (before.contains(id) || entry@.skip(6) == id));
                } else {
                    assert(strings_view(out@) == before);
                }
            }
        }
        i += 1;
    }
    assert(lv.take(lane.len() as int) =~= lv);
}

/// The lane a monitor override shows: its own when it sets one, else the bar's.
pub fn effective_lane<'a>(monitor_lane: Option<&'a [String]>, bar_lane: &'a [String]) -> (r: &'a [String])
    ensures
        r@ == match monitor_lane {
            Some(m) => m@,
            None => bar_lane@,
        },
{
    match monitor_lane {
        Some(m) => m,
        None => bar_lane,
    }
}

/// The widget lanes of a bar.
#[derive(Debug, Clone, PartialEq, Eq)]
pub struct BarLanes {
    pub start_widgets: Vec<String>,
    pub center_widgets: Vec<String>,
    pub end_widgets: Vec<String>,
}

/// The lanes a monitor override of a bar sets, and whether it carries a
/// `capsule_group` array of its own.
#[derive(Debug, Clone, PartialEq, Eq)]
pub struct MonitorLanes {
    pub start_widgets: Option<Vec<String>>,
    pub center_widgets: Option<Vec<String>>,
    pub end_widgets: Option<Vec<String>>,
    pub has_capsule_groups: bool,
}

/// The entries of the lane a monitor shows: its own lane when set, else the bar's.
pub open spec fn shown_lane(monitor_lane: Option<Vec<String>>, bar_lane: Vec<String>) -> Seq<Seq<char>> {
    match monitor_lane {
        Some(l) => strings_view(l@),
        None => strings_view(bar_lane@),
    }
}

/// The group ids a bar's own lanes refer to.
pub open spec fn bar_lane_refs(bar: BarLanes) -> Set<Seq<char>> {
    lane_group_refs(strings_view(bar.start_widgets@)) + lane_group_refs(strings_view(bar.center_widgets@))
        + lane_group_refs(strings_view(bar.end_widgets@))
}

/// The group ids the lanes shown on one monitor refer to.
pub open spec fn monitor_scope_refs(bar: BarLanes, m: MonitorLanes) -> Set<Seq<char>> {
    lane_group_refs(shown_lane(m.start_widgets, bar.start_widgets))
        + lane_group_refs(shown_lane(m.center_widgets, bar.center_widgets))
        + lane_group_refs(shown_lane(m.end_widgets, bar.end_widgets))
}

/// The group ids of the bar scope: the bar's own lanes, and the lanes shown on
/// each monitor whose override has no capsule groups of its own.
pub open spec fn bar_scope_refs(bar: BarLanes, overrides: Seq<MonitorLanes>) -> Set<Seq<char>> {
    bar_lane_refs(bar) + Set::new(|id: Seq<char>| exists|i: int| 0 <= i < overrides.len()
        && !overrides[i].has_capsule_groups && #[trigger] monitor_scope_refs(bar, overrides[i]).contains(id))
}

fn shown_lane_exec<'a>(monitor_lane: &'a Option<Vec<String>>, bar_lane: &'a Vec<String>) -> (r: &'a [String])
    ensures
        strings_view(r@) == shown_lane(*monitor_lane, *bar_lane),
{
    let m: Option<&'a [String]> = match monitor_lane {
        Some(l) => Some(l.as_slice()),
        None => None,
    };
    effective_lane(m, bar_lane.as_slice())
}

fn collect_monitor_refs(bar: &BarLanes, m: &MonitorLanes, out: &mut Vec<String>)
    ensures
        forall|id: Seq<char>| strings_view(final(out)@).contains(id)
            <==> (strings_view(old(out)@).contains(id) || monitor_scope_refs(*bar, *m).contains(id)),
        strings_view(old(out)@).no_duplicates() ==> strings_view(final(out)@).no_duplicates(),
{
    collect_capsule_group_refs(shown_lane_exec(&m.start_widgets, &bar.start_widgets), out);
    collect_capsule_group_refs(shown_lane_exec(&m.center_widgets, &bar.center_widgets), out);
    collect_capsule_group_refs(shown_lane_exec(&m.end_widgets, &bar.end_widgets), out);
}

/// The group ids the lanes shown on the monitor of `monitor_override` refer
/// to, each once.
pub fn capsule_group_refs_for_monitor_scope(bar: &BarLanes, monitor_override: &MonitorLanes) -> (refs: Vec<String>)
    ensures
        forall|id: Seq<char>| strings_view(refs@).contains(id) <==> monitor_scope_refs(*bar, *monitor_override).contains(id),
        strings_view(refs@).no_duplicates(),
{
    let mut refs: Vec<String> = Vec::new();
    assert(strings_view(refs@) =~= Seq::<Seq<char>>::empty());
    collect_monitor_refs(bar, monitor_override, &mut refs);
    refs
}

/// The group ids the bar scope refers to, each once: those of the bar's own
/// lanes, and those of the lanes shown on each monitor whose override carries
/// no capsule groups of its own.
pub fn capsule_group_refs_for_bar_scope(bar: &BarLanes, monitor_overrides: &[MonitorLanes]) -> (refs: Vec<String>)
    ensures
        forall|id: Seq<char>| strings_view(refs@).contains(id) <==> bar_scope_refs(*bar, monitor_overrides@).contains(id),
        strings_view(refs@).no_duplicates(),
{
    let mut refs: Vec<String> = Vec::new();
    assert(strings_view(refs@) =~= Seq::<Seq<char>>::empty());
    collect_capsule_group_refs(bar.start_widgets.as_slice(), &mut refs);
    collect_capsule_group_refs(bar.center_widgets.as_slice(), &mut refs);
    collect_capsule_group_refs(bar.end_widgets.as_slice(), &mut refs);
    let ghost ov = monitor_overrides@;
    let mut i: usize = 0;
    while i < monitor_overrides.len()
        invariant
            ov == monitor_overrides@,
            0 <= i <= ov.len(),
            strings_view(refs@).no_duplicates(),
            forall|id: Seq<char>| #![trigger strings_view(refs@).contains(id)] strings_view(refs@).contains(id)
                <==> (bar_lane_refs(*bar).contains(id) || exists|k: int| 0 <= k < i && !ov[k].has_capsule_groups
                    && #[trigger] monitor_scope_refs(*bar, ov[k]).contains(id)),
        decreases ov.len() - i,
    {
        let ghost before = strings_view(refs@);
        if !monitor_overrides[i].has_capsule_groups {
            collect_monitor_refs(bar, &monitor_overrides[i], &mut refs);
        }
        assert forall|id: Seq<char>| #![trigger strings_view(refs@).contains(id)] strings_view(refs@).contains(id)
            <==> (bar_lane_refs(*bar).contains(id) || exists|k: int| 0 <= k < i + 1 && !ov[k].has_capsule_groups
                && #[trigger] monitor_scope_refs(*bar, ov[k]).contains(id)) by {
            let now = strings_view(refs@).contains(id);
            let was = before.contains(id);
            let here = !ov[i as int].has_capsule_groups && monitor_scope_refs(*bar, ov[i as int]).contains(id);
            assert(was <==> (bar_lane_refs(*bar).contains(id) || exists|k: int| 0 <= k < i && !ov[k].has_capsule_groups
                && #[trigger] monitor_scope_refs(*bar, ov[k]).contains(id)));
            assert(now <==> (was || here));
            if exists|k: int| 0 <= k < i + 1 && !ov[k].has_capsule_groups && #[trigger] monitor_scope_refs(*bar, ov[k]).contains(id) {
                let k = choose|k: int| 0 <= k < i + 1 && !ov[k].has_capsule_groups && #[trigger] monitor_scope_refs(*bar, ov[k]).contains(id);
                if k < i {
                    assert(was);
                } else {
                    assert(here);
                }
            }
            if here {
                assert(0 <= i < i + 1 && !ov[i as int].has_capsule_groups && monitor_scope_refs(*bar, ov[i as int]).contains(id));
            }
            if was && !bar_lane_refs(*bar).contains(id) {
                let k = choose|k: int| 0 <= k < i && !ov[k].has_capsule_groups && #[trigger] monitor_scope_refs(*bar, ov[k]).contains(id);
                assert(0 <= k < i + 1);
            }
        }
        i += 1;
    }
    refs
}

/// The position of the first capsule group whose id is `id`, among groups
/// given by their ids; an empty id names no group.
pub fn find_bar_capsule_group_style(group_ids: &[String], id: &str) -> (r: Option<usize>)
    ensures
        match r {
            Some(i) => {
                &&& id@.len() > 0
                &&& i < group_ids@.len()
                &&& group_ids@[i as int]@ == id@
                &&& forall|k: int| 0 <= k < i ==> group_ids@[k]@ != id@
            },
            None => id@.len() == 0 || forall|k: int| 0 <= k < group_ids@.len() ==> group_ids@[k]@ != id@,
        },
{
    if id.is_empty() {
        return None;
    }
    let mut i: usize = 0;
    while i < group_ids.len()
        invariant
            id@.len() > 0,
            0 <= i <= group_ids@.len(),
            forall|k: int| 0 <= k < i ==> group_ids@[k]@ != id@,
        decreases group_ids.len() - i,
    {
        if str_equal(group_ids[i].as_str(), id) {
            assert(group_ids@[i as int]@ == id@);
            return Some(i);
        }
        i += 1;
    }
    None
}

/// Where a reconciled capsule group comes from: the group at a position of
/// the current (edited) array, or of the config-file array.
#[derive(Debug, Clone, Copy, PartialEq, Eq)]
pub enum CapsuleGroupSource {
    Current(usize),
    Base(usize),
}

/// The first position at or after `i` of a current group with id `id` not yet used.
pub open spec fn first_unused(current: Seq<Seq<char>>, used: Seq<bool>, id: Seq<char>, i: int) -> Option<int>
    decreases current.len() - i,
{
    if i < 0 || i >= current.len() {
        None
    } else if !used[i] && current[i] == id {
        Some(i)
    } else {
        first_unused(current, used, id, i + 1)
    }
}

/// The first `n` file groups in order: each takes the first unused current
/// group with its id, or else comes from the file when it is referenced.
/// Gives the current groups used and the picks made.
pub open spec fn match_base_groups(current: Seq<Seq<char>>, base: Seq<Seq<char>>, referenced: Set<Seq<char>>, n: int)
    -> (Seq<bool>, Seq<CapsuleGroupSource>)
    decreases n,
{
    if n <= 0 {
        (Seq::new(current.len(), |i: int| false), Seq::empty())
    } else {
        let prev = match_base_groups(current, base, referenced, n - 1);
        match first_unused(current, prev.0, base[n - 1], 0) {
            Some(i) => (prev.0.update(i, true), prev.1.push(CapsuleGroupSource::Current(i as usize))),
            None => if referenced.contains(base[n - 1]) {
                (prev.0, prev.1.push(CapsuleGroupSource::Base((n - 1) as usize)))
            } else {
                prev
            },
        }
    }
}

/// The first `n` current groups that no file group took and that are referenced.
pub open spec fn leftover_groups(current: Seq<Seq<char>>, used: Seq<bool>, referenced: Set<Seq<char>>, n: int)
    -> Seq<CapsuleGroupSource>
    decreases n,
{
    if n <= 0 {
        Seq::empty()
    } else {
        leftover_groups(current, used, referenced, n - 1) + if !used[n - 1] && referenced.contains(current[n - 1]) {
            seq![CapsuleGroupSource::Current((n - 1) as usize)]
        } else {
            Seq::empty()
        }
    }
}

/// The reconciled capsule groups: the file groups in file order, each
/// replaced by the current group with its id when there is one and dropped
/// when there is none and it is unreferenced, then the remaining referenced
/// current groups in their order.
pub open spec fn spec_reconcile(current: Seq<Seq<char>>, base: Seq<Seq<char>>, referenced: Set<Seq<char>>) -> Seq<CapsuleGroupSource> {
    let m = match_base_groups(current, base, referenced, base.len() as int);
    m.1 + leftover_groups(current, m.0, referenced, current.len() as int)
}

proof fn lemma_first_unused(current: Seq<Seq<char>>, used: Seq<bool>, id: Seq<char>, i: int)
    requires
        0 <= i,
    ensures
        match first_unused(current, used, id, i) {
            Some(k) => i <= k < current.len() && !used[k] && current[k] == id
                && forall|j: int| i <= j < k ==> !(!used[j] && current[j] == id),
            None => forall|j: int| i <= j < current.len() ==> !(!used[j] && current[j] == id),
        },
    decreases current.len() - i,
{
    if i < current.len() && !(!used[i] && current[i] == id) {
        lemma_first_unused(current, used, id, i + 1);
    }
}

/// Reconciles an overriding `capsule_group` array (`current`, by group id)
/// with the config-file array (`base`): each file group, in file order, is
/// replaced by the first not yet taken current group with its id, or kept
/// from the file when none has it and it is `referenced`; the current groups
/// left over follow in order when referenced.
pub fn reconcile_capsule_groups(current: &[String], base: &[String], referenced: &[String]) -> (r: Vec<CapsuleGroupSource>)
    ensures
        r@ == spec_reconcile(strings_view(current@), strings_view(base@), strings_view(referenced@).to_set()),
{
    let ghost cv = strings_view(current@);
    let ghost bv = strings_view(base@);
    let ghost rs = strings_view(referenced@).to_set();
    let mut used: Vec<bool> = Vec::new();
    let mut k: usize = 0;
    while k < current.len()
        invariant
            0 <= k <= current@.len(),
            used@ == Seq::new(k as nat, |i: int| false),
        decreases current.len() - k,
    {
        used.push(false);
        assert(used@ =~= Seq::new((k + 1) as nat, |i: int| false));
        k += 1;
    }
    let mut out: Vec<CapsuleGroupSource> = Vec::new();
    let mut j: usize = 0;
    while j < base.len()
        invariant
            cv == strings_view(current@),
            bv == strings_view(base@),
            rs == strings_view(referenced@).to_set(),
            0 <= j <= base@.len(),
            used@.len() == current@.len(),
            (used@, out@) == match_base_groups(cv, bv, rs, j as int),
        decreases base.len() - j,
    {
        let ghost u0 = used@;
        assert(bv[j as int] == base@[j as int]@);
        let mut i: usize = 0;
        let mut found: Option<usize> = None;
        while i < current.len() && found.is_none()
            invariant
                cv == strings_view(current@),
                bv == strings_view(base@),
                j < base@.len(),
                used@ == u0,
                used@.len() == current@.len(),
                0 <= i <= current@.len(),
                found matches Some(f) ==> f < current@.len(),
                found is None ==> first_unused(cv, u0, bv[j as int], 0) == first_unused(cv, u0, bv[j as int], i as int),
                found matches Some(f) ==> first_unused(cv, u0, bv[j as int], 0) == Some(f as int),
            decreases current.len() - i,
        {
            assert(cv[i as int] == current@[i as int]@);
            if !used[i] && str_equal(current[i].as_str(), base[j].as_str()) {
                found = Some(i);
            }
            i += 1;
        }
        match found {
            Some(f) => {
                used.set(f, true);
                out.push(CapsuleGroupSource::Current(f));
            },
            None => {
                assert(first_unused(cv, u0, bv[j as int], i as int) is None);
                if holds_string_slice(referenced, base[j].as_str()) {
                    out.push(CapsuleGroupSource::Base(j));
                }
            },
        }
        j += 1;
    }
    let ghost m = match_base_groups(cv, bv, rs, bv.len() as int);
    assert(bv.len() == base@.len());
    let mut i: usize = 0;
    while i < current.len()
        invariant
            cv == strings_view(current@),
            rs == strings_view(referenced@).to_set(),
            0 <= i <= current@.len(),
            used@ == m.0,
            used@.len() == current@.len(),
            out@ == m.1 + leftover_groups(cv, m.0, rs, i as int),
        decreases current.len() - i,
    {
        assert(cv[i as int] == current@[i as int]@);
        if !used[i] && holds_string_slice(referenced, current[i].as_str()) {
            out.push(CapsuleGroupSource::Current(i));
            assert(out@ =~= m.1 + leftover_groups(cv, m.0, rs, i + 1));
        } else {
            assert(out@ =~= m.1 + leftover_groups(cv, m.0, rs, i + 1));
        }
        i += 1;
    }
    out
}

/// What matching the first `n` file groups gives: one flag per current group,
/// set exactly for the current groups picked; no pick twice; each picked
/// current group has the id of a file group, and each file group kept from the
/// file is among the first `n` and referenced.
proof fn lemma_match_facts(current: Seq<Seq<char>>, base: Seq<Seq<char>>, referenced: Set<Seq<char>>, n: int)
    requires
        0 <= n <= base.len(),
        current.len() <= usize::MAX,
        base.len() <= usize::MAX,
    ensures
        ({
            let m = match_base_groups(current, base, referenced, n);
            &&& m.0.len() == current.len()
            &&& m.1.no_duplicates()
            &&& forall|i: int| 0 <= i < current.len() ==> (m.0[i] <==> #[trigger] m.1.contains(CapsuleGroupSource::Current(i as usize)))
            &&& forall|p: CapsuleGroupSource| #[trigger] m.1.contains(p) ==> match p {
                CapsuleGroupSource::Current(i) => i < current.len() && base.contains(current[i as int]),
                CapsuleGroupSource::Base(j) => j < n && referenced.contains(base[j as int]),
            }
        }),
    decreases n,
{
    if n > 0 {
        lemma_match_facts(current, base, referenced, n - 1);
        let prev = match_base_groups(current, base, referenced, n - 1);
        let m = match_base_groups(current, base, referenced, n);
        lemma_first_unused(current, prev.0, base[n - 1], 0);
        match first_unused(current, prev.0, base[n - 1], 0) {
            Some(i) => {
                let x = CapsuleGroupSource::Current(i as usize);
                assert(!prev.1.contains(x));
                assert forall|a: int, b: int| 0 <= a < m.1.len() && 0 <= b < m.1.len() && a != b implies m.1[a] != m.1[b] by {
                    if a == prev.1.len() {
                        assert(prev.1.contains(m.1[b]));
                    } else if b == prev.1.len() {
                        assert(prev.1.contains(m.1[a]));
                    }
                }
                assert forall|k: int| 0 <= k < current.len() implies (m.0[k] <==> #[trigger] m.1.contains(CapsuleGroupSource::Current(k as usize))) by {
                    crate::text::lemma_push_contains(prev.1, x, CapsuleGroupSource::Current(k as usize));
                }
                assert forall|p: CapsuleGroupSource| #[trigger] m.1.contains(p) implies match p {
                    CapsuleGroupSource::Current(i) => i < current.len() && base.contains(current[i as int]),
                    CapsuleGroupSource::Base(j) => j < n && referenced.contains(base[j as int]),
                } by {
                    crate::text::lemma_push_contains(prev.1, x, p);
                    if p == x {
                        assert(base[n - 1] == current[i]);
                    }
                }
            },
            None => {
                if referenced.contains(base[n - 1]) {
                    let x = CapsuleGroupSource::Base((n - 1) as usize);
                    assert(!prev.1.contains(x));
                    assert forall|a: int, b: int| 0 <= a < m.1.len() && 0 <= b < m.1.len() && a != b implies m.1[a] != m.1[b] by {
                        if a == prev.1.len() {
                            assert(prev.1.contains(m.1[b]));
                        } else if b == prev.1.len() {
                            assert(prev.1.contains(m.1[a]));
                        }
                    }
                    assert forall|k: int| 0 <= k < current.len() implies (m.0[k] <==> #[trigger] m.1.contains(CapsuleGroupSource::Current(k as usize))) by {
                        crate::text::lemma_push_contains(prev.1, x, CapsuleGroupSource::Current(k as usize));
                    }
                    assert forall|p: CapsuleGroupSource| #[trigger] m.1.contains(p) implies match p {
                        CapsuleGroupSource::Current(i) => i < current.len() && base.contains(current[i as int]),
                        CapsuleGroupSource::Base(j) => j < n && referenced.contains(base[j as int]),
                    } by {
                        crate::text::lemma_push_contains(prev.1, x, p);
                    }
                }
            },
        }
    }
}

/// The leftover picks are the referenced, unused current groups among the
/// first `n`, each once.
proof fn lemma_leftover_facts(current: Seq<Seq<char>>, used: Seq<bool>, referenced: Set<Seq<char>>, n: int)
    requires
        0 <= n <= current.len(),
        current.len() <= usize::MAX,
        used.len() == current.len(),
    ensures
        leftover_groups(current, used, referenced, n).no_duplicates(),
        forall|p: CapsuleGroupSource| #[trigger] leftover_groups(current, used, referenced, n).contains(p) ==> match p {
            CapsuleGroupSource::Current(i) => i < n && !used[i as int] && referenced.contains(current[i as int]),
            CapsuleGroupSource::Base(j) => false,
        },
        forall|i: int| 0 <= i < n && !used[i] && referenced.contains(current[i])
            ==> #[trigger] leftover_groups(current, used, referenced, n).contains(CapsuleGroupSource::Current(i as usize)),
    decreases n,
{
    if n > 0 {
        lemma_leftover_facts(current, used, referenced, n - 1);
        let prev = leftover_groups(current, used, referenced, n - 1);
        let l = leftover_groups(current, used, referenced, n);
        if !used[n - 1] && referenced.contains(current[n - 1]) {
            let x = CapsuleGroupSource::Current((n - 1) as usize);
            assert(l =~= prev.push(x));
            assert(!prev.contains(x));
            assert forall|a: int, b: int| 0 <= a < l.len() && 0 <= b < l.len() && a != b implies l[a] != l[b] by {
                if a == prev.len() {
                    assert(prev.contains(l[b]));
                } else if b == prev.len() {
                    assert(prev.contains(l[a]));
                }
            }
            assert forall|p: CapsuleGroupSource| #[trigger] l.contains(p) implies match p {
                CapsuleGroupSource::Current(i) => i < n && !used[i as int] && referenced.contains(current[i as int]),
                CapsuleGroupSource::Base(j) => false,
            } by {
                crate::text::lemma_push_contains(prev, x, p);
            }
            assert forall|i: int| 0 <= i < n && !used[i] && referenced.contains(current[i])
                implies #[trigger] l.contains(CapsuleGroupSource::Current(i as usize)) by {
                crate::text::lemma_push_contains(prev, x, CapsuleGroupSource::Current(i as usize));
            }
        } else {
            assert(l =~= prev);
        }
    }
}

/// Reconciling keeps every referenced current group, picks no group twice,
/// and keeps nothing that is neither referenced nor matched by a file group:
/// a kept current group is referenced or has the id of a file group, and a
/// group kept from the file is referenced.
pub proof fn lemma_reconcile_keeps_and_prunes(current: Seq<Seq<char>>, base: Seq<Seq<char>>, referenced: Set<Seq<char>>)
    requires
        current.len() <= usize::MAX,
        base.len() <= usize::MAX,
    ensures
        forall|i: int| 0 <= i < current.len() && #[trigger] referenced.contains(current[i])
            ==> spec_reconcile(current, base, referenced).contains(CapsuleGroupSource::Current(i as usize)),
        spec_reconcile(current, base, referenced).no_duplicates(),
        forall|p: CapsuleGroupSource| #[trigger] spec_reconcile(current, base, referenced).contains(p) ==> match p {
            CapsuleGroupSource::Current(i) => i < current.len()
                && (referenced.contains(current[i as int]) || base.contains(current[i as int])),
            CapsuleGroupSource::Base(j) => j < base.len() && referenced.contains(base[j as int]),
        },
{
    let m = match_base_groups(current, base, referenced, base.len() as int);
    let l = leftover_groups(current, m.0, referenced, current.len() as int);
    let r = spec_reconcile(current, base, referenced);
    lemma_match_facts(current, base, referenced, base.len() as int);
    lemma_leftover_facts(current, m.0, referenced, current.len() as int);
    assert(r == m.1 + l);
    assert forall|a: int, b: int| 0 <= a < m.1.len() && 0 <= b < l.len() implies m.1[a] != l[b] by {
        assert(l.contains(l[b]));
        assert(m.1.contains(m.1[a]));
        if let CapsuleGroupSource::Current(i) = l[b] {
            let ii = i as int;
            assert(!m.0[ii]);
            assert(!m.1.contains(CapsuleGroupSource::Current(ii as usize)));
        }
    }
    vstd::seq_lib::lemma_no_dup_in_concat(m.1, l);
    assert forall|i: int| 0 <= i < current.len() && #[trigger] referenced.contains(current[i])
        implies r.contains(CapsuleGroupSource::Current(i as usize)) by {
        let x = CapsuleGroupSource::Current(i as usize);
        if m.0[i] {
            assert(m.1.contains(x));
            let k = choose|k: int| 0 <= k < m.1.len() && m.1[k] == x;
            assert(r[k] == x);
        } else {
            assert(l.contains(x));
            let k = choose|k: int| 0 <= k < l.len() && l[k] == x;
            assert(r[m.1.len() + k] == x);
        }
    }
    assert forall|p: CapsuleGroupSource| #[trigger] r.contains(p) implies match p {
        CapsuleGroupSource::Current(i) => i < current.len()
            && (referenced.contains(current[i as int]) || base.contains(current[i as int])),
        CapsuleGroupSource::Base(j) => j < base.len() && referenced.contains(base[j as int]),
    } by {
        let k = choose|k: int| 0 <= k < r.len() && r[k] == p;
        if k < m.1.len() {
            assert(m.1[k] == p);
            assert(m.1.contains(p));
        } else {
            assert(l[k - m.1.len()] == p);
            assert(l.contains(p));
        }
    }
}

fn holds_string_slice(v: &[String], s: &str) -> (r: bool)
    ensures
        r == strings_view(v@).to_set().contains(s@),
{
    let mut i: usize = 0;
    while i < v.len()
        invariant
            0 <= i <= v@.len(),
            forall|k: int| 0 <= k < i ==> strings_view(v@)[k] != s@,
        decreases v.len() - i,
    {
        if str_equal(v[i].as_str(), s) {
            assert(strings_view(v@)[i as int] == s@);
            return true;
        }
        i += 1;
    }
    false
}

/// `needle` occurs in `hay` at `p`.
pub open spec fn bytes_match_at(hay: Seq<u8>, needle: Seq<u8>, p: int) -> bool {
    0 <= p && p + needle.len() <= hay.len() && hay.subrange(p, p + needle.len()) == needle
}

/// `std::string::find`: the first position at or after `from` where `needle`
/// occurs (an empty needle occurs at `from` itself, if `from` is in range).
pub open spec fn spec_find_bytes(hay: Seq<u8>, needle: Seq<u8>, from: int) -> Option<int>
    decreases hay.len() - from,
{
    if needle.len() == 0 {
        if 0 <= from <= hay.len() { Some(from) } else { None }
    } else if from < 0 || from + needle.len() > hay.len() {
        None
    } else if bytes_match_at(hay, needle, from) {
        Some(from)
    } else {
        spec_find_bytes(hay, needle, from + 1)
    }
}

/// What [`spec_find_bytes`] finds is a match, and it is the first one.
pub proof fn lemma_find_bytes(hay: Seq<u8>, needle: Seq<u8>, from: int)
    requires
        0 <= from,
    ensures
        match spec_find_bytes(hay, needle, from) {
            Some(p) => {
                &&& from <= p <= hay.len()
                &&& bytes_match_at(hay, needle, p)
                &&& needle.len() == 0 ==> p == from
                &&& forall|q: int| from <= q < p ==> !bytes_match_at(hay, needle, q)
            },
            None => forall|q: int| from <= q ==> !bytes_match_at(hay, needle, q),
        },
    decreases hay.len() - from,
{
    if needle.len() == 0 {
        if from <= hay.len() {
            assert(hay.subrange(from, from) =~= needle);
        }
    } else if from + needle.len() > hay.len() {
    } else if bytes_match_at(hay, needle, from) {
    } else {
        lemma_find_bytes(hay, needle, from + 1);
    }
}

fn bytes_match(hay: &[u8], needle: &[u8], p: usize) -> (r: bool)
    requires
        p + needle@.len() <= hay@.len(),
    ensures
        r == bytes_match_at(hay@, needle@, p as int),
{
    let mut k: usize = 0;
    while k < needle.len()
        invariant
            hay@.len() == hay.len(),
            needle@.len() == needle.len(),
            p + needle@.len() <= hay@.len(),
            0 <= k <= needle.len(),
            forall|m: int| 0 <= m < k ==> hay@[p + m] == needle@[m],
        decreases needle.len() - k,
    {
        if hay[p + k] != needle[k] {
            assert(hay@.subrange(p as int, p + needle@.len())[k as int] != needle@[k as int]);
            return false;
        }
        k += 1;
    }
    assert(hay@.subrange(p as int, p + needle@.len()) =~= needle@);
    true
}

/// The first index at or after `from` where `needle` occurs in `haystack`;
/// an empty needle occurs at `from` itself when `from <= haystack.len()`.
pub fn find_bytes(haystack: &[u8], needle: &[u8], from: usize) -> (r: Option<usize>)
    ensures
        r matches Some(p) ==> spec_find_bytes(haystack@, needle@, from as int) == Some(p as int),
        r is None ==> spec_find_bytes(haystack@, needle@, from as int) is None,
{
    if needle.len() == 0 {
        if from <= haystack.len() {
            return Some(from);
        }
        return None;
    }
    let mut p: usize = from;
    while p < haystack.len() && needle.len() <= haystack.len() - p
        invariant
            haystack@.len() == haystack.len(),
            needle@.len() == needle.len(),
            needle@.len() > 0,
            from <= p,
            spec_find_bytes(haystack@, needle@, from as int) == spec_find_bytes(haystack@, needle@, p as int),
        decreases haystack.len() - p,
    {
        if bytes_match(haystack, needle, p) {
            return Some(p);
        }
        p += 1;
    }
    None
}

/// `needle` occurs in `desc` at `p` with whitespace (or the text's end) on both sides.
pub open spec fn word_match_at(desc: Seq<u8>, needle: Seq<u8>, p: int) -> bool {
    &&& bytes_match_at(desc, needle, p)
    &&& (p == 0 || spec_is_c_isspace_byte(desc[p - 1]))
    &&& (p + needle.len() == desc.len() || spec_is_c_isspace_byte(desc[p + needle.len()]))
}

/// An output matches a selector that equals its connector name, or that occurs
/// in its description as a whole whitespace-separated word.
pub open spec fn spec_output_matches_selector(
    selector: Seq<char>,
    connector: Seq<char>,
    desc_chars: Seq<char>,
    desc: Seq<u8>,
    needle: Seq<u8>,
) -> bool {
    ||| (connector.len() > 0 && selector == connector)
    ||| (desc_chars.len() > 0 && exists|p: int| word_match_at(desc, needle, p))
}

proof fn lemma_no_word_match_after_none(desc: Seq<u8>, needle: Seq<u8>, pos: int)
    requires
        0 <= pos,
        spec_find_bytes(desc, needle, pos) is None,
        forall|q: int| 0 <= q < pos ==> !word_match_at(desc, needle, q),
    ensures
        forall|q: int| !word_match_at(desc, needle, q),
{
    lemma_find_bytes(desc, needle, pos);
}

proof fn lemma_no_word_match_before(desc: Seq<u8>, needle: Seq<u8>, pos: int, found: int)
    requires
        0 <= pos,
        spec_find_bytes(desc, needle, pos) == Some(found),
        !word_match_at(desc, needle, found),
        forall|q: int| 0 <= q < pos ==> !word_match_at(desc, needle, q),
    ensures
        forall|q: int| 0 <= q <= found ==> !word_match_at(desc, needle, q),
{
    lemma_find_bytes(desc, needle, pos);
}

/// Whether an output with `connector_name` and `description` matches `selector`.
pub fn output_matches_selector(selector: &str, connector_name: &str, description: &str) -> (r: bool)
    ensures
        r == spec_output_matches_selector(
            selector@,
            connector_name@,
            description@,
            description.spec_bytes(),
            selector.spec_bytes(),
        ),
{
    if !connector_name.is_empty() && str_equal(selector, connector_name) {
        return true;
    }
    if description.is_empty() {
        return false;
    }
    let desc = description.as_bytes();
    let needle = selector.as_bytes();
    let mut pos: usize = 0;
    loop
        invariant
            desc@ == description.spec_bytes(),
            needle@ == selector.spec_bytes(),
            desc@.len() == desc.len(),
            description@.len() > 0,
            !(connector_name@.len() > 0 && selector@ == connector_name@),
            pos <= desc@.len() + 1,
            forall|q: int| 0 <= q < pos ==> !word_match_at(desc@, needle@, q),
        decreases desc@.len() + 1 - pos,
    {
        match find_bytes(desc, needle, pos) {
            None => {
                proof { lemma_no_word_match_after_none(desc@, needle@, pos as int); }
                return false;
            },
            Some(found) => {
                proof { lemma_find_bytes(desc@, needle@, pos as int); }
                let start_ok = found == 0 || is_c_isspace_byte(desc[found - 1]);
                let end = found + needle.len();
                let end_ok = end == desc.len() || is_c_isspace_byte(desc[end]);
                if start_ok && end_ok {
                    proof { assert(word_match_at(desc@, needle@, found as int)); }
                    return true;
                }
                proof { lemma_no_word_match_before(desc@, needle@, pos as int, found as int); }
                if found == desc.len() {
                    proof {
                        assert forall|q: int| !word_match_at(desc@, needle@, q) by {
                            if q > found && word_match_at(desc@, needle@, q) {
                                assert(bytes_match_at(desc@, needle@, q));
                                assert(q + needle@.len() <= desc@.len());
                            }
                        }
                    }
                    return false;
                }
                pos = found + 1;
            },
        }
    }
}

/// Gesture bindings for a bar's dead zones, as overridden for one monitor.
#[derive(Debug, Clone, PartialEq, Eq)]
pub struct BarDeadZoneOverride {
    pub actions: Option<HashMap<String, String>>,
}

impl Default for BarDeadZoneOverride {
    fn default() -> (r: Self)
        ensures
            r.actions is None,
    {
        BarDeadZoneOverride { actions: None }
    }
}

/// Gesture to action bindings for the parts of a bar no widget covers.
#[derive(Debug, Clone, PartialEq, Eq)]
pub struct BarDeadZoneConfig {
    pub actions: HashMap<String, String>,
}

impl Default for BarDeadZoneConfig {
    fn default() -> (r: Self)
        ensures
            r.actions@ == Map::<String, String>::empty(),
    {
        BarDeadZoneConfig { actions: HashMap::new() }
    }
}

/// Raised when a widget's `scale` setting is not a finite number; carries the setting's context.
#[derive(Debug, Clone, PartialEq, Eq)]
pub struct WidgetContentScaleError(pub String);

impl WidgetContentScaleError {
    /// The error's message: the context followed by `: expected finite number`.
    pub fn message(&self) -> (r: String)
        ensures
            r@ == self.0@ + ": expected finite number"@,
    {
        let mut r = self.0.clone();
        r.append(": expected finite number");
        r
    }
}

} // verus!
