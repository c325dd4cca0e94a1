//! The decisions behind `noctalia config <command>`: argument parsing, path
//! rules, and the plan for replaying a support report. Running the plan and
//! printing are the caller's business.

use vstd::prelude::*;
use crate::text::{
    chars_of, push_char, push_str, push_chars, split_on, split_chars, chars_equal, str_equal, concat,
    push_decimal, spec_decimal,
};
use crate::value::{TomlTable, TomlValue, TomlData, TableData, lookup, lookup_table, lookup_str, lookup_bool, items_data, lemma_items_data};
use crate::migrations::bindings::str_or;
use crate::toml_text::{parse_toml_table, toml_parse, toml_parse_error};
use crate::schema::diagnostics::{Diagnostics, DiagnosticEntryView, Severity};

verus! {

// ---- shell quoting ----

/// The quoted form of one character inside single quotes.
pub open spec fn quote_char(c: char) -> Seq<char> {
    if c == '\'' { seq!['\'', '\\', '\'', '\''] } else { seq![c] }
}

/// The characters of `s` with each single quote written as `'\''`.
pub open spec fn quote_body(s: Seq<char>) -> Seq<char>
    decreases s.len(),
{
    if s.len() == 0 { Seq::empty() } else { quote_body(s.drop_last()) + quote_char(s.last()) }
}

/// `s` as one POSIX shell word: wrapped in single quotes.
pub open spec fn spec_shell_quote(s: Seq<char>) -> Seq<char> {
    seq!['\''] + quote_body(s) + seq!['\'']
}

/// Quotes `text` as a single POSIX shell word.
pub fn shell_quote(text: &str) -> (r: String)
    ensures
        r@ == spec_shell_quote(text@),
{
    let cs = chars_of(text);
    let mut r = String::new();
    push_char(&mut r, '\'');
    let mut i: usize = 0;
    while i < cs.len()
        invariant
            cs@ == text@,
            0 <= i <= cs.len(),
            r@ == seq!['\''] + quote_body(text@.take(i as int)),
        decreases cs.len() - i,
    {
        let c = cs[i];
        if c == '\'' {
            push_char(&mut r, '\'');
            push_char(&mut r, '\\');
            push_char(&mut r, '\'');
            push_char(&mut r, '\'');
        } else {
            push_char(&mut r, c);
        }
        assert(text@.take(i as int + 1).drop_last() =~= text@.take(i as int));
        assert(r@ =~= seq!['\''] + quote_body(text@.take(i as int + 1)));
        i += 1;
    }
    push_char(&mut r, '\'');
    assert(text@.take(cs.len() as int) =~= text@);
    r
}

// ---- paths ----

/// The `..` component.
pub open spec fn parent_component() -> Seq<char> {
    seq!['.', '.']
}

/// The pieces that are path components: empty and `.` pieces are dropped.
pub open spec fn keep_components(ps: Seq<Seq<char>>) -> Seq<Seq<char>>
    decreases ps.len(),
{
    if ps.len() == 0 {
        Seq::empty()
    } else {
        let p = keep_components(ps.drop_last());
        if ps.last().len() > 0 && ps.last() != seq!['.'] { p.push(ps.last()) } else { p }
    }
}

/// The components of a `/`-separated path.
pub open spec fn path_components(s: Seq<char>) -> Seq<Seq<char>> {
    keep_components(split_on(s, '/'))
}

/// The path is absolute: it starts at the root.
pub open spec fn is_absolute_path(s: Seq<char>) -> bool {
    s.len() > 0 && s[0] == '/'
}

/// The components left after collapsing `..`: each one removes the component
/// before it, or is kept when there is none.
pub open spec fn collapse_parents(cs: Seq<Seq<char>>) -> Seq<Seq<char>>
    decreases cs.len(),
{
    if cs.len() == 0 {
        Seq::empty()
    } else {
        let p = collapse_parents(cs.drop_last());
        if cs.last() == parent_component() {
            if p.len() > 0 { p.drop_last() } else { p.push(cs.last()) }
        } else {
            p.push(cs.last())
        }
    }
}

/// The parts joined with `/`.
pub open spec fn join_slash(parts: Seq<Seq<char>>) -> Seq<char>
    decreases parts.len(),
{
    if parts.len() == 0 {
        Seq::empty()
    } else if parts.len() == 1 {
        parts[0]
    } else {
        join_slash(parts.drop_last()) + seq!['/'] + parts.last()
    }
}

/// The lexically normal form of a path: `.` components dropped and `..`
/// collapsed into the component before it, the root kept.
pub open spec fn spec_lexically_normal(s: Seq<char>) -> Seq<char> {
    let body = join_slash(collapse_parents(path_components(s)));
    if is_absolute_path(s) { seq!['/'] + body } else { body }
}

/// A component that normalisation keeps as it is: non-empty, not `.`, and without `/`.
pub open spec fn plain_component(c: Seq<char>) -> bool {
    c.len() > 0 && c != seq!['.'] && !c.contains('/')
}

proof fn lemma_split_pieces_no_sep(s: Seq<char>, sep: char)
    ensures
        split_on(s, sep).len() >= 1,
        forall|i: int| 0 <= i < split_on(s, sep).len() ==> !(#[trigger] split_on(s, sep)[i]).contains(sep),
    decreases s.len(),
{
    if s.len() > 0 {
        let p = split_on(s.drop_last(), sep);
        lemma_split_pieces_no_sep(s.drop_last(), sep);
        if s.last() != sep {
            assert forall|i: int| 0 <= i < split_on(s, sep).len() implies !(#[trigger] split_on(s, sep)[i]).contains(sep) by {
                if i == p.len() - 1 {
                    let q = p.last();
                    assert(!q.contains(sep));
                    if q.push(s.last()).contains(sep) {
                        let j = choose|j: int| 0 <= j < q.push(s.last()).len() && q.push(s.last())[j] == sep;
                        if j < q.len() {
                            assert(q[j] == sep);
                        }
                    }
                }
            }
        } else {
            assert forall|i: int| 0 <= i < split_on(s, sep).len() implies !(#[trigger] split_on(s, sep)[i]).contains(sep) by {
                if i < p.len() {
                    assert(split_on(s, sep)[i] == p[i]);
                }
            }
        }
    }
}

proof fn lemma_kept_plain(ps: Seq<Seq<char>>)
    requires
        forall|i: int| 0 <= i < ps.len() ==> !(#[trigger] ps[i]).contains('/'),
    ensures
        forall|i: int| 0 <= i < keep_components(ps).len() ==> plain_component(#[trigger] keep_components(ps)[i]),
    decreases ps.len(),
{
    if ps.len() > 0 {
        let q = ps.drop_last();
        assert forall|i: int| 0 <= i < q.len() implies !(#[trigger] q[i]).contains('/') by {
            assert(q[i] == ps[i]);
        }
        lemma_kept_plain(q);
        let kq = keep_components(q);
        let l = ps[ps.len() - 1];
        assert(ps.last() == l);
        assert(!l.contains('/'));
        assert forall|i: int| 0 <= i < keep_components(ps).len() implies plain_component(#[trigger] keep_components(ps)[i]) by {
            if i < kq.len() {
                assert(keep_components(ps)[i] == kq[i]);
            } else {
                assert(keep_components(ps)[i] == l);
            }
        }
    }
}

proof fn lemma_keep_plain_identity(cs: Seq<Seq<char>>)
    requires
        forall|i: int| 0 <= i < cs.len() ==> plain_component(#[trigger] cs[i]),
    ensures
        keep_components(cs) == cs,
    decreases cs.len(),
{
    if cs.len() > 0 {
        let q = cs.drop_last();
        assert forall|i: int| 0 <= i < q.len() implies plain_component(#[trigger] q[i]) by {
            assert(q[i] == cs[i]);
        }
        lemma_keep_plain_identity(q);
        assert(plain_component(cs[cs.len() - 1]));
        assert(q.push(cs.last()) =~= cs);
    }
}

proof fn lemma_collapse_no_parent(cs: Seq<Seq<char>>)
    requires
        !cs.contains(parent_component()),
    ensures
        collapse_parents(cs) == cs,
    decreases cs.len(),
{
    if cs.len() > 0 {
        let q = cs.drop_last();
        assert(!q.contains(parent_component())) by {
            if q.contains(parent_component()) {
                let j = choose|j: int| 0 <= j < q.len() && q[j] == parent_component();
                assert(cs[j] == parent_component());
            }
        }
        lemma_collapse_no_parent(q);
        assert(cs[cs.len() - 1] != parent_component());
        assert(q.push(cs.last()) =~= cs);
    }
}

proof fn lemma_split_no_sep(c: Seq<char>, sep: char)
    requires
        !c.contains(sep),
    ensures
        split_on(c, sep) == seq![c],
    decreases c.len(),
{
    if c.len() == 0 {
        assert(c =~= Seq::<char>::empty());
        assert(split_on(c, sep) == seq![Seq::<char>::empty()]);
    } else {
        let q = c.drop_last();
        assert(!q.contains(sep)) by {
            if q.contains(sep) {
                let j = choose|j: int| 0 <= j < q.len() && q[j] == sep;
                assert(c[j] == sep);
            }
        }
        lemma_split_no_sep(q, sep);
        assert(c.last() != sep) by {
            assert(c[c.len() - 1] == c.last());
        }
        assert(q.push(c.last()) =~= c);
        assert(split_on(c, sep) == split_on(q, sep).update(0, q.push(c.last())));
        assert(seq![q].update(0, q.push(c.last())) =~= seq![c]);
    }
}

proof fn lemma_split_tail(x: Seq<char>, c: Seq<char>, sep: char)
    requires
        !c.contains(sep),
    ensures
        split_on(x + seq![sep] + c, sep) == split_on(x, sep).push(c),
    decreases c.len(),
{
    lemma_split_pieces_no_sep(x, sep);
    let y = x + seq![sep] + c;
    if c.len() == 0 {
        assert(y.drop_last() =~= x);
        assert(y.last() == sep);
        assert(split_on(y, sep) == split_on(x, sep).push(Seq::<char>::empty()));
        assert(c =~= Seq::<char>::empty());
    } else {
        let q = c.drop_last();
        assert(!q.contains(sep)) by {
            if q.contains(sep) {
                let j = choose|j: int| 0 <= j < q.len() && q[j] == sep;
                assert(c[j] == sep);
            }
        }
        lemma_split_tail(x, q, sep);
        assert(c.last() != sep) by {
            assert(c[c.len() - 1] == c.last());
        }
        assert(y.drop_last() =~= x + seq![sep] + q);
        assert(y.last() == c.last());
        assert(q.push(c.last()) =~= c);
        let p = split_on(x, sep).push(q);
        assert(split_on(y, sep) == p.update(p.len() - 1, p.last().push(y.last())));
        assert(p.update(p.len() - 1, p.last().push(y.last())) =~= split_on(x, sep).push(c));
    }
}

proof fn lemma_split_join(cs: Seq<Seq<char>>)
    requires
        cs.len() >= 1,
        forall|i: int| 0 <= i < cs.len() ==> !(#[trigger] cs[i]).contains('/'),
    ensures
        split_on(join_slash(cs), '/') == cs,
    decreases cs.len(),
{
    if cs.len() == 1 {
        lemma_split_no_sep(cs[0], '/');
        assert(seq![cs[0]] =~= cs);
    } else {
        let q = cs.drop_last();
        assert forall|i: int| 0 <= i < q.len() implies !(#[trigger] q[i]).contains('/') by {
            assert(q[i] == cs[i]);
        }
        lemma_split_join(q);
        assert(!cs[cs.len() - 1].contains('/'));
        lemma_split_tail(join_slash(q), cs.last(), '/');
        assert(q.push(cs.last()) =~= cs);
    }
}

proof fn lemma_join_head(cs: Seq<Seq<char>>)
    requires
        cs.len() >= 1,
        cs[0].len() > 0,
    ensures
        join_slash(cs).len() > 0,
        join_slash(cs)[0] == cs[0][0],
        join_slash(seq![Seq::<char>::empty()] + cs) == seq!['/'] + join_slash(cs),
    decreases cs.len(),
{
    let e = seq![Seq::<char>::empty()] + cs;
    if cs.len() == 1 {
        assert(e.drop_last() =~= seq![Seq::<char>::empty()]);
        assert(e.last() == cs[0]);
        assert(join_slash(e.drop_last()) == Seq::<char>::empty());
        assert(join_slash(cs) == cs[0]);
        assert(join_slash(e) == join_slash(e.drop_last()) + seq!['/'] + e.last());
        assert(join_slash(e) =~= seq!['/'] + join_slash(cs));
    } else {
        let q = cs.drop_last();
        assert(q[0] == cs[0]);
        lemma_join_head(q);
        assert(e.drop_last() =~= seq![Seq::<char>::empty()] + q);
        assert(e.last() == cs.last());
        assert(join_slash(e) == join_slash(e.drop_last()) + seq!['/'] + e.last());
        assert(join_slash(cs) == join_slash(q) + seq!['/'] + cs.last());
        assert(seq!['/'] + join_slash(q) + seq!['/'] + cs.last() =~= seq!['/'] + (join_slash(q) + seq!['/'] + cs.last()));
    }
}

/// Normalising a path without `..` keeps exactly its components, in order,
/// without `.`, and normalising the result again changes nothing.
pub proof fn lemma_lexically_normal_settles(s: Seq<char>)
    requires
        !path_components(s).contains(parent_component()),
    ensures
        path_components(spec_lexically_normal(s)) == path_components(s),
        spec_lexically_normal(spec_lexically_normal(s)) == spec_lexically_normal(s),
{
    let cs = path_components(s);
    lemma_split_pieces_no_sep(s, '/');
    lemma_kept_plain(split_on(s, '/'));
    lemma_collapse_no_parent(cs);
    let body = join_slash(cs);
    let r = spec_lexically_normal(s);
    assert(r == if is_absolute_path(s) { seq!['/'] + body } else { body });
    if cs.len() == 0 {
        if is_absolute_path(s) {
            assert(r =~= seq!['/']);
            assert(split_on(r, '/') =~= seq![Seq::<char>::empty(), Seq::<char>::empty()]) by {
                assert(r.drop_last() =~= Seq::<char>::empty());
                assert(r.last() == '/');
                assert(split_on(Seq::<char>::empty(), '/') == seq![Seq::<char>::empty()]);
            }
            assert(keep_components(seq![Seq::<char>::empty(), Seq::<char>::empty()]) =~= Seq::<Seq<char>>::empty()) by {
                let one = seq![Seq::<char>::empty()];
                let two = seq![Seq::<char>::empty(), Seq::<char>::empty()];
                assert(one.drop_last() =~= Seq::<Seq<char>>::empty());
                assert(one.last() == Seq::<char>::empty());
                assert(keep_components(one) == keep_components(Seq::<Seq<char>>::empty()));
                assert(two.drop_last() =~= one);
                assert(two.last() == Seq::<char>::empty());
                assert(keep_components(two) == keep_components(one));
            }
        } else {
            assert(r =~= Seq::<char>::empty());
            assert(split_on(r, '/') =~= seq![Seq::<char>::empty()]);
            assert(keep_components(seq![Seq::<char>::empty()]) =~= Seq::<Seq<char>>::empty()) by {
                let one = seq![Seq::<char>::empty()];
                assert(one.drop_last() =~= Seq::<Seq<char>>::empty());
                assert(one.last() == Seq::<char>::empty());
                assert(keep_components(one) == keep_components(Seq::<Seq<char>>::empty()));
            }
        }
        lemma_collapse_no_parent(Seq::<Seq<char>>::empty());
    } else {
        assert forall|i: int| 0 <= i < cs.len() implies !(#[trigger] cs[i]).contains('/') by {
            assert(plain_component(cs[i]));
        }
        assert(plain_component(cs[0]));
        lemma_join_head(cs);
        lemma_keep_plain_identity(cs);
        if is_absolute_path(s) {
            let ecs = seq![Seq::<char>::empty()] + cs;
            assert forall|i: int| 0 <= i < ecs.len() implies !(#[trigger] ecs[i]).contains('/') by {
                if i > 0 {
                    assert(ecs[i] == cs[i - 1]);
                }
            }
            lemma_split_join(ecs);
            assert(r == join_slash(ecs));
            assert(keep_components(ecs) == cs) by {
                lemma_keep_prefix_empty(cs);
            }
            assert(is_absolute_path(r));
        } else {
            lemma_split_join(cs);
            assert(cs[0][0] != '/') by {
                assert(!cs[0].contains('/'));
                assert(cs[0][0] == cs[0][0]);
            }
            assert(!is_absolute_path(r));
        }
    }
}

proof fn lemma_keep_prefix_empty(cs: Seq<Seq<char>>)
    requires
        forall|i: int| 0 <= i < cs.len() ==> plain_component(#[trigger] cs[i]),
    ensures
        keep_components(seq![Seq::<char>::empty()] + cs) == cs,
    decreases cs.len(),
{
    let e = seq![Seq::<char>::empty()] + cs;
    if cs.len() == 0 {
        assert(e.drop_last() =~= Seq::<Seq<char>>::empty());
        assert(e.last() == Seq::<char>::empty());
        assert(keep_components(e) == keep_components(e.drop_last()));
        assert(cs =~= Seq::<Seq<char>>::empty());
    } else {
        let q = cs.drop_last();
        assert forall|i: int| 0 <= i < q.len() implies plain_component(#[trigger] q[i]) by {
            assert(q[i] == cs[i]);
        }
        lemma_keep_prefix_empty(q);
        assert(e.drop_last() =~= seq![Seq::<char>::empty()] + q);
        assert(e.last() == cs.last());
        assert(plain_component(cs[cs.len() - 1]));
        assert(keep_components(e) == keep_components(e.drop_last()).push(e.last()));
        assert(q.push(cs.last()) =~= cs);
    }
}

fn components_of(path: &str) -> (cs: Vec<Vec<char>>)
    ensures
        cs@.map_values(|v: Vec<char>| v@) == path_components(path@),
{
    let pieces = split_chars(path, '/');
    let ghost ps = pieces@.map_values(|v: Vec<char>| v@);
    let mut cs: Vec<Vec<char>> = Vec::new();
    let mut i: usize = 0;
    let dot: Vec<char> = vec!['.'];
    assert(dot@ =~= seq!['.']);
    while i < pieces.len()
        invariant
            ps == split_on(path@, '/'),
            ps == pieces@.map_values(|v: Vec<char>| v@),
            dot@ == seq!['.'],
            0 <= i <= pieces.len(),
            cs@.map_values(|v: Vec<char>| v@) == keep_components(ps.take(i as int)),
        decreases pieces.len() - i,
    {
        let piece = &pieces[i];
        assert(ps.take(i as int + 1).drop_last() =~= ps.take(i as int));
        if piece.len() > 0 && !chars_equal(piece, &dot) {
            let ghost before = cs@;
            cs.push(piece.clone());
            assert(cs@.map_values(|v: Vec<char>| v@) =~= before.map_values(|v: Vec<char>| v@).push(ps[i as int]));
        }
        i += 1;
    }
    assert(ps.take(pieces.len() as int) =~= ps);
    cs
}

/// The lexically normal form of `path`: `.` components dropped, each `..`
/// collapsed with the component before it (kept when there is none), `/`-joined.
pub fn lexically_normal(path: &str) -> (r: String)
    ensures
        r@ == spec_lexically_normal(path@),
{
    let comps = components_of(path);
    let ghost cv = comps@.map_values(|v: Vec<char>| v@);
    let parent: Vec<char> = vec!['.', '.'];
    assert(parent@ =~= parent_component());
    let mut parts: Vec<Vec<char>> = Vec::new();
    let mut i: usize = 0;
    while i < comps.len()
        invariant
            cv == comps@.map_values(|v: Vec<char>| v@),
            parent@ == parent_component(),
            0 <= i <= comps.len(),
            parts@.map_values(|v: Vec<char>| v@) == collapse_parents(cv.take(i as int)),
        decreases comps.len() - i,
    {
        assert(cv.take(i as int + 1).drop_last() =~= cv.take(i as int));
        let ghost before = parts@.map_values(|v: Vec<char>| v@);
        if chars_equal(&comps[i], &parent) {
            if parts.len() > 0 {
                parts.pop();
                assert(parts@.map_values(|v: Vec<char>| v@) =~= before.drop_last());
            } else {
                parts.push(comps[i].clone());
                assert(parts@.map_values(|v: Vec<char>| v@) =~= before.push(cv[i as int]));
            }
        } else {
            parts.push(comps[i].clone());
            assert(parts@.map_values(|v: Vec<char>| v@) =~= before.push(cv[i as int]));
        }
        i += 1;
    }
    assert(cv.take(comps.len() as int) =~= cv);
    let ghost pv = parts@.map_values(|v: Vec<char>| v@);
    let mut r = String::new();
    let pc = chars_of(path);
    if pc.len() > 0 && pc[0] == '/' {
        push_char(&mut r, '/');
    }
    let ghost prefix = r@;
    let mut j: usize = 0;
    while j < parts.len()
        invariant
            pv == parts@.map_values(|v: Vec<char>| v@),
            0 <= j <= parts.len(),
            r@ == prefix + join_slash(pv.take(j as int)),
        decreases parts.len() - j,
    {
        if j > 0 {
            push_char(&mut r, '/');
        }
        push_chars(&mut r, &parts[j]);
        assert(pv.take(j as int + 1).drop_last() =~= pv.take(j as int));
        if j == 0 {
            assert(pv.take(1) =~= seq![pv[0]]);
        }
        assert(r@ =~= prefix + join_slash(pv.take(j as int + 1)));
        j += 1;
    }
    assert(pv.take(parts.len() as int) =~= pv);
    r
}

/// The relative path a report entry names: its `relative_path`, or `fallback`.
/// `None` when that is empty, absolute, or climbs with `..`.
pub open spec fn spec_safe_relative_path(table: TableData, fallback: Seq<char>) -> Option<Seq<char>> {
    let raw = match lookup_str(table, "relative_path"@) {
        Some(s) => s,
        None => fallback,
    };
    if raw.len() == 0 || is_absolute_path(raw) || path_components(raw).contains(parent_component()) {
        None
    } else {
        Some(spec_lexically_normal(raw))
    }
}

fn has_parent_component(path: &str) -> (b: bool)
    ensures
        b == path_components(path@).contains(parent_component()),
{
    let comps = components_of(path);
    let ghost cv = comps@.map_values(|v: Vec<char>| v@);
    let parent: Vec<char> = vec!['.', '.'];
    assert(parent@ =~= parent_component());
    let mut i: usize = 0;
    while i < comps.len()
        invariant
            cv == comps@.map_values(|v: Vec<char>| v@),
            cv == path_components(path@),
            parent@ == parent_component(),
            0 <= i <= comps.len(),
            forall|k: int| 0 <= k < i ==> cv[k] != parent_component(),
        decreases comps.len() - i,
    {
        if chars_equal(&comps[i], &parent) {
            assert(cv[i as int] == parent_component());
            assert(cv.contains(parent_component()));
            return true;
        }
        i += 1;
    }
    false
}

/// The path under which a report entry is replayed; see [`spec_safe_relative_path`].
pub fn safe_relative_path(table: &TomlTable, fallback: &str) -> (r: Option<String>)
    ensures
        match r {
            Some(p) => spec_safe_relative_path(table@, fallback@) == Some(p@),
            None => spec_safe_relative_path(table@, fallback@) is None,
        },
{
    let raw: String = match table.get("relative_path") {
        Some(v) => match v.as_str() {
            Some(s) => s.to_owned(),
            None => fallback.to_owned(),
        },
        None => fallback.to_owned(),
    };
    if raw.as_str().is_empty() {
        return None;
    }
    let rc = chars_of(raw.as_str());
    if rc[0] == '/' {
        return None;
    }
    if has_parent_component(raw.as_str()) {
        return None;
    }
    Some(lexically_normal(raw.as_str()))
}


// ---- replay-report arguments ----

/// What `replay-report` was asked to do.
#[derive(Debug, Clone, PartialEq, Eq)]
pub struct ReplayOptions {
    pub report_path: String,
    pub target_dir: String,
    pub flattened: bool,
    pub force: bool,
}

/// The parsed `replay-report` arguments, and whether `--help` stopped the parse.
#[derive(Debug, Clone, PartialEq, Eq)]
pub struct ReplayOptionsParse {
    pub options: ReplayOptions,
    pub help_requested: bool,
}

/// The mathematical content of [`ReplayOptions`].
pub struct ReplayOptionsView {
    pub report_path: Seq<char>,
    pub target_dir: Seq<char>,
    pub flattened: bool,
    pub force: bool,
}

impl View for ReplayOptions {
    type V = ReplayOptionsView;

    open spec fn view(&self) -> ReplayOptionsView {
        ReplayOptionsView {
            report_path: self.report_path@,
            target_dir: self.target_dir@,
            flattened: self.flattened,
            force: self.force,
        }
    }
}

/// How parsing the `replay-report` arguments ends.
pub enum ReplayParseView {
    /// `--help` was met; the options read before it.
    Help(ReplayOptionsView),
    /// All arguments were read and the options are complete.
    Parsed(ReplayOptionsView),
    /// The arguments are wrong; the message says why.
    Failed(Seq<char>),
}

/// The outcome once the arguments are used up: both paths are required.
pub open spec fn replay_finish(o: ReplayOptionsView) -> ReplayParseView {
    if o.report_path.len() == 0 {
        ReplayParseView::Failed("missing report path"@)
    } else if o.target_dir.len() == 0 {
        ReplayParseView::Failed("missing --target <dir>"@)
    } else {
        ReplayParseView::Parsed(o)
    }
}

/// Parsing the arguments from position `i` on, with the options read so far.
pub open spec fn replay_parse_from(args: Seq<Seq<char>>, i: int, o: ReplayOptionsView) -> ReplayParseView
    decreases args.len() - i,
{
    if i < 0 || i >= args.len() {
        replay_finish(o)
    } else {
        let a = args[i];
        if a == "--help"@ {
            ReplayParseView::Help(o)
        } else if a == "--target"@ {
            if i + 1 < args.len() {
                replay_parse_from(args, i + 2, ReplayOptionsView { target_dir: args[i + 1], ..o })
            } else {
                ReplayParseView::Failed("--target requires a directory"@)
            }
        } else if a == "--flattened"@ {
            replay_parse_from(args, i + 1, ReplayOptionsView { flattened: true, ..o })
        } else if a == "--force"@ {
            replay_parse_from(args, i + 1, ReplayOptionsView { force: true, ..o })
        } else if o.report_path.len() == 0 {
            replay_parse_from(args, i + 1, ReplayOptionsView { report_path: a, ..o })
        } else {
            ReplayParseView::Failed("unknown argument: "@ + a)
        }
    }
}

/// The strings held by a list of arguments.
pub open spec fn args_view(args: Seq<String>) -> Seq<Seq<char>> {
    args.map_values(|a: String| a@)
}

/// The options before any argument is read.
pub open spec fn empty_replay_options() -> ReplayOptionsView {
    ReplayOptionsView { report_path: Seq::empty(), target_dir: Seq::empty(), flattened: false, force: false }
}

/// The positional arguments from position `i` on: `--target` takes the
/// argument after it, the flags take none, anything else is positional.
pub open spec fn replay_positionals(args: Seq<Seq<char>>, i: int) -> Seq<Seq<char>>
    decreases args.len() - i,
{
    if i < 0 || i >= args.len() {
        Seq::empty()
    } else if args[i] == "--target"@ {
        if i + 1 < args.len() { replay_positionals(args, i + 2) } else { Seq::empty() }
    } else if args[i] == "--flattened"@ || args[i] == "--force"@ {
        replay_positionals(args, i + 1)
    } else {
        seq![args[i]] + replay_positionals(args, i + 1)
    }
}

/// A `--target` from position `i` on is the last argument, with no directory after it.
pub open spec fn replay_trailing_target(args: Seq<Seq<char>>, i: int) -> bool
    decreases args.len() - i,
{
    if i < 0 || i >= args.len() {
        false
    } else if args[i] == "--target"@ {
        if i + 1 < args.len() { replay_trailing_target(args, i + 2) } else { true }
    } else {
        replay_trailing_target(args, i + 1)
    }
}

/// The directory of the last `--target` from position `i` on.
pub open spec fn replay_last_target(args: Seq<Seq<char>>, i: int) -> Option<Seq<char>>
    decreases args.len() - i,
{
    if i < 0 || i >= args.len() {
        None
    } else if args[i] == "--target"@ {
        if i + 1 < args.len() {
            match replay_last_target(args, i + 2) {
                Some(t) => Some(t),
                None => Some(args[i + 1]),
            }
        } else {
            None
        }
    } else {
        replay_last_target(args, i + 1)
    }
}

/// The flag `flag` occurs from position `i` on (not as the directory of a `--target`).
pub open spec fn replay_flag(args: Seq<Seq<char>>, i: int, flag: Seq<char>) -> bool
    decreases args.len() - i,
{
    if i < 0 || i >= args.len() {
        false
    } else if args[i] == "--target"@ {
        if i + 1 < args.len() { replay_flag(args, i + 2, flag) } else { false }
    } else {
        args[i] == flag || replay_flag(args, i + 1, flag)
    }
}

proof fn lemma_replay_words_apart()
    ensures
        "--help"@ != "--target"@ && "--help"@ != "--flattened"@ && "--help"@ != "--force"@,
        "--target"@ != "--flattened"@ && "--target"@ != "--force"@ && "--flattened"@ != "--force"@,
{
    reveal_strlit("--help");
    reveal_strlit("--target");
    reveal_strlit("--flattened");
    reveal_strlit("--force");
    assert("--help"@.len() == 6 && "--target"@.len() == 8 && "--flattened"@.len() == 11 && "--force"@.len() == 7);
}

proof fn lemma_replay_scan(args: Seq<Seq<char>>, i: int, o: ReplayOptionsView)
    requires
        0 <= i,
        forall|j: int| 0 <= j < args.len() ==> (#[trigger] args[j]) != "--help"@ && args[j].len() > 0,
    ensures
        ({
            let ps = replay_positionals(args, i);
            let ok = !replay_trailing_target(args, i)
                && (if o.report_path.len() > 0 { ps.len() == 0 } else { ps.len() == 1 })
                && (replay_last_target(args, i) is Some || o.target_dir.len() > 0);
            match replay_parse_from(args, i, o) {
                ReplayParseView::Help(_) => false,
                ReplayParseView::Failed(_) => !ok,
                ReplayParseView::Parsed(r) => ok
                    && r.report_path == (if o.report_path.len() > 0 { o.report_path } else { ps[0] })
                    && r.target_dir == (match replay_last_target(args, i) { Some(t) => t, None => o.target_dir })
                    && r.flattened == (o.flattened || replay_flag(args, i, "--flattened"@))
                    && r.force == (o.force || replay_flag(args, i, "--force"@)),
            }
        }),
    decreases args.len() - i,
{
    lemma_replay_words_apart();
    if i < args.len() {
        let a = args[i];
        assert(a != "--help"@ && a.len() > 0);
        if a == "--target"@ {
            if i + 1 < args.len() {
                let o2 = ReplayOptionsView { target_dir: args[i + 1], ..o };
                assert(args[i + 1].len() > 0);
                lemma_replay_scan(args, i + 2, o2);
            }
        } else if a == "--flattened"@ {
            lemma_replay_scan(args, i + 1, ReplayOptionsView { flattened: true, ..o });
        } else if a == "--force"@ {
            lemma_replay_scan(args, i + 1, ReplayOptionsView { force: true, ..o });
        } else if o.report_path.len() == 0 {
            lemma_replay_scan(args, i + 1, ReplayOptionsView { report_path: a, ..o });
            assert((seq![a] + replay_positionals(args, i + 1))[0] == a);
        }
    }
}

/// The replay options in closed form: for arguments that hold no `--help`
/// and no empty argument, the parse fails exactly when a `--target` is the
/// last argument, when there is not exactly one positional argument, or when
/// no `--target` occurs; otherwise the report is the positional argument, the
/// target the directory of the last `--target`, and each flag is set when it
/// occurs.
pub proof fn lemma_replay_options_closed_form(args: Seq<Seq<char>>)
    requires
        forall|j: int| 0 <= j < args.len() ==> (#[trigger] args[j]) != "--help"@ && args[j].len() > 0,
    ensures
        (replay_parse_from(args, 0, empty_replay_options()) is Failed) <==> (replay_trailing_target(args, 0)
            || replay_positionals(args, 0).len() != 1 || replay_last_target(args, 0) is None),
        replay_parse_from(args, 0, empty_replay_options()) matches ReplayParseView::Parsed(r) ==> {
            &&& r.report_path == replay_positionals(args, 0)[0]
            &&& Some(r.target_dir) == replay_last_target(args, 0)
            &&& r.flattened == replay_flag(args, 0, "--flattened"@)
            &&& r.force == replay_flag(args, 0, "--force"@)
        },
        !(replay_parse_from(args, 0, empty_replay_options()) is Help),
{
    lemma_replay_scan(args, 0, empty_replay_options());
}

/// Parses the arguments of `replay-report`: a report path, `--target <dir>`,
/// `--flattened` and `--force`, in any order; `--help` stops the parse.
pub fn parse_replay_options(args: &[String]) -> (r: Result<ReplayOptionsParse, String>)
    ensures
        match replay_parse_from(args_view(args@), 0, empty_replay_options()) {
            ReplayParseView::Help(o) => r matches Ok(p) && p.help_requested && p.options@ == o,
            ReplayParseView::Parsed(o) => r matches Ok(p) && !p.help_requested && p.options@ == o,
            ReplayParseView::Failed(m) => r matches Err(e) && e@ == m,
        },
{
    let ghost av = args_view(args@);
    let mut options = ReplayOptions { report_path: String::new(), target_dir: String::new(), flattened: false, force: false };
    let mut i: usize = 0;
    while i < args.len()
        invariant
            av == args_view(args@),
            0 <= i <= args.len() + 1,
            replay_parse_from(av, i as int, options@) == replay_parse_from(av, 0, empty_replay_options()),
        decreases args.len() + 1 - i,
    {
        let arg = args[i].as_str();
        if str_equal(arg, "--help") {
            return Ok(ReplayOptionsParse { options, help_requested: true });
        }
        if str_equal(arg, "--target") {
            if i + 1 >= args.len() {
                return Err("--target requires a directory".to_owned());
            }
            options.target_dir = args[i + 1].clone();
            i += 2;
            continue;
        }
        if str_equal(arg, "--flattened") {
            options.flattened = true;
            i += 1;
            continue;
        }
        if str_equal(arg, "--force") {
            options.force = true;
            i += 1;
            continue;
        }
        if options.report_path.as_str().is_empty() {
            options.report_path = arg.to_owned();
            i += 1;
            continue;
        }
        return Err(concat("unknown argument: ", arg));
    }
    if options.report_path.as_str().is_empty() {
        return Err("missing report path".to_owned());
    }
    if options.target_dir.as_str().is_empty() {
        return Err("missing --target <dir>".to_owned());
    }
    Ok(ReplayOptionsParse { options, help_requested: false })
}


// ---- replaying a support report ----

/// One step of replaying a support report. The caller performs the steps in
/// order and stops at the first that fails.
#[derive(Debug, Clone, PartialEq, Eq)]
pub enum ReplayAction {
    /// Write `content` to the config file at `relative_path` under the config directory.
    WriteConfig { relative_path: String, content: String },
    /// Write `content` to the file `file_name` in the state directory.
    WriteState { file_name: String, content: String },
    /// Create the state directory.
    CreateStateDir,
    /// Stop: the report cannot be replayed; the message says why.
    Fail(String),
}

/// The mathematical content of a [`ReplayAction`].
pub enum ReplayActionView {
    WriteConfig(Seq<char>, Seq<char>),
    WriteState(Seq<char>, Seq<char>),
    CreateStateDir,
    Fail(Seq<char>),
}

impl View for ReplayAction {
    type V = ReplayActionView;

    open spec fn view(&self) -> ReplayActionView {
        match self {
            ReplayAction::WriteConfig { relative_path, content } => ReplayActionView::WriteConfig(relative_path@, content@),
            ReplayAction::WriteState { file_name, content } => ReplayActionView::WriteState(file_name@, content@),
            ReplayAction::CreateStateDir => ReplayActionView::CreateStateDir,
            ReplayAction::Fail(m) => ReplayActionView::Fail(m@),
        }
    }
}

/// The views of a list of actions.
pub open spec fn actions_view(v: Seq<ReplayAction>) -> Seq<ReplayActionView> {
    v.map_values(|a: ReplayAction| a@)
}

/// The name a config source without `relative_path` gets: `config_<k>.toml`.
pub open spec fn fallback_name(k: nat) -> Seq<char> {
    "config_"@ + spec_decimal(k) + ".toml"@
}

/// The config-source actions for the array entries from `i` on, `k` sources
/// with content having come before; and whether they end in a failure.
pub open spec fn source_actions(items: Seq<TomlData>, i: int, k: nat) -> (Seq<ReplayActionView>, bool)
    decreases items.len() - i,
{
    if i < 0 || i >= items.len() {
        (Seq::empty(), false)
    } else {
        match items[i] {
            TomlData::Table(t) => match lookup_str(t, "content"@) {
                Some(content) => match spec_safe_relative_path(t, fallback_name(k)) {
                    None => (seq![ReplayActionView::Fail("report contains an unsafe config source path"@)], true),
                    Some(rel) => {
                        let rest = source_actions(items, i + 1, k + 1);
                        (seq![ReplayActionView::WriteConfig(rel, content)] + rest.0, rest.1)
                    },
                },
                None => source_actions(items, i + 1, k),
            },
            _ => source_actions(items, i + 1, k),
        }
    }
}

/// A report section that exists: its `exists` flag, `true` when absent.
pub open spec fn section_exists(t: TableData) -> bool {
    match lookup_bool(t, "exists"@) {
        Some(b) => b,
        None => true,
    }
}

/// The state-directory actions: `settings.toml` from `state_settings` (or just
/// the directory), then `state.toml` from `app_state`.
pub open spec fn state_actions(report: TableData) -> Seq<ReplayActionView> {
    let settings = match lookup_table(report, "state_settings"@) {
        Some(t) => if section_exists(t) {
            seq![ReplayActionView::WriteState("settings.toml"@, str_or(lookup(t, "content"@), Seq::empty()))]
        } else {
            seq![ReplayActionView::CreateStateDir]
        },
        None => seq![ReplayActionView::CreateStateDir],
    };
    let app = match lookup_table(report, "app_state"@) {
        Some(t) => if section_exists(t) {
            seq![ReplayActionView::WriteState("state.toml"@, str_or(lookup(t, "content"@), Seq::empty()))]
        } else {
            Seq::empty()
        },
        None => Seq::empty(),
    };
    settings + app
}

/// The merged configuration text of a report.
pub open spec fn merged_content(report: TableData) -> Option<Seq<char>> {
    match lookup_table(report, "merged_config"@) {
        Some(m) => lookup_str(m, "content"@),
        None => None,
    }
}

/// The steps that replay `report`: flattened, the merged configuration as
/// `config.toml`; otherwise each config source, then the state files.
pub open spec fn spec_replay_plan(report: TableData, flattened: bool) -> Seq<ReplayActionView> {
    if flattened {
        match merged_content(report) {
            Some(c) => seq![ReplayActionView::WriteConfig("config.toml"@, c), ReplayActionView::CreateStateDir],
            None => seq![ReplayActionView::Fail("report has no [merged_config].content"@)],
        }
    } else {
        let sources = match lookup(report, "config_sources"@) {
            Some(TomlData::Array(items)) => source_actions(items, 0, 0),
            _ => (Seq::empty(), false),
        };
        if sources.1 { sources.0 } else { sources.0 + state_actions(report) }
    }
}

fn push_action(v: &mut Vec<ReplayAction>, a: ReplayAction)
    ensures
        actions_view(final(v)@) == actions_view(old(v)@).push(a@),
{
    v.push(a);
    assert(actions_view(v@) =~= actions_view(old(v)@).push(a@));
}

fn string_or_empty(v: Option<&TomlValue>) -> (s: String)
    ensures
        s@ == str_or(match v { Some(x) => Some(x@), None => None }, Seq::empty()),
{
    match v {
        Some(x) => match x.as_str() {
            Some(c) => c.to_owned(),
            None => String::new(),
        },
        None => String::new(),
    }
}

fn section_exists_exec(t: &TomlTable) -> (b: bool)
    ensures
        b == section_exists(t@),
{
    match t.get("exists") {
        Some(v) => match v.as_bool() {
            Some(b) => b,
            None => true,
        },
        None => true,
    }
}

fn push_state_actions(report: &TomlTable, plan: &mut Vec<ReplayAction>)
    ensures
        actions_view(final(plan)@) == actions_view(old(plan)@) + state_actions(report@),
{
    let ghost p0 = actions_view(plan@);
    match report.get("state_settings") {
        Some(TomlValue::Table(t)) => {
            if section_exists_exec(t) {
                push_action(plan, ReplayAction::WriteState { file_name: "settings.toml".to_owned(), content: string_or_empty(t.get("content")) });
            } else {
                push_action(plan, ReplayAction::CreateStateDir);
            }
        },
        _ => {
            push_action(plan, ReplayAction::CreateStateDir);
        },
    }
    let ghost p1 = actions_view(plan@);
    match report.get("app_state") {
        Some(TomlValue::Table(t)) => {
            if section_exists_exec(t) {
                push_action(plan, ReplayAction::WriteState { file_name: "state.toml".to_owned(), content: string_or_empty(t.get("content")) });
            }
        },
        _ => {},
    }
    assert(actions_view(plan@) =~= p0 + state_actions(report@));
}

/// The steps that replay the support report whose text is `text`: when the
/// text is not valid TOML, the error `failed to parse report: <why>`;
/// otherwise the steps of [`replay_plan`] for the parsed report.
pub fn replay_plan_from_text(text: &str, flattened: bool) -> (r: Result<Vec<ReplayAction>, String>)
    ensures
        match toml_parse(text@) {
            Some(report) => r matches Ok(plan) && actions_view(plan@) == spec_replay_plan(report, flattened),
            None => r matches Err(e) && e@ == "failed to parse report: "@ + toml_parse_error(text@),
        },
{
    match parse_toml_table(text) {
        Ok(report) => Ok(replay_plan(&report, flattened)),
        Err(why) => Err(concat("failed to parse report: ", why.as_str())),
    }
}

/// Whether the replay may use its target directory: an existing target is
/// refused unless `force` is set, with `target already exists; pass --force
/// to replace it: <target>`.
pub fn prepare_target_decision(target: &str, target_exists: bool, force: bool) -> (r: Result<(), String>)
    ensures
        (r is Err) == (target_exists && !force),
        r matches Err(e) ==> e@ == "target already exists; pass --force to replace it: "@ + target@,
{
    if target_exists && !force {
        Err(concat("target already exists; pass --force to replace it: ", target))
    } else {
        Ok(())
    }
}

/// The steps that replay a support report; see [`spec_replay_plan`]. A
/// failure is the last step: what comes before it is done first.
pub fn replay_plan(report: &TomlTable, flattened: bool) -> (plan: Vec<ReplayAction>)
    ensures
        actions_view(plan@) == spec_replay_plan(report@, flattened),
{
    let mut plan: Vec<ReplayAction> = Vec::new();
    if flattened {
        let merged = match report.get("merged_config") {
            Some(TomlValue::Table(m)) => match m.get("content") {
                Some(v) => match v.as_str() {
                    Some(c) => Some(c.to_owned()),
                    None => None,
                },
                None => None,
            },
            _ => None,
        };
        match merged {
            Some(c) => {
                push_action(&mut plan, ReplayAction::WriteConfig { relative_path: "config.toml".to_owned(), content: c });
                push_action(&mut plan, ReplayAction::CreateStateDir);
            },
            None => {
                push_action(&mut plan, ReplayAction::Fail("report has no [merged_config].content".to_owned()));
            },
        }
        assert(actions_view(plan@) =~= spec_replay_plan(report@, flattened));
        return plan;
    }
    match report.get("config_sources") {
        Some(TomlValue::Array(items)) => {
            let ghost iv = items_data(items@, items@.len() as int);
            proof { lemma_items_data(items@, items@.len() as int); }
            let mut k: usize = 0;
            let mut i: usize = 0;
            assert(actions_view(plan@) =~= Seq::<ReplayActionView>::empty());
            while i < items.len()
                invariant
                    iv == items_data(items@, items@.len() as int),
                    lookup(report@, "config_sources"@) == Some(TomlData::Array(iv)),
                    !flattened,
                    iv.len() == items@.len(),
                    forall|j: int| 0 <= j < iv.len() ==> #[trigger] iv[j] == items@[j]@,
                    0 <= k <= i <= items.len(),
                    actions_view(plan@) + source_actions(iv, i as int, k as nat).0 == source_actions(iv, 0, 0).0,
                    source_actions(iv, i as int, k as nat).1 == source_actions(iv, 0, 0).1,
                decreases items.len() - i,
            {
                let ghost before = actions_view(plan@);
                match &items[i] {
                    TomlValue::Table(t) => {
                        match t.get("content") {
                            Some(cv) => match cv.as_str() {
                                Some(content) => {
                                    let mut fallback = "config_".to_owned();
                                    push_decimal(&mut fallback, k as u64);
                                    push_str(&mut fallback, ".toml");
                                    assert(fallback@ =~= fallback_name(k as nat));
                                    match safe_relative_path(t, fallback.as_str()) {
                                        None => {
                                            push_action(&mut plan, ReplayAction::Fail("report contains an unsafe config source path".to_owned()));
                                            assert(actions_view(plan@) =~= source_actions(iv, 0, 0).0);
                                            assert(source_actions(iv, i as int, k as nat).1);
                                            assert(source_actions(iv, 0, 0).1);
                                            assert(lookup(report@, "config_sources"@) == Some(TomlData::Array(iv)));
                                            assert(actions_view(plan@) =~= spec_replay_plan(report@, flattened));
                                            return plan;
                                        },
                                        Some(rel) => {
                                            push_action(&mut plan, ReplayAction::WriteConfig { relative_path: rel, content: content.to_owned() });
                                            assert(actions_view(plan@) + source_actions(iv, i as int + 1, k as nat + 1).0
                                                =~= before + source_actions(iv, i as int, k as nat).0);
                                            k += 1;
                                        },
                                    }
                                },
                                None => {},
                            },
                            None => {},
                        }
                    },
                    _ => {},
                }
                i += 1;
            }
            assert(actions_view(plan@) =~= source_actions(iv, 0, 0).0);
        },
        _ => {
            assert(actions_view(plan@) =~= Seq::<ReplayActionView>::empty());
        },
    }
    push_state_actions(report, &mut plan);
    plan
}


// ---- command and argument dispatch ----

/// The `config` command named by the first argument.
#[derive(Debug, Clone, PartialEq, Eq)]
pub enum CliCommand {
    /// Print the usage text and exit with `exit_code`.
    Help { exit_code: i32 },
    Validate,
    Export,
    ReplayReport,
    /// Not a known command.
    Unknown(String),
}

/// The mathematical content of [`CliCommand`].
pub enum CliCommandView {
    Help(i32),
    Validate,
    Export,
    ReplayReport,
    Unknown(Seq<char>),
}

impl View for CliCommand {
    type V = CliCommandView;

    open spec fn view(&self) -> CliCommandView {
        match self {
            CliCommand::Help { exit_code } => CliCommandView::Help(*exit_code),
            CliCommand::Validate => CliCommandView::Validate,
            CliCommand::Export => CliCommandView::Export,
            CliCommand::ReplayReport => CliCommandView::ReplayReport,
            CliCommand::Unknown(name) => CliCommandView::Unknown(name@),
        }
    }
}

/// The command that the arguments name.
pub open spec fn spec_classify_command(args: Seq<Seq<char>>) -> CliCommandView {
    if args.len() == 0 {
        CliCommandView::Help(1)
    } else if args[0] == "--help"@ {
        CliCommandView::Help(0)
    } else if args[0] == "validate"@ {
        CliCommandView::Validate
    } else if args[0] == "export"@ {
        CliCommandView::Export
    } else if args[0] == "replay-report"@ {
        CliCommandView::ReplayReport
    } else {
        CliCommandView::Unknown(args[0])
    }
}

/// Picks the command: no arguments asks for help and fails, `--help` succeeds.
pub fn classify_command(args: &[String]) -> (c: CliCommand)
    ensures
        c@ == spec_classify_command(args_view(args@)),
{
    if args.len() == 0 {
        return CliCommand::Help { exit_code: 1 };
    }
    let first = args[0].as_str();
    if str_equal(first, "--help") {
        CliCommand::Help { exit_code: 0 }
    } else if str_equal(first, "validate") {
        CliCommand::Validate
    } else if str_equal(first, "export") {
        CliCommand::Export
    } else if str_equal(first, "replay-report") {
        CliCommand::ReplayReport
    } else {
        CliCommand::Unknown(first.to_owned())
    }
}

/// What the arguments of `validate` ask for.
#[derive(Debug, Clone, PartialEq, Eq)]
pub enum ValidateArgs {
    Help,
    /// Validate this path; empty for the active configuration.
    Target(String),
    /// An argument after the path.
    Unexpected(String),
}

/// The mathematical content of [`ValidateArgs`].
pub enum ValidateArgsView {
    Help,
    Target(Seq<char>),
    Unexpected(Seq<char>),
}

impl View for ValidateArgs {
    type V = ValidateArgsView;

    open spec fn view(&self) -> ValidateArgsView {
        match self {
            ValidateArgs::Help => ValidateArgsView::Help,
            ValidateArgs::Target(p) => ValidateArgsView::Target(p@),
            ValidateArgs::Unexpected(a) => ValidateArgsView::Unexpected(a@),
        }
    }
}

/// Reading the `validate` arguments from position `i` on, the path read so far being `path`.
pub open spec fn validate_args_from(args: Seq<Seq<char>>, i: int, path: Seq<char>) -> ValidateArgsView
    decreases args.len() - i,
{
    if i < 0 || i >= args.len() {
        ValidateArgsView::Target(path)
    } else if args[i] == "--help"@ {
        ValidateArgsView::Help
    } else if path.len() == 0 {
        validate_args_from(args, i + 1, args[i])
    } else {
        ValidateArgsView::Unexpected(args[i])
    }
}

/// Parses the arguments of `validate`: an optional path, or `--help`.
pub fn parse_validate_args(args: &[String]) -> (r: ValidateArgs)
    ensures
        r@ == validate_args_from(args_view(args@), 0, Seq::empty()),
{
    let ghost av = args_view(args@);
    let mut path = String::new();
    let mut i: usize = 0;
    while i < args.len()
        invariant
            av == args_view(args@),
            0 <= i <= args.len(),
            validate_args_from(av, i as int, path@) == validate_args_from(av, 0, Seq::empty()),
        decreases args.len() - i,
    {
        let arg = args[i].as_str();
        if str_equal(arg, "--help") {
            return ValidateArgs::Help;
        }
        if path.as_str().is_empty() {
            path = arg.to_owned();
            i += 1;
            continue;
        }
        return ValidateArgs::Unexpected(arg.to_owned());
    }
    ValidateArgs::Target(path)
}

/// What the arguments of `export` ask for.
#[derive(Debug, Clone, PartialEq, Eq)]
pub enum ExportArgs {
    Help,
    /// An argument after the mode.
    Unexpected(String),
    /// Export the merged user configuration.
    Merged,
    /// Export the full effective configuration (not available).
    Full,
    /// A mode other than `merged` or `full`.
    InvalidMode,
}

/// The mathematical content of [`ExportArgs`].
pub enum ExportArgsView {
    Help,
    Unexpected(Seq<char>),
    Merged,
    Full,
    InvalidMode,
}

impl View for ExportArgs {
    type V = ExportArgsView;

    open spec fn view(&self) -> ExportArgsView {
        match self {
            ExportArgs::Help => ExportArgsView::Help,
            ExportArgs::Unexpected(a) => ExportArgsView::Unexpected(a@),
            ExportArgs::Merged => ExportArgsView::Merged,
            ExportArgs::Full => ExportArgsView::Full,
            ExportArgs::InvalidMode => ExportArgsView::InvalidMode,
        }
    }
}

/// Reading the `export` arguments from position `i` on, with the mode read so far.
pub open spec fn export_args_from(args: Seq<Seq<char>>, i: int, mode: Seq<char>, mode_set: bool) -> ExportArgsView
    decreases args.len() - i,
{
    if i < 0 || i >= args.len() {
        if mode == "full"@ {
            ExportArgsView::Full
        } else if mode != "merged"@ {
            ExportArgsView::InvalidMode
        } else {
            ExportArgsView::Merged
        }
    } else if args[i] == "--help"@ {
        ExportArgsView::Help
    } else if !mode_set {
        export_args_from(args, i + 1, args[i], true)
    } else {
        ExportArgsView::Unexpected(args[i])
    }
}

/// Parses the arguments of `export`: an optional mode (`merged` by default), or `--help`.
pub fn parse_export_args(args: &[String]) -> (r: ExportArgs)
    ensures
        r@ == export_args_from(args_view(args@), 0, "merged"@, false),
{
    let ghost av = args_view(args@);
    let mut mode = "merged".to_owned();
    let mut mode_set = false;
    let mut i: usize = 0;
    while i < args.len()
        invariant
            av == args_view(args@),
            0 <= i <= args.len(),
            export_args_from(av, i as int, mode@, mode_set) == export_args_from(av, 0, "merged"@, false),
        decreases args.len() - i,
    {
        let arg = args[i].as_str();
        if str_equal(arg, "--help") {
            return ExportArgs::Help;
        }
        if !mode_set {
            mode = arg.to_owned();
            mode_set = true;
            i += 1;
            continue;
        }
        return ExportArgs::Unexpected(arg.to_owned());
    }
    if str_equal(mode.as_str(), "full") {
        ExportArgs::Full
    } else if !str_equal(mode.as_str(), "merged") {
        ExportArgs::InvalidMode
    } else {
        ExportArgs::Merged
    }
}

// ---- the validation report ----

/// One line of the validation report and the stream it goes to.
#[derive(Debug, Clone, PartialEq, Eq)]
pub struct ReportLine {
    pub to_stderr: bool,
    pub text: String,
}

impl View for ReportLine {
    type V = (bool, Seq<char>);

    open spec fn view(&self) -> (bool, Seq<char>) {
        (self.to_stderr, self.text@)
    }
}

/// The number of errors among `entries`.
pub open spec fn count_errors(entries: Seq<DiagnosticEntryView>) -> nat
    decreases entries.len(),
{
    if entries.len() == 0 {
        0
    } else {
        count_errors(entries.drop_last()) + if entries.last().severity == Severity::Error { 1nat } else { 0nat }
    }
}

/// The ANSI colour that starts a line, when colour is on.
pub open spec fn colour(on: bool, code: Seq<char>) -> Seq<char> {
    if on { code } else { Seq::empty() }
}

/// The report line of one diagnostic: its severity tag (coloured when the
/// stream it goes to is a terminal), path and message.
pub open spec fn entry_line(e: DiagnosticEntryView, color_err: bool, color_out: bool) -> (bool, Seq<char>) {
    let is_error = e.severity == Severity::Error;
    let tag = if is_error { "ERROR"@ } else { "WARN "@ };
    let on = if is_error { color_err } else { color_out };
    let start = colour(on, if is_error { "\x1b[31m"@ } else { "\x1b[33m"@ });
    (is_error, start + tag + colour(on, "\x1b[0m"@) + " "@ + e.path + ": "@ + e.message)
}

/// The closing lines of the report for the given counts.
pub open spec fn summary_lines(errors: nat, warnings: nat, color_err: bool, color_out: bool) -> Seq<(bool, Seq<char>)> {
    if errors > 0 {
        seq![
            (true, Seq::empty()),
            (true, colour(color_err, "\x1b[31m"@) + "\u{2717} Config is invalid"@ + colour(color_err, "\x1b[0m"@) + " ("@
                + spec_decimal(errors) + " error(s), "@ + spec_decimal(warnings) + " warning(s))"@),
        ]
    } else if warnings > 0 {
        seq![
            (false, Seq::empty()),
            (false, colour(color_out, "\x1b[32m"@) + "\u{2713} Config is valid"@ + colour(color_out, "\x1b[0m"@) + " ("@
                + spec_decimal(warnings) + " warning(s))"@),
        ]
    } else {
        seq![(false, colour(color_out, "\x1b[32m"@) + "\u{2713} Config is valid"@ + colour(color_out, "\x1b[0m"@))]
    }
}

/// The full report: one line per diagnostic, then the summary.
pub open spec fn spec_validate_report(entries: Seq<DiagnosticEntryView>, color_err: bool, color_out: bool) -> Seq<(bool, Seq<char>)> {
    entries.map_values(|e: DiagnosticEntryView| entry_line(e, color_err, color_out))
        + summary_lines(count_errors(entries), (entries.len() - count_errors(entries)) as nat, color_err, color_out)
}

/// The views of a list of report lines.
pub open spec fn lines_view(v: Seq<ReportLine>) -> Seq<(bool, Seq<char>)> {
    v.map_values(|l: ReportLine| l@)
}

proof fn lemma_count_errors_bound(entries: Seq<DiagnosticEntryView>)
    ensures
        count_errors(entries) <= entries.len(),
    decreases entries.len(),
{
    if entries.len() > 0 {
        lemma_count_errors_bound(entries.drop_last());
    }
}

fn push_line(lines: &mut Vec<ReportLine>, to_stderr: bool, text: String)
    ensures
        lines_view(final(lines)@) == lines_view(old(lines)@).push((to_stderr, text@)),
{
    lines.push(ReportLine { to_stderr, text });
    assert(lines_view(lines@) =~= lines_view(old(lines)@).push((to_stderr, text@)));
}

fn coloured(on: bool, code: &str) -> (s: String)
    ensures
        s@ == colour(on, code@),
{
    if on { code.to_owned() } else { String::new() }
}

/// The lines of the validation report and the exit code: 1 when any
/// diagnostic is an error, 0 otherwise. `color_err` and `color_out` say
/// whether standard error and standard output take colour.
pub fn validate_report(diagnostics: &Diagnostics, color_err: bool, color_out: bool) -> (r: (Vec<ReportLine>, i32))
    ensures
        lines_view(r.0@) == spec_validate_report(diagnostics@, color_err, color_out),
        r.1 == if count_errors(diagnostics@) > 0 { 1i32 } else { 0i32 },
{
    let ghost ev = diagnostics@;
    let mut lines: Vec<ReportLine> = Vec::new();
    let mut errors: usize = 0;
    let mut i: usize = 0;
    assert(lines_view(lines@) =~= Seq::<(bool, Seq<char>)>::empty());
    while i < diagnostics.entries.len()
        invariant
            ev == diagnostics@,
            ev.len() == diagnostics.entries@.len(),
            0 <= i <= diagnostics.entries.len(),
            errors == count_errors(ev.take(i as int)),
            errors <= i,
            lines_view(lines@) == ev.take(i as int).map_values(|e: DiagnosticEntryView| entry_line(e, color_err, color_out)),
        decreases diagnostics.entries.len() - i,
    {
        let e = &diagnostics.entries[i];
        assert(ev[i as int] == e@);
        assert(ev.take(i as int + 1).drop_last() =~= ev.take(i as int));
        let is_error = e.severity == Severity::Error;
        if is_error {
            errors += 1;
        }
        let on = if is_error { color_err } else { color_out };
        let start = coloured(on, if is_error { "\x1b[31m" } else { "\x1b[33m" });
        let a = concat(start.as_str(), if is_error { "ERROR" } else { "WARN " });
        let b = concat(a.as_str(), coloured(on, "\x1b[0m").as_str());
        let c = concat(b.as_str(), " ");
        let d = concat(c.as_str(), e.path.as_str());
        let f = concat(d.as_str(), ": ");
        let text = concat(f.as_str(), e.message.as_str());
        assert(text@ =~= entry_line(e@, color_err, color_out).1);
        let ghost before = lines_view(lines@);
        push_line(&mut lines, is_error, text);
        assert(ev.take(i as int + 1).map_values(|x: DiagnosticEntryView| entry_line(x, color_err, color_out))
            =~= before.push(entry_line(e@, color_err, color_out)));
        i += 1;
    }
    assert(ev.take(i as int) =~= ev);
    proof { lemma_count_errors_bound(ev); }
    let warnings: usize = i - errors;
    if errors > 0 {
        push_line(&mut lines, true, String::new());
        let a = concat(coloured(color_err, "\x1b[31m").as_str(), "\u{2717} Config is invalid");
        let b = concat(a.as_str(), coloured(color_err, "\x1b[0m").as_str());
        let mut t = concat(b.as_str(), " (");
        push_decimal(&mut t, errors as u64);
        push_str(&mut t, " error(s), ");
        push_decimal(&mut t, warnings as u64);
        push_str(&mut t, " warning(s))");
        push_line(&mut lines, true, t);
        assert(lines_view(lines@) =~= spec_validate_report(ev, color_err, color_out));
        return (lines, 1);
    }
    let a = concat(coloured(color_out, "\x1b[32m").as_str(), "\u{2713} Config is valid");
    let mut t = concat(a.as_str(), coloured(color_out, "\x1b[0m").as_str());
    if warnings > 0 {
        push_line(&mut lines, false, String::new());
        push_str(&mut t, " (");
        push_decimal(&mut t, warnings as u64);
        push_str(&mut t, " warning(s))");
    }
    push_line(&mut lines, false, t);
    assert(lines_view(lines@) =~= spec_validate_report(ev, color_err, color_out));
    (lines, 0)
}

/// A failing config source ends the source actions with a failure.
proof fn lemma_failing_sources_fail(items: Seq<TomlData>, i: int, k: nat)
    requires
        source_actions(items, i, k).1,
    ensures
        exists|j: int| 0 <= j < source_actions(items, i, k).0.len() && (#[trigger] source_actions(items, i, k).0[j]) is Fail,
    decreases items.len() - i,
{
    if 0 <= i < items.len() {
        match items[i] {
            TomlData::Table(t) => match lookup_str(t, "content"@) {
                Some(content) => match spec_safe_relative_path(t, fallback_name(k)) {
                    None => {
                        assert(source_actions(items, i, k).0[0] is Fail);
                    },
                    Some(rel) => {
                        lemma_failing_sources_fail(items, i + 1, k + 1);
                        let rest = source_actions(items, i + 1, k + 1).0;
                        let j = choose|j: int| 0 <= j < rest.len() && (#[trigger] rest[j]) is Fail;
                        assert(source_actions(items, i, k).0[j + 1] == rest[j]);
                    },
                },
                None => lemma_failing_sources_fail(items, i + 1, k),
            },
            _ => lemma_failing_sources_fail(items, i + 1, k),
        }
    }
}

/// A replay of the config sources that does not fail ends with the state
/// files: `settings.toml` with the content of `[state_settings]` when that
/// section exists (its `exists` flag true or absent), else only the state
/// directory; then `state.toml` with the content of `[app_state]` when that
/// section exists. A section's missing or non-string content is written as
/// an empty file.
pub proof fn lemma_replay_ends_with_state_files(report: TableData)
    ensures
        ({
            let p = spec_replay_plan(report, false);
            let settings_step = match lookup(report, "state_settings"@) {
                Some(TomlData::Table(t)) => if lookup(t, "exists"@) != Some(TomlData::Boolean(false)) {
                    ReplayActionView::WriteState("settings.toml"@, str_or(lookup(t, "content"@), Seq::empty()))
                } else {
                    ReplayActionView::CreateStateDir
                },
                _ => ReplayActionView::CreateStateDir,
            };
            (forall|i: int| 0 <= i < p.len() ==> !(#[trigger] p[i] is Fail)) ==> match lookup(report, "app_state"@) {
                Some(TomlData::Table(a)) => if lookup(a, "exists"@) != Some(TomlData::Boolean(false)) {
                    &&& p.len() >= 2
                    &&& p[p.len() - 1] == ReplayActionView::WriteState("state.toml"@, str_or(lookup(a, "content"@), Seq::empty()))
                    &&& p[p.len() - 2] == settings_step
                } else {
                    p.len() >= 1 && p[p.len() - 1] == settings_step
                },
                _ => p.len() >= 1 && p[p.len() - 1] == settings_step,
            }
        }),
{
    let p = spec_replay_plan(report, false);
    let sources = match lookup(report, "config_sources"@) {
        Some(TomlData::Array(items)) => source_actions(items, 0, 0),
        _ => (Seq::empty(), false),
    };
    if forall|i: int| 0 <= i < p.len() ==> !(#[trigger] p[i] is Fail) {
        if sources.1 {
            match lookup(report, "config_sources"@) {
                Some(TomlData::Array(items)) => {
                    lemma_failing_sources_fail(items, 0, 0);
                    let j = choose|j: int| 0 <= j < sources.0.len() && (#[trigger] sources.0[j]) is Fail;
                    assert(p[j] is Fail);
                },
                _ => {},
            }
        }
        assert(p == sources.0 + state_actions(report));
    }
}

} // verus!

