//! Issues collected while reading or validating a configuration table.

use vstd::prelude::*;
use crate::text::{push_char, str_equal};

verus! {

/// How serious a diagnostic is.
#[derive(Debug, Clone, Copy, PartialEq, Eq, Structural)]
pub enum Severity {
    Warning,
    Error,
}

/// What part of the configuration a diagnostic cost.
#[derive(Debug, Clone, Copy, PartialEq, Eq, Structural)]
pub enum RecoveryScope {
    /// Informational; the setting was accepted.
    Advisory,
    /// The value was rejected; the struct default stands.
    Value,
    /// A multi-field component (e.g. a calendar account) was dropped.
    Component,
    /// The entire document is unusable.
    Document,
}

/// One diagnostic entry.
#[derive(Debug, Clone, PartialEq, Eq)]
pub struct DiagnosticEntry {
    pub severity: Severity,
    pub recovery_scope: RecoveryScope,
    pub code: String,
    pub path: String,
    pub message: String,
    pub owner_path: String,
}

/// The mathematical content of a [`DiagnosticEntry`].
pub struct DiagnosticEntryView {
    pub severity: Severity,
    pub recovery_scope: RecoveryScope,
    pub code: Seq<char>,
    pub path: Seq<char>,
    pub message: Seq<char>,
    pub owner_path: Seq<char>,
}

impl View for DiagnosticEntry {
    type V = DiagnosticEntryView;

    open spec fn view(&self) -> DiagnosticEntryView {
        DiagnosticEntryView {
            severity: self.severity,
            recovery_scope: self.recovery_scope,
            code: self.code@,
            path: self.path@,
            message: self.message@,
            owner_path: self.owner_path@,
        }
    }
}

/// Accumulates issues found while reading or validating a config table.
#[derive(Debug, Clone)]
pub struct Diagnostics {
    pub entries: Vec<DiagnosticEntry>,
}

impl View for Diagnostics {
    type V = Seq<DiagnosticEntryView>;

    open spec fn view(&self) -> Seq<DiagnosticEntryView> {
        self.entries@.map_values(|e: DiagnosticEntry| e@)
    }
}

/// The entry that the recording methods append.
pub open spec fn spec_entry(
    severity: Severity,
    scope: RecoveryScope,
    code: Seq<char>,
    path: Seq<char>,
    message: Seq<char>,
    owner_path: Seq<char>,
) -> DiagnosticEntryView {
    DiagnosticEntryView { severity, recovery_scope: scope, code, path, message, owner_path }
}

/// Some entry of `entries` is an error.
pub open spec fn spec_has_errors(entries: Seq<DiagnosticEntryView>) -> bool {
    exists|i: int| 0 <= i < entries.len() && entries[i].severity == Severity::Error
}

/// Some entry of `entries` is an error that makes the whole document unusable.
pub open spec fn spec_has_fatal_errors(entries: Seq<DiagnosticEntryView>) -> bool {
    exists|i: int|
        0 <= i < entries.len() && entries[i].severity == Severity::Error
            && entries[i].recovery_scope == RecoveryScope::Document
}

/// `entries` holds an entry equal to `e` in every field.
pub open spec fn spec_contains_entry(entries: Seq<DiagnosticEntryView>, e: DiagnosticEntryView) -> bool {
    exists|j: int| 0 <= j < entries.len() && entries[j] == e
}

/// The errors of `current`, in order, that `baseline` does not already hold.
pub open spec fn spec_introduced(
    current: Seq<DiagnosticEntryView>,
    baseline: Seq<DiagnosticEntryView>,
) -> Seq<DiagnosticEntryView>
    decreases current.len(),
{
    if current.len() == 0 {
        Seq::empty()
    } else {
        let prev = spec_introduced(current.drop_last(), baseline);
        let e = current.last();
        if e.severity == Severity::Error && !spec_contains_entry(baseline, e) {
            prev.push(e)
        } else {
            prev
        }
    }
}

/// Errors that the baseline already holds are never introduced: in particular,
/// a set of diagnostics compared with itself introduces nothing.
pub proof fn lemma_nothing_introduced(current: Seq<DiagnosticEntryView>, baseline: Seq<DiagnosticEntryView>)
    requires
        forall|i: int| 0 <= i < current.len() ==> spec_contains_entry(baseline, #[trigger] current[i]),
    ensures
        spec_introduced(current, baseline) == Seq::<DiagnosticEntryView>::empty(),
    decreases current.len(),
{
    if current.len() > 0 {
        let p = current.drop_last();
        assert forall|i: int| 0 <= i < p.len() implies spec_contains_entry(baseline, #[trigger] p[i]) by {
            assert(p[i] == current[i]);
        }
        lemma_nothing_introduced(p, baseline);
        assert(spec_contains_entry(baseline, current[current.len() - 1]));
    }
}

/// Comparing diagnostics with themselves introduces no error.
pub proof fn lemma_introduced_against_self(d: Seq<DiagnosticEntryView>)
    ensures
        spec_introduced(d, d) == Seq::<DiagnosticEntryView>::empty(),
{
    assert forall|i: int| 0 <= i < d.len() implies spec_contains_entry(d, #[trigger] d[i]) by {}
    lemma_nothing_introduced(d, d);
}

fn copy_entry(e: &DiagnosticEntry) -> (out: DiagnosticEntry)
    ensures
        out@ == e@,
{
    DiagnosticEntry {
        severity: e.severity,
        recovery_scope: e.recovery_scope,
        code: e.code.clone(),
        path: e.path.clone(),
        message: e.message.clone(),
        owner_path: e.owner_path.clone(),
    }
}

fn same_entry(a: &DiagnosticEntry, b: &DiagnosticEntry) -> (r: bool)
    ensures
        r == (a@ == b@),
{
    a.severity == b.severity && a.recovery_scope == b.recovery_scope
        && str_equal(a.code.as_str(), b.code.as_str())
        && str_equal(a.path.as_str(), b.path.as_str())
        && str_equal(a.message.as_str(), b.message.as_str())
        && str_equal(a.owner_path.as_str(), b.owner_path.as_str())
}

impl Default for Diagnostics {
    /// An empty collection.
    fn default() -> (d: Diagnostics)
        ensures
            d@ == Seq::<DiagnosticEntryView>::empty(),
    {
        Diagnostics::new()
    }
}

impl Diagnostics {
    /// An empty collection.
    pub fn new() -> (d: Diagnostics)
        ensures
            d@ == Seq::<DiagnosticEntryView>::empty(),
    {
        let d = Diagnostics { entries: Vec::new() };
        assert(d@ =~= Seq::<DiagnosticEntryView>::empty());
        d
    }

    fn record(
        &mut self,
        severity: Severity,
        scope: RecoveryScope,
        code: String,
        path: &str,
        message: &str,
        owner_path: String,
    )
        ensures
            final(self)@ == old(self)@.push(
                spec_entry(severity, scope, code@, path@, message@, owner_path@),
            ),
    {
        let e = DiagnosticEntry {
            severity,
            recovery_scope: scope,
            code,
            path: path.to_owned(),
            message: message.to_owned(),
            owner_path,
        };
        self.entries.push(e);
        assert(self@ =~= old(self)@.push(
            spec_entry(severity, scope, e.code@, path@, message@, e.owner_path@),
        ));
    }

    /// Records an advisory warning with the code `config.warning`.
    pub fn warn(&mut self, path: &str, message: &str)
        ensures
            final(self)@ == old(self)@.push(
                spec_entry(Severity::Warning, RecoveryScope::Advisory, "config.warning"@, path@, message@, Seq::empty()),
            ),
    {
        self.warn_with_code(path, message, "config.warning");
    }

    /// Records an advisory warning with the given code.
    pub fn warn_with_code(&mut self, path: &str, message: &str, code: &str)
        ensures
            final(self)@ == old(self)@.push(
                spec_entry(Severity::Warning, RecoveryScope::Advisory, code@, path@, message@, Seq::empty()),
            ),
    {
        self.record(Severity::Warning, RecoveryScope::Advisory, code.to_owned(), path, message, String::new());
    }

    /// Records a rejected value with the code `config.invalid-value`.
    pub fn error(&mut self, path: &str, message: &str)
        ensures
            final(self)@ == old(self)@.push(
                spec_entry(Severity::Error, RecoveryScope::Value, "config.invalid-value"@, path@, message@, Seq::empty()),
            ),
    {
        self.error_with_code(path, message, "config.invalid-value");
    }

    /// Records a rejected value with the given code.
    pub fn error_with_code(&mut self, path: &str, message: &str, code: &str)
        ensures
            final(self)@ == old(self)@.push(
                spec_entry(Severity::Error, RecoveryScope::Value, code@, path@, message@, Seq::empty()),
            ),
    {
        self.record(Severity::Error, RecoveryScope::Value, code.to_owned(), path, message, String::new());
    }

    /// Records a dropped component with the code `config.invalid-component`.
    pub fn component_error(&mut self, path: &str, owner_path: &str, message: &str)
        ensures
            final(self)@ == old(self)@.push(
                spec_entry(Severity::Error, RecoveryScope::Component, "config.invalid-component"@, path@, message@, owner_path@),
            ),
    {
        self.component_error_with_code(path, owner_path, message, "config.invalid-component");
    }

    /// Records a dropped component with the given code.
    pub fn component_error_with_code(&mut self, path: &str, owner_path: &str, message: &str, code: &str)
        ensures
            final(self)@ == old(self)@.push(
                spec_entry(Severity::Error, RecoveryScope::Component, code@, path@, message@, owner_path@),
            ),
    {
        self.record(Severity::Error, RecoveryScope::Component, code.to_owned(), path, message, owner_path.to_owned());
    }

    /// Records an unusable document with the code `config.invalid-document`.
    pub fn fatal(&mut self, path: &str, message: &str)
        ensures
            final(self)@ == old(self)@.push(
                spec_entry(Severity::Error, RecoveryScope::Document, "config.invalid-document"@, path@, message@, Seq::empty()),
            ),
    {
        self.fatal_with_code(path, message, "config.invalid-document");
    }

    /// Records an unusable document with the given code.
    pub fn fatal_with_code(&mut self, path: &str, message: &str, code: &str)
        ensures
            final(self)@ == old(self)@.push(
                spec_entry(Severity::Error, RecoveryScope::Document, code@, path@, message@, Seq::empty()),
            ),
    {
        self.record(Severity::Error, RecoveryScope::Document, code.to_owned(), path, message, String::new());
    }

    /// Whether any entry is an error.
    pub fn has_errors(&self) -> (r: bool)
        ensures
            r == spec_has_errors(self@),
    {
        let mut i: usize = 0;
        while i < self.entries.len()
            invariant
                0 <= i <= self.entries.len(),
                forall|k: int| 0 <= k < i ==> self@[k].severity != Severity::Error,
            decreases self.entries.len() - i,
        {
            if self.entries[i].severity == Severity::Error {
                assert(self@[i as int].severity == Severity::Error);
                return true;
            }
            i += 1;
        }
        false
    }

    /// Whether any entry is an error of document scope.
    pub fn has_fatal_errors(&self) -> (r: bool)
        ensures
            r == spec_has_fatal_errors(self@),
    {
        let mut i: usize = 0;
        while i < self.entries.len()
            invariant
                0 <= i <= self.entries.len(),
                forall|k: int|
                    0 <= k < i ==> !(self@[k].severity == Severity::Error
                        && self@[k].recovery_scope == RecoveryScope::Document),
            decreases self.entries.len() - i,
        {
            let e = &self.entries[i];
            if e.severity == Severity::Error && e.recovery_scope == RecoveryScope::Document {
                assert(self@[i as int].severity == Severity::Error);
                return true;
            }
            i += 1;
        }
        false
    }

    fn holds_entry(&self, e: &DiagnosticEntry) -> (r: bool)
        ensures
            r == spec_contains_entry(self@, e@),
    {
        let mut j: usize = 0;
        while j < self.entries.len()
            invariant
                0 <= j <= self.entries.len(),
                forall|k: int| 0 <= k < j ==> self@[k] != e@,
            decreases self.entries.len() - j,
        {
            if same_entry(&self.entries[j], e) {
                assert(self@[j as int] == e@);
                return true;
            }
            j += 1;
        }
        false
    }

    /// The errors of `self` that `baseline` does not already hold, in order.
    pub fn introduced_errors_compared_to(&self, baseline: &Diagnostics) -> (out: Diagnostics)
        ensures
            out@ == spec_introduced(self@, baseline@),
    {
        let mut out = Diagnostics::new();
        let mut i: usize = 0;
        while i < self.entries.len()
            invariant
                0 <= i <= self.entries.len(),
                out@ == spec_introduced(self@.take(i as int), baseline@),
            decreases self.entries.len() - i,
        {
            assert(self@.take(i + 1).drop_last() =~= self@.take(i as int));
            let candidate = &self.entries[i];
            if candidate.severity == Severity::Error && !baseline.holds_entry(candidate) {
                let copy = copy_entry(candidate);
                out.entries.push(copy);
                assert(out@ =~= spec_introduced(self@.take(i as int), baseline@).push(candidate@));
            }
            i += 1;
        }
        assert(self@.take(self.entries.len() as int) =~= self@);
        out
    }
}

/// The dotted path `parent.key`, or `key` alone when `parent` is empty.
pub open spec fn spec_join_path(parent: Seq<char>, key: Seq<char>) -> Seq<char> {
    if parent.len() == 0 {
        key
    } else {
        parent.push('.') + key
    }
}

/// Joins a parent path and a key into a dotted path.
pub fn join_path(parent: &str, key: &str) -> (out: String)
    ensures
        out@ == spec_join_path(parent@, key@),
{
    if parent.is_empty() {
        return key.to_owned();
    }
    let mut out = parent.to_owned();
    push_char(&mut out, '.');
    out.append(key);
    out
}

} // verus!
