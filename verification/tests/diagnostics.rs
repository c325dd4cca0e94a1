use noctalia_config::schema::diagnostics::{join_path, Diagnostics, RecoveryScope, Severity};
use noctalia_config::schema::ranges::{apply_range, Range};

#[test]
fn join_path_empty_parent() {
    assert_eq!(join_path("", "key"), "key");
}

#[test]
fn join_path_dotted() {
    assert_eq!(join_path("shell", "animation"), "shell.animation");
}

#[test]
fn diagnostics_has_errors() {
    let mut diag = Diagnostics::default();
    assert!(!diag.has_errors());
    diag.warn("path", "msg");
    assert!(!diag.has_errors());
    diag.error("path", "msg");
    assert!(diag.has_errors());
}

#[test]
fn diagnostics_has_fatal_errors() {
    let mut diag = Diagnostics::default();
    diag.error("path", "msg");
    assert!(!diag.has_fatal_errors());
    diag.fatal("path", "msg");
    assert!(diag.has_fatal_errors());
}

#[test]
fn introduced_errors_compared_to_baseline() {
    let mut baseline = Diagnostics::default();
    baseline.error("shell.speed", "out of range");

    let mut current = Diagnostics::default();
    current.error("shell.speed", "out of range");
    current.error("audio.volume", "out of range");

    let introduced = current.introduced_errors_compared_to(&baseline);
    assert_eq!(introduced.entries.len(), 1);
    assert_eq!(introduced.entries[0].path, "audio.volume");
}

#[test]
fn recording_methods_set_severity_scope_and_code() {
    let mut diag = Diagnostics::new();
    diag.warn("a", "w");
    diag.error_with_code("b", "e", "custom.code");
    diag.component_error("c.d", "c", "bad component");
    diag.fatal("e", "f");
    assert_eq!(diag.entries.len(), 4);
    assert_eq!(diag.entries[0].severity, Severity::Warning);
    assert_eq!(diag.entries[0].recovery_scope, RecoveryScope::Advisory);
    assert_eq!(diag.entries[0].code, "config.warning");
    assert_eq!(diag.entries[1].code, "custom.code");
    assert_eq!(diag.entries[1].recovery_scope, RecoveryScope::Value);
    assert_eq!(diag.entries[2].owner_path, "c");
    assert_eq!(diag.entries[2].recovery_scope, RecoveryScope::Component);
    assert_eq!(diag.entries[3].recovery_scope, RecoveryScope::Document);
    assert_eq!(diag.entries[3].code, "config.invalid-document");
}

#[test]
fn introduced_errors_ignore_warnings_and_keep_order() {
    let baseline = Diagnostics::new();
    let mut current = Diagnostics::new();
    current.warn("w", "only a warning");
    current.error("x", "first");
    current.error("y", "second");
    let introduced = current.introduced_errors_compared_to(&baseline);
    assert_eq!(introduced.entries.len(), 2);
    assert_eq!(introduced.entries[0].path, "x");
    assert_eq!(introduced.entries[1].path, "y");
}

#[test]
fn apply_range_clamps_below_min() {
    let r = Range::new(Some(0.5_f64), Some(2.5), None);
    assert_eq!(apply_range(0.1, &r), 0.5);
}

#[test]
fn apply_range_clamps_above_max() {
    let r = Range::new(Some(0.5_f64), Some(2.5), None);
    assert_eq!(apply_range(3.0, &r), 2.5);
}

#[test]
fn apply_range_leaves_value_in_range() {
    let r = Range::new(Some(0.5_f64), Some(2.5), None);
    assert_eq!(apply_range(1.5, &r), 1.5);
}

#[test]
fn apply_range_min_only() {
    let r: Range<i64> = Range::new(Some(0), None, None);
    assert_eq!(apply_range(-5, &r), 0);
    assert_eq!(apply_range(100, &r), 100);
}

#[test]
fn apply_range_integer_bounds_and_max_only() {
    let r: Range<i64> = Range::new(Some(1), Some(10), Some(1));
    assert_eq!(apply_range(0, &r), 1);
    assert_eq!(apply_range(11, &r), 10);
    assert_eq!(apply_range(5, &r), 5);
    let m: Range<i64> = Range::new(None, Some(3), None);
    assert_eq!(apply_range(9, &m), 3);
    assert_eq!(apply_range(-9, &m), -9);
}

#[test]
fn clamping_a_clamped_value_again_changes_nothing() {
    let r = Range::new(Some(0.5_f64), Some(2.5), None);
    for v in [0.1, 1.5, 3.0] {
        let once = apply_range(v, &r);
        assert_eq!(apply_range(once, &r), once);
    }
    let i: Range<i64> = Range::new(Some(-3), Some(7), None);
    assert_eq!(apply_range(apply_range(100, &i), &i), 7);
}
