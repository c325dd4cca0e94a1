use noctalia_config::merge::deep_merge;
use noctalia_config::service::{clear_override, prepare_document, set_override_value, OverrideEdit};
use noctalia_config::schema::diagnostics::Diagnostics;
use noctalia_config::value::{TomlEntry, TomlTable, TomlValue};

fn to_value(v: &toml::Value) -> TomlValue {
    match v {
        toml::Value::String(s) => TomlValue::String(s.clone()),
        toml::Value::Integer(i) => TomlValue::Integer(*i),
        toml::Value::Float(f) => TomlValue::Float(f.to_bits()),
        toml::Value::Boolean(b) => TomlValue::Boolean(*b),
        toml::Value::Datetime(d) => TomlValue::Datetime(d.to_string()),
        toml::Value::Array(a) => TomlValue::Array(a.iter().map(to_value).collect()),
        toml::Value::Table(t) => TomlValue::Table(to_table(t)),
    }
}

fn to_table(t: &toml::Table) -> TomlTable {
    TomlTable {
        entries: t
            .iter()
            .map(|(k, v)| TomlEntry { key: k.clone(), value: to_value(v) })
            .collect(),
    }
}

fn parse(s: &str) -> TomlTable {
    to_table(&s.parse::<toml::Table>().expect("test fixture must be valid TOML"))
}

fn at<'a>(t: &'a TomlTable, path: &[&str]) -> Option<&'a TomlValue> {
    let (first, rest) = path.split_first()?;
    let v = t.get(first)?;
    if rest.is_empty() {
        Some(v)
    } else {
        at(v.as_table()?, rest)
    }
}

fn int_at(t: &TomlTable, path: &[&str]) -> Option<i64> {
    at(t, path).and_then(|v| v.as_integer())
}

fn bool_at(t: &TomlTable, path: &[&str]) -> Option<bool> {
    at(t, path).and_then(|v| v.as_bool())
}

fn str_at<'a>(t: &'a TomlTable, path: &[&str]) -> Option<&'a str> {
    at(t, path).and_then(|v| v.as_str())
}

fn path(list: &[&str]) -> Vec<String> {
    list.iter().map(|s| s.to_string()).collect()
}

#[test]
fn nested_tables_recurse() {
    let mut base = parse("[a]\nx = 1\ny = 2\n");
    let overlay = parse("[a]\ny = 20\nz = 30\n");
    deep_merge(&mut base, &overlay);
    assert_eq!(int_at(&base, &["a", "x"]), Some(1));
    assert_eq!(int_at(&base, &["a", "y"]), Some(20));
    assert_eq!(int_at(&base, &["a", "z"]), Some(30));
}

#[test]
fn deeply_nested_tables_recurse() {
    let mut base = parse("[a.b]\nx = 1\n[a.c]\nx = 1\n");
    let overlay = parse("[a.b]\nx = 2\n");
    deep_merge(&mut base, &overlay);
    assert_eq!(int_at(&base, &["a", "b", "x"]), Some(2));
    assert_eq!(int_at(&base, &["a", "c", "x"]), Some(1));
}

#[test]
fn arrays_replace_wholesale_not_element_wise() {
    let mut base = parse("list = [1, 2, 3]\n");
    let overlay = parse("list = [9]\n");
    deep_merge(&mut base, &overlay);
    match base.get("list") {
        Some(TomlValue::Array(items)) => assert_eq!(items.len(), 1),
        _ => panic!("list is an array"),
    }
}

#[test]
fn table_over_non_table_replaces_wholesale() {
    let mut base = parse("a = 1\n");
    let overlay = parse("[a]\nx = 1\n");
    deep_merge(&mut base, &overlay);
    assert!(base.get("a").expect("a present").is_table());
}

#[test]
fn non_table_over_table_replaces_wholesale() {
    let mut base = parse("[a]\nx = 1\n");
    let overlay = parse("a = 1\n");
    deep_merge(&mut base, &overlay);
    assert_eq!(int_at(&base, &["a"]), Some(1));
}

#[test]
fn new_top_level_key_is_added() {
    let mut base = parse("a = 1\n");
    let overlay = parse("b = 2\n");
    deep_merge(&mut base, &overlay);
    assert_eq!(int_at(&base, &["a"]), Some(1));
    assert_eq!(int_at(&base, &["b"]), Some(2));
}

#[test]
fn new_nested_table_key_is_added_wholesale() {
    let mut base = parse("a = 1\n");
    let overlay = parse("[b.c]\nx = 1\n");
    deep_merge(&mut base, &overlay);
    assert_eq!(int_at(&base, &["a"]), Some(1));
    assert_eq!(int_at(&base, &["b", "c", "x"]), Some(1));
}

#[test]
fn empty_overlay_leaves_base_unchanged() {
    let mut base = parse("[a]\nx = 1\n");
    let overlay = TomlTable::new();
    deep_merge(&mut base, &overlay);
    assert_eq!(int_at(&base, &["a", "x"]), Some(1));
}

#[test]
fn deep_merge_overlays_tables() {
    let mut base = parse("[shell]\nx = 1\n[bar.main]\nthickness = 30\n");
    let overlay = parse("[shell]\ny = 2\n[bar.main]\nthickness = 40\n");
    deep_merge(&mut base, &overlay);
    assert_eq!(int_at(&base, &["shell", "x"]), Some(1));
    assert_eq!(int_at(&base, &["shell", "y"]), Some(2));
    assert_eq!(int_at(&base, &["bar", "main", "thickness"]), Some(40));
}

#[test]
fn override_set_creates_tables_and_reads_back() {
    let mut overrides = parse("shell = 3\n");
    assert_eq!(set_override_value(&mut overrides, &[], TomlValue::Integer(1)), OverrideEdit::Rejected);
    let edit = set_override_value(&mut overrides, &path(&["shell", "animation", "speed"]), TomlValue::Integer(7));
    assert_eq!(edit, OverrideEdit::Changed);
    assert_eq!(int_at(&overrides, &["shell", "animation", "speed"]), Some(7));
    let edit = set_override_value(&mut overrides, &path(&["shell", "animation", "enabled"]), TomlValue::Boolean(false));
    assert_eq!(edit, OverrideEdit::Changed);
    assert_eq!(int_at(&overrides, &["shell", "animation", "speed"]), Some(7));
    assert_eq!(bool_at(&overrides, &["shell", "animation", "enabled"]), Some(false));
}

#[test]
fn override_clear_removes_the_key_or_reports_unreached_paths() {
    let mut overrides = parse("[shell.animation]\nspeed = 7\nenabled = true\n");
    assert_eq!(clear_override(&mut overrides, &path(&["dock", "size"])), OverrideEdit::Unchanged);
    assert_eq!(clear_override(&mut overrides, &path(&["shell", "animation", "speed"])), OverrideEdit::Changed);
    assert!(at(&overrides, &["shell", "animation", "speed"]).is_none());
    assert_eq!(bool_at(&overrides, &["shell", "animation", "enabled"]), Some(true));
    assert_eq!(clear_override(&mut overrides, &[]), OverrideEdit::Rejected);
}

#[test]
fn prepare_document_applies_overrides_then_migrations() {
    let mut merged = parse("[bar.main]\nradius = -5\n");
    let overrides = parse("[bar.main]\nthickness = 40\n");
    let mut diag = Diagnostics::default();
    prepare_document(&mut merged, &overrides, &mut diag);
    assert_eq!(int_at(&merged, &["bar", "main", "radius"]), Some(5));
    assert_eq!(int_at(&merged, &["bar", "main", "thickness"]), Some(40));
    assert_eq!(diag.entries.len(), 1);

    let mut current = parse("config_version = 8\n[bar.main]\nradius = -5\n");
    let mut current_diag = Diagnostics::default();
    prepare_document(&mut current, &TomlTable::new(), &mut current_diag);
    assert_eq!(int_at(&current, &["bar", "main", "radius"]), Some(-5));
    assert!(current_diag.entries.is_empty());
}

#[test]
fn merging_the_same_overlay_twice_changes_nothing_more() {
    let overlay = parse("[bar.main]\nthickness = 40\n[bar.main.monitor.dp1]\nenabled = false\n[theme]\nmode = \"dark\"\n");
    let mut once = parse("[bar.main]\nthickness = 30\nposition = \"top\"\n[shell]\nlang = \"en\"\n");
    deep_merge(&mut once, &overlay);
    let mut twice = parse("[bar.main]\nthickness = 30\nposition = \"top\"\n[shell]\nlang = \"en\"\n");
    deep_merge(&mut twice, &overlay);
    deep_merge(&mut twice, &overlay);
    assert_eq!(format!("{:?}", once), format!("{:?}", twice));
    assert_eq!(int_at(&twice, &["bar", "main", "thickness"]), Some(40));
    assert_eq!(str_at(&twice, &["bar", "main", "position"]), Some("top"));
    assert_eq!(bool_at(&twice, &["bar", "main", "monitor", "dp1", "enabled"]), Some(false));
}
