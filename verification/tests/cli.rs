use noctalia_config::cli::{
    classify_command, lexically_normal, parse_export_args, parse_replay_options, parse_validate_args,
    prepare_target_decision, replay_plan_from_text,
    replay_plan, safe_relative_path, shell_quote, validate_report, CliCommand, ExportArgs, ReplayAction,
    ValidateArgs,
};
use noctalia_config::schema::diagnostics::Diagnostics;
use noctalia_config::value::{TomlEntry, TomlTable, TomlValue};

fn to_value(v: &toml::Value) -> TomlValue {
    match v {
        toml::Value::String(s) => TomlValue::String(s.clone()),
        toml::Value::Integer(i) => TomlValue::Integer(*i),
        toml::Value::Float(f) => TomlValue::Float(f.to_bits()),
        toml::Value::Boolean(b) => TomlValue::Boolean(*b),
        toml::Value::Datetime(d) => TomlValue::Datetime(d.to_string()),
        toml::Value::Array(a) => TomlValue::Array(a.iter().map(to_value).collect()),
        toml::Value::Table(t) => TomlValue::Table(to_table(t)),
    }
}

fn to_table(t: &toml::Table) -> TomlTable {
    TomlTable {
        entries: t
            .iter()
            .map(|(k, v)| TomlEntry { key: k.clone(), value: to_value(v) })
            .collect(),
    }
}

fn parse(s: &str) -> TomlTable {
    to_table(&s.parse::<toml::Table>().expect("test fixture must be valid TOML"))
}

fn at<'a>(t: &'a TomlTable, path: &[&str]) -> Option<&'a TomlValue> {
    let (first, rest) = path.split_first()?;
    let v = t.get(first)?;
    if rest.is_empty() {
        Some(v)
    } else {
        at(v.as_table()?, rest)
    }
}

fn int_at(t: &TomlTable, path: &[&str]) -> Option<i64> {
    at(t, path).and_then(|v| v.as_integer())
}

fn bool_at(t: &TomlTable, path: &[&str]) -> Option<bool> {
    at(t, path).and_then(|v| v.as_bool())
}

fn str_at<'a>(t: &'a TomlTable, path: &[&str]) -> Option<&'a str> {
    at(t, path).and_then(|v| v.as_str())
}

fn args(list: &[&str]) -> Vec<String> {
    list.iter().map(|s| s.to_string()).collect()
}

#[test]
fn no_args_prints_help_and_fails() {
    assert_eq!(classify_command(&[]), CliCommand::Help { exit_code: 1 });
}

#[test]
fn help_flag_prints_help_and_succeeds() {
    assert_eq!(classify_command(&args(&["--help"])), CliCommand::Help { exit_code: 0 });
}

#[test]
fn unknown_command_fails() {
    assert_eq!(classify_command(&args(&["bogus"])), CliCommand::Unknown("bogus".to_string()));
}

#[test]
fn run_cli_dispatches_export_to_run_export() {
    let a = args(&["export", "--help"]);
    assert_eq!(classify_command(&a), CliCommand::Export);
    assert_eq!(parse_export_args(&a[1..]), ExportArgs::Help);
}

#[test]
fn export_help_flag_succeeds() {
    assert_eq!(parse_export_args(&args(&["--help"])), ExportArgs::Help);
}

#[test]
fn export_unexpected_second_argument_fails() {
    assert_eq!(parse_export_args(&args(&["merged", "extra"])), ExportArgs::Unexpected("extra".to_string()));
}

#[test]
fn export_full_mode_is_not_implemented_yet() {
    assert_eq!(parse_export_args(&args(&["full"])), ExportArgs::Full);
}

#[test]
fn export_invalid_mode_fails() {
    assert_eq!(parse_export_args(&args(&["bogus-mode"])), ExportArgs::InvalidMode);
}

#[test]
fn export_defaults_to_merged() {
    assert_eq!(parse_export_args(&[]), ExportArgs::Merged);
    assert_eq!(parse_export_args(&args(&["merged"])), ExportArgs::Merged);
}

#[test]
fn validate_help_flag_succeeds() {
    assert_eq!(parse_validate_args(&args(&["--help"])), ValidateArgs::Help);
}

#[test]
fn validate_unexpected_second_argument_fails() {
    assert_eq!(parse_validate_args(&args(&["a", "b"])), ValidateArgs::Unexpected("b".to_string()));
}

#[test]
fn validate_takes_an_optional_path() {
    assert_eq!(parse_validate_args(&[]), ValidateArgs::Target(String::new()));
    assert_eq!(parse_validate_args(&args(&["cfg"])), ValidateArgs::Target("cfg".to_string()));
}

#[test]
fn print_validate_report_counts_errors_and_warnings_and_picks_exit_code() {
    let mut diag = Diagnostics::default();
    diag.warn("a.b", "warned");
    let (lines, code) = validate_report(&diag, false, false);
    assert_eq!(code, 0);
    assert_eq!(lines.len(), 3);
    assert_eq!(lines[0].text, "WARN  a.b: warned");
    assert!(!lines[0].to_stderr);
    assert_eq!(lines[2].text, "\u{2713} Config is valid (1 warning(s))");

    diag.error("c.d", "errored");
    let (lines, code) = validate_report(&diag, false, false);
    assert_eq!(code, 1);
    assert_eq!(lines[1].text, "ERROR c.d: errored");
    assert!(lines[1].to_stderr);
    assert_eq!(lines[3].text, "\u{2717} Config is invalid (1 error(s), 1 warning(s))");
}

#[test]
fn validate_report_colours_only_when_asked() {
    let diag = Diagnostics::default();
    let (lines, code) = validate_report(&diag, false, true);
    assert_eq!(code, 0);
    assert_eq!(lines.len(), 1);
    assert_eq!(lines[0].text, "\x1b[32m\u{2713} Config is valid\x1b[0m");
}

#[test]
fn shell_quote_wraps_plain_text_in_single_quotes() {
    assert_eq!(shell_quote("hello"), "'hello'");
}

#[test]
fn shell_quote_escapes_embedded_single_quotes() {
    assert_eq!(shell_quote("it's"), "'it'\\''s'");
}

#[test]
fn shell_quote_of_empty_text_is_two_quotes() {
    assert_eq!(shell_quote(""), "''");
}

#[test]
fn safe_relative_path_uses_fallback_when_relative_path_absent() {
    let table = TomlTable::new();
    assert_eq!(safe_relative_path(&table, "config_0.toml"), Some("config_0.toml".to_string()));
}

#[test]
fn safe_relative_path_uses_explicit_relative_path() {
    let table = parse("relative_path = \"nested/bar.toml\"");
    assert_eq!(safe_relative_path(&table, "config_0.toml"), Some("nested/bar.toml".to_string()));
}

#[test]
fn safe_relative_path_rejects_absolute_path() {
    let table = parse("relative_path = \"/etc/passwd\"");
    assert_eq!(safe_relative_path(&table, "config_0.toml"), None);
}

#[test]
fn safe_relative_path_rejects_parent_dir_traversal() {
    let table = parse("relative_path = \"../escape.toml\"");
    assert_eq!(safe_relative_path(&table, "config_0.toml"), None);
}

#[test]
fn safe_relative_path_normalizes_current_dir_components() {
    let table = parse("relative_path = \"./a/./b.toml\"");
    assert_eq!(safe_relative_path(&table, "config_0.toml"), Some("a/b.toml".to_string()));
}

#[test]
fn lexically_normal_collapses_components() {
    assert_eq!(lexically_normal("/tmp/./x/../y/"), "/tmp/y");
    assert_eq!(lexically_normal("a//b"), "a/b");
    assert_eq!(lexically_normal(".."), "..");
    assert_eq!(lexically_normal("."), "");
    assert_eq!(lexically_normal("/"), "/");
}

#[test]
fn run_replay_report_help_flag_succeeds() {
    let parsed = parse_replay_options(&args(&["--help"])).expect("help parses");
    assert!(parsed.help_requested);
}

#[test]
fn run_replay_report_missing_report_path_fails() {
    assert_eq!(parse_replay_options(&args(&["--target", "out"])), Err("missing report path".to_string()));
}

#[test]
fn run_replay_report_missing_target_fails() {
    assert_eq!(parse_replay_options(&args(&["report.toml"])), Err("missing --target <dir>".to_string()));
}

#[test]
fn run_replay_report_target_flag_missing_value_fails() {
    assert_eq!(
        parse_replay_options(&args(&["report.toml", "--target"])),
        Err("--target requires a directory".to_string())
    );
}

#[test]
fn replay_options_read_flags_in_any_order() {
    let parsed = parse_replay_options(&args(&["--force", "r.toml", "--flattened", "--target", "dir"])).expect("parses");
    assert!(!parsed.help_requested);
    assert_eq!(parsed.options.report_path, "r.toml");
    assert_eq!(parsed.options.target_dir, "dir");
    assert!(parsed.options.flattened);
    assert!(parsed.options.force);
    assert_eq!(
        parse_replay_options(&args(&["a", "b"])),
        Err("unknown argument: b".to_string())
    );
}

#[test]
fn replay_plan_writes_sources_then_state() {
    let report = parse(
        r#"
[[config_sources]]
content = "a = 1"

[[config_sources]]
relative_path = "nested/b.toml"
content = "b = 2"

[[config_sources]]
relative_path = "no-content.toml"

[state_settings]
content = "x = 1"

[app_state]
exists = false
content = "y = 2"
"#,
    );
    let plan = replay_plan(&report, false);
    assert_eq!(
        plan,
        vec![
            ReplayAction::WriteConfig { relative_path: "config_0.toml".to_string(), content: "a = 1".to_string() },
            ReplayAction::WriteConfig { relative_path: "nested/b.toml".to_string(), content: "b = 2".to_string() },
            ReplayAction::WriteState { file_name: "settings.toml".to_string(), content: "x = 1".to_string() },
        ]
    );
}

#[test]
fn replay_plan_stops_at_an_unsafe_source() {
    let report = parse(
        r#"
[[config_sources]]
content = "a = 1"

[[config_sources]]
relative_path = "../x.toml"
content = "b = 2"
"#,
    );
    let plan = replay_plan(&report, false);
    assert_eq!(plan.len(), 2);
    assert_eq!(plan[1], ReplayAction::Fail("report contains an unsafe config source path".to_string()));
}

#[test]
fn replay_plan_flattened_uses_merged_content() {
    let report = parse("[merged_config]\ncontent = \"bar = 1\"\n");
    assert_eq!(
        replay_plan(&report, true),
        vec![
            ReplayAction::WriteConfig { relative_path: "config.toml".to_string(), content: "bar = 1".to_string() },
            ReplayAction::CreateStateDir,
        ]
    );
    let empty = TomlTable::new();
    assert_eq!(
        replay_plan(&empty, true),
        vec![ReplayAction::Fail("report has no [merged_config].content".to_string())]
    );
    assert_eq!(replay_plan(&empty, false), vec![ReplayAction::CreateStateDir]);
}

#[test]
fn replay_plan_from_text_parses_the_report_first() {
    let plan = replay_plan_from_text("[merged_config]\ncontent = \"bar = 1\"\n", true).expect("report parses");
    assert_eq!(
        plan[0],
        ReplayAction::WriteConfig { relative_path: "config.toml".to_string(), content: "bar = 1".to_string() }
    );
    let err = replay_plan_from_text("[merged_config\n", true).expect_err("broken report");
    assert!(err.starts_with("failed to parse report: "));
    assert!(err.len() > "failed to parse report: ".len());
}

#[test]
fn existing_target_needs_force() {
    assert_eq!(
        prepare_target_decision("/tmp/out", true, false),
        Err("target already exists; pass --force to replace it: /tmp/out".to_string())
    );
    assert_eq!(prepare_target_decision("/tmp/out", true, true), Ok(()));
    assert_eq!(prepare_target_decision("/tmp/out", false, false), Ok(()));
}

#[test]
fn lexically_normal_settles_after_one_pass() {
    let once = lexically_normal("./a/./b.toml");
    assert_eq!(once, "a/b.toml");
    assert_eq!(lexically_normal(&once), once);
}

#[test]
fn replay_options_fail_exactly_on_a_trailing_target_a_wrong_positional_count_or_no_target() {
    assert!(parse_replay_options(&args(&["r.toml", "--target", "d", "--target"])).is_err());
    assert!(parse_replay_options(&args(&["r.toml", "s.toml", "--target", "d"])).is_err());
    assert!(parse_replay_options(&args(&["--target", "d"])).is_err());
    assert!(parse_replay_options(&args(&["r.toml", "--force"])).is_err());
    let p = parse_replay_options(&args(&["--target", "a", "r.toml", "--target", "b"])).expect("parses");
    assert_eq!(p.options.target_dir, "b");
    assert_eq!(p.options.report_path, "r.toml");
    assert!(!p.help_requested);
}
