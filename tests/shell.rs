use rust_client::cli::OutputFormat;
use rust_client::output::OutputFormatter;
use rust_client::session::{format_from_lower, parse_format, Shell, ShellAction};

fn shell(format: OutputFormat) -> Shell {
    Shell::new(OutputFormatter::new(format, false))
}

#[test]
fn format_change_applies_to_next_query() {
    let mut s = shell(OutputFormat::Table);
    assert_eq!(s.handle_line("\\f json"), ShellAction::Say("Output format changed to: Json\n".to_string()));
    let action = s.handle_line("SELECT x");
    assert_eq!(action, ShellAction::Query { query: "SELECT x".to_string(), format: OutputFormat::Json });
    let (out, err) = s.query_outcome(OutputFormat::Json, &Ok("{\"x\":5}".to_string()));
    assert_eq!(out, "{\n  \"x\": 5\n}\n");
    assert_eq!(err, "");
}

#[test]
fn table_commands_keep_the_starting_format() {
    let mut s = shell(OutputFormat::Table);
    s.handle_line("\\f csv");
    assert_eq!(s.current_format, OutputFormat::Csv);
    assert_eq!(s.handle_line("\\t"), ShellAction::ListTables);
    assert_eq!(s.formatter.format, OutputFormat::Table);
}

#[test]
fn unknown_format_keeps_the_current_one() {
    let mut s = shell(OutputFormat::Markdown);
    assert_eq!(
        s.handle_line("\\f xml"),
        ShellAction::Say("Unknown format. Available: table, json, csv, markdown, raw\n".to_string())
    );
    assert_eq!(s.current_format, OutputFormat::Markdown);
}

#[test]
fn format_names_ignore_case() {
    assert_eq!(parse_format("JSON"), Some(OutputFormat::Json));
    assert_eq!(parse_format("MarkDown"), Some(OutputFormat::Markdown));
    assert_eq!(parse_format("raw"), Some(OutputFormat::Raw));
    assert_eq!(parse_format("xml"), None);
    assert_eq!(parse_format(""), None);
    assert_eq!(format_from_lower("csv"), Some(OutputFormat::Csv));
    assert_eq!(format_from_lower("Csv"), None);
    let mut s = shell(OutputFormat::Table);
    s.handle_line("  \\f   TABLE  ");
    s.handle_line("\\f Raw");
    assert_eq!(s.current_format, OutputFormat::Raw);
}

#[test]
fn unknown_meta_command_runs_as_query() {
    let mut s = shell(OutputFormat::Csv);
    assert_eq!(s.handle_line("\\x foo"), ShellAction::Query { query: "\\x foo".to_string(), format: OutputFormat::Csv });
    assert_eq!(s.handle_line("  \\d  "), ShellAction::Query { query: "\\d".to_string(), format: OutputFormat::Csv });
    assert_eq!(s.handle_line("\\fjson"), ShellAction::Query { query: "\\fjson".to_string(), format: OutputFormat::Csv });
}

#[test]
fn meta_commands() {
    let mut s = shell(OutputFormat::Table);
    assert_eq!(s.handle_line("\\?"), ShellAction::Help);
    assert_eq!(s.handle_line("\\h"), ShellAction::Help);
    assert_eq!(s.handle_line("  \\q  "), ShellAction::Quit);
    assert_eq!(s.handle_line("\\quit"), ShellAction::Quit);
    assert_eq!(s.handle_line("\\s"), ShellAction::Status);
    assert_eq!(s.handle_line("\\d  users "), ShellAction::Describe("users".to_string()));
    assert_eq!(s.handle_line(""), ShellAction::Idle);
    assert_eq!(s.handle_line(" \t "), ShellAction::Idle);
    assert_eq!(s.current_format, OutputFormat::Table);
}

#[test]
fn query_errors_are_reported() {
    let s = shell(OutputFormat::Table);
    let (out, err) = s.query_outcome(OutputFormat::Table, &Err("timeout".to_string()));
    assert_eq!(out, "");
    assert_eq!(err, "❌ Error: timeout\n");
}
