use rust_client::cli::OutputFormat;
use rust_client::json::{JsonShape, ParsedResponse};
use rust_client::output::{render, OutputFormatter};

const FORMATS: [OutputFormat; 5] = [
    OutputFormat::Table,
    OutputFormat::Json,
    OutputFormat::Csv,
    OutputFormat::Markdown,
    OutputFormat::Raw,
];

fn show(raw: &str, format: OutputFormat) -> String {
    OutputFormatter::new(format, false).display_results(raw)
}

#[test]
fn every_format_prints_something() {
    let inputs = ["", "not json", "{}", "[]", "null", "{\"a\":1}", "[1,2]", "\"s\"", "{\"a\":"];
    for raw in inputs {
        for format in FORMATS {
            assert!(!show(raw, format).is_empty(), "{:?} under {:?}", raw, format);
        }
    }
}

#[test]
fn json_output_parses_back_to_the_same_object() {
    let raw = "{\"b\": [1, 2, {\"c\": null}], \"a\": {\"x\": \"y\"}, \"n\": 1.5}";
    let printed = show(raw, OutputFormat::Json);
    let back: serde_json::Value = serde_json::from_str(&printed).unwrap();
    let parsed_input: serde_json::Value = serde_json::from_str(raw).unwrap();
    assert_eq!(back, parsed_input);
}

#[test]
fn json_output_is_indented() {
    assert_eq!(show("{\"x\":5}", OutputFormat::Json), "{\n  \"x\": 5\n}\n");
    assert_eq!(show("not json", OutputFormat::Json), "not json\n");
}

#[test]
fn rendering_twice_gives_the_same_text() {
    for raw in ["{\"a\":1,\"b\":[true]}", "plain \"text\"", "[1,2,3]"] {
        for format in FORMATS {
            assert_eq!(show(raw, format), show(raw, format));
        }
    }
}

#[test]
fn csv_fallback_doubles_quotes() {
    assert_eq!(show("He said \"hi\"", OutputFormat::Csv), "Result\n\"He said \"\"hi\"\"\"\n");
}

#[test]
fn csv_object_prints_header_and_values() {
    assert_eq!(show("{\"a\":1,\"b\":\"x\"}", OutputFormat::Csv), "a,b\n1,\"x\"\n");
}

#[test]
fn csv_keys_come_in_map_order() {
    assert_eq!(show("{\"b\":1,\"a\":2}", OutputFormat::Csv), "a,b\n2,1\n");
}

#[test]
fn csv_other_shapes_are_one_quoted_field() {
    assert_eq!(show("[1, \"q\"]", OutputFormat::Csv), "Result\n\"[1,\"\"q\"\"]\"\n");
    assert_eq!(show("\"s\"", OutputFormat::Csv), "Result\n\"\"\"s\"\"\"\n");
    assert_eq!(show("7", OutputFormat::Csv), "Result\n\"7\"\n");
}

#[test]
fn markdown_object_is_a_table() {
    assert_eq!(show("{\"a\":1,\"b\":2}", OutputFormat::Markdown), "| a | b |\n|---|---|\n| 1 | 2 |\n");
}

#[test]
fn markdown_empty_object() {
    assert_eq!(show("{}", OutputFormat::Markdown), "|  |\n||\n|  |\n");
}

#[test]
fn markdown_other_shapes_are_fenced() {
    assert_eq!(show("[1, 2]", OutputFormat::Markdown), "```\n[1,2]\n```\n");
    assert_eq!(show("oops", OutputFormat::Markdown), "```\noops\n```\n");
}

#[test]
fn table_object_pads_keys() {
    let expected = format!(
        "┌──────────────────────────────────────┐\n│ name{} : \"x\" │\n└──────────────────────────────────────┘\n",
        " ".repeat(26)
    );
    assert_eq!(show("{\"name\":\"x\"}", OutputFormat::Table), expected);
}

#[test]
fn table_long_key_is_not_cut() {
    let key = "k".repeat(35);
    let raw = format!("{{\"{}\":true}}", key);
    let expected = format!(
        "┌──────────────────────────────────────┐\n│ {} : true │\n└──────────────────────────────────────┘\n",
        key
    );
    assert_eq!(show(&raw, OutputFormat::Table), expected);
}

#[test]
fn table_array_numbers_rows() {
    let expected = "┌──────────────────────────────────────┐\n│ [  0] : 1 │\n│ [  1] : \"a\" │\n└──────────────────────────────────────┘\n";
    assert_eq!(show("[1,\"a\"]", OutputFormat::Table), expected);
}

#[test]
fn table_array_index_widens_past_three_digits() {
    let items: Vec<String> = (0..1001).map(|i| i.to_string()).collect();
    let raw = format!("[{}]", items.join(","));
    let printed = show(&raw, OutputFormat::Table);
    assert!(printed.contains("│ [ 10] : 10 │\n"));
    assert!(printed.contains("│ [1000] : 1000 │\n"));
}

#[test]
fn table_scalar_and_fallback() {
    assert_eq!(show("42", OutputFormat::Table), "42\n");
    assert_eq!(show("\"hi\"", OutputFormat::Table), "\"hi\"\n");
    assert_eq!(show("hello", OutputFormat::Table), "hello\n");
}

#[test]
fn raw_is_verbatim() {
    assert_eq!(show("{ \"a\" : 1 }", OutputFormat::Raw), "{ \"a\" : 1 }\n");
    assert_eq!(show("x", OutputFormat::Raw), "x\n");
}

#[test]
fn render_takes_a_given_reading() {
    let parsed = Some(ParsedResponse {
        shape: JsonShape::Object(vec![
            ("a".to_string(), "1".to_string()),
            ("b".to_string(), "2".to_string()),
        ]),
        compact: "{\"a\":1,\"b\":2}".to_string(),
        pretty: "{\n  \"a\": 1,\n  \"b\": 2\n}".to_string(),
    });
    assert_eq!(render(&parsed, "ignored", OutputFormat::Markdown), "| a | b |\n|---|---|\n| 1 | 2 |\n");
    assert_eq!(render(&parsed, "ignored", OutputFormat::Raw), "ignored\n");
    assert_eq!(render(&None, "a\"b", OutputFormat::Csv), "Result\n\"a\"\"b\"\n");
}

#[test]
fn messages() {
    let quiet = OutputFormatter::new(OutputFormat::Table, false);
    let loud = OutputFormatter::new(OutputFormat::Table, true);
    assert_eq!(quiet.success("ok"), "");
    assert_eq!(loud.success("ok"), "✅ ok\n");
    assert_eq!(quiet.error("boom"), "❌ boom\n");
    assert_eq!(quiet.info("note"), "ℹ️ note\n");
    let help = quiet.display_help();
    assert!(help.starts_with("Available commands:\n"));
    assert!(help.contains("  \\f <format>   - Change output format (table, json, csv, markdown, raw)\n"));
    assert_eq!(help.lines().count(), 8);
}

#[test]
fn table_pads_by_characters() {
    let expected = format!(
        "┌──────────────────────────────────────┐\n│ ключ{} : 7 │\n└──────────────────────────────────────┘\n",
        " ".repeat(26)
    );
    assert_eq!(show("{\"ключ\":7}", OutputFormat::Table), expected);
}

#[test]
fn crate_root_reexports() {
    let f = rust_client::OutputFormatter::new(rust_client::OutputFormat::Raw, false);
    assert_eq!(f.display_results("r"), "r\n");
}
