//! Rendering of server responses, and the user-facing messages.

use vstd::prelude::*;
use crate::cli::OutputFormat;
use crate::json::{
    entry_view, json_reading, read_json, reading_view, JsonShape, ParsedResponse, ParsedView,
    ShapeView,
};
use crate::text::{
    lemma_lines_text_one, lemma_lines_text_prefix, lemma_lines_text_push, lemma_lines_text_three, lemma_lines_text_two,
    decimal, decimal_string, double_quotes, escape_quotes, join, join_strings, lines_text,
    pad_left, pad_right, push_line, push_padded_left, push_padded_right,
};

verus! {

pub open spec fn box_top() -> Seq<char> {
    "┌──────────────────────────────────────┐"@
}

pub open spec fn box_bottom() -> Seq<char> {
    "└──────────────────────────────────────┘"@
}

/// A table row for an object member: the key left-justified in 30 columns.
pub open spec fn object_row(key: Seq<char>, value: Seq<char>) -> Seq<char> {
    "│ "@ + pad_right(key, 30) + " : "@ + value + " │"@
}

/// A table row for an array element: its index right-justified in 3 columns.
pub open spec fn array_row(index: nat, value: Seq<char>) -> Seq<char> {
    "│ ["@ + pad_left(decimal(index), 3) + "] : "@ + value + " │"@
}

pub open spec fn keys_of(entries: Seq<(Seq<char>, Seq<char>)>) -> Seq<Seq<char>> {
    entries.map_values(|e: (Seq<char>, Seq<char>)| e.0)
}

pub open spec fn values_of(entries: Seq<(Seq<char>, Seq<char>)>) -> Seq<Seq<char>> {
    entries.map_values(|e: (Seq<char>, Seq<char>)| e.1)
}

/// `s` as one CSV field between double quotes.
pub open spec fn quoted(s: Seq<char>) -> Seq<char> {
    seq!['"'] + s + seq!['"']
}

/// `s` in a fenced code block.
pub open spec fn fenced(s: Seq<char>) -> Seq<Seq<char>> {
    seq!["```"@, s, "```"@]
}

pub open spec fn table_lines(p: ParsedView) -> Seq<Seq<char>> {
    match p.shape {
        ShapeView::Object(entries) => seq![box_top()] + entries.map_values(
            |e: (Seq<char>, Seq<char>)| object_row(e.0, e.1),
        ) + seq![box_bottom()],
        ShapeView::Array(items) => seq![box_top()] + items.map(
            |i: int, v: Seq<char>| array_row(i as nat, v),
        ) + seq![box_bottom()],
        ShapeView::Scalar => seq![p.pretty],
    }
}

pub open spec fn csv_lines(p: ParsedView) -> Seq<Seq<char>> {
    match p.shape {
        ShapeView::Object(entries) => seq![
            join(keys_of(entries), ","@),
            join(values_of(entries), ","@),
        ],
        _ => seq!["Result"@, quoted(escape_quotes(p.compact))],
    }
}

pub open spec fn markdown_lines(p: ParsedView) -> Seq<Seq<char>> {
    match p.shape {
        ShapeView::Object(entries) => seq![
            "| "@ + join(keys_of(entries), " | "@) + " |"@,
            "|"@ + join(Seq::new(entries.len(), |i: int| "---"@), "|"@) + "|"@,
            "| "@ + join(values_of(entries), " | "@) + " |"@,
        ],
        _ => fenced(p.compact),
    }
}

/// The lines printed for the response `raw` under `format`, given what
/// parsing made of it.
pub open spec fn render_lines(parsed: Option<ParsedView>, raw: Seq<char>, format: OutputFormat) -> Seq<Seq<char>> {
    match parsed {
        None => match format {
            OutputFormat::Csv => seq!["Result"@, quoted(escape_quotes(raw))],
            OutputFormat::Markdown => fenced(raw),
            _ => seq![raw],
        },
        Some(p) => match format {
            OutputFormat::Table => table_lines(p),
            OutputFormat::Json => seq![p.pretty],
            OutputFormat::Csv => csv_lines(p),
            OutputFormat::Markdown => markdown_lines(p),
            OutputFormat::Raw => seq![raw],
        },
    }
}

/// The text printed for the response `raw` under `format`.
pub open spec fn render_text(parsed: Option<ParsedView>, raw: Seq<char>, format: OutputFormat) -> Seq<char> {
    lines_text(render_lines(parsed, raw, format))
}

/// The text printed for a server response under `format`.
pub open spec fn rendered(raw: Seq<char>, format: OutputFormat) -> Seq<char> {
    render_text(json_reading(raw), raw, format)
}

fn push_box_top(out: &mut String)
    ensures
        final(out)@ == old(out)@ + box_top() + seq!['\n'],
{
    push_line(out, "┌──────────────────────────────────────┐");
}

fn push_box_bottom(out: &mut String)
    ensures
        final(out)@ == old(out)@ + box_bottom() + seq!['\n'],
{
    push_line(out, "└──────────────────────────────────────┘");
}

fn render_table(p: &ParsedResponse) -> (r: String)
    ensures
        r@ == lines_text(table_lines(p@)),
{
    match &p.shape {
        JsonShape::Object(entries) => {
            let ghost ev = entries@.map_values(|e: (String, String)| entry_view(e));
            let ghost rows = ev.map_values(|e: (Seq<char>, Seq<char>)| object_row(e.0, e.1));
            let mut out = String::new();
            push_box_top(&mut out);
            proof {
                lemma_lines_text_push(Seq::empty(), box_top());
                assert(seq![box_top()] =~= Seq::<Seq<char>>::empty().push(box_top()));
                assert(seq![box_top()] + rows.subrange(0, 0) =~= seq![box_top()]);
            }
            let mut i: usize = 0;
            while i < entries.len()
                invariant
                    i <= entries.len(),
                    ev == entries@.map_values(|e: (String, String)| entry_view(e)),
                    rows == ev.map_values(|e: (Seq<char>, Seq<char>)| object_row(e.0, e.1)),
                    out@ == lines_text(seq![box_top()] + rows.subrange(0, i as int)),
                decreases entries.len() - i,
            {
                let mut line = String::from_str("│ ");
                push_padded_right(&mut line, entries[i].0.as_str(), 30);
                line.append(" : ");
                line.append(entries[i].1.as_str());
                line.append(" │");
                push_line(&mut out, line.as_str());
                proof {
                    reveal_strlit("│ ");
                    reveal_strlit(" : ");
                    reveal_strlit(" │");
                    assert(line@ =~= rows[i as int]);
                    let before = seq![box_top()] + rows.subrange(0, i as int);
                    lemma_lines_text_push(before, rows[i as int]);
                    assert(before.push(rows[i as int]) =~= seq![box_top()] + rows.subrange(0, i + 1));
                }
                i = i + 1;
            }
            push_box_bottom(&mut out);
            proof {
                let all = seq![box_top()] + rows.subrange(0, i as int);
                lemma_lines_text_push(all, box_bottom());
                assert(all.push(box_bottom()) =~= table_lines(p@));
            }
            out
        },
        JsonShape::Array(items) => {
            let ghost iv = items@.map_values(|s: String| s@);
            let ghost rows = iv.map(|k: int, v: Seq<char>| array_row(k as nat, v));
            let mut out = String::new();
            push_box_top(&mut out);
            proof {
                lemma_lines_text_push(Seq::empty(), box_top());
                assert(seq![box_top()] =~= Seq::<Seq<char>>::empty().push(box_top()));
                assert(seq![box_top()] + rows.subrange(0, 0) =~= seq![box_top()]);
            }
            let mut i: usize = 0;
            while i < items.len()
                invariant
                    i <= items.len(),
                    iv == items@.map_values(|s: String| s@),
                    rows == iv.map(|k: int, v: Seq<char>| array_row(k as nat, v)),
                    out@ == lines_text(seq![box_top()] + rows.subrange(0, i as int)),
                decreases items.len() - i,
            {
                let mut line = String::from_str("│ [");
                let index = decimal_string(i);
                push_padded_left(&mut line, index.as_str(), 3);
                line.append("] : ");
                line.append(items[i].as_str());
                line.append(" │");
                push_line(&mut out, line.as_str());
                proof {
                    reveal_strlit("│ [");
                    reveal_strlit("] : ");
                    reveal_strlit(" │");
                    assert(line@ =~= rows[i as int]);
                    let before = seq![box_top()] + rows.subrange(0, i as int);
                    lemma_lines_text_push(before, rows[i as int]);
                    assert(before.push(rows[i as int]) =~= seq![box_top()] + rows.subrange(0, i + 1));
                }
                i = i + 1;
            }
            push_box_bottom(&mut out);
            proof {
                let all = seq![box_top()] + rows.subrange(0, i as int);
                lemma_lines_text_push(all, box_bottom());
                assert(all.push(box_bottom()) =~= table_lines(p@));
            }
            out
        },
        JsonShape::Scalar => {
            let mut out = String::new();
            push_line(&mut out, p.pretty.as_str());
            proof {
                lemma_lines_text_push(Seq::empty(), p.pretty@);
                assert(seq![p.pretty@] =~= Seq::<Seq<char>>::empty().push(p.pretty@));
            }
            out
        },
    }
}

fn keys_and_values(entries: &Vec<(String, String)>) -> (r: (Vec<String>, Vec<String>))
    ensures
        r.0@.map_values(|s: String| s@) == keys_of(entries@.map_values(|e: (String, String)| entry_view(e))),
        r.1@.map_values(|s: String| s@) == values_of(entries@.map_values(|e: (String, String)| entry_view(e))),
{
    let ghost ev = entries@.map_values(|e: (String, String)| entry_view(e));
    let mut keys: Vec<String> = Vec::new();
    let mut values: Vec<String> = Vec::new();
    let mut i: usize = 0;
    while i < entries.len()
        invariant
            i <= entries.len(),
            ev == entries@.map_values(|e: (String, String)| entry_view(e)),
            keys@.map_values(|s: String| s@) =~= keys_of(ev).subrange(0, i as int),
            values@.map_values(|s: String| s@) =~= values_of(ev).subrange(0, i as int),
        decreases entries.len() - i,
    {
        let ghost keys_before = keys@;
        let ghost values_before = values@;
        keys.push(entries[i].0.clone());
        values.push(entries[i].1.clone());
        proof {
            assert(keys@ =~= keys_before.push(entries[i as int].0));
            assert(values@ =~= values_before.push(entries[i as int].1));
            assert(keys@.map_values(|s: String| s@) =~= keys_before.map_values(|s: String| s@).push(entries[i as int].0@));
            assert(values@.map_values(|s: String| s@) =~= values_before.map_values(|s: String| s@).push(entries[i as int].1@));
        }
        i = i + 1;
    }
    (keys, values)
}

/// Appends `s` wrapped in a fenced code block.
fn push_fenced(out: &mut String, s: &str)
    ensures
        final(out)@ == old(out)@ + lines_text(fenced(s@)),
{
    push_line(out, "```");
    push_line(out, s);
    push_line(out, "```");
    proof {
        lemma_lines_text_three("```"@, s@, "```"@);
    }
}

/// Appends the CSV fallback: a `Result` header over one quoted field.
fn push_result_field(out: &mut String, field: &str)
    ensures
        final(out)@ == old(out)@ + lines_text(seq!["Result"@, quoted(field@)]),
{
    push_line(out, "Result");
    let mut line = String::from_str("\"");
    line.append(field);
    line.append("\"");
    push_line(out, line.as_str());
    proof {
        reveal_strlit("\"");
        assert(line@ =~= quoted(field@));
        lemma_lines_text_two("Result"@, quoted(field@));
    }
}

fn render_csv(p: &ParsedResponse) -> (r: String)
    ensures
        r@ == lines_text(csv_lines(p@)),
{
    let mut out = String::new();
    match &p.shape {
        JsonShape::Object(entries) => {
            let (keys, values) = keys_and_values(entries);
            let header = join_strings(&keys, ",");
            let data = join_strings(&values, ",");
            push_line(&mut out, header.as_str());
            push_line(&mut out, data.as_str());
            proof {
                lemma_lines_text_two(header@, data@);
                assert(out@ =~= lines_text(csv_lines(p@)));
            }
        },
        _ => {
            let escaped = double_quotes(p.compact.as_str());
            push_result_field(&mut out, escaped.as_str());
            proof {
                assert(out@ =~= lines_text(csv_lines(p@)));
            }
        },
    }
    out
}

fn render_markdown(p: &ParsedResponse) -> (r: String)
    ensures
        r@ == lines_text(markdown_lines(p@)),
{
    let mut out = String::new();
    match &p.shape {
        JsonShape::Object(entries) => {
            let (keys, values) = keys_and_values(entries);
            let mut dashes: Vec<String> = Vec::new();
            let mut i: usize = 0;
            while i < entries.len()
                invariant
                    i <= entries.len(),
                    dashes@.len() == i,
                    dashes@.map_values(|s: String| s@) =~= Seq::new(i as nat, |k: int| "---"@),
                decreases entries.len() - i,
            {
                let ghost before = dashes@;
                dashes.push(String::from_str("---"));
                proof {
                    assert(before.len() == i);
                    assert(dashes@ =~= before.push(dashes@[before.len() as int]));
                    assert(dashes@.map_values(|s: String| s@) =~= before.map_values(|s: String| s@).push("---"@));
                }
                i = i + 1;
            }
            let mut header = String::from_str("| ");
            header.append(join_strings(&keys, " | ").as_str());
            header.append(" |");
            let mut separator = String::from_str("|");
            separator.append(join_strings(&dashes, "|").as_str());
            separator.append("|");
            let mut data = String::from_str("| ");
            data.append(join_strings(&values, " | ").as_str());
            data.append(" |");
            push_line(&mut out, header.as_str());
            push_line(&mut out, separator.as_str());
            push_line(&mut out, data.as_str());
            proof {
                let n = entries@.map_values(|e: (String, String)| entry_view(e)).len();
                assert(Seq::new(i as nat, |k: int| "---"@) =~= Seq::new(n, |k: int| "---"@));
                lemma_lines_text_three(header@, separator@, data@);
                assert(out@ =~= lines_text(markdown_lines(p@)));
            }
        },
        _ => {
            push_fenced(&mut out, p.compact.as_str());
            proof {
                assert(out@ =~= lines_text(markdown_lines(p@)));
            }
        },
    }
    out
}

/// Renders the response `raw` under `format`, given what parsing made of it
/// (`None` where it is no JSON).
pub fn render(parsed: &Option<ParsedResponse>, raw: &str, format: OutputFormat) -> (r: String)
    ensures
        r@ == render_text(reading_view(*parsed), raw@, format),
{
    match parsed {
        None => {
            let mut out = String::new();
            match format {
                OutputFormat::Csv => {
                    let escaped = double_quotes(raw);
                    push_result_field(&mut out, escaped.as_str());
                },
                OutputFormat::Markdown => {
                    push_fenced(&mut out, raw);
                },
                _ => {
                    push_line(&mut out, raw);
                    proof {
                        lemma_lines_text_one(raw@);
                    }
                },
            }
            proof {
                assert(out@ =~= render_text(reading_view(*parsed), raw@, format));
            }
            out
        },
        Some(p) => {
            match format {
                OutputFormat::Table => render_table(p),
                OutputFormat::Csv => render_csv(p),
                OutputFormat::Markdown => render_markdown(p),
                OutputFormat::Json => {
                    let mut out = String::new();
                    push_line(&mut out, p.pretty.as_str());
                    proof {
                        lemma_lines_text_one(p.pretty@);
                    }
                    out
                },
                OutputFormat::Raw => {
                    let mut out = String::new();
                    push_line(&mut out, raw);
                    proof {
                        lemma_lines_text_one(raw@);
                    }
                    out
                },
            }
        },
    }
}

pub open spec fn success_text(message: Seq<char>) -> Seq<char> {
    "✅ "@ + message + seq!['\n']
}

pub open spec fn error_text(message: Seq<char>) -> Seq<char> {
    "❌ "@ + message + seq!['\n']
}

pub open spec fn info_text(message: Seq<char>) -> Seq<char> {
    "ℹ️ "@ + message + seq!['\n']
}

pub open spec fn help_lines() -> Seq<Seq<char>> {
    seq![
        "Available commands:"@,
        "  \\? or \\h      - Show this help"@,
        "  \\q or \\quit   - Quit"@,
        "  \\t            - Show tables"@,
        "  \\d <table>    - Describe table"@,
        "  \\s            - Show status"@,
        "  \\f <format>   - Change output format (table, json, csv, markdown, raw)"@,
        "  SQL query     - Execute SQL statement"@,
    ]
}

/// Rendering is total: every response, parsed or not, prints some text
/// under every format.
pub proof fn lemma_render_nonempty(parsed: Option<ParsedView>, raw: Seq<char>, format: OutputFormat)
    ensures
        render_text(parsed, raw, format).len() > 0,
{
    let lines = render_lines(parsed, raw, format);
    assert(lines.len() > 0);
    assert(lines_text(lines) == lines_text(lines.drop_last()) + lines.last() + seq!['\n']);
}

/// Under the JSON format a response that parses prints as its indented
/// serialization, one line, and one that does not prints verbatim.
pub proof fn lemma_json_prints_pretty(raw: Seq<char>)
    ensures
        json_reading(raw) is Some ==> rendered(raw, OutputFormat::Json) == json_reading(raw)->0.pretty + seq!['\n'],
        json_reading(raw) is None ==> rendered(raw, OutputFormat::Json) == raw + seq!['\n'],
{
    lemma_lines_text_one(raw);
    if json_reading(raw) is Some {
        lemma_lines_text_one(json_reading(raw)->0.pretty);
    }
}

/// Under CSV a response that does not parse prints a `Result` header over
/// one field: the text with every double quote doubled, between quotes.
pub proof fn lemma_csv_fallback_quotes(raw: Seq<char>)
    requires
        json_reading(raw) is None,
    ensures
        rendered(raw, OutputFormat::Csv) == "Result"@ + seq!['\n'] + seq!['"'] + escape_quotes(raw) + seq!['"', '\n'],
{
    lemma_lines_text_two("Result"@, quoted(escape_quotes(raw)));
    assert(rendered(raw, OutputFormat::Csv) =~= "Result"@ + seq!['\n'] + seq!['"'] + escape_quotes(raw) + seq!['"', '\n']);
}

/// Formats query results and user-facing messages.
pub struct OutputFormatter {
    pub format: OutputFormat,
    pub verbose: bool,
}

impl OutputFormatter {
    pub fn new(format: OutputFormat, verbose: bool) -> (r: Self)
        ensures
            r.format == format,
            r.verbose == verbose,
    {
        OutputFormatter { format, verbose }
    }

    /// The success note for `message`: printed in verbose mode only.
    pub fn success(&self, message: &str) -> (r: String)
        ensures
            r@ == if self.verbose { success_text(message@) } else { Seq::empty() },
    {
        let mut r = String::new();
        if self.verbose {
            r.append("✅ ");
            push_line(&mut r, message);
        }
        r
    }

    /// The error note for `message`, for the error stream.
    pub fn error(&self, message: &str) -> (r: String)
        ensures
            r@ == error_text(message@),
    {
        let mut r = String::from_str("❌ ");
        push_line(&mut r, message);
        r
    }

    /// The informational note for `message`.
    pub fn info(&self, message: &str) -> (r: String)
        ensures
            r@ == info_text(message@),
    {
        let mut r = String::from_str("ℹ️ ");
        push_line(&mut r, message);
        r
    }

    /// The help text of the interactive shell.
    pub fn display_help(&self) -> (r: String)
        ensures
            r@ == lines_text(help_lines()),
    {
        let mut r = String::new();
        push_line(&mut r, "Available commands:");
        push_line(&mut r, "  \\? or \\h      - Show this help");
        push_line(&mut r, "  \\q or \\quit   - Quit");
        push_line(&mut r, "  \\t            - Show tables");
        push_line(&mut r, "  \\d <table>    - Describe table");
        push_line(&mut r, "  \\s            - Show status");
        push_line(&mut r, "  \\f <format>   - Change output format (table, json, csv, markdown, raw)");
        push_line(&mut r, "  SQL query     - Execute SQL statement");
        proof {
            let l = help_lines();
            assert forall|k: int| #![trigger l.subrange(0, k)] 0 <= k < l.len() implies lines_text(l.subrange(0, k + 1))
                == lines_text(l.subrange(0, k)) + l[k] + seq!['\n'] by {
                lemma_lines_text_prefix(l, k);
            }
            assert(l.subrange(0, 0) =~= Seq::<Seq<char>>::empty());
            assert(l.subrange(0, l.len() as int) =~= l);
        }
        r
    }

    /// The text printed for query results in this formatter's format.
    pub fn display_results(&self, results: &str) -> (r: String)
        ensures
            r@ == rendered(results@, self.format),
    {
        let parsed = read_json(results);
        render(&parsed, results, self.format)
    }
}

} // verus!
