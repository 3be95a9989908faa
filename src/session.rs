//! The interactive shell as a state machine: from the live output format and
//! one line of input to the next format and the action to perform.

use vstd::prelude::*;
use crate::cli::{format_label, format_of_lower, OutputFormat};
use crate::output::{error_text, rendered, OutputFormatter};
use crate::text::{lemma_lines_text_one, lines_text, lower_of, lowercase, push_line, trim_spec, trim_white_space};

verus! {

/// What the shell does with one line of input.
#[derive(Debug, PartialEq, Eq)]
pub enum ShellAction {
    /// Print the help text.
    Help,
    /// End the session.
    Quit,
    /// List the tables, shown in the formatter's format; errors are ignored.
    ListTables,
    /// Check the server's health, shown in the formatter's format; errors are ignored.
    Status,
    /// Describe a table, shown in the formatter's format; errors are ignored.
    Describe(String),
    /// Print this text.
    Say(String),
    /// Run the query and show its result in `format`; errors are reported.
    Query { query: String, format: OutputFormat },
    /// Nothing to do.
    Idle,
}

pub enum ActionView {
    Help,
    Quit,
    ListTables,
    Status,
    Describe(Seq<char>),
    Say(Seq<char>),
    Query { query: Seq<char>, format: OutputFormat },
    Idle,
}

impl View for ShellAction {
    type V = ActionView;

    open spec fn view(&self) -> ActionView {
        match self {
            ShellAction::Help => ActionView::Help,
            ShellAction::Quit => ActionView::Quit,
            ShellAction::ListTables => ActionView::ListTables,
            ShellAction::Status => ActionView::Status,
            ShellAction::Describe(t) => ActionView::Describe(t@),
            ShellAction::Say(t) => ActionView::Say(t@),
            ShellAction::Query { query, format } => ActionView::Query { query: query@, format: *format },
            ShellAction::Idle => ActionView::Idle,
        }
    }
}

/// A meta-command that takes an argument: a backslash, `letter` and a space.
pub open spec fn has_command_prefix(t: Seq<char>, letter: char) -> bool {
    t.len() >= 3 && t[0] == '\\' && t[1] == letter && t[2] == ' '
}

/// The argument of such a meta-command, trimmed.
pub open spec fn command_argument(t: Seq<char>) -> Seq<char> {
    trim_spec(t.subrange(3, t.len() as int))
}

pub open spec fn unknown_format_line() -> Seq<char> {
    "Unknown format. Available: table, json, csv, markdown, raw"@
}

pub open spec fn format_changed_line(f: OutputFormat) -> Seq<char> {
    "Output format changed to: "@ + format_label(f)
}

/// The format selected by `name` (compared case-insensitively), or
/// `current` where it names none.
pub open spec fn chosen_format(current: OutputFormat, name: Seq<char>) -> OutputFormat {
    match format_of_lower(lower_of(name)) {
        Some(f) => f,
        None => current,
    }
}

/// What the shell prints on a format change to `name`: the new format, or,
/// where `name` selects none, only the list of available formats (the live
/// format then stays as it was).
pub open spec fn format_change_text(name: Seq<char>) -> Seq<char> {
    match format_of_lower(lower_of(name)) {
        Some(f) => lines_text(seq![format_changed_line(f)]),
        None => lines_text(seq![unknown_format_line()]),
    }
}

/// One step of the shell: the next live format and the action for `line`.
pub open spec fn shell_step(current: OutputFormat, line: Seq<char>) -> (OutputFormat, ActionView) {
    let t = trim_spec(line);
    if t == "\\?"@ || t == "\\h"@ {
        (current, ActionView::Help)
    } else if t == "\\q"@ || t == "\\quit"@ {
        (current, ActionView::Quit)
    } else if t == "\\t"@ {
        (current, ActionView::ListTables)
    } else if t == "\\s"@ {
        (current, ActionView::Status)
    } else if has_command_prefix(t, 'd') {
        (current, ActionView::Describe(command_argument(t)))
    } else if has_command_prefix(t, 'f') {
        let name = command_argument(t);
        (chosen_format(current, name), ActionView::Say(format_change_text(name)))
    } else if t.len() == 0 {
        (current, ActionView::Idle)
    } else {
        (current, ActionView::Query { query: t, format: current })
    }
}

fn text_is(a: &str, b: &str) -> (r: bool)
    ensures
        r == (a@ == b@),
{
    let n = a.unicode_len();
    if b.unicode_len() != n {
        return false;
    }
    let mut i: usize = 0;
    while i < n
        invariant
            i <= n,
            n == a@.len(),
            n == b@.len(),
            forall|k: int| 0 <= k < i ==> a@[k] == b@[k],
        decreases n - i,
    {
        if a.get_char(i) != b.get_char(i) {
            return false;
        }
        i = i + 1;
    }
    proof {
        assert(a@ =~= b@);
    }
    true
}

fn command_prefix(t: &str, letter: char) -> (r: bool)
    ensures
        r == has_command_prefix(t@, letter),
{
    t.unicode_len() >= 3 && t.get_char(0) == '\\' && t.get_char(1) == letter && t.get_char(2) == ' '
}

/// The format that a lower-case name selects.
pub fn format_from_lower(name: &str) -> (r: Option<OutputFormat>)
    ensures
        r == format_of_lower(name@),
{
    proof {
        reveal_strlit("table");
        reveal_strlit("json");
        reveal_strlit("csv");
        reveal_strlit("markdown");
        reveal_strlit("raw");
    }
    if text_is(name, "table") {
        Some(OutputFormat::Table)
    } else if text_is(name, "json") {
        Some(OutputFormat::Json)
    } else if text_is(name, "csv") {
        Some(OutputFormat::Csv)
    } else if text_is(name, "markdown") {
        Some(OutputFormat::Markdown)
    } else if text_is(name, "raw") {
        Some(OutputFormat::Raw)
    } else {
        None
    }
}

/// The format that `name` selects, compared case-insensitively.
pub fn parse_format(name: &str) -> (r: Option<OutputFormat>)
    ensures
        r == format_of_lower(lower_of(name@)),
{
    let lowered = lowercase(name);
    format_from_lower(lowered.as_str())
}

/// A format change is live at once: after `\f` with a name that selects
/// `f`, the next typed query runs with `f`, whatever the format before.
pub proof fn lemma_format_change_applies(current: OutputFormat, command: Seq<char>, query: Seq<char>, f: OutputFormat)
    requires
        has_command_prefix(trim_spec(command), 'f'),
        format_of_lower(lower_of(command_argument(trim_spec(command)))) == Some(f),
        shell_step(f, query).1 is Query,
    ensures
        shell_step(current, command).0 == f,
        shell_step(shell_step(current, command).0, query).1 == (ActionView::Query { query: trim_spec(query), format: f }),
{
    reveal_strlit("\\?");
    reveal_strlit("\\h");
    reveal_strlit("\\q");
    reveal_strlit("\\quit");
    reveal_strlit("\\t");
    reveal_strlit("\\s");
    let t = trim_spec(command);
    assert(t[1] == 'f');
    assert(t != "\\?"@ && t != "\\h"@ && t != "\\q"@ && t != "\\quit"@ && t != "\\t"@ && t != "\\s"@);
}

/// A line that starts with a backslash but is no known meta-command is
/// run as a query, in the live format, with the format unchanged.
pub proof fn lemma_unknown_command_is_query(current: OutputFormat, line: Seq<char>)
    requires
        trim_spec(line).len() > 0,
        trim_spec(line)[0] == '\\',
        trim_spec(line) != "\\?"@,
        trim_spec(line) != "\\h"@,
        trim_spec(line) != "\\q"@,
        trim_spec(line) != "\\quit"@,
        trim_spec(line) != "\\t"@,
        trim_spec(line) != "\\s"@,
        !has_command_prefix(trim_spec(line), 'd'),
        !has_command_prefix(trim_spec(line), 'f'),
    ensures
        shell_step(current, line) == (current, ActionView::Query { query: trim_spec(line), format: current }),
{
}

/// An interactive session: the formatter it was started with, which the
/// table and status commands keep using, and the live format, which
/// `\f` changes and typed queries use.
pub struct Shell {
    pub formatter: OutputFormatter,
    pub current_format: OutputFormat,
}

impl Shell {
    /// A session whose live format starts as the formatter's.
    pub fn new(formatter: OutputFormatter) -> (r: Shell)
        ensures
            r.formatter == formatter,
            r.current_format == formatter.format,
    {
        let current_format = formatter.format;
        Shell { formatter, current_format }
    }

    /// Decides what to do with one line of input, updating the live format.
    pub fn handle_line(&mut self, line: &str) -> (r: ShellAction)
        ensures
            final(self).formatter == old(self).formatter,
            (final(self).current_format, r@) == shell_step(old(self).current_format, line@),
    {
        proof {
            reveal_strlit("\\?");
            reveal_strlit("\\h");
            reveal_strlit("\\q");
            reveal_strlit("\\quit");
            reveal_strlit("\\t");
            reveal_strlit("\\s");
        }
        let t = trim_white_space(line);
        if text_is(t, "\\?") || text_is(t, "\\h") {
            return ShellAction::Help;
        }
        if text_is(t, "\\q") || text_is(t, "\\quit") {
            return ShellAction::Quit;
        }
        if text_is(t, "\\t") {
            return ShellAction::ListTables;
        }
        if text_is(t, "\\s") {
            return ShellAction::Status;
        }
        if command_prefix(t, 'd') {
            let table = trim_white_space(t.substring_char(3, t.unicode_len()));
            return ShellAction::Describe(String::from_str(table));
        }
        if command_prefix(t, 'f') {
            let name = trim_white_space(t.substring_char(3, t.unicode_len()));
            let mut text = String::new();
            match parse_format(name) {
                Some(f) => {
                    self.current_format = f;
                    let mut changed = String::from_str("Output format changed to: ");
                    changed.append(f.label());
                    push_line(&mut text, changed.as_str());
                    proof {
                        lemma_lines_text_one(format_changed_line(f));
                    }
                },
                None => {
                    push_line(&mut text, "Unknown format. Available: table, json, csv, markdown, raw");
                    proof {
                        lemma_lines_text_one(unknown_format_line());
                    }
                },
            }
            proof {
                assert(text@ =~= format_change_text(name@));
            }
            return ShellAction::Say(text);
        }
        if t.is_empty() {
            return ShellAction::Idle;
        }
        ShellAction::Query { query: String::from_str(t), format: self.current_format }
    }

    /// What is printed for a typed query's outcome: its result in `format`
    /// on the output stream, or the error on the error stream.
    pub fn query_outcome(&self, format: OutputFormat, outcome: &Result<String, String>) -> (r: (String, String))
        ensures
            match outcome {
                Ok(raw) => r.0@ == rendered(raw@, format) && r.1@.len() == 0,
                Err(e) => r.0@.len() == 0 && r.1@ == error_text("Error: "@ + e@),
            },
    {
        match outcome {
            Ok(raw) => {
                let shown = OutputFormatter::new(format, false);
                (shown.display_results(raw.as_str()), String::new())
            },
            Err(e) => {
                let mut message = String::from_str("Error: ");
                message.append(e.as_str());
                (String::new(), self.formatter.error(message.as_str()))
            },
        }
    }
}

} // verus!
