//! The command-line surface: output formats, global options and commands.

use vstd::prelude::*;

verus! {

/// Available output formats.
#[derive(Clone, Copy, Debug, PartialEq, Eq, Structural)]
pub enum OutputFormat {
    /// Human-readable table format
    Table,
    /// JSON format
    Json,
    /// CSV format
    Csv,
    /// Markdown table format
    Markdown,
    /// Raw results, as the server sent them
    Raw,
}

/// The name under which a format is shown to the user.
pub open spec fn format_label(f: OutputFormat) -> Seq<char> {
    match f {
        OutputFormat::Table => "Table"@,
        OutputFormat::Json => "Json"@,
        OutputFormat::Csv => "Csv"@,
        OutputFormat::Markdown => "Markdown"@,
        OutputFormat::Raw => "Raw"@,
    }
}

/// The format that a lower-case name selects.
pub open spec fn format_of_lower(name: Seq<char>) -> Option<OutputFormat> {
    if name == "table"@ {
        Some(OutputFormat::Table)
    } else if name == "json"@ {
        Some(OutputFormat::Json)
    } else if name == "csv"@ {
        Some(OutputFormat::Csv)
    } else if name == "markdown"@ {
        Some(OutputFormat::Markdown)
    } else if name == "raw"@ {
        Some(OutputFormat::Raw)
    } else {
        None
    }
}

impl OutputFormat {
    /// The name under which the format is shown to the user.
    pub fn label(&self) -> (r: &'static str)
        ensures
            r@ == format_label(*self),
    {
        match self {
            OutputFormat::Table => "Table",
            OutputFormat::Json => "Json",
            OutputFormat::Csv => "Csv",
            OutputFormat::Markdown => "Markdown",
            OutputFormat::Raw => "Raw",
        }
    }
}

/// Global options and the command to run.
pub struct Cli {
    /// Server URL (e.g., http://localhost:8080)
    pub server: String,
    /// Output format
    pub format: OutputFormat,
    /// Enable verbose output
    pub verbose: bool,
    /// Subcommand to execute
    pub command: Command,
}

/// Commands of the client.
pub enum Command {
    /// Execute a single query, printing the result or saving it to a file
    Query { query: String, output: Option<String> },
    /// Execute the queries of a file, separated by `;`
    Batch { file: String, stop_on_error: bool },
    /// Interactive shell
    Shell,
    /// Show server health
    Status,
    /// List tables, optionally those matching a pattern
    Tables { pattern: Option<String> },
    /// Describe the structure of a table
    Describe { table: String },
}

} // verus!
