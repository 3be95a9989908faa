//! Client library for a query server: rendering of server responses in
//! several output formats, and the decisions of the interactive shell and of
//! batch runs.

pub mod text;
pub mod cli;
pub mod json;
pub mod output;
pub mod client;
pub mod session;
pub mod batch;

pub use cli::{Cli, Command, OutputFormat};
pub use output::OutputFormatter;
