//! The commands of the command line, as plain values.

use crate::run::RunOptsCommand;
use vstd::prelude::*;

verus! {

pub struct Cli {
    pub command: Commands,
}

pub enum Commands {
    /// Executes a file or starts the REPL
    Run { path: Option<String>, debug: bool, show_ast: bool, show_tokens: bool },
    /// Development helper tools
    Tool { command: ToolCommand },
}

pub enum ToolCommand {
    /// Generates the AST from definitions and saves it to the given output path
    GenAst { output_path: String },
}

impl Commands {
    /// What a `run` command shows besides the output of the program; `None`
    /// for every other command.
    pub fn run_options(&self) -> (opts: Option<RunOptsCommand>)
        ensures
            match self {
                Commands::Run { path, debug, show_ast, show_tokens } => opts == Some(
                    RunOptsCommand { debug: *debug, show_ast: *show_ast, show_tokens: *show_tokens },
                ),
                _ => opts is None,
            },
    {
        match self {
            Commands::Run { path: _, debug, show_ast, show_tokens } => Some(
                RunOptsCommand { debug: *debug, show_ast: *show_ast, show_tokens: *show_tokens },
            ),
            _ => None,
        }
    }
}

} // verus!
