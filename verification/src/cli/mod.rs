//! The command line: parsing arguments into what to run, choosing what a
//! parsed command line runs, what running a file does, and the interactive
//! prompt's commands.

pub mod args;
pub mod repl;

use crate::cli::args::{text_opt, CliAction, RunOptions};
use vstd::prelude::*;

verus! {

/// What a parsed command line runs.
#[derive(Debug)]
pub enum Route {
    /// Show the help.
    Help,
    /// Show the version.
    Version,
    /// Show what the compiler offers.
    JitInfo,
    /// Run the compiler's benchmark.
    JitBenchmark,
    /// Start the interactive prompt with the compiler.
    JitRepl,
    /// Run a file with the compiler; without a file the run is refused.
    JitRun(Option<String>),
    /// Run a file.
    RunFile(String),
    /// Start the interactive prompt.
    Repl,
    /// Nothing to do.
    Nothing,
}

/// Chooses what a parsed command line runs; `argc` counts the arguments,
/// the program's name included. The compiler's commands come first; then a
/// file is run; then the prompt starts when asked, or when there was no
/// argument at all.
pub fn route(action: CliAction, argc: usize) -> (r: Route)
    ensures
        match action {
            CliAction::Help => r is Help,
            CliAction::Version => r is Version,
            CliAction::Run(p) => if p.options.jit_info {
                r is JitInfo
            } else if p.options.jit_bench {
                r is JitBenchmark
            } else if p.options.jit_repl {
                r is JitRepl
            } else if p.options.jit_run {
                (r matches Route::JitRun(f) && text_opt(f) == text_opt(p.filename))
            } else if p.filename is Some {
                (r matches Route::RunFile(f) && f@ == p.filename.unwrap()@)
            } else if p.run_repl_flag || argc == 1 {
                r is Repl
            } else {
                r is Nothing
            },
        },
{
    match action {
        CliAction::Help => Route::Help,
        CliAction::Version => Route::Version,
        CliAction::Run(p) => {
            let parsed = *p;
            if parsed.options.jit_info {
                Route::JitInfo
            } else if parsed.options.jit_bench {
                Route::JitBenchmark
            } else if parsed.options.jit_repl {
                Route::JitRepl
            } else if parsed.options.jit_run {
                Route::JitRun(parsed.filename)
            } else {
                match parsed.filename {
                    Some(f) => Route::RunFile(f),
                    None => if parsed.run_repl_flag || argc == 1 {
                        Route::Repl
                    } else {
                        Route::Nothing
                    },
                }
            }
        },
    }
}

/// What running a source file does.
#[derive(Debug, Clone, Copy, PartialEq, Eq, Structural)]
pub enum FileMode {
    /// Print the formatted source.
    Format,
    /// Report the linter's warnings.
    Lint,
    /// List the tokens.
    Tokens,
    /// Parse and show the syntax tree.
    ShowAst,
    /// Parse and report success only.
    CheckOnly,
    /// Parse, report the parse in debug output, then run.
    ParseThenRun,
    /// Run the program.
    Run,
}

/// The mode that the options choose: formatting first, then linting, then
/// tokens, then the syntax tree, then checking only, then a debug run that
/// parses first, and otherwise a plain run.
pub open spec fn file_mode_of(format_only: bool, lint_only: bool, show_tokens: bool, show_ast: bool, compile_only: bool, debug: bool) -> FileMode {
    if format_only {
        FileMode::Format
    } else if lint_only {
        FileMode::Lint
    } else if show_tokens {
        FileMode::Tokens
    } else if show_ast {
        FileMode::ShowAst
    } else if compile_only {
        FileMode::CheckOnly
    } else if debug {
        FileMode::ParseThenRun
    } else {
        FileMode::Run
    }
}

/// What running a source file with these options does.
pub fn file_mode(options: &RunOptions) -> (r: FileMode)
    ensures
        r == file_mode_of(
            options.format_only,
            options.lint_only,
            options.show_tokens,
            options.show_ast,
            options.compile_only,
            options.debug,
        ),
{
    if options.format_only {
        FileMode::Format
    } else if options.lint_only {
        FileMode::Lint
    } else if options.show_tokens {
        FileMode::Tokens
    } else if options.show_ast {
        FileMode::ShowAst
    } else if options.compile_only {
        FileMode::CheckOnly
    } else if options.debug {
        FileMode::ParseThenRun
    } else {
        FileMode::Run
    }
}

} // verus!
