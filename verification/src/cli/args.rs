//! Command-line parsing: the subcommands `pm`, `lsp`, `mobile`, `llvm` and
//! `jit`, then the general flags and the source file. A refused command line
//! gives the message to show; a subcommand that lists choices says which
//! listing to show.

use crate::text::{parse_unsigned, parsed_unsigned, str_eq};
use vstd::prelude::*;

verus! {

/// Options of a run.
#[derive(Debug, Clone)]
pub struct RunOptions {
    pub show_tokens: bool,
    pub show_ast: bool,
    pub compile_only: bool,
    pub format_only: bool,
    pub debug: bool,
    pub lint_only: bool,
    pub lint_disabled_rules: Vec<String>,
    pub lint_max: Option<usize>,
    pub pm_init: Option<String>,
    pub pm_check: bool,
    pub pm_tree: bool,
    pub lsp_diag: bool,
    pub lsp_complete: Option<String>,
    pub lsp_hover: Option<(usize, usize)>,
    pub lsp_definition: Option<(usize, usize)>,
    pub lsp_references: Option<(usize, usize)>,
    pub mobile_export: bool,
    pub mobile_platform: Option<String>,
    pub mobile_framework: Option<String>,
    pub mobile_project_name: Option<String>,
    pub llvm_compile: bool,
    pub llvm_handled: bool,
    pub llvm_opt_level: Option<u8>,
    pub llvm_target: Option<String>,
    pub llvm_output: Option<String>,
    pub llvm_emit_ir: bool,
    pub llvm_emit_bc: bool,
    pub llvm_object_only: bool,
    pub llvm_run: bool,
    pub jit_run: bool,
    pub jit_repl: bool,
    pub jit_tiered: bool,
    pub jit_benchmark: bool,
    pub jit_info: bool,
    pub jit_bench: bool,
    pub jit_handled: bool,
}

/// The options with texts seen as character sequences.
pub struct OptionsView {
    pub show_tokens: bool,
    pub show_ast: bool,
    pub compile_only: bool,
    pub format_only: bool,
    pub debug: bool,
    pub lint_only: bool,
    pub lint_disabled_rules: Seq<Seq<char>>,
    pub lint_max: Option<usize>,
    pub pm_init: Option<Seq<char>>,
    pub pm_check: bool,
    pub pm_tree: bool,
    pub lsp_diag: bool,
    pub lsp_complete: Option<Seq<char>>,
    pub lsp_hover: Option<(usize, usize)>,
    pub lsp_definition: Option<(usize, usize)>,
    pub lsp_references: Option<(usize, usize)>,
    pub mobile_export: bool,
    pub mobile_platform: Option<Seq<char>>,
    pub mobile_framework: Option<Seq<char>>,
    pub mobile_project_name: Option<Seq<char>>,
    pub llvm_compile: bool,
    pub llvm_handled: bool,
    pub llvm_opt_level: Option<u8>,
    pub llvm_target: Option<Seq<char>>,
    pub llvm_output: Option<Seq<char>>,
    pub llvm_emit_ir: bool,
    pub llvm_emit_bc: bool,
    pub llvm_object_only: bool,
    pub llvm_run: bool,
    pub jit_run: bool,
    pub jit_repl: bool,
    pub jit_tiered: bool,
    pub jit_benchmark: bool,
    pub jit_info: bool,
    pub jit_bench: bool,
    pub jit_handled: bool,
}

/// An optional text, seen as a character sequence.
pub open spec fn text_opt(t: Option<String>) -> Option<Seq<char>> {
    match t {
        Some(s) => Some(s@),
        None => None,
    }
}

/// The options hold what the view says, field by field, with texts seen as
/// character sequences.
#[verifier::opaque]
pub open spec fn holds(n: RunOptions, v: OptionsView) -> bool {
    &&& n.show_tokens == v.show_tokens
    &&& n.show_ast == v.show_ast
    &&& n.compile_only == v.compile_only
    &&& n.format_only == v.format_only
    &&& n.debug == v.debug
    &&& n.lint_only == v.lint_only
    &&& n.lint_disabled_rules@.map_values(|s: String| s@) == v.lint_disabled_rules
    &&& n.lint_max == v.lint_max
    &&& text_opt(n.pm_init) == v.pm_init
    &&& n.pm_check == v.pm_check
    &&& n.pm_tree == v.pm_tree
    &&& n.lsp_diag == v.lsp_diag
    &&& text_opt(n.lsp_complete) == v.lsp_complete
    &&& n.lsp_hover == v.lsp_hover
    &&& n.lsp_definition == v.lsp_definition
    &&& n.lsp_references == v.lsp_references
    &&& n.mobile_export == v.mobile_export
    &&& text_opt(n.mobile_platform) == v.mobile_platform
    &&& text_opt(n.mobile_framework) == v.mobile_framework
    &&& text_opt(n.mobile_project_name) == v.mobile_project_name
    &&& n.llvm_compile == v.llvm_compile
    &&& n.llvm_handled == v.llvm_handled
    &&& n.llvm_opt_level == v.llvm_opt_level
    &&& text_opt(n.llvm_target) == v.llvm_target
    &&& text_opt(n.llvm_output) == v.llvm_output
    &&& n.llvm_emit_ir == v.llvm_emit_ir
    &&& n.llvm_emit_bc == v.llvm_emit_bc
    &&& n.llvm_object_only == v.llvm_object_only
    &&& n.llvm_run == v.llvm_run
    &&& n.jit_run == v.jit_run
    &&& n.jit_repl == v.jit_repl
    &&& n.jit_tiered == v.jit_tiered
    &&& n.jit_benchmark == v.jit_benchmark
    &&& n.jit_info == v.jit_info
    &&& n.jit_bench == v.jit_bench
    &&& n.jit_handled == v.jit_handled
}

/// Every flag off, every value absent, no rule disabled.
pub open spec fn default_options() -> OptionsView {
    OptionsView {
        show_tokens: false,
        show_ast: false,
        compile_only: false,
        format_only: false,
        debug: false,
        lint_only: false,
        lint_disabled_rules: Seq::empty(),
        lint_max: None,
        pm_init: None,
        pm_check: false,
        pm_tree: false,
        lsp_diag: false,
        lsp_complete: None,
        lsp_hover: None,
        lsp_definition: None,
        lsp_references: None,
        mobile_export: false,
        mobile_platform: None,
        mobile_framework: None,
        mobile_project_name: None,
        llvm_compile: false,
        llvm_handled: false,
        llvm_opt_level: None,
        llvm_target: None,
        llvm_output: None,
        llvm_emit_ir: false,
        llvm_emit_bc: false,
        llvm_object_only: false,
        llvm_run: false,
        jit_run: false,
        jit_repl: false,
        jit_tiered: false,
        jit_benchmark: false,
        jit_info: false,
        jit_bench: false,
        jit_handled: false,
    }
}

impl Default for RunOptions {
    fn default() -> (r: Self)
        ensures
            holds(r, default_options()),
    {
        let r = RunOptions {
            show_tokens: false,
            show_ast: false,
            compile_only: false,
            format_only: false,
            debug: false,
            lint_only: false,
            lint_disabled_rules: Vec::new(),
            lint_max: None,
            pm_init: None,
            pm_check: false,
            pm_tree: false,
            lsp_diag: false,
            lsp_complete: None,
            lsp_hover: None,
            lsp_definition: None,
            lsp_references: None,
            mobile_export: false,
            mobile_platform: None,
            mobile_framework: None,
            mobile_project_name: None,
            llvm_compile: false,
            llvm_handled: false,
            llvm_opt_level: None,
            llvm_target: None,
            llvm_output: None,
            llvm_emit_ir: false,
            llvm_emit_bc: false,
            llvm_object_only: false,
            llvm_run: false,
            jit_run: false,
            jit_repl: false,
            jit_tiered: false,
            jit_benchmark: false,
            jit_info: false,
            jit_bench: false,
            jit_handled: false,
        };
        proof {
            reveal(holds);
            assert(r.lint_disabled_rules@.map_values(|s: String| s@) =~= Seq::<Seq<char>>::empty());
        }
        r
    }
}

/// A list of choices that a subcommand shows.
#[derive(Debug, Clone, Copy, PartialEq, Eq, Structural)]
pub enum Listing {
    /// The mobile platforms and frameworks.
    MobileTargets,
    /// The native code targets.
    LlvmTargets,
    /// The optimisation levels.
    LlvmOptLevels,
}

/// A parsed command line that runs something.
#[derive(Debug)]
pub struct ParsedCli {
    pub options: RunOptions,
    pub filename: Option<String>,
    pub run_repl_flag: bool,
    /// A list of choices to show before running.
    pub listing: Option<Listing>,
}

/// What the command line asks for.
#[derive(Debug)]
pub enum CliAction {
    Help,
    Version,
    Run(Box<ParsedCli>),
}

/// What the command line asks for, with texts seen as sequences.
pub enum ActionView {
    Help,
    Version,
    Run { options: OptionsView, filename: Option<Seq<char>>, repl: bool, listing: Option<Listing> },
}

/// The action holds what the view says.
pub open spec fn shows_action(act: CliAction, a: ActionView) -> bool {
    match act {
        CliAction::Help => a is Help,
        CliAction::Version => a is Version,
        CliAction::Run(p) => match a {
            ActionView::Run { options, filename, repl, listing } => holds(p.options, options)
                && text_opt(p.filename) == filename && p.run_repl_flag == repl && p.listing == listing,
            _ => false,
        },
    }
}

// ═══════════════════════════════════════════════════════════════════════════
// The grammar
// ═══════════════════════════════════════════════════════════════════════════

/// The argument at a position, if there is one.
pub open spec fn arg_at(args: Seq<Seq<char>>, k: int) -> Option<Seq<char>> {
    if 0 <= k < args.len() { Some(args[k]) } else { None }
}

/// A positive machine-sized integer written in a text.
pub open spec fn positive(v: Seq<char>) -> Option<usize> {
    match parsed_unsigned(v, usize::MAX as nat) {
        Some(n) => if n > 0 { Some(n as usize) } else { None },
        None => None,
    }
}

/// The message for a value that is not a positive integer.
pub open spec fn positive_error(name: Seq<char>) -> Seq<char> {
    "قيمة "@ + name + " يجب أن تكون رقماً صحيحاً موجباً"@
}

/// The upper-case form of a text, as the standard library computes it.
pub uninterp spec fn upper_case(s: Seq<char>) -> Seq<char>;


/// A subcommand named by the first argument.
#[derive(Debug, Clone, Copy, PartialEq, Eq, Structural)]
pub enum Subcommand {
    Pm,
    Lsp,
    Mobile,
    Llvm,
    Jit,
}

/// The subcommand a first argument names, if any.
pub open spec fn subcommand(c: Seq<char>) -> Option<Subcommand> {
    if c == "pm"@ {
        Some(Subcommand::Pm)
    } else if c == "lsp"@ {
        Some(Subcommand::Lsp)
    } else if c == "mobile"@ {
        Some(Subcommand::Mobile)
    } else if c == "llvm"@ {
        Some(Subcommand::Llvm)
    } else if c == "jit"@ {
        Some(Subcommand::Jit)
    } else {
        None
    }
}

/// What a subcommand gives: options, file and listing.
pub type Parsed = (OptionsView, Option<Seq<char>>, Option<Listing>);

/// The `pm` subcommand.
#[verifier::opaque]
pub open spec fn pm_outcome(args: Seq<Seq<char>>) -> Result<Parsed, Seq<char>> {
    let o = default_options();
    match arg_at(args, 2) {
        Some(c) => if c == "init"@ {
            match arg_at(args, 3) {
                Some(name) => Ok((OptionsView { pm_init: Some(name), ..o }, None, None)),
                None => Err("الأمر 'pm init' يحتاج اسم مشروع"@),
            }
        } else if c == "check"@ {
            Ok((OptionsView { pm_check: true, ..o }, None, None))
        } else if c == "tree"@ {
            Ok((OptionsView { pm_tree: true, ..o }, None, None))
        } else {
            Err("أمر pm غير معروف: "@ + c)
        },
        None => Err("استخدم: almarjaa pm [init|check|tree]"@),
    }
}

/// The line and column of an `lsp` position command.
#[verifier::opaque]
pub open spec fn position_outcome(args: Seq<Seq<char>>, cmd: Seq<char>) -> Result<(usize, usize), Seq<char>> {
    let missing = "الأمر 'lsp "@ + cmd + "' يحتاج line و column"@;
    match arg_at(args, 4) {
        None => Err(missing),
        Some(l) => match positive(l) {
            None => Err(positive_error("line"@)),
            Some(line) => match arg_at(args, 5) {
                None => Err(missing),
                Some(c) => match positive(c) {
                    None => Err(positive_error("column"@)),
                    Some(column) => Ok((line, column)),
                },
            },
        },
    }
}

/// The `lsp` subcommand: the file is the argument after the command.
#[verifier::opaque]
pub open spec fn lsp_outcome(args: Seq<Seq<char>>) -> Result<Parsed, Seq<char>> {
    let o = default_options();
    let file = arg_at(args, 3);
    match arg_at(args, 2) {
        Some(c) => if c == "diag"@ {
            Ok((OptionsView { lsp_diag: true, ..o }, file, None))
        } else if c == "complete"@ {
            let prefix = match arg_at(args, 4) {
                Some(p) => p,
                None => Seq::empty(),
            };
            Ok((OptionsView { lsp_complete: Some(prefix), ..o }, file, None))
        } else if c == "hover"@ {
            match position_outcome(args, "hover"@) {
                Ok(p) => Ok((OptionsView { lsp_hover: Some(p), ..o }, file, None)),
                Err(e) => Err(e),
            }
        } else if c == "definition"@ {
            match position_outcome(args, "definition"@) {
                Ok(p) => Ok((OptionsView { lsp_definition: Some(p), ..o }, file, None)),
                Err(e) => Err(e),
            }
        } else if c == "references"@ {
            match position_outcome(args, "references"@) {
                Ok(p) => Ok((OptionsView { lsp_references: Some(p), ..o }, file, None)),
                Err(e) => Err(e),
            }
        } else {
            Err("أمر lsp غير معروف: "@ + c)
        },
        None => Err("استخدم: almarjaa lsp [diag|complete|hover|definition|references]"@),
    }
}

/// What an argument of `mobile export` is.
#[derive(Debug, Clone, Copy, PartialEq, Eq, Structural)]
pub enum MobileArg {
    Platform,
    Framework,
    Name,
    Other,
}

/// The kind of an argument of `mobile export`.
#[verifier::opaque]
pub open spec fn mobile_arg(a: Seq<char>) -> MobileArg {
    if a == "--platform"@ || a == "-p"@ {
        MobileArg::Platform
    } else if a == "--framework"@ || a == "-f"@ {
        MobileArg::Framework
    } else if a == "--name"@ || a == "-n"@ {
        MobileArg::Name
    } else {
        MobileArg::Other
    }
}

/// Platform, framework and project name of a mobile export.
pub type MobileChoice = (Option<Seq<char>>, Option<Seq<char>>, Option<Seq<char>>);

/// The choices of `mobile export` read from position `i` on: a value flag
/// takes the next argument, absent if there is none; other arguments are
/// skipped.
#[verifier::opaque]
pub open spec fn mobile_scan(args: Seq<Seq<char>>, i: int, c: MobileChoice) -> MobileChoice
    decreases args.len() + 1 - i,
{
    if i < 0 || i >= args.len() {
        c
    } else {
        match mobile_arg(args[i]) {
            MobileArg::Platform => mobile_scan(args, i + 2, (arg_at(args, i + 1), c.1, c.2)),
            MobileArg::Framework => mobile_scan(args, i + 2, (c.0, arg_at(args, i + 1), c.2)),
            MobileArg::Name => mobile_scan(args, i + 2, (c.0, c.1, arg_at(args, i + 1))),
            MobileArg::Other => mobile_scan(args, i + 1, c),
        }
    }
}

/// The options of a mobile export with the given choices.
pub open spec fn mobile_options(c: MobileChoice) -> OptionsView {
    OptionsView {
        mobile_export: true,
        mobile_platform: c.0,
        mobile_framework: c.1,
        mobile_project_name: c.2,
        ..default_options()
    }
}

/// The `mobile` subcommand, which always asks for a mobile export.
#[verifier::opaque]
pub open spec fn mobile_outcome(args: Seq<Seq<char>>) -> Result<Parsed, Seq<char>> {
    match arg_at(args, 2) {
        Some(c) => if c == "export"@ {
            Ok((mobile_options(mobile_scan(args, 4, (None, None, None))), arg_at(args, 3), None))
        } else if c == "list"@ {
            Ok((mobile_options((None, None, None)), None, Some(Listing::MobileTargets)))
        } else {
            Err("أمر mobile غير معروف: "@ + c)
        },
        None => Err("استخدم: almarjaa mobile [export|list]"@),
    }
}

/// What an argument of `llvm compile` is.
#[derive(Debug, Clone, Copy, PartialEq, Eq, Structural)]
pub enum LlvmArg {
    Opt,
    Target,
    Output,
    EmitIr,
    EmitBc,
    Object,
    Run,
    Other,
}

/// The kind of an argument of `llvm compile`.
#[verifier::opaque]
pub open spec fn llvm_arg(a: Seq<char>) -> LlvmArg {
    if a == "--opt"@ || a == "-O"@ {
        LlvmArg::Opt
    } else if a == "--target"@ || a == "-t"@ {
        LlvmArg::Target
    } else if a == "--output"@ || a == "-o"@ {
        LlvmArg::Output
    } else if a == "--emit-ir"@ {
        LlvmArg::EmitIr
    } else if a == "--emit-bc"@ {
        LlvmArg::EmitBc
    } else if a == "--object"@ || a == "-c"@ {
        LlvmArg::Object
    } else if a == "--run"@ || a == "-r"@ {
        LlvmArg::Run
    } else {
        LlvmArg::Other
    }
}

/// The choices of a native compilation.
pub struct LlvmChoice {
    pub opt_level: Option<u8>,
    pub target: Option<Seq<char>>,
    pub output: Option<Seq<char>>,
    pub emit_ir: bool,
    pub emit_bc: bool,
    pub object_only: bool,
    pub run: bool,
}

/// No choice made.
pub open spec fn no_llvm_choice() -> LlvmChoice {
    LlvmChoice {
        opt_level: None,
        target: None,
        output: None,
        emit_ir: false,
        emit_bc: false,
        object_only: false,
        run: false,
    }
}

/// The optimisation level a text names, as an 8-bit number.
pub open spec fn opt_level(v: Seq<char>) -> Option<u8> {
    match parsed_unsigned(v, 255) {
        Some(n) => Some(n as u8),
        None => None,
    }
}

/// The choices of `llvm compile` read from position `i` on. `--opt` with no
/// argument after it leaves the level as it was.
#[verifier::opaque]
pub open spec fn llvm_scan(args: Seq<Seq<char>>, i: int, c: LlvmChoice) -> LlvmChoice
    decreases args.len() + 1 - i,
{
    if i < 0 || i >= args.len() {
        c
    } else {
        match llvm_arg(args[i]) {
            LlvmArg::Opt => llvm_scan(args, i + 2, match arg_at(args, i + 1) {
                Some(level) => LlvmChoice { opt_level: opt_level(level), ..c },
                None => c,
            }),
            LlvmArg::Target => llvm_scan(args, i + 2, LlvmChoice { target: arg_at(args, i + 1), ..c }),
            LlvmArg::Output => llvm_scan(args, i + 2, LlvmChoice { output: arg_at(args, i + 1), ..c }),
            LlvmArg::EmitIr => llvm_scan(args, i + 1, LlvmChoice { emit_ir: true, ..c }),
            LlvmArg::EmitBc => llvm_scan(args, i + 1, LlvmChoice { emit_bc: true, ..c }),
            LlvmArg::Object => llvm_scan(args, i + 1, LlvmChoice { object_only: true, ..c }),
            LlvmArg::Run => llvm_scan(args, i + 1, LlvmChoice { run: true, ..c }),
            LlvmArg::Other => llvm_scan(args, i + 1, c),
        }
    }
}

/// The options of a native compilation with the given choices.
pub open spec fn llvm_options(c: LlvmChoice) -> OptionsView {
    OptionsView {
        llvm_compile: true,
        llvm_opt_level: c.opt_level,
        llvm_target: c.target,
        llvm_output: c.output,
        llvm_emit_ir: c.emit_ir,
        llvm_emit_bc: c.emit_bc,
        llvm_object_only: c.object_only,
        llvm_run: c.run,
        ..default_options()
    }
}

/// The `llvm` subcommand.
#[verifier::opaque]
pub open spec fn llvm_outcome(args: Seq<Seq<char>>) -> Result<Parsed, Seq<char>> {
    let handled = OptionsView { llvm_handled: true, ..default_options() };
    match arg_at(args, 2) {
        Some(c) => if c == "compile"@ {
            Ok((llvm_options(llvm_scan(args, 4, no_llvm_choice())), arg_at(args, 3), None))
        } else if c == "targets"@ {
            Ok((handled, None, Some(Listing::LlvmTargets)))
        } else if c == "opt"@ || c == "optimize"@ {
            Ok((handled, None, Some(Listing::LlvmOptLevels)))
        } else if c == "run"@ {
            Ok((llvm_options(LlvmChoice { run: true, ..no_llvm_choice() }), arg_at(args, 3), None))
        } else {
            Err("أمر llvm غير معروف: "@ + c)
        },
        None => Err("استخدم: almarjaa llvm [compile|targets|opt|run]"@),
    }
}

/// What an argument of `jit run` is.
#[derive(Debug, Clone, Copy, PartialEq, Eq, Structural)]
pub enum JitArg {
    Tiered,
    Benchmark,
    Other,
}

/// The kind of an argument of `jit run`.
#[verifier::opaque]
pub open spec fn jit_arg(a: Seq<char>) -> JitArg {
    if a == "--tiered"@ || a == "-t"@ {
        JitArg::Tiered
    } else if a == "--benchmark"@ || a == "-b"@ {
        JitArg::Benchmark
    } else {
        JitArg::Other
    }
}

/// Whether `jit run` is tiered and whether it measures, read from position
/// `i` on.
#[verifier::opaque]
pub open spec fn jit_scan(args: Seq<Seq<char>>, i: int, c: (bool, bool)) -> (bool, bool)
    decreases args.len() + 1 - i,
{
    if i < 0 || i >= args.len() {
        c
    } else {
        match jit_arg(args[i]) {
            JitArg::Tiered => jit_scan(args, i + 1, (true, c.1)),
            JitArg::Benchmark => jit_scan(args, i + 1, (c.0, true)),
            JitArg::Other => jit_scan(args, i + 1, c),
        }
    }
}

/// The `jit` subcommand.
#[verifier::opaque]
pub open spec fn jit_outcome(args: Seq<Seq<char>>) -> Result<Parsed, Seq<char>> {
    let o = default_options();
    match arg_at(args, 2) {
        Some(c) => if c == "run"@ {
            let (tiered, benchmark) = jit_scan(args, 4, (false, false));
            Ok((OptionsView { jit_run: true, jit_tiered: tiered, jit_benchmark: benchmark, ..o }, arg_at(args, 3), None))
        } else if c == "repl"@ {
            Ok((OptionsView { jit_repl: true, ..o }, None, None))
        } else if c == "info"@ {
            Ok((OptionsView { jit_info: true, ..o }, None, None))
        } else if c == "benchmark"@ || c == "test"@ {
            Ok((OptionsView { jit_bench: true, ..o }, None, None))
        } else {
            Err("أمر jit غير معروف: "@ + c)
        },
        None => Err("استخدم: almarjaa jit [run|repl|info|benchmark]"@),
    }
}

/// What a subcommand gives.
pub open spec fn sub_outcome(args: Seq<Seq<char>>, s: Subcommand) -> Result<Parsed, Seq<char>> {
    match s {
        Subcommand::Pm => pm_outcome(args),
        Subcommand::Lsp => lsp_outcome(args),
        Subcommand::Mobile => mobile_outcome(args),
        Subcommand::Llvm => llvm_outcome(args),
        Subcommand::Jit => jit_outcome(args),
    }
}

/// What a general argument is.
#[derive(Debug, Clone, Copy, PartialEq, Eq, Structural)]
pub enum GeneralArg {
    Help,
    Version,
    Repl,
    Compile,
    Format,
    Tokens,
    Lint,
    LintDisable,
    LintMax,
    Ast,
    Debug,
    PmInit,
    PmCheck,
    PmTree,
    LspDiag,
    Unknown,
    File,
}

/// The kind of a general argument: a known flag, an unknown one (starting
/// with a dash), or a file name.
#[verifier::opaque]
pub open spec fn general_arg(a: Seq<char>) -> GeneralArg {
    if a == "-h"@ || a == "--help"@ {
        GeneralArg::Help
    } else if a == "-v"@ || a == "--version"@ {
        GeneralArg::Version
    } else if a == "-r"@ || a == "--repl"@ {
        GeneralArg::Repl
    } else if a == "-c"@ || a == "--compile"@ {
        GeneralArg::Compile
    } else if a == "-f"@ || a == "--format"@ {
        GeneralArg::Format
    } else if a == "-t"@ || a == "--tokens"@ {
        GeneralArg::Tokens
    } else if a == "-l"@ || a == "--lint"@ {
        GeneralArg::Lint
    } else if a == "--lint-disable"@ {
        GeneralArg::LintDisable
    } else if a == "--lint-max"@ {
        GeneralArg::LintMax
    } else if a == "-a"@ || a == "--ast"@ {
        GeneralArg::Ast
    } else if a == "-d"@ || a == "--debug"@ {
        GeneralArg::Debug
    } else if a == "--pm-init"@ {
        GeneralArg::PmInit
    } else if a == "--pm-check"@ {
        GeneralArg::PmCheck
    } else if a == "--pm-tree"@ {
        GeneralArg::PmTree
    } else if a == "--lsp-diag"@ {
        GeneralArg::LspDiag
    } else if a.len() > 0 && a[0] == '-' {
        GeneralArg::Unknown
    } else {
        GeneralArg::File
    }
}

/// The choices the general flags make.
pub struct GeneralChoice {
    pub repl: bool,
    pub compile_only: bool,
    pub format_only: bool,
    pub show_tokens: bool,
    pub lint_only: bool,
    pub lint_disabled_rules: Seq<Seq<char>>,
    pub lint_max: Option<usize>,
    pub show_ast: bool,
    pub debug: bool,
    pub pm_init: Option<Seq<char>>,
    pub pm_check: bool,
    pub pm_tree: bool,
    pub lsp_diag: bool,
    pub file: Option<Seq<char>>,
}

/// No flag given and no file.
pub open spec fn no_general_choice() -> GeneralChoice {
    GeneralChoice {
        repl: false,
        compile_only: false,
        format_only: false,
        show_tokens: false,
        lint_only: false,
        lint_disabled_rules: Seq::empty(),
        lint_max: None,
        show_ast: false,
        debug: false,
        pm_init: None,
        pm_check: false,
        pm_tree: false,
        lsp_diag: false,
        file: None,
    }
}

/// How reading the general arguments ends.
pub enum GeneralEnd {
    Help,
    Version,
    Done(GeneralChoice),
}

/// One step of reading the general arguments.
pub enum GeneralStep {
    /// Go on at a later position with new choices.
    Continue(int, GeneralChoice),
    /// Stop with this result.
    Stop(Result<GeneralEnd, Seq<char>>),
}

/// Reading the general argument at position `i`: help and version end the
/// reading; a value flag takes the next argument and is refused without one;
/// an unknown flag, or a second file, is refused.
pub open spec fn general_step(args: Seq<Seq<char>>, i: int, g: GeneralChoice) -> GeneralStep {
    step_of(general_arg(args[i]), args[i], arg_at(args, i + 1), i, g)
}

/// Reading an argument `a` of the given kind at position `i`, with `next`
/// the argument after it.
pub open spec fn step_of(
    kind: GeneralArg,
    a: Seq<char>,
    next: Option<Seq<char>>,
    i: int,
    g: GeneralChoice,
) -> GeneralStep {
    match kind {
        GeneralArg::Help => GeneralStep::Stop(Ok(GeneralEnd::Help)),
        GeneralArg::Version => GeneralStep::Stop(Ok(GeneralEnd::Version)),
        GeneralArg::Repl => GeneralStep::Continue(i + 1, GeneralChoice { repl: true, ..g }),
        GeneralArg::Compile => GeneralStep::Continue(i + 1, GeneralChoice { compile_only: true, ..g }),
        GeneralArg::Format => GeneralStep::Continue(i + 1, GeneralChoice { format_only: true, ..g }),
        GeneralArg::Tokens => GeneralStep::Continue(i + 1, GeneralChoice { show_tokens: true, ..g }),
        GeneralArg::Lint => GeneralStep::Continue(i + 1, GeneralChoice { lint_only: true, ..g }),
        GeneralArg::LintDisable => match next {
            None => GeneralStep::Stop(Err("الخيار --lint-disable يحتاج كود قاعدة مثل L001"@)),
            Some(rule) => GeneralStep::Continue(
                i + 2,
                GeneralChoice { lint_disabled_rules: g.lint_disabled_rules.push(upper_case(rule)), ..g },
            ),
        },
        GeneralArg::LintMax => match next {
            None => GeneralStep::Stop(Err("الخيار --lint-max يحتاج رقماً صحيحاً"@)),
            Some(v) => match positive(v) {
                None => GeneralStep::Stop(Err(positive_error("--lint-max"@))),
                Some(n) => GeneralStep::Continue(i + 2, GeneralChoice { lint_max: Some(n), ..g }),
            },
        },
        GeneralArg::Ast => GeneralStep::Continue(i + 1, GeneralChoice { show_ast: true, ..g }),
        GeneralArg::Debug => GeneralStep::Continue(i + 1, GeneralChoice { debug: true, ..g }),
        GeneralArg::PmInit => match next {
            None => GeneralStep::Stop(Err("الخيار --pm-init يحتاج اسم مشروع"@)),
            Some(name) => GeneralStep::Continue(i + 2, GeneralChoice { pm_init: Some(name), ..g }),
        },
        GeneralArg::PmCheck => GeneralStep::Continue(i + 1, GeneralChoice { pm_check: true, ..g }),
        GeneralArg::PmTree => GeneralStep::Continue(i + 1, GeneralChoice { pm_tree: true, ..g }),
        GeneralArg::LspDiag => GeneralStep::Continue(i + 1, GeneralChoice { lsp_diag: true, ..g }),
        GeneralArg::Unknown => GeneralStep::Stop(Err("خيار غير معروف: "@ + a)),
        GeneralArg::File => match g.file {
            None => GeneralStep::Continue(i + 1, GeneralChoice { file: Some(a), ..g }),
            Some(_) => GeneralStep::Stop(Err("يمكن تحديد ملف واحد فقط"@)),
        },
    }
}

/// The general arguments read from position `i` on.
#[verifier::opaque]
pub open spec fn general_scan(args: Seq<Seq<char>>, i: int, g: GeneralChoice) -> Result<GeneralEnd, Seq<char>>
    decreases args.len() + 1 - i,
{
    if i < 0 || i >= args.len() {
        Ok(GeneralEnd::Done(g))
    } else {
        match general_step(args, i, g) {
            GeneralStep::Continue(j, g2) => if i < j {
                general_scan(args, j, g2)
            } else {
                Ok(GeneralEnd::Done(g2))
            },
            GeneralStep::Stop(r) => r,
        }
    }
}

/// The argument asks for the syntax tree.
pub open spec fn is_ast_flag(a: Seq<char>) -> bool {
    a == "-a"@ || a == "--ast"@
}

/// The argument asks for the tokens.
pub open spec fn is_tokens_flag(a: Seq<char>) -> bool {
    a == "-t"@ || a == "--tokens"@
}

/// The argument is a general flag that takes the next argument as its value.
pub open spec fn is_value_flag(a: Seq<char>) -> bool {
    a == "--lint-disable"@ || a == "--lint-max"@ || a == "--pm-init"@
}

/// Some argument from position `i` on satisfies `p`.
pub open spec fn occurs_from(args: Seq<Seq<char>>, i: int, p: spec_fn(Seq<char>) -> bool) -> bool {
    exists|j: int| i <= j < args.len() && #[trigger] p(args[j])
}

/// The kinds that set the two options are the flags that name them; a
/// value flag is one of the three that take values.
proof fn lemma_flag_kinds(a: Seq<char>)
    ensures
        general_arg(a) == GeneralArg::Ast ==> is_ast_flag(a),
        general_arg(a) == GeneralArg::Tokens ==> is_tokens_flag(a),
        (general_arg(a) == GeneralArg::LintDisable || general_arg(a) == GeneralArg::LintMax || general_arg(a)
            == GeneralArg::PmInit) ==> is_value_flag(a),
        is_ast_flag(a) ==> general_arg(a) == GeneralArg::Ast,
        is_tokens_flag(a) ==> general_arg(a) == GeneralArg::Tokens,
{
    reveal(general_arg);
    reveal_strlit("-h");
    reveal_strlit("-v");
    reveal_strlit("-r");
    reveal_strlit("-c");
    reveal_strlit("-f");
    reveal_strlit("-t");
    reveal_strlit("-l");
    reveal_strlit("--help");
    reveal_strlit("--version");
    reveal_strlit("--repl");
    reveal_strlit("--compile");
    reveal_strlit("--format");
    reveal_strlit("--tokens");
    reveal_strlit("--lint");
    reveal_strlit("--lint-disable");
    reveal_strlit("--lint-max");
    reveal_strlit("-a");
    reveal_strlit("--ast");
    assert("-a"@[1] != "-h"@[1]);
    assert("-a"@[1] != "-v"@[1]);
    assert("-a"@[1] != "-r"@[1]);
    assert("-a"@[1] != "-c"@[1]);
    assert("-a"@[1] != "-f"@[1]);
    assert("-a"@[1] != "-t"@[1]);
    assert("-a"@[1] != "-l"@[1]);
    assert("-a"@.len() != "--help"@.len());
    assert("-a"@.len() != "--version"@.len());
    assert("-a"@.len() != "--repl"@.len());
    assert("-a"@.len() != "--compile"@.len());
    assert("-a"@.len() != "--format"@.len());
    assert("-a"@.len() != "--tokens"@.len());
    assert("-a"@.len() != "--lint"@.len());
    assert("-a"@.len() != "--lint-disable"@.len());
    assert("-a"@.len() != "--lint-max"@.len());
    assert("--ast"@.len() != "-h"@.len());
    assert("--ast"@.len() != "-v"@.len());
    assert("--ast"@.len() != "-r"@.len());
    assert("--ast"@.len() != "-c"@.len());
    assert("--ast"@.len() != "-f"@.len());
    assert("--ast"@.len() != "-t"@.len());
    assert("--ast"@.len() != "-l"@.len());
    assert("--ast"@.len() != "--help"@.len());
    assert("--ast"@.len() != "--version"@.len());
    assert("--ast"@.len() != "--repl"@.len());
    assert("--ast"@.len() != "--compile"@.len());
    assert("--ast"@.len() != "--format"@.len());
    assert("--ast"@.len() != "--tokens"@.len());
    assert("--ast"@.len() != "--lint"@.len());
    assert("--ast"@.len() != "--lint-disable"@.len());
    assert("--ast"@.len() != "--lint-max"@.len());
    assert("-t"@[1] != "-h"@[1]);
    assert("-t"@.len() != "--help"@.len());
    assert("-t"@[1] != "-v"@[1]);
    assert("-t"@.len() != "--version"@.len());
    assert("-t"@[1] != "-r"@[1]);
    assert("-t"@.len() != "--repl"@.len());
    assert("-t"@[1] != "-c"@[1]);
    assert("-t"@.len() != "--compile"@.len());
    assert("-t"@[1] != "-f"@[1]);
    assert("-t"@.len() != "--format"@.len());
    assert("--tokens"@.len() != "-h"@.len());
    assert("--tokens"@.len() != "--help"@.len());
    assert("--tokens"@.len() != "-v"@.len());
    assert("--tokens"@.len() != "--version"@.len());
    assert("--tokens"@.len() != "-r"@.len());
    assert("--tokens"@.len() != "--repl"@.len());
    assert("--tokens"@.len() != "-c"@.len());
    assert("--tokens"@.len() != "--compile"@.len());
    assert("--tokens"@.len() != "-f"@.len());
    assert("--tokens"@[2] != "--format"@[2]);
}

/// Reading from position `i` with the syntax tree (or the tokens) asked
/// for keeps it asked for.
proof fn lemma_scan_keeps(args: Seq<Seq<char>>, i: int, g: GeneralChoice)
    ensures
        general_scan(args, i, g) matches Ok(GeneralEnd::Done(g2)) ==> (g.show_ast ==> g2.show_ast) && (g.show_tokens
            ==> g2.show_tokens),
    decreases args.len() + 1 - i,
{
    reveal(general_scan);
    if 0 <= i < args.len() {
        match general_step(args, i, g) {
            GeneralStep::Continue(j, g2) => {
                if i < j {
                    lemma_scan_keeps(args, j, g2);
                }
            },
            GeneralStep::Stop(_) => {},
        }
    }
}

/// What reading from position `i` asks for, beyond what was asked before,
/// comes from the arguments read: the syntax tree only for `-a`/`--ast`,
/// the tokens only for `-t`/`--tokens`. When no value flag is among them,
/// every argument is read, so each such flag asks for its option.
proof fn lemma_scan_flags(args: Seq<Seq<char>>, i: int, g: GeneralChoice)
    requires
        0 <= i,
    ensures
        general_scan(args, i, g) matches Ok(GeneralEnd::Done(g2)) ==> {
            &&& g2.show_ast ==> g.show_ast || occurs_from(args, i, |a: Seq<char>| is_ast_flag(a))
            &&& g2.show_tokens ==> g.show_tokens || occurs_from(args, i, |a: Seq<char>| is_tokens_flag(a))
            &&& !occurs_from(args, i, |a: Seq<char>| is_value_flag(a)) ==> {
                &&& occurs_from(args, i, |a: Seq<char>| is_ast_flag(a)) ==> g2.show_ast
                &&& occurs_from(args, i, |a: Seq<char>| is_tokens_flag(a)) ==> g2.show_tokens
            }
        },
    decreases args.len() + 1 - i,
{
    reveal(general_scan);
    let ast = |a: Seq<char>| is_ast_flag(a);
    let tokens = |a: Seq<char>| is_tokens_flag(a);
    let value = |a: Seq<char>| is_value_flag(a);
    if i < args.len() {
        let a = args[i];
        lemma_flag_kinds(a);
        match general_step(args, i, g) {
            GeneralStep::Continue(j, g1) => {
                if i < j {
                    lemma_scan_flags(args, j, g1);
                    lemma_scan_keeps(args, j, g1);
                    if let Ok(GeneralEnd::Done(g2)) = general_scan(args, i, g) {
                        assert(general_scan(args, i, g) == general_scan(args, j, g1));
                        if g2.show_ast && !g.show_ast {
                            if g1.show_ast {
                                assert(ast(args[i]));
                            } else {
                                let k = choose|k: int| j <= k < args.len() && #[trigger] ast(args[k]);
                                assert(ast(args[k]));
                            }
                        }
                        if g2.show_tokens && !g.show_tokens {
                            if g1.show_tokens {
                                assert(tokens(args[i]));
                            } else {
                                let k = choose|k: int| j <= k < args.len() && #[trigger] tokens(args[k]);
                                assert(tokens(args[k]));
                            }
                        }
                        if !occurs_from(args, i, value) {
                            assert(!value(args[i]));
                            assert(j == i + 1);
                            assert(!occurs_from(args, j, value)) by {
                                if occurs_from(args, j, value) {
                                    let k = choose|k: int| j <= k < args.len() && #[trigger] value(args[k]);
                                    assert(value(args[k]));
                                }
                            }
                            if occurs_from(args, i, ast) {
                                let k = choose|k: int| i <= k < args.len() && #[trigger] ast(args[k]);
                                if k == i {
                                    assert(g1.show_ast);
                                } else {
                                    assert(ast(args[k]));
                                    assert(occurs_from(args, j, ast));
                                }
                            }
                            if occurs_from(args, i, tokens) {
                                let k = choose|k: int| i <= k < args.len() && #[trigger] tokens(args[k]);
                                if k == i {
                                    assert(g1.show_tokens);
                                } else {
                                    assert(tokens(args[k]));
                                    assert(occurs_from(args, j, tokens));
                                }
                            }
                        }
                    }
                }
            },
            GeneralStep::Stop(_) => {},
        }
    }
}

/// Each general flag sets its own option: on a command line that names no
/// subcommand, the syntax tree is asked for only when `-a` or `--ast` is
/// among the arguments, and the tokens only when `-t` or `--tokens` is;
/// when no value flag is among them, each of these flags asks for its own.
pub proof fn law_general_flags_set_their_options(args: Seq<Seq<char>>)
    requires
        args.len() < 2 || subcommand(args[1]) is None,
    ensures
        cli_outcome(args) matches Ok(ActionView::Run { options, .. }) ==> {
            &&& options.show_ast ==> exists|j: int| 1 <= j < args.len() && is_ast_flag(#[trigger] args[j])
            &&& options.show_tokens ==> exists|j: int| 1 <= j < args.len() && is_tokens_flag(#[trigger] args[j])
            &&& (forall|j: int| 1 <= j < args.len() ==> !is_value_flag(#[trigger] args[j])) ==> {
                &&& (exists|j: int| 1 <= j < args.len() && is_ast_flag(#[trigger] args[j])) ==> options.show_ast
                &&& (exists|j: int| 1 <= j < args.len() && is_tokens_flag(#[trigger] args[j])) ==> options.show_tokens
            }
        },
{
    let ast = |a: Seq<char>| is_ast_flag(a);
    let tokens = |a: Seq<char>| is_tokens_flag(a);
    let value = |a: Seq<char>| is_value_flag(a);
    lemma_scan_flags(args, 1, no_general_choice());
    if let Ok(ActionView::Run { options, .. }) = cli_outcome(args) {
        if options.show_ast {
            let k = choose|k: int| 1 <= k < args.len() && #[trigger] ast(args[k]);
            assert(is_ast_flag(args[k]));
        }
        if options.show_tokens {
            let k = choose|k: int| 1 <= k < args.len() && #[trigger] tokens(args[k]);
            assert(is_tokens_flag(args[k]));
        }
        if forall|j: int| 1 <= j < args.len() ==> !is_value_flag(#[trigger] args[j]) {
            assert(!occurs_from(args, 1, value)) by {
                if occurs_from(args, 1, value) {
                    let k = choose|k: int| 1 <= k < args.len() && #[trigger] value(args[k]);
                    assert(!is_value_flag(args[k]));
                }
            }
            if exists|j: int| 1 <= j < args.len() && is_ast_flag(#[trigger] args[j]) {
                let k = choose|k: int| 1 <= k < args.len() && is_ast_flag(#[trigger] args[k]);
                assert(ast(args[k]));
            }
            if exists|j: int| 1 <= j < args.len() && is_tokens_flag(#[trigger] args[j]) {
                let k = choose|k: int| 1 <= k < args.len() && is_tokens_flag(#[trigger] args[k]);
                assert(tokens(args[k]));
            }
        }
    }
}

/// The options the general flags choose.
pub open spec fn general_options(g: GeneralChoice) -> OptionsView {
    OptionsView {
        compile_only: g.compile_only,
        format_only: g.format_only,
        show_tokens: g.show_tokens,
        lint_only: g.lint_only,
        lint_disabled_rules: g.lint_disabled_rules,
        lint_max: g.lint_max,
        show_ast: g.show_ast,
        debug: g.debug,
        pm_init: g.pm_init,
        pm_check: g.pm_check,
        pm_tree: g.pm_tree,
        lsp_diag: g.lsp_diag,
        ..default_options()
    }
}

/// What a command line asks for, or the message that refuses it. A first
/// argument that names a subcommand hands the line to it; otherwise the
/// arguments are general flags and at most one file.
pub open spec fn cli_outcome(args: Seq<Seq<char>>) -> Result<ActionView, Seq<char>> {
    let s = if args.len() >= 2 { subcommand(args[1]) } else { None };
    match s {
        Some(s) => match sub_outcome(args, s) {
            Ok((o, f, l)) => Ok(ActionView::Run { options: o, filename: f, repl: false, listing: l }),
            Err(e) => Err(e),
        },
        None => match general_scan(args, 1, no_general_choice()) {
            Ok(GeneralEnd::Help) => Ok(ActionView::Help),
            Ok(GeneralEnd::Version) => Ok(ActionView::Version),
            Ok(GeneralEnd::Done(g)) => Ok(ActionView::Run {
                options: general_options(g),
                filename: g.file,
                repl: g.repl,
                listing: None,
            }),
            Err(e) => Err(e),
        },
    }
}

/// The arguments, seen as sequences.
pub open spec fn arg_views(args: Seq<String>) -> Seq<Seq<char>> {
    args.map_values(|s: String| s@)
}

// ═══════════════════════════════════════════════════════════════════════════
// Building options
// ═══════════════════════════════════════════════════════════════════════════

/// `String::to_uppercase`: the upper-case form of a text.
#[verifier::external_body]
fn upper(s: &str) -> (r: String)
    ensures
        r@ == upper_case(s@),
{
    s.to_uppercase()
}

/// A subcommand that turns a single switch on.
#[derive(Clone, Copy)]
enum Switch {
    PmCheck,
    PmTree,
    LspDiag,
    LlvmHandled,
    JitRepl,
    JitInfo,
    JitBench,
}

/// The options with the switch on.
spec fn switched(s: Switch) -> OptionsView {
    let o = default_options();
    match s {
        Switch::PmCheck => OptionsView { pm_check: true, ..o },
        Switch::PmTree => OptionsView { pm_tree: true, ..o },
        Switch::LspDiag => OptionsView { lsp_diag: true, ..o },
        Switch::LlvmHandled => OptionsView { llvm_handled: true, ..o },
        Switch::JitRepl => OptionsView { jit_repl: true, ..o },
        Switch::JitInfo => OptionsView { jit_info: true, ..o },
        Switch::JitBench => OptionsView { jit_bench: true, ..o },
    }
}

fn switch_options(s: Switch) -> (r: RunOptions)
    ensures
        holds(r, switched(s)),
{
    proof {
        reveal(holds);
    }
    let mut o = RunOptions::default();
    match s {
        Switch::PmCheck => o.pm_check = true,
        Switch::PmTree => o.pm_tree = true,
        Switch::LspDiag => o.lsp_diag = true,
        Switch::LlvmHandled => o.llvm_handled = true,
        Switch::JitRepl => o.jit_repl = true,
        Switch::JitInfo => o.jit_info = true,
        Switch::JitBench => o.jit_bench = true,
    }
    o
}

fn pm_init_options(name: String) -> (r: RunOptions)
    ensures
        holds(r, OptionsView { pm_init: Some(name@), ..default_options() }),
{
    proof {
        reveal(holds);
    }
    let mut o = RunOptions::default();
    o.pm_init = Some(name);
    o
}

fn lsp_complete_options(prefix: String) -> (r: RunOptions)
    ensures
        holds(r, OptionsView { lsp_complete: Some(prefix@), ..default_options() }),
{
    proof {
        reveal(holds);
    }
    let mut o = RunOptions::default();
    o.lsp_complete = Some(prefix);
    o
}

/// An `lsp` command that asks about a position.
#[derive(Clone, Copy)]
enum LspQuery {
    Hover,
    Definition,
    References,
}

/// The command's name.
spec fn query_name(q: LspQuery) -> Seq<char> {
    match q {
        LspQuery::Hover => "hover"@,
        LspQuery::Definition => "definition"@,
        LspQuery::References => "references"@,
    }
}

/// The options that ask about a position.
spec fn query_options(q: LspQuery, p: (usize, usize)) -> OptionsView {
    let o = default_options();
    match q {
        LspQuery::Hover => OptionsView { lsp_hover: Some(p), ..o },
        LspQuery::Definition => OptionsView { lsp_definition: Some(p), ..o },
        LspQuery::References => OptionsView { lsp_references: Some(p), ..o },
    }
}

fn lsp_query_options(q: LspQuery, p: (usize, usize)) -> (r: RunOptions)
    ensures
        holds(r, query_options(q, p)),
{
    proof {
        reveal(holds);
    }
    let mut o = RunOptions::default();
    match q {
        LspQuery::Hover => o.lsp_hover = Some(p),
        LspQuery::Definition => o.lsp_definition = Some(p),
        LspQuery::References => o.lsp_references = Some(p),
    }
    o
}

fn mobile_run_options(platform: Option<String>, framework: Option<String>, name: Option<String>) -> (r: RunOptions)
    ensures
        holds(r, mobile_options((text_opt(platform), text_opt(framework), text_opt(name)))),
{
    proof {
        reveal(holds);
    }
    let mut o = RunOptions::default();
    o.mobile_export = true;
    o.mobile_platform = platform;
    o.mobile_framework = framework;
    o.mobile_project_name = name;
    o
}

/// The choices of a native compilation, as values.
struct LlvmFlags {
    opt_level: Option<u8>,
    target: Option<String>,
    output: Option<String>,
    emit_ir: bool,
    emit_bc: bool,
    object_only: bool,
    run: bool,
}

spec fn llvm_choice_of(f: LlvmFlags) -> LlvmChoice {
    LlvmChoice {
        opt_level: f.opt_level,
        target: text_opt(f.target),
        output: text_opt(f.output),
        emit_ir: f.emit_ir,
        emit_bc: f.emit_bc,
        object_only: f.object_only,
        run: f.run,
    }
}

fn llvm_run_options(f: LlvmFlags) -> (r: RunOptions)
    ensures
        holds(r, llvm_options(llvm_choice_of(f))),
{
    proof {
        reveal(holds);
    }
    let mut o = RunOptions::default();
    o.llvm_compile = true;
    o.llvm_opt_level = f.opt_level;
    o.llvm_target = f.target;
    o.llvm_output = f.output;
    o.llvm_emit_ir = f.emit_ir;
    o.llvm_emit_bc = f.emit_bc;
    o.llvm_object_only = f.object_only;
    o.llvm_run = f.run;
    o
}

fn jit_run_options(tiered: bool, benchmark: bool) -> (r: RunOptions)
    ensures
        holds(r, OptionsView { jit_run: true, jit_tiered: tiered, jit_benchmark: benchmark, ..default_options() }),
{
    proof {
        reveal(holds);
    }
    let mut o = RunOptions::default();
    o.jit_run = true;
    o.jit_tiered = tiered;
    o.jit_benchmark = benchmark;
    o
}

/// The choices of the general flags, as values.
struct GeneralFlags {
    repl: bool,
    compile_only: bool,
    format_only: bool,
    show_tokens: bool,
    lint_only: bool,
    lint_disabled_rules: Vec<String>,
    lint_max: Option<usize>,
    show_ast: bool,
    debug: bool,
    pm_init: Option<String>,
    pm_check: bool,
    pm_tree: bool,
    lsp_diag: bool,
    file: Option<String>,
}

spec fn general_choice_of(g: GeneralFlags) -> GeneralChoice {
    GeneralChoice {
        repl: g.repl,
        compile_only: g.compile_only,
        format_only: g.format_only,
        show_tokens: g.show_tokens,
        lint_only: g.lint_only,
        lint_disabled_rules: g.lint_disabled_rules@.map_values(|s: String| s@),
        lint_max: g.lint_max,
        show_ast: g.show_ast,
        debug: g.debug,
        pm_init: text_opt(g.pm_init),
        pm_check: g.pm_check,
        pm_tree: g.pm_tree,
        lsp_diag: g.lsp_diag,
        file: text_opt(g.file),
    }
}

fn no_general_flags() -> (r: GeneralFlags)
    ensures
        general_choice_of(r) == no_general_choice(),
{
    let r = GeneralFlags {
        repl: false,
        compile_only: false,
        format_only: false,
        show_tokens: false,
        lint_only: false,
        lint_disabled_rules: Vec::new(),
        lint_max: None,
        show_ast: false,
        debug: false,
        pm_init: None,
        pm_check: false,
        pm_tree: false,
        lsp_diag: false,
        file: None,
    };
    assert(general_choice_of(r).lint_disabled_rules =~= Seq::<Seq<char>>::empty());
    r
}

/// The parsed command line that the general flags give.
fn general_parsed(g: GeneralFlags) -> (r: ParsedCli)
    ensures
        holds(r.options, general_options(general_choice_of(g))),
        text_opt(r.filename) == general_choice_of(g).file,
        r.run_repl_flag == g.repl,
        r.listing is None,
{
    proof {
        reveal(holds);
    }
    let mut o = RunOptions::default();
    o.compile_only = g.compile_only;
    o.format_only = g.format_only;
    o.show_tokens = g.show_tokens;
    o.lint_only = g.lint_only;
    o.lint_disabled_rules = g.lint_disabled_rules;
    o.lint_max = g.lint_max;
    o.show_ast = g.show_ast;
    o.debug = g.debug;
    o.pm_init = g.pm_init;
    o.pm_check = g.pm_check;
    o.pm_tree = g.pm_tree;
    o.lsp_diag = g.lsp_diag;
    ParsedCli { options: o, filename: g.file, run_repl_flag: g.repl, listing: None }
}
fn get_arg(args: &[String], k: usize) -> (r: Option<String>)
    ensures
        text_opt(r) == arg_at(arg_views(args@), k as int),
{
    if k < args.len() {
        Some(args[k].clone())
    } else {
        None
    }
}

fn arg_is(args: &[String], k: usize, lit: &str) -> (r: bool)
    requires
        k < args@.len(),
    ensures
        r == (arg_views(args@)[k as int] == lit@),
{
    str_eq(args[k].as_str(), lit)
}

fn positive_message(name: &str) -> (r: String)
    ensures
        r@ == positive_error(name@),
{
    let mut m = String::from_str("قيمة ");
    m.append(name);
    m.append(" يجب أن تكون رقماً صحيحاً موجباً");
    m
}

fn parse_positive_usize(value: &str, option_name: &str) -> (r: Result<usize, String>)
    ensures
        match r {
            Ok(v) => positive(value@) == Some(v),
            Err(e) => (positive(value@) is None && e@ == positive_error(option_name@)),
        },
{
    match parse_unsigned(value, usize::MAX as u64) {
        Some(v) => {
            if v > 0 {
                Ok(v as usize)
            } else {
                Err(positive_message(option_name))
            }
        },
        None => Err(positive_message(option_name)),
    }
}

fn prefixed(prefix: &str, rest: &str) -> (r: String)
    ensures
        r@ == prefix@ + rest@,
{
    let mut m = String::from_str(prefix);
    m.append(rest);
    m
}

fn classify_mobile(a: &str) -> (r: MobileArg)
    ensures
        r == mobile_arg(a@),
{
    proof {
        reveal(mobile_arg);
    }
    if str_eq(a, "--platform") || str_eq(a, "-p") {
        MobileArg::Platform
    } else if str_eq(a, "--framework") || str_eq(a, "-f") {
        MobileArg::Framework
    } else if str_eq(a, "--name") || str_eq(a, "-n") {
        MobileArg::Name
    } else {
        MobileArg::Other
    }
}

fn classify_llvm(a: &str) -> (r: LlvmArg)
    ensures
        r == llvm_arg(a@),
{
    proof {
        reveal(llvm_arg);
    }
    if str_eq(a, "--opt") || str_eq(a, "-O") {
        LlvmArg::Opt
    } else if str_eq(a, "--target") || str_eq(a, "-t") {
        LlvmArg::Target
    } else if str_eq(a, "--output") || str_eq(a, "-o") {
        LlvmArg::Output
    } else if str_eq(a, "--emit-ir") {
        LlvmArg::EmitIr
    } else if str_eq(a, "--emit-bc") {
        LlvmArg::EmitBc
    } else if str_eq(a, "--object") || str_eq(a, "-c") {
        LlvmArg::Object
    } else if str_eq(a, "--run") || str_eq(a, "-r") {
        LlvmArg::Run
    } else {
        LlvmArg::Other
    }
}

fn classify_jit(a: &str) -> (r: JitArg)
    ensures
        r == jit_arg(a@),
{
    proof {
        reveal(jit_arg);
    }
    if str_eq(a, "--tiered") || str_eq(a, "-t") {
        JitArg::Tiered
    } else if str_eq(a, "--benchmark") || str_eq(a, "-b") {
        JitArg::Benchmark
    } else {
        JitArg::Other
    }
}

fn classify_general(a: &str) -> (r: GeneralArg)
    ensures
        r == general_arg(a@),
{
    proof {
        reveal(general_arg);
    }
    if str_eq(a, "-h") || str_eq(a, "--help") {
        GeneralArg::Help
    } else if str_eq(a, "-v") || str_eq(a, "--version") {
        GeneralArg::Version
    } else if str_eq(a, "-r") || str_eq(a, "--repl") {
        GeneralArg::Repl
    } else if str_eq(a, "-c") || str_eq(a, "--compile") {
        GeneralArg::Compile
    } else if str_eq(a, "-f") || str_eq(a, "--format") {
        GeneralArg::Format
    } else if str_eq(a, "-t") || str_eq(a, "--tokens") {
        GeneralArg::Tokens
    } else if str_eq(a, "-l") || str_eq(a, "--lint") {
        GeneralArg::Lint
    } else if str_eq(a, "--lint-disable") {
        GeneralArg::LintDisable
    } else if str_eq(a, "--lint-max") {
        GeneralArg::LintMax
    } else if str_eq(a, "-a") || str_eq(a, "--ast") {
        GeneralArg::Ast
    } else if str_eq(a, "-d") || str_eq(a, "--debug") {
        GeneralArg::Debug
    } else if str_eq(a, "--pm-init") {
        GeneralArg::PmInit
    } else if str_eq(a, "--pm-check") {
        GeneralArg::PmCheck
    } else if str_eq(a, "--pm-tree") {
        GeneralArg::PmTree
    } else if str_eq(a, "--lsp-diag") {
        GeneralArg::LspDiag
    } else if a.unicode_len() > 0 && a.get_char(0) == '-' {
        GeneralArg::Unknown
    } else {
        GeneralArg::File
    }
}

/// The outcome of a subcommand: options, file and listing.
type SubParse = Result<(RunOptions, Option<String>, Option<Listing>), String>;

/// The subcommand outcome `r` holds what the specification gives.
spec fn sub_holds(r: SubParse, spec: Result<Parsed, Seq<char>>) -> bool {
    match spec {
        Ok((o, f, l)) => (r matches Ok(t) && holds(t.0, o) && text_opt(t.1) == f && t.2 == l),
        Err(e) => (r matches Err(m) && m@ == e),
    }
}

// ═══════════════════════════════════════════════════════════════════════════
// Subcommands
// ═══════════════════════════════════════════════════════════════════════════

fn parse_pm_subcommand(args: &[String]) -> (r: SubParse)
    ensures
        sub_holds(r, pm_outcome(arg_views(args@))),
{
    proof {
        reveal(pm_outcome);
    }
    let ghost av = arg_views(args@);
    if args.len() <= 2 {
        return Err(String::from_str("استخدم: almarjaa pm [init|check|tree]"));
    }
    if arg_is(args, 2, "init") {
        match get_arg(args, 3) {
            Some(name) => Ok((pm_init_options(name), None, None)),
            None => Err(String::from_str("الأمر 'pm init' يحتاج اسم مشروع")),
        }
    } else if arg_is(args, 2, "check") {
        Ok((switch_options(Switch::PmCheck), None, None))
    } else if arg_is(args, 2, "tree") {
        Ok((switch_options(Switch::PmTree), None, None))
    } else {
        Err(prefixed("أمر pm غير معروف: ", args[2].as_str()))
    }
}

fn parse_position(args: &[String], cmd: &str) -> (r: Result<(usize, usize), String>)
    ensures
        match position_outcome(arg_views(args@), cmd@) {
            Ok(p) => r == Ok::<(usize, usize), String>(p),
            Err(e) => (r matches Err(m) && m@ == e),
        },
{
    proof {
        reveal(position_outcome);
    }
    let mut missing = String::from_str("الأمر 'lsp ");
    missing.append(cmd);
    missing.append("' يحتاج line و column");
    if args.len() <= 4 {
        return Err(missing);
    }
    let line = match parse_positive_usize(args[4].as_str(), "line") {
        Ok(v) => v,
        Err(e) => {
            return Err(e);
        },
    };
    if args.len() <= 5 {
        return Err(missing);
    }
    let column = match parse_positive_usize(args[5].as_str(), "column") {
        Ok(v) => v,
        Err(e) => {
            return Err(e);
        },
    };
    Ok((line, column))
}

fn parse_lsp_query(args: &[String], q: LspQuery) -> (r: SubParse)
    ensures
        sub_holds(r, match position_outcome(arg_views(args@), query_name(q)) {
            Ok(p) => Ok((query_options(q, p), arg_at(arg_views(args@), 3), None)),
            Err(e) => Err(e),
        }),
{
    let name = match q {
        LspQuery::Hover => "hover",
        LspQuery::Definition => "definition",
        LspQuery::References => "references",
    };
    assert(name@ == query_name(q));
    let file = get_arg(args, 3);
    match parse_position(args, name) {
        Ok(pos) => Ok((lsp_query_options(q, pos), file, None)),
        Err(e) => Err(e),
    }
}

fn parse_lsp_subcommand(args: &[String]) -> (r: SubParse)
    ensures
        sub_holds(r, lsp_outcome(arg_views(args@))),
{
    proof {
        reveal(lsp_outcome);
    }
    if args.len() <= 2 {
        return Err(String::from_str("استخدم: almarjaa lsp [diag|complete|hover|definition|references]"));
    }
    if arg_is(args, 2, "diag") {
        Ok((switch_options(Switch::LspDiag), get_arg(args, 3), None))
    } else if arg_is(args, 2, "complete") {
        let prefix = match get_arg(args, 4) {
            Some(p) => p,
            None => String::new(),
        };
        Ok((lsp_complete_options(prefix), get_arg(args, 3), None))
    } else if arg_is(args, 2, "hover") {
        parse_lsp_query(args, LspQuery::Hover)
    } else if arg_is(args, 2, "definition") {
        parse_lsp_query(args, LspQuery::Definition)
    } else if arg_is(args, 2, "references") {
        parse_lsp_query(args, LspQuery::References)
    } else {
        Err(prefixed("أمر lsp غير معروف: ", args[2].as_str()))
    }
}

fn parse_mobile_subcommand(args: &[String]) -> (r: SubParse)
    ensures
        sub_holds(r, mobile_outcome(arg_views(args@))),
{
    proof {
        reveal(mobile_outcome);
    }
    let ghost av = arg_views(args@);
    if args.len() <= 2 {
        return Err(String::from_str("استخدم: almarjaa mobile [export|list]"));
    }
    if arg_is(args, 2, "export") {
        let file = get_arg(args, 3);
        let mut platform: Option<String> = None;
        let mut framework: Option<String> = None;
        let mut name: Option<String> = None;
        let mut i: usize = 4;
        while i < args.len()
            invariant
                4 <= i,
                i <= args@.len() || args@.len() < 4,
                av == arg_views(args@),
                mobile_scan(av, i as int, (text_opt(platform), text_opt(framework), text_opt(name)))
                    == mobile_scan(av, 4, (None, None, None)),
            decreases args@.len() - i,
        {
            let ghost before = (text_opt(platform), text_opt(framework), text_opt(name));
            let ghost at = i as int;
            assert(av[at] == args@[at]@);
            let kind = classify_mobile(args[i].as_str());
            let value = get_arg(args, i + 1);
            let ghost value_view = text_opt(value);
            assert(value_view == arg_at(av, at + 1));
            match kind {
                MobileArg::Platform => {
                    platform = value;
                },
                MobileArg::Framework => {
                    framework = value;
                },
                MobileArg::Name => {
                    name = value;
                },
                MobileArg::Other => {},
            }
            let step: usize = match kind {
                MobileArg::Other => 1,
                _ => 2,
            };
            let next: usize = if args.len() - i < step { args.len() } else { i + step };
            let ghost after = (text_opt(platform), text_opt(framework), text_opt(name));
            assert(av.len() == args@.len());
            assert(kind == mobile_arg(av[at]));
            assert(mobile_scan(av, at, before) == match kind {
                MobileArg::Platform => mobile_scan(av, at + 2, (arg_at(av, at + 1), before.1, before.2)),
                MobileArg::Framework => mobile_scan(av, at + 2, (before.0, arg_at(av, at + 1), before.2)),
                MobileArg::Name => mobile_scan(av, at + 2, (before.0, before.1, arg_at(av, at + 1))),
                MobileArg::Other => mobile_scan(av, at + 1, before),
            }) by {
                reveal(mobile_scan);
            }
            assert(mobile_scan(av, at + step, after) == mobile_scan(av, next as int, after)) by {
                reveal(mobile_scan);
            }
            assert(mobile_scan(av, at, before) == mobile_scan(av, next as int, after));
            i = next;
        }
        assert(mobile_scan(av, i as int, (text_opt(platform), text_opt(framework), text_opt(name)))
            == (text_opt(platform), text_opt(framework), text_opt(name))) by {
            reveal(mobile_scan);
        }
        Ok((mobile_run_options(platform, framework, name), file, None))
    } else if arg_is(args, 2, "list") {
        Ok((mobile_run_options(None, None, None), None, Some(Listing::MobileTargets)))
    } else {
        Err(prefixed("أمر mobile غير معروف: ", args[2].as_str()))
    }
}

/// Reads the argument of `llvm compile` at position `i` and gives the
/// position after it.
fn llvm_step(args: &[String], i: usize, f: &mut LlvmFlags) -> (next: usize)
    requires
        i < args@.len(),
    ensures
        i < next <= args@.len(),
        llvm_scan(arg_views(args@), i as int, llvm_choice_of(*old(f)))
            == llvm_scan(arg_views(args@), next as int, llvm_choice_of(*final(f))),
{
    let ghost av = arg_views(args@);
    let ghost at = i as int;
    let ghost before = llvm_choice_of(*f);
    assert(av[at] == args@[at]@);
    let kind = classify_llvm(args[i].as_str());
    let value = get_arg(args, i + 1);
    match kind {
        LlvmArg::Opt => {
            if i + 1 < args.len() {
                f.opt_level = match parse_unsigned(args[i + 1].as_str(), 255) {
                    Some(n) => Some(n as u8),
                    None => None,
                };
            }
        },
        LlvmArg::Target => {
            f.target = value;
        },
        LlvmArg::Output => {
            f.output = value;
        },
        LlvmArg::EmitIr => {
            f.emit_ir = true;
        },
        LlvmArg::EmitBc => {
            f.emit_bc = true;
        },
        LlvmArg::Object => {
            f.object_only = true;
        },
        LlvmArg::Run => {
            f.run = true;
        },
        LlvmArg::Other => {},
    }
    let step: usize = match kind {
        LlvmArg::Opt | LlvmArg::Target | LlvmArg::Output => 2,
        _ => 1,
    };
    let next: usize = if args.len() - i < step { args.len() } else { i + step };
    let ghost after = llvm_choice_of(*f);
    let ghost step_to = if kind == LlvmArg::Opt || kind == LlvmArg::Target || kind == LlvmArg::Output {
        at + 2
    } else {
        at + 1
    };
    assert(av.len() == args@.len());
    assert(kind == llvm_arg(av[at]));
    assert(llvm_scan(av, at, before) == llvm_scan(av, step_to, after)) by {
        reveal(llvm_scan);
    }
    assert(llvm_scan(av, step_to, after) == llvm_scan(av, next as int, after)) by {
        reveal(llvm_scan);
    }
    next
}

fn parse_llvm_subcommand(args: &[String]) -> (r: SubParse)
    ensures
        sub_holds(r, llvm_outcome(arg_views(args@))),
{
    proof {
        reveal(llvm_outcome);
    }
    let ghost av = arg_views(args@);
    if args.len() <= 2 {
        return Err(String::from_str("استخدم: almarjaa llvm [compile|targets|opt|run]"));
    }
    if arg_is(args, 2, "compile") {
        let file = get_arg(args, 3);
        let mut f = LlvmFlags {
            opt_level: None,
            target: None,
            output: None,
            emit_ir: false,
            emit_bc: false,
            object_only: false,
            run: false,
        };
        let mut i: usize = 4;
        while i < args.len()
            invariant
                4 <= i,
                i <= args@.len() || args@.len() < 4,
                av == arg_views(args@),
                llvm_scan(av, i as int, llvm_choice_of(f)) == llvm_scan(av, 4, no_llvm_choice()),
            decreases args@.len() - i,
        {
            i = llvm_step(args, i, &mut f);
        }
        assert(llvm_scan(av, i as int, llvm_choice_of(f)) == llvm_choice_of(f)) by {
            reveal(llvm_scan);
        }
        Ok((llvm_run_options(f), file, None))
    } else if arg_is(args, 2, "targets") {
        Ok((switch_options(Switch::LlvmHandled), None, Some(Listing::LlvmTargets)))
    } else if arg_is(args, 2, "opt") || arg_is(args, 2, "optimize") {
        Ok((switch_options(Switch::LlvmHandled), None, Some(Listing::LlvmOptLevels)))
    } else if arg_is(args, 2, "run") {
        let f = LlvmFlags {
            opt_level: None,
            target: None,
            output: None,
            emit_ir: false,
            emit_bc: false,
            object_only: false,
            run: true,
        };
        Ok((llvm_run_options(f), get_arg(args, 3), None))
    } else {
        Err(prefixed("أمر llvm غير معروف: ", args[2].as_str()))
    }
}

fn parse_jit_subcommand(args: &[String]) -> (r: SubParse)
    ensures
        sub_holds(r, jit_outcome(arg_views(args@))),
{
    proof {
        reveal(jit_outcome);
    }
    let ghost av = arg_views(args@);
    if args.len() <= 2 {
        return Err(String::from_str("استخدم: almarjaa jit [run|repl|info|benchmark]"));
    }
    if arg_is(args, 2, "run") {
        let file = get_arg(args, 3);
        let mut tiered = false;
        let mut benchmark = false;
        let mut i: usize = 4;
        while i < args.len()
            invariant
                4 <= i,
                i <= args@.len() || args@.len() < 4,
                av == arg_views(args@),
                jit_scan(av, i as int, (tiered, benchmark)) == jit_scan(av, 4, (false, false)),
            decreases args@.len() - i,
        {
            let ghost before = (tiered, benchmark);
            match classify_jit(args[i].as_str()) {
                JitArg::Tiered => {
                    tiered = true;
                },
                JitArg::Benchmark => {
                    benchmark = true;
                },
                JitArg::Other => {},
            }
            assert(jit_scan(av, i as int, before) == jit_scan(av, i + 1, (tiered, benchmark))) by {
                reveal(jit_scan);
            }
            i = i + 1;
        }
        assert(jit_scan(av, i as int, (tiered, benchmark)) == (tiered, benchmark)) by {
            reveal(jit_scan);
        }
        Ok((jit_run_options(tiered, benchmark), file, None))
    } else if arg_is(args, 2, "repl") {
        Ok((switch_options(Switch::JitRepl), None, None))
    } else if arg_is(args, 2, "info") {
        Ok((switch_options(Switch::JitInfo), None, None))
    } else if arg_is(args, 2, "benchmark") || arg_is(args, 2, "test") {
        Ok((switch_options(Switch::JitBench), None, None))
    } else {
        Err(prefixed("أمر jit غير معروف: ", args[2].as_str()))
    }
}

// ═══════════════════════════════════════════════════════════════════════════
// General flags
// ═══════════════════════════════════════════════════════════════════════════

/// How reading one general argument ends.
enum Scan {
    Next(usize),
    Help,
    Version,
    Refused(String),
}

/// What one read of a general argument gave agrees with the specification.
spec fn scan_agrees(step: GeneralStep, r: Scan, after: GeneralChoice) -> bool {
    match r {
        Scan::Next(j) => step == GeneralStep::Continue(j as int, after),
        Scan::Help => step == GeneralStep::Stop(Ok(GeneralEnd::Help)),
        Scan::Version => step == GeneralStep::Stop(Ok(GeneralEnd::Version)),
        Scan::Refused(m) => step == GeneralStep::Stop(Err(m@)),
    }
}

/// A flag that only turns a switch on.
spec fn is_switch(kind: GeneralArg) -> bool {
    kind is Repl || kind is Compile || kind is Format || kind is Tokens || kind is Lint || kind is Ast
        || kind is Debug || kind is PmCheck || kind is PmTree || kind is LspDiag
}

/// Turns on the switch a flag names.
fn read_switch(kind: GeneralArg, g: &mut GeneralFlags, i: usize, Ghost(a): Ghost<Seq<char>>, Ghost(next): Ghost<Option<Seq<char>>>)
    requires
        is_switch(kind),
    ensures
        step_of(kind, a, next, i as int, general_choice_of(*old(g)))
            == GeneralStep::Continue(i + 1, general_choice_of(*final(g))),
{
    match kind {
        GeneralArg::Repl => g.repl = true,
        GeneralArg::Compile => g.compile_only = true,
        GeneralArg::Format => g.format_only = true,
        GeneralArg::Tokens => g.show_tokens = true,
        GeneralArg::Lint => g.lint_only = true,
        GeneralArg::Ast => g.show_ast = true,
        GeneralArg::Debug => g.debug = true,
        GeneralArg::PmCheck => g.pm_check = true,
        GeneralArg::PmTree => g.pm_tree = true,
        _ => g.lsp_diag = true,
    }
}

/// Reads a flag that takes the argument after it as its value.
fn read_value_flag(args: &[String], i: usize, kind: GeneralArg, g: &mut GeneralFlags) -> (r: Scan)
    requires
        i < args@.len(),
        kind is LintDisable || kind is LintMax || kind is PmInit,
    ensures
        scan_agrees(
            step_of(kind, arg_views(args@)[i as int], arg_at(arg_views(args@), i + 1), i as int, general_choice_of(*old(g))),
            r,
            general_choice_of(*final(g)),
        ),
        r matches Scan::Next(j) ==> j <= args@.len(),
{
    let ghost av = arg_views(args@);
    if args.len() - i <= 1 {
        return match kind {
            GeneralArg::LintDisable => Scan::Refused(String::from_str("الخيار --lint-disable يحتاج كود قاعدة مثل L001")),
            GeneralArg::LintMax => Scan::Refused(String::from_str("الخيار --lint-max يحتاج رقماً صحيحاً")),
            _ => Scan::Refused(String::from_str("الخيار --pm-init يحتاج اسم مشروع")),
        };
    }
    assert(av[i + 1] == args@[i + 1]@);
    match kind {
        GeneralArg::LintDisable => {
            let rule = upper(args[i + 1].as_str());
            let ghost before = g.lint_disabled_rules@;
            let ghost rule_view = rule@;
            g.lint_disabled_rules.push(rule);
            assert(g.lint_disabled_rules@.map_values(|s: String| s@)
                =~= before.map_values(|s: String| s@).push(rule_view));
            Scan::Next(i + 2)
        },
        GeneralArg::LintMax => {
            match parse_positive_usize(args[i + 1].as_str(), "--lint-max") {
                Ok(n) => {
                    g.lint_max = Some(n);
                    Scan::Next(i + 2)
                },
                Err(e) => Scan::Refused(e),
            }
        },
        _ => {
            g.pm_init = Some(args[i + 1].clone());
            Scan::Next(i + 2)
        },
    }
}

/// Reads the general argument at position `i`.
fn general_read(args: &[String], i: usize, g: &mut GeneralFlags) -> (r: Scan)
    requires
        i < args@.len(),
    ensures
        scan_agrees(general_step(arg_views(args@), i as int, general_choice_of(*old(g))), r, general_choice_of(*final(g))),
        r matches Scan::Next(j) ==> j <= args@.len(),
{
    let ghost av = arg_views(args@);
    assert(av[i as int] == args@[i as int]@);
    let kind = classify_general(args[i].as_str());
    match kind {
        GeneralArg::Help => Scan::Help,
        GeneralArg::Version => Scan::Version,
        GeneralArg::LintDisable | GeneralArg::LintMax | GeneralArg::PmInit => read_value_flag(args, i, kind, g),
        GeneralArg::Unknown => Scan::Refused(prefixed("خيار غير معروف: ", args[i].as_str())),
        GeneralArg::File => {
            if g.file.is_some() {
                return Scan::Refused(String::from_str("يمكن تحديد ملف واحد فقط"));
            }
            g.file = Some(args[i].clone());
            Scan::Next(i + 1)
        },
        _ => {
            read_switch(kind, g, i, Ghost(av[i as int]), Ghost(arg_at(av, i + 1)));
            Scan::Next(i + 1)
        },
    }
}

// ═══════════════════════════════════════════════════════════════════════════
// The command line
// ═══════════════════════════════════════════════════════════════════════════

fn subcommand_of(c: &str) -> (r: Option<Subcommand>)
    ensures
        r == subcommand(c@),
{
    if str_eq(c, "pm") {
        Some(Subcommand::Pm)
    } else if str_eq(c, "lsp") {
        Some(Subcommand::Lsp)
    } else if str_eq(c, "mobile") {
        Some(Subcommand::Mobile)
    } else if str_eq(c, "llvm") {
        Some(Subcommand::Llvm)
    } else if str_eq(c, "jit") {
        Some(Subcommand::Jit)
    } else {
        None
    }
}

/// Parses a command line (the program's name first). A first argument that
/// names a subcommand hands the line to it; otherwise the arguments are the
/// general flags and at most one file. A refused line gives its message.
pub fn parse_args(args: &[String]) -> (r: Result<CliAction, String>)
    ensures
        match cli_outcome(arg_views(args@)) {
            Ok(a) => (r matches Ok(act) && shows_action(act, a)),
            Err(e) => (r matches Err(m) && m@ == e),
        },
{
    let ghost av = arg_views(args@);
    if args.len() >= 2 {
        if let Some(s) = subcommand_of(args[1].as_str()) {
            let sub = match s {
                Subcommand::Pm => parse_pm_subcommand(args),
                Subcommand::Lsp => parse_lsp_subcommand(args),
                Subcommand::Mobile => parse_mobile_subcommand(args),
                Subcommand::Llvm => parse_llvm_subcommand(args),
                Subcommand::Jit => parse_jit_subcommand(args),
            };
            return match sub {
                Ok((options, filename, listing)) => Ok(
                    CliAction::Run(Box::new(ParsedCli { options, filename, run_repl_flag: false, listing })),
                ),
                Err(e) => Err(e),
            };
        }
    }
    assert(args@.len() >= 2 ==> av[1] == args@[1]@);
    let mut g = no_general_flags();
    let mut i: usize = 1;
    while i < args.len()
        invariant
            1 <= i,
            i <= args@.len() || args@.len() < 1,
            av == arg_views(args@),
            args@.len() >= 2 ==> subcommand(av[1]) is None,
            general_scan(av, i as int, general_choice_of(g)) == general_scan(av, 1, no_general_choice()),
        decreases args@.len() - i,
    {
        let ghost before = general_choice_of(g);
        let ghost at = i as int;
        let read = general_read(args, i, &mut g);
        assert(general_scan(av, at, before) == match general_step(av, at, before) {
            GeneralStep::Continue(j, g2) => if at < j {
                general_scan(av, j, g2)
            } else {
                Ok(GeneralEnd::Done(g2))
            },
            GeneralStep::Stop(r) => r,
        }) by {
            reveal(general_scan);
        }
        match read {
            Scan::Next(j) => {
                i = j;
            },
            Scan::Help => {
                return Ok(CliAction::Help);
            },
            Scan::Version => {
                return Ok(CliAction::Version);
            },
            Scan::Refused(m) => {
                return Err(m);
            },
        }
    }
    assert(general_scan(av, i as int, general_choice_of(g)) == Ok::<GeneralEnd, Seq<char>>(
        GeneralEnd::Done(general_choice_of(g)),
    )) by {
        reveal(general_scan);
    }
    Ok(CliAction::Run(Box::new(general_parsed(g))))
}

} // verus!
