//! The interactive prompt's commands: what a line typed at the prompt asks
//! for. Reading the line and doing what it asks is left to the caller.

use vstd::prelude::*;
use crate::text::{is_ws, lemma_trim_padding, starts_with, str_eq, trim, trimmed};

verus! {

/// What a line typed at the prompt asks for.
#[derive(Debug, PartialEq, Eq)]
pub enum ReplCommand {
    /// An empty line: ask again.
    Skip,
    /// `خروج`, `exit` or `quit`: say goodbye and stop.
    Exit,
    /// `مساعدة` or `help`: show the prompt's commands.
    Help,
    /// `ذكاء` or `ai`: show the artificial intelligence commands.
    AiHelp,
    /// `خطة_تدريب_خفيفة`: show the low-resource training plan.
    TrainingPlan,
    /// `مسح` or `clear`: clear the screen.
    Clear,
    /// `أنشئ_وكيل ` with no name after it: refused.
    MissingAgentName,
    /// `أنشئ_وكيل ` and a name: show an agent template for that name.
    Agent(String),
    /// Anything else: the program text to run.
    Evaluate(String),
}

/// The command word that asks for an agent template, with its space.
pub open spec fn agent_prefix() -> Seq<char> {
    "أنشئ_وكيل "@
}

/// The command that a line typed at the prompt is, after white space is
/// trimmed from both ends; the named commands are tried in this order.
pub open spec fn is_command_of(r: ReplCommand, line: Seq<char>) -> bool {
    let t = trimmed(line);
    if t.len() == 0 {
        r is Skip
    } else if t == "خروج"@ || t == "exit"@ || t == "quit"@ {
        r is Exit
    } else if t == "مساعدة"@ || t == "help"@ {
        r is Help
    } else if t == "ذكاء"@ || t == "ai"@ {
        r is AiHelp
    } else if t == "خطة_تدريب_خفيفة"@ {
        r is TrainingPlan
    } else if t == "مسح"@ || t == "clear"@ {
        r is Clear
    } else if agent_prefix().is_prefix_of(t) {
        let name = trimmed(t.skip(agent_prefix().len() as int));
        if name.len() == 0 {
            r is MissingAgentName
        } else {
            r matches ReplCommand::Agent(n) && n@ == name
        }
    } else {
        r matches ReplCommand::Evaluate(s) && s@ == t
    }
}

/// What the line typed at the prompt asks for.
pub fn repl_command(line: &str) -> (r: ReplCommand)
    ensures
        is_command_of(r, line@),
{
    let t = trim(line);
    let s = t.as_str();
    if s.unicode_len() == 0 {
        ReplCommand::Skip
    } else if str_eq(s, "خروج") || str_eq(s, "exit") || str_eq(s, "quit") {
        ReplCommand::Exit
    } else if str_eq(s, "مساعدة") || str_eq(s, "help") {
        ReplCommand::Help
    } else if str_eq(s, "ذكاء") || str_eq(s, "ai") {
        ReplCommand::AiHelp
    } else if str_eq(s, "خطة_تدريب_خفيفة") {
        ReplCommand::TrainingPlan
    } else if str_eq(s, "مسح") || str_eq(s, "clear") {
        ReplCommand::Clear
    } else if starts_with(s, "أنشئ_وكيل ") {
        let k = "أنشئ_وكيل ".unicode_len();
        let rest = s.substring_char(k, s.unicode_len());
        assert(rest@ == t@.skip(agent_prefix().len() as int));
        let name = trim(rest);
        if name.as_str().unicode_len() == 0 {
            ReplCommand::MissingAgentName
        } else {
            ReplCommand::Agent(name)
        }
    } else {
        ReplCommand::Evaluate(t)
    }
}

/// White space typed before or after a line does not change the command it
/// is.
pub proof fn law_command_ignores_padding(r: ReplCommand, p: Seq<char>, line: Seq<char>, q: Seq<char>)
    requires
        forall|k: int| 0 <= k < p.len() ==> is_ws(#[trigger] p[k]),
        forall|k: int| 0 <= k < q.len() ==> is_ws(#[trigger] q[k]),
    ensures
        is_command_of(r, p + line + q) == is_command_of(r, line),
{
    lemma_trim_padding(p, line, q);
}

} // verus!
