use almarjaa::cli::repl::{repl_command, ReplCommand};

#[test]
fn prompt_words() {
    assert_eq!(repl_command("   "), ReplCommand::Skip);
    assert_eq!(repl_command("خروج"), ReplCommand::Exit);
    assert_eq!(repl_command(" exit\n"), ReplCommand::Exit);
    assert_eq!(repl_command("quit"), ReplCommand::Exit);
    assert_eq!(repl_command("مساعدة"), ReplCommand::Help);
    assert_eq!(repl_command("help"), ReplCommand::Help);
    assert_eq!(repl_command("ذكاء"), ReplCommand::AiHelp);
    assert_eq!(repl_command("ai"), ReplCommand::AiHelp);
    assert_eq!(repl_command("خطة_تدريب_خفيفة"), ReplCommand::TrainingPlan);
    assert_eq!(repl_command("مسح"), ReplCommand::Clear);
    assert_eq!(repl_command("clear"), ReplCommand::Clear);
}

#[test]
fn prompt_agent_template() {
    assert_eq!(repl_command("أنشئ_وكيل  مساعد  "), ReplCommand::Agent("مساعد".to_string()));
    assert_eq!(repl_command("أنشئ_وكيل    "), ReplCommand::Evaluate("أنشئ_وكيل".to_string()));
    assert_eq!(repl_command("أنشئ_وكيل \t x"), ReplCommand::Agent("x".to_string()));
}

#[test]
fn prompt_program_text() {
    assert_eq!(repl_command("  اطبع(س + ٥)؛ "), ReplCommand::Evaluate("اطبع(س + ٥)؛".to_string()));
    assert_eq!(repl_command("Help"), ReplCommand::Evaluate("Help".to_string()));
}

#[test]
fn padding_does_not_change_command() {
    for line in ["help", "أنشئ_وكيل س", "متغير س = ١٠؛", "", "خروج"] {
        let padded = format!(" \t{}\n  ", line);
        assert_eq!(repl_command(&padded), repl_command(line));
    }
}
