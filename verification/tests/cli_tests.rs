use almarjaa::cli::args::{parse_args, CliAction, Listing, RunOptions};
use almarjaa::cli::{file_mode, route, FileMode, Route};

fn args(list: &[&str]) -> Vec<String> {
    list.iter().map(|s| s.to_string()).collect()
}

fn run_of(list: &[&str]) -> almarjaa::cli::args::ParsedCli {
    match parse_args(&args(list)) {
        Ok(CliAction::Run(p)) => *p,
        _ => panic!("expected a run"),
    }
}

#[test]
fn general_flags_and_file() {
    let p = run_of(&["almarjaa", "-c", "--lint", "prog.mrj", "-r"]);
    assert!(p.options.compile_only);
    assert!(p.options.lint_only);
    assert!(p.run_repl_flag);
    assert_eq!(p.filename, Some("prog.mrj".to_string()));
}

#[test]
fn help_and_version_stop_reading() {
    assert!(matches!(parse_args(&args(&["almarjaa", "--help", "--bad"])), Ok(CliAction::Help)));
    assert!(matches!(parse_args(&args(&["almarjaa", "-v"])), Ok(CliAction::Version)));
}

#[test]
fn refused_lines_give_messages() {
    assert_eq!(parse_args(&args(&["almarjaa", "--bad"])).err(), Some("خيار غير معروف: --bad".to_string()));
    assert_eq!(parse_args(&args(&["almarjaa", "a", "b"])).err(), Some("يمكن تحديد ملف واحد فقط".to_string()));
    assert_eq!(
        parse_args(&args(&["almarjaa", "--lint-max", "0"])).err(),
        Some("قيمة --lint-max يجب أن تكون رقماً صحيحاً موجباً".to_string())
    );
    assert_eq!(
        parse_args(&args(&["almarjaa", "--pm-init"])).err(),
        Some("الخيار --pm-init يحتاج اسم مشروع".to_string())
    );
    assert_eq!(parse_args(&args(&["almarjaa", "pm"])).err(), Some("استخدم: almarjaa pm [init|check|tree]".to_string()));
}

#[test]
fn lint_options() {
    let p = run_of(&["almarjaa", "--lint-disable", "l001", "--lint-max", "+7"]);
    assert_eq!(p.options.lint_disabled_rules, vec!["L001".to_string()]);
    assert_eq!(p.options.lint_max, Some(7));
}

#[test]
fn lsp_positions() {
    let p = run_of(&["almarjaa", "lsp", "hover", "f.mrj", "3", "9"]);
    assert_eq!(p.options.lsp_hover, Some((3, 9)));
    assert_eq!(p.filename, Some("f.mrj".to_string()));
    assert_eq!(
        parse_args(&args(&["almarjaa", "lsp", "definition", "f.mrj", "x", "9"])).err(),
        Some("قيمة line يجب أن تكون رقماً صحيحاً موجباً".to_string())
    );
    assert_eq!(
        parse_args(&args(&["almarjaa", "lsp", "references", "f.mrj", "2"])).err(),
        Some("الأمر 'lsp references' يحتاج line و column".to_string())
    );
}

#[test]
fn mobile_llvm_and_jit_subcommands() {
    let p = run_of(&["almarjaa", "mobile", "export", "app.mrj", "-p", "android", "--bogus", "-n"]);
    assert!(p.options.mobile_export);
    assert_eq!(p.options.mobile_platform, Some("android".to_string()));
    assert_eq!(p.options.mobile_project_name, None);
    assert_eq!(p.filename, Some("app.mrj".to_string()));
    let p = run_of(&["almarjaa", "mobile", "list"]);
    assert_eq!(p.listing, Some(Listing::MobileTargets));
    let p = run_of(&["almarjaa", "llvm", "compile", "x.mrj", "-O", "3", "--emit-ir", "-o", "out"]);
    assert!(p.options.llvm_compile);
    assert_eq!(p.options.llvm_opt_level, Some(3));
    assert!(p.options.llvm_emit_ir);
    assert_eq!(p.options.llvm_output, Some("out".to_string()));
    let p = run_of(&["almarjaa", "llvm", "compile", "x.mrj", "-O", "300"]);
    assert_eq!(p.options.llvm_opt_level, None);
    let p = run_of(&["almarjaa", "llvm", "optimize"]);
    assert!(p.options.llvm_handled);
    assert_eq!(p.listing, Some(Listing::LlvmOptLevels));
    let p = run_of(&["almarjaa", "jit", "run", "y.mrj", "-t", "-b"]);
    assert!(p.options.jit_run && p.options.jit_tiered && p.options.jit_benchmark);
    assert_eq!(
        parse_args(&args(&["almarjaa", "jit", "fly"])).err(),
        Some("أمر jit غير معروف: fly".to_string())
    );
}

#[test]
fn routes() {
    assert!(matches!(route(CliAction::Help, 2), Route::Help));
    let action = parse_args(&args(&["almarjaa"])).unwrap();
    assert!(matches!(route(action, 1), Route::Repl));
    let action = parse_args(&args(&["almarjaa", "f.mrj"])).unwrap();
    assert!(matches!(route(action, 2), Route::RunFile(f) if f == "f.mrj"));
    let action = parse_args(&args(&["almarjaa", "jit", "info"])).unwrap();
    assert!(matches!(route(action, 3), Route::JitInfo));
    let action = parse_args(&args(&["almarjaa", "-d"])).unwrap();
    assert!(matches!(route(action, 2), Route::Nothing));
}

#[test]
fn file_modes_in_order() {
    let mut o = RunOptions::default();
    assert_eq!(file_mode(&o), FileMode::Run);
    o.debug = true;
    assert_eq!(file_mode(&o), FileMode::ParseThenRun);
    o.compile_only = true;
    assert_eq!(file_mode(&o), FileMode::CheckOnly);
    o.show_ast = true;
    assert_eq!(file_mode(&o), FileMode::ShowAst);
    o.show_tokens = true;
    assert_eq!(file_mode(&o), FileMode::Tokens);
    o.lint_only = true;
    assert_eq!(file_mode(&o), FileMode::Lint);
    o.format_only = true;
    assert_eq!(file_mode(&o), FileMode::Format);
}
