use amber::compiler::{AmberCompiler, CompilerOptions, LexerErrorKind, PipelineAction};

#[test]
fn default_options_disable_every_postprocessor() {
    let o = CompilerOptions::default();
    assert_eq!(o.no_proc, vec!["*".to_string()]);
    assert!(!o.minify);
    assert!(!o.test_mode);
    assert_eq!(o.test_name, None);
}

#[test]
fn options_from_arguments() {
    let o = CompilerOptions::from_args(&["bshchk".to_string()], true, true, Some("t".to_string()));
    assert_eq!(o.no_proc, vec!["bshchk".to_string()]);
    assert!(o.minify);
    assert!(o.test_mode);
    assert_eq!(o.test_name, Some("t".to_string()));
}

#[test]
fn shebang_is_commented_out() {
    assert_eq!(AmberCompiler::comment_shebang("#!/usr/bin/env amber\necho".to_string()), "// #!/usr/bin/env amber\necho");
    assert_eq!(AmberCompiler::comment_shebang("echo 1".to_string()), "echo 1");
    assert_eq!(AmberCompiler::comment_shebang("#".to_string()), "#");
}

#[test]
fn new_compiler_loads_code_with_commented_shebang() {
    let c = AmberCompiler::new("#!x\nlet a = 1".to_string(), Some("a.ab".to_string()), CompilerOptions::default());
    assert_eq!(c.code, Some("// #!x\nlet a = 1".to_string()));
    assert_eq!(c.path, Some("a.ab".to_string()));
    let c = c.load_code("echo".to_string());
    assert_eq!(c.code, Some("echo".to_string()));
}

#[test]
fn environment_switches() {
    assert!(AmberCompiler::env_flag_set(Some("1")));
    assert!(AmberCompiler::env_flag_set(Some("true")));
    assert!(!AmberCompiler::env_flag_set(Some("yes")));
    assert!(!AmberCompiler::env_flag_set(Some("")));
    assert!(!AmberCompiler::env_flag_set(None));
}

#[test]
fn no_arguments_keep_code() {
    assert_eq!(AmberCompiler::script_with_args("echo $1".to_string(), &vec![]), "echo $1");
}

#[test]
fn arguments_are_quoted_and_set() {
    let args = vec!["a b".to_string(), "say \"hi\"".to_string()];
    assert_eq!(
        AmberCompiler::script_with_args("echo $1".to_string(), &args),
        "set -- \"a b\" \"say \\\"hi\\\"\"\necho $1"
    );
}

#[test]
fn version_is_filled_in() {
    assert_eq!(AmberCompiler::fill_version("# v{{ version }} ({{ version }})", "1.2"), "# v1.2 (1.2)");
    assert_eq!(AmberCompiler::fill_version("no placeholder", "1.2"), "no placeholder");
}

#[test]
fn script_is_assembled_on_separate_lines() {
    assert_eq!(AmberCompiler::assemble_script("#!/bin/bash", "echo 1", ""), "#!/bin/bash\necho 1\n");
}

#[test]
fn postprocessor_failure_message() {
    assert_eq!(AmberCompiler::postprocessor_failure("shfmt", "bad input \n\n"), "Postprocessor 'shfmt' failed\nbad input");
}

#[test]
fn eval_report_lists_warnings_before_output() {
    let warnings = vec![Some("unused".to_string()), None];
    assert_eq!(AmberCompiler::eval_report(&warnings, "out\n", "err\n"), "unused\nEmpty warning\nout\nerr\n");
    assert_eq!(AmberCompiler::eval_report(&vec![], "out", ""), "out");
}

#[test]
fn commenting_the_shebang_twice_changes_nothing_more() {
    let once = AmberCompiler::comment_shebang("#!/bin/amber\necho".to_string());
    let twice = AmberCompiler::comment_shebang(once.clone());
    assert_eq!(once, twice);
}

#[test]
fn imported_files_come_first_in_topological_order() {
    let order = vec![2, 0, 1];
    let parsed = vec![true, false, true];
    assert_eq!(AmberCompiler::forest_order(&order, &parsed), vec![2, 0]);
    assert!(AmberCompiler::forest_order(&vec![], &parsed).is_empty());
    let c = AmberCompiler::new("x".to_string(), None, CompilerOptions::default());
    assert_eq!(c.main_path(), "unknown");
    let c = AmberCompiler::new("x".to_string(), Some("main.ab".to_string()), CompilerOptions::default());
    assert_eq!(c.main_path(), "main.ab");
}

#[test]
fn lexer_error_messages() {
    assert_eq!(AmberCompiler::lexer_error_message(LexerErrorKind::Singleline, "string"), "Singleline string not closed");
    assert_eq!(AmberCompiler::lexer_error_message(LexerErrorKind::Unclosed, "command"), "Unclosed command");
}

#[test]
fn sudo_preamble_comes_first_when_sudo_is_used() {
    let blocks = vec!["echo a".to_string(), "echo b".to_string()];
    assert_eq!(AmberCompiler::translate_program(false, &blocks), "echo a\necho b");
    let r = AmberCompiler::translate_program(true, &blocks);
    assert_eq!(
        r,
        "[ \"$EUID\" -ne 0 ] && { { command -v sudo >/dev/null 2>&1 && __sudo=sudo; } || { command -v doas >/dev/null 2>&1 && __sudo=doas; }; }\necho a\necho b"
    );
    assert_eq!(AmberCompiler::translate_program(false, &vec![]), "");
}

#[test]
fn pipeline_stops_at_the_first_failure() {
    assert_eq!(AmberCompiler::pipeline_start(0, "x".to_string()), PipelineAction::Done("x".to_string()));
    assert_eq!(AmberCompiler::pipeline_start(2, "x".to_string()), PipelineAction::Run(0, "x".to_string()));
    assert_eq!(AmberCompiler::pipeline_step(2, 0, "bshchk", Ok("y".to_string())), PipelineAction::Run(1, "y".to_string()));
    assert_eq!(AmberCompiler::pipeline_step(2, 1, "shfmt", Ok("z".to_string())), PipelineAction::Done("z".to_string()));
    assert_eq!(
        AmberCompiler::pipeline_step(2, 0, "bshchk", Err("bad\n".to_string())),
        PipelineAction::Fail("Postprocessor 'bshchk' failed\nbad".to_string())
    );
}
