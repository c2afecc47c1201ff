use amber::commands::{
    InputCheck, check_input, create_output, docs_output_dir, exit_code_of, resolve_command_target, uses_stdio,
};
use amber::shell_resolve::ShellType;

#[test]
fn build_output_paths() {
    assert_eq!(create_output("main.ab", Some("out.sh")), "out.sh");
    assert_eq!(create_output("-", None), "-");
    assert_eq!(create_output("dir/main.ab", None), "dir/main.sh");
    assert_eq!(create_output("script", None), "script.sh");
}

#[test]
fn subcommand_target_wins() {
    assert_eq!(resolve_command_target(Some(ShellType::Zsh), Some(ShellType::Ksh)), Some(ShellType::Zsh));
    assert_eq!(resolve_command_target(None, Some(ShellType::Ksh)), Some(ShellType::Ksh));
    assert_eq!(resolve_command_target(None, None), None);
}

#[test]
fn docs_directory() {
    assert_eq!(docs_output_dir(None), Some("docs".to_string()));
    assert_eq!(docs_output_dir(Some("site")), Some("site".to_string()));
    assert_eq!(docs_output_dir(Some("-")), None);
}

#[test]
fn standard_streams() {
    assert!(uses_stdio("-"));
    assert!(!uses_stdio("--"));
}

#[test]
fn inputs_that_are_not_files() {
    assert_eq!(check_input("--verbose", false, None), InputCheck::UnknownOption);
    assert_eq!(check_input("help", false, Some("test".to_string())), InputCheck::UnknownOption);
    assert_eq!(
        check_input("buld", false, Some("build".to_string())),
        InputCheck::UnknownCommand { suggestion: "build".to_string() }
    );
    assert_eq!(check_input("nothing.ab", false, None), InputCheck::FileNotFound);
    assert_eq!(check_input("main.ab", true, None), InputCheck::Compile);
    assert_eq!(check_input("-", false, None), InputCheck::Compile);
}

#[test]
fn reports_of_rejected_inputs() {
    assert_eq!(
        InputCheck::UnknownOption.report("-x"),
        vec!["Error: Unknown command or invalid option: -x".to_string()]
    );
    assert_eq!(
        InputCheck::UnknownCommand { suggestion: "build".to_string() }.report("buld"),
        vec!["Error: Unknown command: buld".to_string(), "Did you mean 'build'?".to_string()]
    );
    assert_eq!(InputCheck::FileNotFound.report("a.ab"), vec!["Error: File not found: a.ab".to_string()]);
    assert!(InputCheck::Compile.report("a.ab").is_empty());
}

#[test]
fn exit_codes() {
    assert_eq!(exit_code_of(Some(3)), 3);
    assert_eq!(exit_code_of(None), 1);
}
