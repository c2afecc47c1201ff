use amber::compiler::AmberCompiler;
use amber::shell_resolve::ShellType;

#[test]
fn resolve_target_shell_uses_test_target_override_when_target_is_missing() {
    // AMBER_TEST_TARGET=bash-3.2 (under the docker strategy, which does not
    // take part in choosing the target).
    assert_eq!(AmberCompiler::resolve_target_shell(None, Some("bash-3.2"), None, None), ShellType::BashLegacy);
}

#[test]
fn resolve_target_shell_keeps_explicit_target_over_test_target_override() {
    assert_eq!(
        AmberCompiler::resolve_target_shell(Some(ShellType::Zsh), Some("bash-3.2"), None, None),
        ShellType::Zsh
    );
}

#[test]
fn resolve_target_shell_uses_test_target_override_without_docker_strategy() {
    assert_eq!(
        AmberCompiler::resolve_target_shell(None, Some("bash-3.2"), Some("/bin/zsh"), Some("ksh")),
        ShellType::BashLegacy
    );
}

#[test]
fn amber_shell_then_runtime_shell_then_bash() {
    assert_eq!(AmberCompiler::resolve_target_shell(None, None, Some("/usr/bin/ksh"), Some("zsh")), ShellType::Ksh);
    assert_eq!(AmberCompiler::resolve_target_shell(None, None, Some("/bin/fish"), Some("zsh")), ShellType::Zsh);
    assert_eq!(AmberCompiler::resolve_target_shell(None, None, None, None), ShellType::BashModern);
}

#[test]
fn shell_paths_name_dialects() {
    assert_eq!(AmberCompiler::target_from_shell_path("/usr/local/bin/ZSH"), Some(ShellType::Zsh));
    assert_eq!(AmberCompiler::target_from_shell_path("/bin/ksh93"), Some(ShellType::Ksh));
    assert_eq!(AmberCompiler::target_from_shell_path("/bin/Bash"), Some(ShellType::BashModern));
    assert_eq!(AmberCompiler::target_from_shell_path("/bin/sh"), None);
    // `zsh` is looked for first.
    assert_eq!(AmberCompiler::target_from_shell_path("/opt/bash/zsh"), Some(ShellType::Zsh));
}

#[test]
fn dialect_names() {
    assert_eq!(ShellType::from_name("bash"), Some(ShellType::BashModern));
    assert_eq!(ShellType::from_name("bash-3.2"), Some(ShellType::BashLegacy));
    assert_eq!(ShellType::from_name("zsh"), Some(ShellType::Zsh));
    assert_eq!(ShellType::from_name("ksh"), Some(ShellType::Ksh));
    assert_eq!(ShellType::from_name("fish"), None);
    assert_eq!(ShellType::BashLegacy.family_name(), "bash");
    assert_eq!(ShellType::Ksh.family_name(), "ksh");
}

#[test]
fn runtime_shell_is_the_first_found() {
    assert_eq!(AmberCompiler::find_runtime_shell_name(true, true, true), Some("bash".to_string()));
    assert_eq!(AmberCompiler::find_runtime_shell_name(false, true, true), Some("zsh".to_string()));
    assert_eq!(AmberCompiler::find_runtime_shell_name(false, false, true), Some("ksh".to_string()));
    assert_eq!(AmberCompiler::find_runtime_shell_name(false, false, false), None);
}

#[test]
fn runtime_command_prefers_amber_shell_then_target() {
    assert_eq!(
        AmberCompiler::runtime_shell_command(Some("/bin/mysh".to_string()), Some(ShellType::Zsh), Some("bash".to_string())),
        Some("/bin/mysh".to_string())
    );
    assert_eq!(
        AmberCompiler::runtime_shell_command(None, Some(ShellType::BashLegacy), Some("zsh".to_string())),
        Some("bash".to_string())
    );
    assert_eq!(AmberCompiler::runtime_shell_command(None, None, Some("zsh".to_string())), Some("zsh".to_string()));
    assert_eq!(AmberCompiler::runtime_shell_command(None, None, None), None);
}

#[test]
fn docker_exec_gets_interactive_flag() {
    let (program, args) = AmberCompiler::find_shell(Some("docker"), Some("  exec  box bash "), None, None, None).unwrap();
    assert_eq!(program, "docker");
    assert_eq!(args, vec!["exec", "-i", "box", "bash"]);
    let (_, args) = AmberCompiler::find_shell(Some("docker"), Some("exec -i box bash"), None, None, None).unwrap();
    assert_eq!(args, vec!["exec", "-i", "box", "bash"]);
    let (_, args) = AmberCompiler::find_shell(Some("docker"), Some("run --rm img"), None, None, None).unwrap();
    assert_eq!(args, vec!["run", "--rm", "img"]);
}

#[test]
fn without_docker_the_runtime_shell_runs_code() {
    let found = AmberCompiler::find_shell(Some("local"), None, None, Some(ShellType::Zsh), None);
    assert_eq!(found, Some(("zsh".to_string(), vec![])));
    assert_eq!(AmberCompiler::find_shell(None, None, None, None, None), None);
}

#[test]
fn bash_runs_through_env_or_docker() {
    assert_eq!(AmberCompiler::find_bash(None, None), ("/usr/bin/env".to_string(), vec!["bash".to_string()]));
    assert_eq!(
        AmberCompiler::find_bash(Some("docker"), Some("exec box bash")),
        ("docker".to_string(), vec!["exec".to_string(), "box".to_string(), "bash".to_string()])
    );
}
