use amber::cli::{CLI, CliAction, UsageStyle};

fn argv(v: &[&str]) -> Vec<String> {
    v.iter().map(|s| s.to_string()).collect()
}

#[test]
fn eval_imports_the_standard_library() {
    let mut cli = CLI::new("0.3.0".to_string());
    let action = cli.run(argv(&["amber", "-e", "echo 1", "--", "a"]));
    // Once `-e` took its value every later argument replaces it.
    assert_eq!(action, CliAction::Eval { code: "import * from \"std\"\na".to_string(), args: vec![] });
    let mut cli = CLI::new("0.3.0".to_string());
    let action = cli.run(argv(&["amber", "-e", "echo 1"]));
    assert_eq!(action, CliAction::Eval { code: "import * from \"std\"\necho 1".to_string(), args: vec![] });
}

#[test]
fn eval_without_code() {
    let mut cli = CLI::new("1".to_string());
    assert_eq!(cli.run(argv(&["amber", "-e"])), CliAction::MissingEvalCode);
}

#[test]
fn docs_needs_an_input() {
    let mut cli = CLI::new("1".to_string());
    assert_eq!(cli.run(argv(&["amber", "docs", "main.ab"])), CliAction::Docs { input: "main.ab".to_string() });
    let mut cli = CLI::new("1".to_string());
    assert_eq!(cli.run(argv(&["amber", "docs"])), CliAction::MissingDocsInput);
}

#[test]
fn run_passes_the_arguments_after_the_separator() {
    let mut cli = CLI::new("1".to_string());
    assert_eq!(
        cli.run(argv(&["amber", "main.ab", "--", "x", "-e"])),
        CliAction::Run { input: "main.ab".to_string(), args: argv(&["x", "-e"]) }
    );
}

#[test]
fn build_writes_to_the_second_file() {
    let mut cli = CLI::new("1".to_string());
    assert_eq!(
        cli.run(argv(&["amber", "in.ab", "out.sh", "ignored"])),
        CliAction::Build { input: "in.ab".to_string(), output: "out.sh".to_string() }
    );
}

#[test]
fn no_input_shows_usage() {
    let mut cli = CLI::new("1".to_string());
    assert_eq!(cli.run(argv(&["amber"])), CliAction::Usage);
    let mut cli = CLI::new("1".to_string());
    assert_eq!(cli.run(argv(&["amber", "-h"])), CliAction::Usage);
}

#[test]
fn usage_text() {
    let cli = CLI::new("0.3.0".to_string());
    let lines = cli.usage();
    assert_eq!(lines.len(), 16);
    assert_eq!(lines[0], (UsageStyle::Plain, "Amber's compiler".to_string()));
    assert_eq!(lines[1], (UsageStyle::Plain, "Version 0.3.0\n".to_string()));
    assert_eq!(lines[2], (UsageStyle::Banner, " USAGE ".to_string()));
    assert_eq!(lines[5], (UsageStyle::Dimmed, "  amber foo.ab\n".to_string()));
    assert_eq!(lines[7], (UsageStyle::Dimmed, "  amber -e \"\\$echo Hello World\\$\"\n".to_string()));
    assert_eq!(lines[10], (UsageStyle::Dimmed, "  amber foo.ab bar.ab\n".to_string()));
    assert_eq!(lines[15], (UsageStyle::Dimmed, "  amber docs foo.ab docs/".to_string()));
}
