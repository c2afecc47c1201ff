use amber::flag_registry::{Flag, FlagRegistry};

fn strings(v: &[&str]) -> Vec<String> {
    v.iter().map(|s| s.to_string()).collect()
}

#[test]
fn new_flag_is_untriggered_and_empty() {
    let flag = Flag::new(true);
    assert!(flag.takes_value);
    assert!(!flag.triggered);
    assert_eq!(flag.value, None);
}

#[test]
fn new_registry_knows_no_flag() {
    let registry = FlagRegistry::new();
    assert!(registry.get_flag("-e").is_none());
    assert!(!registry.flag_triggered("-e"));
    assert!(registry.get_args().is_empty());
}

#[test]
fn default_registry_is_empty() {
    let registry = FlagRegistry::default();
    assert!(registry.get_flag("-h").is_none());
    assert!(registry.get_args().is_empty());
}

#[test]
fn registered_flag_can_be_looked_up() {
    let mut registry = FlagRegistry::new();
    registry.register("-e", true);
    let flag = registry.get_flag("-e").unwrap();
    assert!(flag.takes_value);
    assert!(!flag.triggered);
    assert_eq!(flag.value, None);
    assert!(!registry.flag_triggered("-e"));
}

#[test]
fn parse_triggers_flags_and_keeps_positional_arguments() {
    let mut registry = FlagRegistry::new();
    registry.register("-h", false);
    let rest = registry.parse(strings(&["amber", "-h", "file.ab"]));
    assert_eq!(rest, strings(&["amber", "file.ab"]));
    assert!(registry.flag_triggered("-h"));
    assert_eq!(registry.get_flag("-h").unwrap().value, None);
}

#[test]
fn value_flag_takes_next_argument() {
    let mut registry = FlagRegistry::new();
    registry.register("-e", true);
    let rest = registry.parse(strings(&["amber", "-e", "echo 1"]));
    assert_eq!(rest, strings(&["amber"]));
    assert!(registry.flag_triggered("-e"));
    assert_eq!(registry.get_flag("-e").unwrap().value, Some("echo 1".to_string()));
}

#[test]
fn value_flag_keeps_the_last_later_argument() {
    // Once a value flag is seen, every later argument becomes its value,
    // and `--` is no longer recognised.
    let mut registry = FlagRegistry::new();
    registry.register("-e", true);
    registry.register("-h", false);
    let rest = registry.parse(strings(&["-e", "a", "-h", "--", "b"]));
    assert!(rest.is_empty());
    assert_eq!(registry.get_flag("-e").unwrap().value, Some("b".to_string()));
    assert!(!registry.flag_triggered("-h"));
    assert!(registry.get_args().is_empty());
}

#[test]
fn separator_splits_arguments() {
    let mut registry = FlagRegistry::new();
    registry.register("-h", false);
    let rest = registry.parse(strings(&["run", "x.ab", "--", "-h", "y"]));
    assert_eq!(rest, strings(&["run", "x.ab"]));
    assert_eq!(registry.get_args(), &strings(&["-h", "y"]));
    assert!(!registry.flag_triggered("-h"));
}

#[test]
fn parse_without_flags_returns_every_argument() {
    let mut registry = FlagRegistry::new();
    let rest = registry.parse(strings(&["a", "b", "c"]));
    assert_eq!(rest, strings(&["a", "b", "c"]));
}

#[test]
fn arguments_accumulate_over_parses() {
    let mut registry = FlagRegistry::new();
    registry.parse(strings(&["--", "one"]));
    registry.parse(strings(&["--", "two"]));
    assert_eq!(registry.get_args(), &strings(&["one", "two"]));
}

#[test]
fn register_again_resets_the_flag() {
    let mut registry = FlagRegistry::new();
    registry.register("-e", true);
    registry.parse(strings(&["-e", "x"]));
    registry.register("-e", false);
    let flag = registry.get_flag("-e").unwrap();
    assert!(!flag.takes_value);
    assert!(!flag.triggered);
    assert_eq!(flag.value, None);
}

#[test]
fn parse_keeps_registered_flags() {
    let mut registry = FlagRegistry::new();
    registry.register("-a", false);
    registry.register("-b", true);
    registry.parse(strings(&["x", "y"]));
    assert!(registry.get_flag("-a").is_some());
    assert!(registry.get_flag("-b").is_some());
    assert!(registry.get_flag("x").is_none());
}

#[test]
fn value_flag_at_the_end_has_no_value() {
    let mut registry = FlagRegistry::new();
    registry.register("docs", true);
    let rest = registry.parse(strings(&["amber", "docs"]));
    assert_eq!(rest, strings(&["amber"]));
    assert!(registry.flag_triggered("docs"));
    assert_eq!(registry.get_flag("docs").unwrap().value, None);
}

#[test]
fn call_sequence_keeps_registered_flags_and_collects_pass_through() {
    let mut r = FlagRegistry::new();
    r.register("-a", false);
    let rest = r.parse(vec!["x".to_string(), "--".to_string(), "p".to_string()]);
    assert_eq!(rest, vec!["x".to_string()]);
    r.register("-b", true);
    assert!(r.get_flag("-a").is_some());
    assert!(r.get_flag("-c").is_none());
    let b = r.get_flag("-b").unwrap();
    assert!(b.takes_value && !b.triggered && b.value.is_none());
    r.parse(vec!["-a".to_string(), "--".to_string(), "q".to_string(), "r".to_string()]);
    r.parse(vec!["-c".to_string()]);
    assert!(r.get_flag("-c").is_none());
    assert_eq!(r.get_args(), &vec!["p".to_string(), "q".to_string(), "r".to_string()]);
}

#[test]
fn value_flag_before_separator_passes_nothing_through() {
    let mut r = FlagRegistry::new();
    r.register("-v", true);
    let rest = r.parse(strings(&["a", "-v", "--", "x"]));
    assert_eq!(rest, strings(&["a"]));
    assert!(r.get_args().is_empty());
    assert_eq!(r.get_flag("-v").unwrap().value, Some("x".to_string()));
    r.parse(strings(&["b", "--", "-v", "y"]));
    assert_eq!(r.get_args(), &strings(&["-v", "y"]));
}
