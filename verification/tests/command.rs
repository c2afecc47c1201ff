use amber::command::{Command, CommandExpr, CommandPlacement, CommandStatement, can_strip};

#[test]
fn statement_strips_substitutions() {
    assert_eq!(CommandStatement::translate_parts("$(echo hi)", "", ""), "echo hi");
    assert_eq!(CommandStatement::translate_parts("$($(ls))", " > /dev/null 2>&1", "__status=$?"), "ls > /dev/null 2>&1\n__status=$?");
    assert_eq!(CommandStatement::translate_parts("ls -l", "", "  \n"), "ls -l");
}

#[test]
fn stripping_needs_an_ascii_end() {
    assert!(can_strip("$(ls)"));
    assert!(can_strip("ls"));
    assert!(!can_strip("$("));
    assert!(!can_strip("$(é"));
    assert!(can_strip("$()"));
}

#[test]
fn commands_as_statements() {
    let c = Command { strings: vec![] };
    let r = c.translate_command_statement("ls", "");
    assert!(r.queued.is_empty());
    assert_eq!(r.value, "ls");
    assert!(!r.subprocess);
    let r = c.translate_command_statement("ls", "__status=$?");
    assert_eq!(r.queued, vec!["ls".to_string()]);
    assert_eq!(r.value, "__status=$?");
}

#[test]
fn commands_as_values() {
    let c = Command { strings: vec![] };
    let r = c.translate_command("ls", "", false, 4, "\"", "$");
    assert!(r.queued.is_empty());
    assert_eq!(r.value, "ls");
    assert!(r.subprocess);
    let r = c.translate_command("ls", "handle", false, 4, "\"", "$");
    assert_eq!(r.queued, vec!["__AMBER_VAL_4=$(ls)".to_string(), "handle".to_string()]);
    assert_eq!(r.value, "\"${__AMBER_VAL_4}\"");
    assert!(!r.subprocess);
}

#[test]
fn stripping_removes_every_layer() {
    let once = CommandStatement::translate_parts("$($($(x)))", "", "");
    assert_eq!(once, "x");
    assert_eq!(CommandStatement::translate_parts(&once, "", ""), "x");
}

#[test]
fn command_values_capture_their_output() {
    let quiet = CommandExpr { is_silent_expr: true };
    let r = quiet.translate_parts("ls", "", 1, "\"", "$");
    assert_eq!(r.value, "ls 2>/dev/null");
    assert!(r.subprocess);
    let loud = CommandExpr { is_silent_expr: false };
    let r = loud.translate_parts("ls", "h", 2, "", "\\$");
    assert_eq!(r.queued, vec!["__AMBER_VAL_2=$(ls)".to_string(), "h".to_string()]);
    assert_eq!(r.value, "\\${__AMBER_VAL_2}");
}

#[test]
fn trust_and_question_mark_exclude_each_other() {
    assert_eq!(Command::check_question_mark(false, true), Ok(()));
    assert_eq!(Command::check_question_mark(true, false), Ok(()));
    assert_eq!(
        Command::check_question_mark(true, true),
        Err("The '?' operator cannot be used with the 'trust' modifier because 'trust' ignores failure while '?' propagates it".to_string())
    );
}

#[test]
fn command_placement() {
    assert_eq!(Command::placement(true, true), CommandPlacement::QueueThenHandler);
    assert_eq!(Command::placement(true, false), CommandPlacement::Inline);
    assert_eq!(Command::placement(false, false), CommandPlacement::Subprocess);
    assert_eq!(Command::placement(false, true), CommandPlacement::CaptureThenHandler);
}
