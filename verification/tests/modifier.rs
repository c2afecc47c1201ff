use amber::modifier::{CommandModifier, ModifierError};

fn words(v: &[&str]) -> Vec<String> {
    v.iter().map(|s| s.to_string()).collect()
}

#[test]
fn no_modifiers_at_first() {
    let m = CommandModifier::new_expr();
    assert!(!m.is_trust && !m.is_silent && !m.is_silent_err && !m.is_sudo);
    assert!(!m.use_modifiers(false));
    assert!(m.use_modifiers(true));
}

#[test]
fn modifiers_are_read_until_the_command() {
    let mut m = CommandModifier::new_expr();
    let mut warnings = vec![];
    let r = m.parse_modifier_sequence(&words(&["sudo", "silent", "trust", "$ls$"]), 0, &mut warnings, &mut false);
    assert_eq!(r, Ok(3));
    assert!(m.is_sudo && m.is_silent && m.is_trust && !m.is_silent_err);
    assert_eq!(m.sudo_position, Some(0));
    assert_eq!(m.silent_position, Some(1));
    assert_eq!(m.trust_position, Some(2));
    assert!(warnings.is_empty());
    assert!(m.use_modifiers(false));
}

#[test]
fn unsafe_is_a_deprecated_trust() {
    let mut m = CommandModifier::new_expr();
    let mut warnings = vec![];
    let r = m.parse_modifier_sequence(&words(&["x", "unsafe", "cmd"]), 1, &mut warnings, &mut false);
    assert_eq!(r, Ok(2));
    assert!(m.is_trust);
    assert_eq!(warnings, vec![1]);
}

#[test]
fn repeated_or_conflicting_modifiers() {
    let mut m = CommandModifier::new_expr();
    let mut w = vec![];
    assert_eq!(
        m.parse_modifier_sequence(&words(&["trust", "unsafe"]), 0, &mut w, &mut false),
        Err(ModifierError::Invalid(1, "You already declared `trust` modifier before".to_string()))
    );
    assert_eq!(w, vec![1]);
    let mut m = CommandModifier::new_expr();
    assert_eq!(
        m.parse_modifier_sequence(&words(&["silent", "silent_err"]), 0, &mut vec![], &mut false),
        Err(ModifierError::Invalid(
            1,
            "You already declared `silent` modifier before. You can't use them in conjunction.".to_string()
        ))
    );
    let mut m = CommandModifier::new_expr();
    assert_eq!(
        m.parse_modifier_sequence(&words(&["silent_err", "silent"]), 0, &mut vec![], &mut false),
        Err(ModifierError::Invalid(
            1,
            "You already declared `silent_err` modifier before. You can't use them in conjunction.".to_string()
        ))
    );
    let mut m = CommandModifier::new_expr();
    assert_eq!(
        m.parse_modifier_sequence(&words(&["sudo", "sudo"]), 0, &mut vec![], &mut false),
        Err(ModifierError::Invalid(1, "Command modifier 'sudo' has already been declared".to_string()))
    );
}

#[test]
fn end_of_tokens_is_a_quiet_failure() {
    let mut m = CommandModifier::new_expr();
    assert_eq!(m.parse_modifier_sequence(&words(&["silent"]), 0, &mut vec![], &mut false), Err(ModifierError::EndOfInput(1)));
    assert_eq!(m.parse_modifier_sequence(&words(&[]), 0, &mut vec![], &mut false), Err(ModifierError::EndOfInput(0)));
}

#[test]
fn accepted_sudo_marks_the_program() {
    let mut m = CommandModifier::new_expr();
    let mut used = false;
    let r = m.parse_modifier_sequence(&words(&["silent", "sudo", "cmd"]), 0, &mut vec![], &mut used);
    assert_eq!(r, Ok(2));
    assert!(used);
    let mut m = CommandModifier::new_expr();
    let mut used = false;
    m.parse_modifier_sequence(&words(&["trust", "cmd"]), 0, &mut vec![], &mut used).unwrap();
    assert!(!used);
    let mut used = true;
    m.parse_modifier_sequence(&words(&["cmd"]), 0, &mut vec![], &mut used).unwrap();
    assert!(used);
}
