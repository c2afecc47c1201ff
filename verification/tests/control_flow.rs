use amber::control_flow::{
    BoolAnalysis, ChainShape, ConditionShape, DeadCode, DeadCodeWarning, Failed, FailureHandler, FailureType,
    BranchFacts, HandlerPlan, IfChain, IfChainBranch, IfCondition, Succeeded, Then, condition_dead_code_warning, condition_shape,
};

fn branch(known: Option<bool>, side_effects: bool, depends: bool, terminates: bool) -> IfChainBranch {
    IfChainBranch::new(terminates).with_cfa(BoolAnalysis {
        known_value: known,
        has_side_effects: side_effects,
        depends_on_target: depends,
    })
}

fn parsed_handler(t: FailureType, question_mark: bool, is_main: bool, param: &str) -> FailureHandler {
    let mut h = FailureHandler::new();
    h.is_parsed = true;
    h.failure_type = t;
    h.is_question_mark = question_mark;
    h.is_main = is_main;
    h.param_name = param.to_string();
    h
}

#[test]
fn failure_type_keywords() {
    assert_eq!(FailureType::Failed.to_string(), "failed");
    assert_eq!(FailureType::Succeeded.to_string(), "succeeded");
    assert_eq!(FailureType::Exited.to_string(), "exited");
}

#[test]
fn unparsed_handler_emits_nothing() {
    let h = FailureHandler::new();
    assert_eq!(h.translate_plan(false), HandlerPlan::Nothing);
}

#[test]
fn handlers_react_to_status() {
    assert_eq!(
        parsed_handler(FailureType::Failed, false, true, "code").translate_plan(false),
        HandlerPlan::RunIf { on_failure: true, bind_param: true }
    );
    assert_eq!(
        parsed_handler(FailureType::Succeeded, false, true, "").translate_plan(false),
        HandlerPlan::RunIf { on_failure: false, bind_param: false }
    );
    assert_eq!(
        parsed_handler(FailureType::Exited, false, false, "").translate_plan(false),
        HandlerPlan::RunAlways { bind_param: false }
    );
    assert_eq!(parsed_handler(FailureType::Failed, false, true, "").translate_plan(true), HandlerPlan::StatusOnly);
}

#[test]
fn question_mark_propagates() {
    assert_eq!(
        parsed_handler(FailureType::Failed, true, true, "").translate_plan(true),
        HandlerPlan::Propagate { by_exit: true, reset_return: false }
    );
    assert_eq!(
        parsed_handler(FailureType::Failed, true, false, "").translate_plan(false),
        HandlerPlan::Propagate { by_exit: false, reset_return: true }
    );
}

#[test]
fn handler_setters() {
    let mut h = FailureHandler::new();
    h.set_position(7);
    h.set_function_name("main".to_string());
    assert_eq!(h.error_position, Some(7));
    assert_eq!(h.function_name, Some("main".to_string()));
    assert!(!h.is_parsed);
    let mut s = Succeeded { is_parsed: true, error_position: None, function_name: None, is_main: true };
    s.set_position(3);
    s.set_function_name("f".to_string());
    assert_eq!(s.error_position, Some(3));
    assert_eq!(s.function_name, Some("f".to_string()));
    assert_eq!(s.translate_plan(false), HandlerPlan::RunIf { on_failure: false, bind_param: false });
}

#[test]
fn older_handler_forms() {
    let f = Failed { is_parsed: true, is_question_mark: false, is_main: true };
    assert_eq!(f.translate_plan(false), HandlerPlan::RunIf { on_failure: true, bind_param: false });
    let q = Failed { is_parsed: true, is_question_mark: true, is_main: false };
    assert_eq!(q.translate_plan(false), HandlerPlan::Propagate { by_exit: false, reset_return: true });
    let t = Then { is_parsed: true, param_name: "code".to_string(), param_global_id: None };
    assert_eq!(t.translate_plan(false), HandlerPlan::RunAlways { bind_param: true });
    assert_eq!(t.translate_plan(true), HandlerPlan::StatusOnly);
    let n = Then { is_parsed: false, param_name: String::new(), param_global_id: None };
    assert_eq!(n.translate_plan(false), HandlerPlan::Nothing);
}

#[test]
fn chain_termination() {
    let both = IfChain { cond_blocks: vec![branch(None, false, false, true)], false_block: Some(branch(None, false, false, true)) };
    assert!(both.terminates_control_flow());
    let no_else = IfChain { cond_blocks: vec![branch(None, false, false, true)], false_block: None };
    assert!(!no_else.terminates_control_flow());
    let known_true = IfChain {
        cond_blocks: vec![branch(None, false, false, true), branch(Some(true), false, false, true), branch(None, false, false, false)],
        false_block: None,
    };
    assert!(known_true.terminates_control_flow());
    let else_only = IfChain { cond_blocks: vec![], false_block: Some(branch(None, false, false, true)) };
    assert!(else_only.terminates_control_flow());
}

#[test]
fn prune_stops_at_first_true() {
    let mut chain = IfChain {
        cond_blocks: vec![
            branch(None, false, false, false),
            branch(Some(false), false, false, false),
            branch(Some(true), false, false, false),
            branch(None, false, false, false),
        ],
        false_block: Some(branch(None, false, false, false)),
    };
    let warnings = chain.typecheck(false);
    assert_eq!(
        warnings,
        vec![
            DeadCodeWarning { index: 1, kind: DeadCode::AlwaysFalse },
            DeadCodeWarning { index: 3, kind: DeadCode::Unreachable },
            DeadCodeWarning { index: 2, kind: DeadCode::ElseUnreachable },
        ]
    );
    assert_eq!(chain.cond_blocks.len(), 2);
    assert_eq!(chain.cond_blocks[1].cfa.known_value, Some(true));
    assert!(chain.false_block.is_none());
    assert_eq!(chain.translate_shape(), ChainShape::Full { has_else: false });
}

#[test]
fn allowed_dead_code_gives_no_warnings() {
    let mut chain = IfChain {
        cond_blocks: vec![branch(Some(false), false, false, false), branch(Some(true), false, false, false)],
        false_block: Some(branch(None, false, false, false)),
    };
    assert!(chain.typecheck(true).is_empty());
    assert_eq!(chain.cond_blocks.len(), 1);
    assert_eq!(chain.translate_shape(), ChainShape::FirstBlockOnly);
}

#[test]
fn unknown_and_side_effecting_conditions_are_kept() {
    let mut chain = IfChain {
        cond_blocks: vec![branch(None, false, false, false), branch(Some(false), true, false, false)],
        false_block: Some(branch(None, false, false, false)),
    };
    assert!(chain.typecheck(false).is_empty());
    assert_eq!(chain.cond_blocks.len(), 2);
    assert!(chain.false_block.is_some());
    assert_eq!(chain.translate_shape(), ChainShape::Full { has_else: true });
}

#[test]
fn target_dependent_conditions_are_not_reported() {
    let mut chain = IfChain {
        cond_blocks: vec![branch(Some(false), false, true, false), branch(Some(true), false, true, false), branch(None, false, false, false)],
        false_block: Some(branch(None, false, false, false)),
    };
    assert!(chain.typecheck(false).is_empty());
    assert_eq!(chain.cond_blocks.len(), 1);
    assert!(chain.false_block.is_none());
}

#[test]
fn empty_chain_shapes() {
    let only_else = IfChain { cond_blocks: vec![], false_block: Some(branch(None, false, false, false)) };
    assert_eq!(only_else.translate_shape(), ChainShape::ElseOnly { has_else: true });
    let nothing = IfChain { cond_blocks: vec![], false_block: None };
    assert_eq!(nothing.translate_shape(), ChainShape::ElseOnly { has_else: false });
}

#[test]
fn single_if_conditions() {
    assert_eq!(condition_shape(Some(true)), ConditionShape::TrueBlockOnly);
    assert_eq!(condition_shape(Some(false)), ConditionShape::FalseBlockOnly);
    assert_eq!(condition_shape(None), ConditionShape::Test);
    assert_eq!(
        condition_dead_code_warning(Some(true), true, false),
        Some("Condition is always true, 'else' block will never execute".to_string())
    );
    assert_eq!(condition_dead_code_warning(Some(true), false, false), None);
    assert_eq!(
        condition_dead_code_warning(Some(false), false, false),
        Some("Condition is always false, 'if' block will never execute".to_string())
    );
    assert_eq!(condition_dead_code_warning(Some(false), true, true), None);

    let mut always_true = IfCondition { known: Some(true), true_block: Some(1), false_block: Some(2) };
    assert_eq!(
        always_true.typecheck(false),
        Some("Condition is always true, 'else' block will never execute".to_string())
    );
    assert_eq!((always_true.true_block, always_true.false_block), (Some(1), None));
    let mut always_false = IfCondition { known: Some(false), true_block: Some(1), false_block: None::<i32> };
    assert_eq!(
        always_false.typecheck(false),
        Some("Condition is always false, 'if' block will never execute".to_string())
    );
    assert_eq!((always_false.true_block, always_false.false_block), (None, None));
    let mut unknown = IfCondition { known: None, true_block: Some(1), false_block: Some(2) };
    assert_eq!(unknown.typecheck(false), None);
    assert_eq!((unknown.true_block, unknown.false_block), (Some(1), Some(2)));
}

#[test]
fn nested_if_in_else_is_reported() {
    assert_eq!(
        IfCondition::<u8>::nested_if_check(true, false, "allow_nested_if_else"),
        Some((
            "You should use if-chain instead of nested if else statements".to_string(),
            "To suppress this warning, use 'allow_nested_if_else' compiler flag".to_string()
        ))
    );
    assert_eq!(IfCondition::<u8>::nested_if_check(true, true, "x"), None);
    assert_eq!(IfCondition::<u8>::nested_if_check(false, false, "x"), None);
}

#[test]
fn dead_code_warning_texts() {
    assert_eq!(DeadCode::Unreachable.message(), "Condition is unreachable, previous condition is always true");
    assert_eq!(DeadCode::AlwaysFalse.message(), "Condition is always false, block will never execute");
    assert_eq!(DeadCode::ElseUnreachable.message(), "Condition is always true, 'else' block will never execute");
    assert_eq!(DeadCode::hint("allow_dead_code"), "To suppress this warning, use 'allow_dead_code' compiler flag");
}

fn lines(v: &[&str]) -> Vec<String> {
    v.iter().map(|s| s.to_string()).collect()
}

#[test]
fn handler_code_for_failed_with_parameter() {
    let h = parsed_handler(FailureType::Failed, false, true, "code");
    let r = h.translate(&lines(&["    echo \"$code\""]), "    ", None, "code_4");
    assert_eq!(
        r,
        lines(&["__status=$?", "if [ $__status != 0 ]; then", "code_4=$__status", "    echo \"$code\"", "fi"])
    );
    let h = parsed_handler(FailureType::Failed, false, true, "");
    let r = h.translate(&lines(&["    echo x"]), "    ", None, "unused");
    assert_eq!(r, lines(&["__status=$?", "if [ $__status != 0 ]; then", "    echo x", "fi"]));
}

#[test]
fn handler_code_for_succeeded_and_exited() {
    let h = parsed_handler(FailureType::Succeeded, false, true, "");
    let r = h.translate(&lines(&["  echo ok"]), "  ", None, "");
    assert_eq!(r, lines(&["__status=$?", "if [ $__status = 0 ]; then", "  echo ok", "fi"]));
    let h = parsed_handler(FailureType::Exited, false, true, "s");
    let r = h.translate(&lines(&["  echo done"]), "  ", None, "s_1");
    assert_eq!(r, lines(&["__status=$?", "s_1=$__status", "  echo done"]));
}

#[test]
fn handler_code_for_empty_block_and_unparsed() {
    let h = parsed_handler(FailureType::Failed, false, true, "code");
    assert_eq!(h.translate(&vec![], "  ", None, "code_1"), lines(&["__status=$?"]));
    let h = FailureHandler::new();
    assert_eq!(h.translate(&lines(&["echo"]), "  ", None, ""), Vec::<String>::new());
}

#[test]
fn handler_code_for_question_mark() {
    let h = parsed_handler(FailureType::Failed, true, true, "");
    assert_eq!(
        h.translate(&vec![], "  ", None, ""),
        lines(&["__status=$?", "if [ $__status != 0 ]; then", "  exit $__status", "fi"])
    );
    let h = parsed_handler(FailureType::Failed, true, false, "");
    assert_eq!(
        h.translate(&lines(&["ignored"]), "  ", Some(("ret_foo0_v0", "''")), ""),
        lines(&["__status=$?", "if [ $__status != 0 ]; then", "  ret_foo0_v0=''", "  return $__status", "fi"])
    );
}

fn facts(pos: &[(usize, usize)], neg: &[(usize, usize)]) -> BranchFacts {
    BranchFacts { positive: pos.to_vec(), negative: neg.to_vec() }
}

#[test]
fn narrowing_facts_flow_through_the_chain() {
    let chain = IfChain {
        cond_blocks: vec![
            branch(None, false, false, false),
            branch(Some(false), false, false, false),
            branch(None, false, false, false),
        ],
        false_block: Some(branch(None, false, false, false)),
    };
    let r = chain.narrowing_scopes(&vec![
        facts(&[(1, 10)], &[(1, 11)]),
        facts(&[(2, 20)], &[]),
        facts(&[(3, 30)], &[(3, 31)]),
    ]);
    assert_eq!(r.conditions, vec![vec![], vec![(1, 11)], vec![(1, 11)]]);
    assert_eq!(r.blocks, vec![Some(vec![(1, 10)]), None, Some(vec![(1, 11), (3, 30)])]);
    assert_eq!(r.else_block, Some(vec![(1, 11), (3, 31)]));
}

#[test]
fn narrowing_stops_at_an_always_true_branch() {
    let chain = IfChain {
        cond_blocks: vec![branch(None, false, false, false), branch(Some(true), false, false, false), branch(None, false, false, false)],
        false_block: Some(branch(None, false, false, false)),
    };
    let r = chain.narrowing_scopes(&vec![
        facts(&[(1, 1)], &[(1, 2)]),
        facts(&[(2, 3)], &[(2, 4)]),
        facts(&[(3, 5)], &[(3, 6)]),
    ]);
    assert_eq!(r.conditions, vec![vec![], vec![(1, 2)], vec![(1, 2)]]);
    assert_eq!(r.blocks, vec![Some(vec![(1, 1)]), Some(vec![(1, 2), (2, 3)]), None]);
    assert_eq!(r.else_block, None);
}

#[test]
fn condition_handlers_emit_their_code() {
    let f = Failed { is_parsed: true, is_question_mark: false, is_main: true };
    assert_eq!(f.translate(&lines(&["  echo no"]), "  ", None), lines(&["__status=$?", "if [ $__status != 0 ]; then", "  echo no", "fi"]));
    let f = Failed { is_parsed: true, is_question_mark: true, is_main: false };
    assert_eq!(
        f.translate(&vec![], "  ", Some(("ret", "0"))),
        lines(&["__status=$?", "if [ $__status != 0 ]; then", "  ret=0", "  return $__status", "fi"])
    );
    let s = Succeeded { is_parsed: true, error_position: None, function_name: None, is_main: true };
    assert_eq!(s.translate(&lines(&["  echo ok"])), lines(&["__status=$?", "if [ $__status = 0 ]; then", "  echo ok", "fi"]));
    assert_eq!(s.translate(&vec![]), lines(&["__status=$?"]));
    let t = Then { is_parsed: true, param_name: "code".to_string(), param_global_id: Some(2) };
    assert_eq!(t.translate(&lines(&["  echo $code_2"]), "code_2"), lines(&["__status=$?", "code_2=$__status", "  echo $code_2"]));
    let t = Then { is_parsed: false, param_name: String::new(), param_global_id: None };
    assert_eq!(t.translate(&lines(&["x"]), "v"), Vec::<String>::new());
}
