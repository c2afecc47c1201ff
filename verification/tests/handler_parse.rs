use amber::control_flow::{Failed, FailureHandler, FailureType, Succeeded, Then};
use amber::handler_parse::{
    Diagnostic, FailedHead, HandlerContext, HandlerError, HandlerHead, empty_handler_warning, is_variable_name,
};

fn words(v: &[&str]) -> Vec<String> {
    v.iter().map(|s| s.to_string()).collect()
}

fn main_ctx() -> HandlerContext {
    HandlerContext { is_fun_ctx: false, is_main_ctx: true, is_trust_ctx: false }
}

fn ext() -> Vec<char> {
    vec!['_']
}

fn loud(at: usize, message: &str) -> HandlerError {
    HandlerError::Loud(Diagnostic { at, message: message.to_string(), comment: None })
}

#[test]
fn variable_names() {
    assert!(is_variable_name("code", &ext()));
    assert!(is_variable_name("_x1", &ext()));
    assert!(is_variable_name("größe", &ext()));
    assert!(!is_variable_name("1x", &ext()));
    assert!(!is_variable_name("a-b", &ext()));
    assert!(!is_variable_name("_x", &vec![]));
    assert!(is_variable_name("", &ext()));
}

#[test]
fn question_mark_propagates_in_main_and_functions() {
    let mut h = FailureHandler::new();
    let r = h.parse_head(&words(&["cmd", "?", "x"]), 1, main_ctx(), &ext());
    assert_eq!(r, Ok(HandlerHead::Propagate { next: 2 }));
    assert!(h.is_question_mark && h.is_parsed && h.is_main);
    let mut h = FailureHandler::new();
    let fun = HandlerContext { is_fun_ctx: true, is_main_ctx: false, is_trust_ctx: false };
    assert_eq!(h.parse_head(&words(&["?"]), 0, fun, &ext()), Ok(HandlerHead::Propagate { next: 1 }));
    assert!(!h.is_main);
}

#[test]
fn question_mark_elsewhere_is_an_error() {
    let mut h = FailureHandler::new();
    let nowhere = HandlerContext { is_fun_ctx: false, is_main_ctx: false, is_trust_ctx: false };
    assert_eq!(
        h.parse_head(&words(&["?"]), 0, nowhere, &ext()),
        Err(loud(0, "The '?' operator can only be used in the main block or inside a function body"))
    );
    assert!(!h.is_parsed);
}

#[test]
fn handler_blocks_and_their_parameters() {
    let mut h = FailureHandler::new();
    assert_eq!(
        h.parse_head(&words(&["failed", "(", "code", ")", "{"]), 0, main_ctx(), &ext()),
        Ok(HandlerHead::Block { failure_type: FailureType::Failed, param: Some("code".to_string()), block_start: 4, guarded: true })
    );
    assert_eq!(h.param_name, "code");
    assert!(!h.is_parsed);
    let mut h = FailureHandler::new();
    assert_eq!(
        h.parse_head(&words(&["succeeded", "{"]), 0, main_ctx(), &ext()),
        Ok(HandlerHead::Block { failure_type: FailureType::Succeeded, param: None, block_start: 1, guarded: false })
    );
    assert_eq!(h.failure_type, FailureType::Succeeded);
    let mut h = FailureHandler::new();
    assert_eq!(
        h.parse_head(&words(&["exited", "{"]), 0, main_ctx(), &ext()),
        Ok(HandlerHead::Block { failure_type: FailureType::Exited, param: None, block_start: 1, guarded: false })
    );
}

#[test]
fn malformed_parameters() {
    let mut h = FailureHandler::new();
    assert_eq!(
        h.parse_head(&words(&["exited", "(", ")", "{"]), 0, main_ctx(), &ext()),
        Err(loud(2, "Parameter name cannot be empty"))
    );
    assert_eq!(
        h.parse_head(&words(&["failed", "(", "1x", ")"]), 0, main_ctx(), &ext()),
        Err(loud(2, "Failed to parse failed block"))
    );
    assert_eq!(
        h.parse_head(&words(&["exited", "(", "code", "{"]), 0, main_ctx(), &ext()),
        Err(loud(3, "Failed to parse exited block"))
    );
    assert_eq!(h.parse_head(&words(&["failed", "("]), 0, main_ctx(), &ext()), Err(loud(2, "Failed to parse failed block")));
}

#[test]
fn missing_handler() {
    let mut h = FailureHandler::new();
    assert_eq!(h.parse_head(&words(&["echo"]), 0, main_ctx(), &ext()), Err(HandlerError::Quiet(0)));
    assert!(!h.is_parsed);
    let trusted = HandlerContext { is_fun_ctx: false, is_main_ctx: true, is_trust_ctx: true };
    assert_eq!(h.parse_head(&words(&["echo"]), 0, trusted, &ext()), Ok(HandlerHead::Trusted));
    assert!(h.is_parsed && h.is_main);
}

#[test]
fn finishing_a_block() {
    let mut h = FailureHandler::new();
    h.parse_head(&words(&["failed", "{"]), 0, main_ctx(), &ext()).ok().unwrap();
    let (warning, result) = h.finish_block(true, Some("echo"), 3, main_ctx());
    assert_eq!(
        warning,
        Some(Diagnostic {
            at: 3,
            message: "Empty failed block".to_string(),
            comment: Some("You should use 'trust' modifier to run commands without handling errors".to_string()),
        })
    );
    assert_eq!(result, Ok(()));
    assert!(h.is_parsed && h.is_main);
}

#[test]
fn two_handler_blocks_are_rejected() {
    let mut h = FailureHandler::new();
    h.parse_head(&words(&["succeeded", "{"]), 0, main_ctx(), &ext()).ok().unwrap();
    let (warning, result) = h.finish_block(false, Some("failed"), 5, main_ctx());
    assert_eq!(warning, None);
    assert_eq!(
        result,
        Err(HandlerError::Loud(Diagnostic {
            at: 5,
            message: "Cannot use both 'succeeded' and 'failed' blocks for the same command".to_string(),
            comment: Some(
                "Use either 'succeeded' to handle both success and failure, 'failed' or 'succeeded' blocks, but not both"
                    .to_string()
            ),
        }))
    );
    assert!(!h.is_parsed);
}

#[test]
fn older_failed_handlers() {
    let mut f = Failed { is_parsed: false, is_question_mark: false, is_main: false };
    assert_eq!(f.parse_head(&words(&["failed", "{", "echo", "}"]), 0, main_ctx()), Ok(FailedHead::Block { block_start: 2 }));
    assert!(!f.is_parsed);
    f.finish(main_ctx());
    assert!(f.is_parsed && f.is_main);
    let mut f = Failed { is_parsed: false, is_question_mark: false, is_main: false };
    assert_eq!(f.parse_head(&words(&["failed", ":", "echo"]), 0, main_ctx()), Ok(FailedHead::Statement { start: 2 }));
    assert_eq!(
        f.parse_head(&words(&["failed", "echo"]), 0, main_ctx()),
        Err(loud(0, "Failed expression must be followed by a block or statement"))
    );
    assert_eq!(
        f.parse_head(&words(&["echo"]), 0, main_ctx()),
        Err(loud(0, "Failed expression must be followed by a block or statement"))
    );
    let trusted = HandlerContext { is_fun_ctx: false, is_main_ctx: false, is_trust_ctx: true };
    assert_eq!(f.parse_head(&words(&["echo"]), 0, trusted), Ok(FailedHead::Trusted));
    assert!(f.is_parsed);
    let mut q = Failed { is_parsed: false, is_question_mark: false, is_main: false };
    assert_eq!(q.parse_head(&words(&["?"]), 0, trusted), Ok(FailedHead::Propagate { next: 1 }));
    assert!(q.is_question_mark && q.is_parsed);
    let nowhere = HandlerContext { is_fun_ctx: false, is_main_ctx: false, is_trust_ctx: false };
    let mut q = Failed { is_parsed: false, is_question_mark: false, is_main: false };
    assert_eq!(
        q.parse_head(&words(&["?"]), 0, nowhere),
        Err(loud(0, "The '?' operator can only be used in the main block or function body"))
    );
}

#[test]
fn succeeded_and_then_handlers() {
    let mut s = Succeeded { is_parsed: false, error_position: None, function_name: None, is_main: false };
    assert_eq!(s.parse_head(&words(&["succeeded", "{"]), 0, main_ctx()), Some(1));
    assert!(!s.is_parsed);
    s.finish(main_ctx());
    assert!(s.is_parsed && s.is_main);
    let mut s = Succeeded { is_parsed: false, error_position: None, function_name: None, is_main: false };
    let trusted = HandlerContext { is_fun_ctx: false, is_main_ctx: true, is_trust_ctx: true };
    assert_eq!(s.parse_head(&words(&["echo"]), 0, trusted), None);
    assert!(s.is_parsed);

    let mut t = Then { is_parsed: false, param_name: String::new(), param_global_id: None };
    assert_eq!(
        t.parse_head(&words(&["then", "(", "code", ")", "{"]), 0, main_ctx(), &ext()),
        Ok(Some(("code".to_string(), 4)))
    );
    assert_eq!(t.param_name, "code");
    t.finish();
    assert!(t.is_parsed);
    let mut t = Then { is_parsed: false, param_name: String::new(), param_global_id: None };
    assert_eq!(t.parse_head(&words(&["then", "x"]), 0, main_ctx(), &ext()), Ok(None));
    assert!(!t.is_parsed);
    assert_eq!(t.parse_head(&words(&["then", "(", ")"]), 0, main_ctx(), &ext()), Err(loud(2, "Parameter name cannot be empty")));
    assert_eq!(t.parse_head(&words(&["then", "(", "9", ")"]), 0, main_ctx(), &ext()), Err(HandlerError::Quiet(2)));
    assert_eq!(t.parse_head(&words(&["then", "(", "c", "{"]), 0, main_ctx(), &ext()), Err(HandlerError::Quiet(3)));
    assert_eq!(
        empty_handler_warning("then", 7),
        Diagnostic {
            at: 7,
            message: "Empty then block".to_string(),
            comment: Some("You should use 'trust' modifier to run commands without handling errors".to_string()),
        }
    );
}

#[test]
fn quiet_failure_in_a_guarded_block_is_reported() {
    assert_eq!(
        FailureHandler::block_outcome(FailureType::Failed, true, Err(HandlerError::Quiet(7))),
        Err(HandlerError::Loud(Diagnostic { at: 7, message: "Failed to parse failed block".to_string(), comment: None }))
    );
    assert_eq!(
        FailureHandler::block_outcome(FailureType::Exited, true, Err(HandlerError::Quiet(3))),
        Err(HandlerError::Loud(Diagnostic { at: 3, message: "Failed to parse exited block".to_string(), comment: None }))
    );
    assert_eq!(FailureHandler::block_outcome(FailureType::Failed, false, Err(HandlerError::Quiet(7))), Err(HandlerError::Quiet(7)));
    assert_eq!(FailureHandler::block_outcome(FailureType::Failed, true, Ok(())), Ok(()));
    let loud = HandlerError::Loud(Diagnostic { at: 1, message: "x".to_string(), comment: None });
    assert_eq!(
        FailureHandler::block_outcome(FailureType::Failed, true, Err(loud)),
        Err(HandlerError::Loud(Diagnostic { at: 1, message: "x".to_string(), comment: None }))
    );
}
