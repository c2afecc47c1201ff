use amber::keywords::{ContextFunction, context_function, keyword_kind_name};

#[test]
fn snake_case_kinds_become_type_names() {
    assert_eq!(keyword_kind_name("builtin_stmt"), "BuiltinStmt");
    assert_eq!(keyword_kind_name("stmt"), "Stmt");
    assert_eq!(keyword_kind_name("builtin_expr"), "BuiltinExpr");
    assert_eq!(keyword_kind_name("a__b"), "AB");
    assert_eq!(keyword_kind_name("ß_x"), "SSX");
    assert_eq!(keyword_kind_name(""), "");
}

#[test]
fn context_function_names() {
    assert_eq!(context_function("is_trust_ctx", ContextFunction::With), "with_is_trust_ctx");
    assert_eq!(context_function("panel", ContextFunction::WithRef), "with_panel_ref");
    assert_eq!(context_function("panel", ContextFunction::WithFn), "with_panel_fn");
    assert_eq!(context_function("volume", ContextFunction::Setter), "set_volume");
}
