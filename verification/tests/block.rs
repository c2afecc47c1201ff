use amber::block::{Block, doc_order};

fn names(v: &[Option<&str>]) -> Vec<Option<String>> {
    v.iter().map(|n| n.map(|s| s.to_string())).collect()
}

#[test]
fn new_block_layout() {
    let b: Block<u8> = Block::new();
    assert!(b.is_empty());
    assert!(b.should_indent && b.parses_syntax && !b.needs_noop && !b.is_conditional);
    let b = b.with_condition().with_needs_noop().with_no_indent().with_no_syntax();
    assert!(b.is_conditional && b.needs_noop && !b.should_indent && !b.parses_syntax);
}

#[test]
fn statements_are_appended() {
    let mut b: Block<&str> = Block::new();
    b.push_statement("a");
    b.push_statement("b");
    assert!(!b.is_empty());
    assert_eq!(b.statements, vec!["a", "b"]);
}

#[test]
fn documentation_is_ordered_by_name_then_position() {
    let n = names(&[Some("zeta"), None, Some("alpha"), Some("beta"), Some("alpha")]);
    assert_eq!(doc_order(&n), vec![2, 4, 3, 0]);
    let docs = vec!["Z".to_string(), "-".to_string(), "A1".to_string(), "B".to_string(), "A2".to_string()];
    let b: Block<()> = Block::new();
    assert_eq!(b.document(&n, &docs), "A1A2BZ");
}

#[test]
fn names_compare_by_character() {
    let n = names(&[Some("b"), Some("B"), Some("ab"), Some("a")]);
    assert_eq!(doc_order(&n), vec![1, 3, 2, 0]);
    assert!(doc_order(&names(&[None, None])).is_empty());
}
