use amber::conditions::{IfChain, IfCondition};

fn pair(c: &str, b: &str) -> (String, String) {
    (c.to_string(), b.to_string())
}

#[test]
fn chains_test_each_condition_in_turn() {
    let chain = IfChain { cond_blocks: vec![pair("$a", "  echo a"), pair("$b", "  echo b")], false_block: Some("  echo c".to_string()) };
    assert_eq!(chain.translate(), "if [ $a != 0 ]; then\n  echo a\nelif [ $b != 0 ]; then\n  echo b\nelse\n  echo c\nfi");
    let single = IfChain { cond_blocks: vec![pair("1", "x")], false_block: None };
    assert_eq!(single.translate(), "if [ 1 != 0 ]; then\nx\nfi");
    let empty = IfChain { cond_blocks: vec![], false_block: None };
    assert_eq!(empty.translate(), "fi");
}

#[test]
fn conditions_fill_empty_blocks() {
    let c = IfCondition { expr: "$x".to_string(), true_block: String::new(), true_empty: true, false_block: None };
    assert_eq!(c.translate(), "if [ $x != 0 ]; then\n:\n\nfi");
    let c = IfCondition {
        expr: "$x".to_string(),
        true_block: "echo y".to_string(),
        true_empty: false,
        false_block: Some(("echo n".to_string(), false)),
    };
    assert_eq!(c.translate(), "if [ $x != 0 ]; then\necho y\nelse\necho n\nfi");
}
