use treejumper_nvim::ast::CodeNode;
use treejumper_nvim::error::Error;

#[test]
fn test_code_node_creation() {
    let node = CodeNode::new(
        "function".to_string(),
        Some("main".to_string()),
        0,
        0,
        10,
        1,
    );
    assert_eq!(node.kind, "function");
    assert_eq!(node.name, Some("main".to_string()));
    assert_eq!(node.line_span(), (0, 10));
}

#[test]
fn node_keeps_every_field() {
    let node = CodeNode::new("impl".to_string(), None, 3, 4, 7, 2);
    assert_eq!(node.kind, "impl");
    assert_eq!(node.name, None);
    assert_eq!(node.start_row, 3);
    assert_eq!(node.start_col, 4);
    assert_eq!(node.end_row, 7);
    assert_eq!(node.end_col, 2);
    assert_eq!(node.line_span(), (3, 7));
}

#[test]
fn reversed_rows_are_rejected() {
    let r = CodeNode::try_new("function".to_string(), None, 10, 0, 5, 0);
    assert!(matches!(r, Err(Error::InvalidNode(_))));
}

#[test]
fn reversed_columns_on_one_row_are_rejected() {
    let r = CodeNode::try_new("block".to_string(), None, 4, 9, 4, 2);
    assert!(matches!(r, Err(Error::InvalidNode(_))));
}

#[test]
fn ordered_span_is_accepted() {
    let r = CodeNode::try_new("block".to_string(), Some("b".to_string()), 4, 2, 4, 9);
    let node = r.unwrap();
    assert_eq!(node, CodeNode::new("block".to_string(), Some("b".to_string()), 4, 2, 4, 9));
    let later_row = CodeNode::try_new("block".to_string(), None, 4, 9, 5, 0);
    assert!(later_row.is_ok());
}

#[test]
fn contains_line_is_inclusive() {
    let node = CodeNode::new("fn".to_string(), None, 2, 0, 8, 1);
    assert!(!node.contains_line(1));
    assert!(node.contains_line(2));
    assert!(node.contains_line(5));
    assert!(node.contains_line(8));
    assert!(!node.contains_line(9));
}
