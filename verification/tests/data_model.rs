use pest_playground::event::ChangeFileEvent;
use pest_playground::location::{Location, PestGrammarError, RawError, RawSpan, RawVariant};
use pest_playground::tree::{MatchNode, TokenTree};

#[test]
fn point_report_expands_to_equal_endpoints() {
    let l = Location::from_raw_span(RawSpan::Pos { line: 3, col: 7 });
    assert_eq!(l.start_line, 3);
    assert_eq!(l.start_col, 7);
    assert_eq!(l.end_line, 3);
    assert_eq!(l.end_col, 7);
}

#[test]
fn span_report_keeps_both_endpoints() {
    let l = Location::from_raw_span(RawSpan::Span {
        start_line: 1,
        start_col: 2,
        end_line: 3,
        end_col: 4,
    });
    assert_eq!((l.start_line, l.start_col, l.end_line, l.end_col), (1, 2, 3, 4));
}

#[test]
fn custom_variant_keeps_its_message() {
    let e = PestGrammarError::from_raw(RawError {
        variant: RawVariant::Custom { message: "expected rule".to_string() },
        span: RawSpan::Pos { line: 2, col: 5 },
    });
    assert_eq!(e.message, "expected rule");
    assert_eq!(e.location.start_line, 2);
    assert_eq!(e.location.end_line, 2);
    assert_eq!(e.location.start_col, 5);
    assert_eq!(e.location.end_col, 5);
}

#[test]
fn unexpected_variant_becomes_a_distinct_fatal_message() {
    let e = PestGrammarError::from_raw(RawError {
        variant: RawVariant::Unexpected,
        span: RawSpan::Span { start_line: 1, start_col: 1, end_line: 1, end_col: 2 },
    });
    assert_eq!(e.message, "internal: unexpected error variant from the grammar engine");
}

#[test]
fn token_tree_new_keeps_label_and_children() {
    let leaf = TokenTree::new("leaf".to_string(), Vec::new());
    let root = TokenTree::new("root".to_string(), vec![leaf]);
    assert_eq!(root.label, "root");
    assert_eq!(root.children.len(), 1);
    assert_eq!(root.children[0].label, "leaf");
}

#[test]
fn match_without_submatches_becomes_a_labeled_leaf() {
    let m = MatchNode {
        name: "digit".to_string(),
        text: "4".to_string(),
        children: Vec::new(),
    };
    let t = TokenTree::from_match(&m);
    assert_eq!(t.label, "digit\n4");
    assert!(t.children.is_empty());
}

#[test]
fn match_with_submatches_becomes_an_internal_node() {
    let m = MatchNode {
        name: "number".to_string(),
        text: "42".to_string(),
        children: vec![
            MatchNode { name: "digit".to_string(), text: "4".to_string(), children: Vec::new() },
            MatchNode { name: "digit".to_string(), text: "2".to_string(), children: Vec::new() },
        ],
    };
    let t = TokenTree::from_match(&m);
    assert_eq!(t.label, "number");
    assert_eq!(t.children.len(), 2);
    assert_eq!(t.children[0].label, "digit\n4");
    assert_eq!(t.children[1].label, "digit\n2");
}

#[test]
fn root_tree_uses_the_invoked_rule_as_label() {
    let ms = vec![MatchNode {
        name: "a".to_string(),
        text: "x".to_string(),
        children: Vec::new(),
    }];
    let t = TokenTree::from_matches("a", &ms);
    assert_eq!(t.label, "a");
    assert_eq!(t.children.len(), 1);
    assert_eq!(t.children[0].label, "a\nx");
}

#[test]
fn change_file_event_carries_both_texts() {
    let e = ChangeFileEvent::new("g = { \"x\" }".to_string(), "x".to_string());
    assert_eq!(e.grammar, "g = { \"x\" }");
    assert_eq!(e.input, "x");
}
