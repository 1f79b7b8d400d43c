use pest_playground::engine::ParserState;
use pest_playground::location::Location;

const SMALL_GRAMMAR: &str = "digit = { '0'..'9' }\nnumber = { digit+ }\n";

#[test]
fn compile_reports_rule_names_in_order() {
    let mut state = ParserState::default();
    let names = state
        .update_pest_grammar(SMALL_GRAMMAR)
        .expect("grammar should compile");
    assert_eq!(names, vec!["digit".to_string(), "number".to_string()]);
}

#[test]
fn compile_twice_is_idempotent() {
    let mut state = ParserState::default();
    let names1 = state
        .update_pest_grammar(SMALL_GRAMMAR)
        .expect("grammar should compile");
    let refs1 = state.find_rule_references("digit");
    let all1 = state.get_all_rules();
    let names2 = state
        .update_pest_grammar(SMALL_GRAMMAR)
        .expect("grammar should compile again");
    let refs2 = state.find_rule_references("digit");
    let all2 = state.get_all_rules();
    assert_eq!(names1, names2);
    let locs1: Vec<(usize, usize, usize, usize)> = flat(&refs1.expect("digit is indexed"));
    let locs2: Vec<(usize, usize, usize, usize)> = flat(&refs2.expect("digit is indexed"));
    assert_eq!(locs1, locs2);
    assert_eq!(all1, all2);
}

fn flat(locs: &[Location]) -> Vec<(usize, usize, usize, usize)> {
    locs.iter()
        .map(|l| (l.start_line, l.start_col, l.end_line, l.end_col))
        .collect()
}

#[test]
fn references_cover_definition_and_uses_in_order() {
    let mut state = ParserState::default();
    let grammar = "a = { b ~ b ~ b }\nb = { \"x\" }\n";
    state.update_pest_grammar(grammar).expect("grammar should compile");
    let locs = state
        .find_rule_references("b")
        .expect("b occurs in the grammar");
    assert_eq!(locs.len(), 4);
    // Three uses on line 1, the definition on line 2, in source order.
    assert_eq!(locs[0].start_line, 1);
    assert_eq!(locs[0].start_col, 7);
    assert_eq!(locs[1].start_line, 1);
    assert_eq!(locs[1].start_col, 11);
    assert_eq!(locs[2].start_line, 1);
    assert_eq!(locs[2].start_col, 15);
    assert_eq!(locs[3].start_line, 2);
    assert_eq!(locs[3].start_col, 1);
    for l in &locs {
        assert_eq!(l.start_line, l.end_line);
        assert_eq!(l.end_col, l.start_col + 1);
    }
}

#[test]
fn failed_compile_keeps_previous_grammar_working() {
    let mut state = ParserState::default();
    state
        .update_pest_grammar(SMALL_GRAMMAR)
        .expect("grammar should compile");
    let before = state.parse_input("42", "number").expect("should match");
    let errors = state
        .update_pest_grammar("number = { digit+ }\n")
        .expect_err("undefined rule digit should fail validation");
    assert!(!errors.is_empty());
    let after = state.parse_input("42", "number").expect("should still match");
    let before = before.expect("tree before");
    let after = after.expect("tree after");
    assert_eq!(before.label, after.label);
    assert_eq!(before.children.len(), after.children.len());
}

#[test]
fn execute_before_any_compile_is_empty() {
    let state = ParserState::default();
    for (rule, input) in [("a", "x"), ("number", "42"), ("", "")] {
        let r = state.parse_input(input, rule).expect("never an error");
        assert!(r.is_none());
    }
}

#[test]
fn unknown_rule_is_a_match_error() {
    let mut state = ParserState::default();
    state
        .update_pest_grammar(SMALL_GRAMMAR)
        .expect("grammar should compile");
    let err = state
        .parse_input("anything", "not_a_rule")
        .expect_err("unknown rule must surface as an error");
    assert_eq!(err.message, "undefined rule not_a_rule");
}

#[test]
fn match_tree_has_expected_shape() {
    let mut state = ParserState::default();
    state
        .update_pest_grammar(SMALL_GRAMMAR)
        .expect("grammar should compile");
    let tree = state
        .parse_input("42", "number")
        .expect("number matches 42")
        .expect("a tree is produced");
    assert_eq!(tree.label, "number");
    assert_eq!(tree.children.len(), 1);
    let number = &tree.children[0];
    assert_eq!(number.label, "number");
    assert_eq!(number.children.len(), 2);
    assert_eq!(number.children[0].label, "digit\n4");
    assert!(number.children[0].children.is_empty());
    assert_eq!(number.children[1].label, "digit\n2");
    assert!(number.children[1].children.is_empty());
}

#[test]
fn match_failure_is_an_error() {
    let mut state = ParserState::default();
    state
        .update_pest_grammar(SMALL_GRAMMAR)
        .expect("grammar should compile");
    let err = state
        .parse_input("xy", "number")
        .expect_err("number does not match xy");
    assert!(!err.message.is_empty());
    assert_eq!(err.location.start_line, 1);
    assert_eq!(err.location.start_col, 1);
}

#[test]
fn empty_grammar_compiles_to_an_empty_rule_set() {
    let mut state = ParserState::default();
    let names = state
        .update_pest_grammar("")
        .expect("an empty grammar is syntactically fine");
    assert!(names.is_empty());
    assert!(state.get_all_rules().is_empty());
    let err = state
        .parse_input("x", "a")
        .expect_err("no rule is defined, so every rule is unknown");
    assert_eq!(err.message, "undefined rule a");
}

#[test]
fn syntactic_error_location_points_at_the_broken_line() {
    let mut state = ParserState::default();
    let grammar = "a = { \"x\" }\nb = { \"y\" }\nc = { \"z\"";
    let errors = state
        .update_pest_grammar(grammar)
        .expect_err("missing closing brace must fail");
    assert_eq!(errors.len(), 1);
    assert_eq!(errors[0].location.start_line, 3);
}

#[test]
fn syntactic_failure_clears_the_index() {
    let mut state = ParserState::default();
    state
        .update_pest_grammar(SMALL_GRAMMAR)
        .expect("grammar should compile");
    assert!(!state.get_all_rules().is_empty());
    state
        .update_pest_grammar("%%% not a grammar")
        .expect_err("garbage must fail to parse");
    assert!(state.get_all_rules().is_empty());
    assert!(state.find_rule_references("digit").is_none());
}

#[test]
fn later_stage_failure_still_rebuilds_the_index() {
    let mut state = ParserState::default();
    state
        .update_pest_grammar(SMALL_GRAMMAR)
        .expect("grammar should compile");
    state
        .update_pest_grammar("only = { missing }\n")
        .expect_err("undefined rule missing should fail validation");
    let mut all = state.get_all_rules();
    all.sort();
    assert_eq!(all, vec!["missing".to_string(), "only".to_string()]);
    let locs = state
        .find_rule_references("missing")
        .expect("missing occurs in the new grammar text");
    assert_eq!(locs.len(), 1);
    assert_eq!(locs[0].start_line, 1);
    assert_eq!(locs[0].start_col, 10);
}

#[test]
fn duplicate_rule_names_are_rejected() {
    let mut state = ParserState::default();
    let errors = state
        .update_pest_grammar("a = { \"x\" }\na = { \"y\" }\n")
        .expect_err("duplicate rule names must fail validation");
    assert!(!errors.is_empty());
    assert!(errors[0].message.contains("already defined"));
}

#[test]
fn all_rules_cover_defined_and_referenced_names() {
    let mut state = ParserState::default();
    state
        .update_pest_grammar(SMALL_GRAMMAR)
        .expect("grammar should compile");
    let mut all = state.get_all_rules();
    all.sort();
    assert_eq!(all, vec!["digit".to_string(), "number".to_string()]);
}
