//! The boundary to the pest crates: type declarations, names for what the
//! outside calls return, and thin trusted wrappers. Everything else in the
//! crate works on the plain values these wrappers hand out.

use vstd::prelude::*;

use crate::location::{Location, RawError, RawSpan, RawVariant};
use crate::syntax::SyntaxNode;
use crate::tree::MatchNode;
use pest::error::{Error, ErrorVariant, LineColLocation};
use pest::iterators::Pairs;
use pest_meta::parser::Rule as MetaRule;

verus! {

#[verifier::external_type_specification]
#[verifier::external_body]
#[verifier::reject_recursive_types(R)]
pub struct ExPairs<'i, R>(Pairs<'i, R>);

#[verifier::external_type_specification]
#[verifier::external_body]
#[verifier::reject_recursive_types(R)]
pub struct ExPestError<R>(Error<R>);

#[verifier::external_type_specification]
#[verifier::external_body]
pub struct ExMetaRule(MetaRule);

#[verifier::external_type_specification]
#[verifier::external_body]
pub struct ExVm(pest_vm::Vm);

/// What parsing grammar source against the built-in meta-grammar yields:
/// the parse tree as plain nodes, or nothing for syntactically invalid text.
pub uninterp spec fn meta_parse_result(source: Seq<char>) -> Option<Seq<SyntaxNode>>;

/// The plain-node rendering of a meta-grammar parse tree value.
pub uninterp spec fn pairs_content(p: Pairs<'_, MetaRule>) -> Seq<SyntaxNode>;

/// Whether semantic validation accepts a parse tree.
pub uninterp spec fn validate_verdict(forest: Seq<SyntaxNode>) -> bool;

/// What consuming and optimizing a validated parse tree yields: the compiled
/// rule names in AST order, or nothing when consumption fails.
pub uninterp spec fn build_verdict(forest: Seq<SyntaxNode>) -> Option<Seq<Seq<char>>>;

/// The names of the rules a compiled rule set holds.
pub uninterp spec fn vm_rule_set(vm: pest_vm::Vm) -> Set<Seq<char>>;

/// What running a compiled rule against input yields: the top-level matches
/// as plain nodes, or nothing when the input does not satisfy the rule.
pub uninterp spec fn vm_match(vm: pest_vm::Vm, rule: Seq<char>, input: Seq<char>) -> Option<
    Seq<MatchNode>,
>;

/// The plain-node rendering of a match-output value.
pub uninterp spec fn match_content(p: Pairs<'_, &str>) -> Seq<MatchNode>;

/// Relies on pest_meta::parser::parse at the grammar-rules entry point: it
/// parses grammar source against pest's built-in meta-grammar, is
/// deterministic in the source text, and returns Ok exactly when the text is
/// syntactically well-formed.
#[verifier::external_body]
pub(crate) fn meta_parse(source: &str) -> (r: Result<Pairs<'_, MetaRule>, Error<MetaRule>>)
    ensures
        match r {
            Ok(p) => meta_parse_result(source@) == Some(pairs_content(p)),
            Err(_) => meta_parse_result(source@) is None,
        },
{
    pest_meta::parser::parse(MetaRule::grammar_rules, source)
}

/// Relies on Pair::as_rule, Pair::as_str, Pair::as_span, Pair::into_inner and
/// Span's start_pos/end_pos line_col: rebuilds a parse tree as plain nodes,
/// depth-first, marking exactly the identifier nodes and keeping the 1-based
/// line/column spans as reported.
#[verifier::external_body]
pub(crate) fn forest_of(pairs: &Pairs<'_, MetaRule>) -> (r: Vec<SyntaxNode>)
    ensures
        r@ == pairs_content(*pairs),
{
    pairs.clone().map(|p| {
        let (start_line, start_col) = p.as_span().start_pos().line_col();
        let (end_line, end_col) = p.as_span().end_pos().line_col();
        SyntaxNode {
            is_identifier: p.as_rule() == MetaRule::identifier,
            text: p.as_str().to_string(),
            location: Location { start_line, start_col, end_line, end_col },
            children: forest_of(&p.into_inner()),
        }
    }).collect()
}

/// Relies on pest::error::Error::renamed_rules with
/// pest_meta::parser::rename_meta_rule: internal meta-rule names are rewritten
/// to user-facing ones, a ParsingError variant becomes a rendered CustomError
/// and the line/column report is kept; the outcome is handed out as plain
/// data, with any other variant kept as the distinct Unexpected tag.
#[verifier::external_body]
pub(crate) fn raw_meta_error(e: Error<MetaRule>) -> (r: RawError) {
    let e = e.renamed_rules(pest_meta::parser::rename_meta_rule);
    let variant = match e.variant {
        ErrorVariant::CustomError { message } => RawVariant::Custom { message },
        ErrorVariant::ParsingError { .. } => RawVariant::Unexpected,
    };
    let span = match e.line_col {
        LineColLocation::Pos((line, col)) => RawSpan::Pos { line, col },
        LineColLocation::Span((sl, sc), (el, ec)) => RawSpan::Span {
            start_line: sl,
            start_col: sc,
            end_line: el,
            end_col: ec,
        },
    };
    RawError { variant, span }
}

/// Relies on pest_meta::validator::validate_pairs: deterministic in the parse
/// tree; Ok exactly when the grammar uses no pest keyword as a rule name and
/// has no duplicate or undefined rules; an Err always carries at least one
/// error.
#[verifier::external_body]
pub(crate) fn meta_validate(pairs: &Pairs<'_, MetaRule>) -> (r: Result<
    (),
    Vec<Error<MetaRule>>,
>)
    ensures
        r is Ok <==> validate_verdict(pairs_content(*pairs)),
        r is Err ==> r->Err_0@.len() >= 1,
{
    match pest_meta::validator::validate_pairs(pairs.clone()) {
        Ok(_) => Ok(()),
        Err(es) => Err(es),
    }
}

/// Relies on pest_meta::parser::consume_rules, pest_meta::optimizer::optimize
/// and pest_vm::Vm::new: a validated parse tree becomes the executable rule
/// set; the returned names are the optimized rules' names, which optimization
/// keeps in AST order, and the set's lookup keys are exactly those names; an
/// Err always carries at least one error. Deterministic in the parse tree.
#[verifier::external_body]
pub(crate) fn build_vm(pairs: &Pairs<'_, MetaRule>) -> (r: Result<
    (pest_vm::Vm, Vec<String>),
    Vec<Error<MetaRule>>,
>)
    ensures
        match r {
            Ok((vm, names)) => build_verdict(pairs_content(*pairs)) == Some(names.deep_view())
                && vm_rule_set(vm) == names.deep_view().to_set(),
            Err(es) => build_verdict(pairs_content(*pairs)) is None && es@.len() >= 1,
        },
{
    match pest_meta::parser::consume_rules(pairs.clone()) {
        Ok(ast) => {
            let rules = pest_meta::optimizer::optimize(ast);
            let names: Vec<String> = rules.iter().map(|x| x.name.clone()).collect();
            Ok((pest_vm::Vm::new(rules), names))
        },
        Err(es) => Err(es),
    }
}

/// Relies on pest_vm::Vm::parse: deterministic in the rule set, the rule name
/// and the input; Ok exactly when the named rule matches the input. On a rule
/// name outside a set built from a validated grammar it panics instead of
/// returning, so the precondition keeps such names out.
#[verifier::external_body]
pub(crate) fn vm_parse<'a>(vm: &'a pest_vm::Vm, rule: &'a str, input: &'a str) -> (r: Result<
    Pairs<'a, &'a str>,
    Error<&'a str>,
>)
    requires
        vm_rule_set(*vm).contains(rule@),
    ensures
        match r {
            Ok(p) => vm_match(*vm, rule@, input@) == Some(match_content(p)),
            Err(_) => vm_match(*vm, rule@, input@) is None,
        },
{
    vm.parse(rule, input)
}

/// Relies on Pair::as_rule, Pair::as_str and Pair::into_inner on match
/// output, whose rule type is the rule's own name: rebuilds the match tree as
/// plain nodes, depth-first.
#[verifier::external_body]
pub(crate) fn matches_of(pairs: &Pairs<'_, &str>) -> (r: Vec<MatchNode>)
    ensures
        r@ == match_content(*pairs),
{
    pairs.clone().map(|p| {
        let name = p.as_rule().to_string();
        let text = p.as_str().to_string();
        MatchNode { name, text, children: matches_of(&p.into_inner()) }
    }).collect()
}

/// Relies on pest::error::Error::renamed_rules rendering each &str rule name
/// as itself: a ParsingError variant becomes a rendered CustomError and the
/// line/column report is kept; the outcome is handed out as plain data, with
/// any other variant kept as the distinct Unexpected tag.
#[verifier::external_body]
pub(crate) fn raw_vm_error(e: Error<&str>) -> (r: RawError) {
    let e = e.renamed_rules(|x| x.to_string());
    let variant = match e.variant {
        ErrorVariant::CustomError { message } => RawVariant::Custom { message },
        ErrorVariant::ParsingError { .. } => RawVariant::Unexpected,
    };
    let span = match e.line_col {
        LineColLocation::Pos((line, col)) => RawSpan::Pos { line, col },
        LineColLocation::Span((sl, sc), (el, ec)) => RawSpan::Span {
            start_line: sl,
            start_col: sc,
            end_line: el,
            end_col: ec,
        },
    };
    RawError { variant, span }
}

} // verus!
