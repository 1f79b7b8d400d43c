//! The engine state and its operations: compiling grammar source through the
//! four stages, executing a compiled rule against input, and querying the
//! reference index. One owned instance per caller; a failed compile never
//! touches the previously compiled rule set.

use vstd::prelude::*;
use vstd::string::StringExecFns;

use crate::backend::forest_of as forest_of_pairs;
use crate::backend::{
    build_verdict, build_vm, matches_of, meta_parse, meta_parse_result, meta_validate,
    raw_meta_error, raw_vm_error, validate_verdict, vm_match, vm_parse, vm_rule_set,
};
use crate::location::{Location, PestGrammarError};
use crate::syntax::{index_forest, index_of_forest, ReferenceIndex};
use crate::tree::{is_token_tree_of, MatchNode, TokenTree};
use pest::error::Error;
use pest_meta::parser::Rule as MetaRule;

verus! {

/// Whether compiling `source` runs all four stages to success.
pub open spec fn compile_succeeds(source: Seq<char>) -> bool {
    &&& meta_parse_result(source) is Some
    &&& validate_verdict(meta_parse_result(source)->0)
    &&& build_verdict(meta_parse_result(source)->0) is Some
}

/// The rule names a successful compile of `source` reports, in AST order.
pub open spec fn compiled_rule_names(source: Seq<char>) -> Seq<Seq<char>> {
    build_verdict(meta_parse_result(source)->0)->0
}

/// The reference index any compile of `source` that passes the syntactic
/// stage rebuilds, successful or not.
pub open spec fn compiled_reference_index(source: Seq<char>) -> Map<Seq<char>, Seq<Location>> {
    index_of_forest(meta_parse_result(source)->0)
}

/// What one execution request comes to, as a function of the engine state,
/// the rule name and the input text.
pub enum ExecOutcome {
    /// No rule set has been compiled yet.
    Absent,
    /// A rule set is compiled but does not define the requested rule.
    UnknownRule,
    /// The rule matches the input, with these top-level matches.
    Matched(Seq<MatchNode>),
    /// The rule set defines the rule but the input does not satisfy it.
    Unmatched,
}

/// The engine: at most one live compiled rule set, the names it defines, and
/// the reference index of the last grammar text that parsed syntactically.
pub struct ParserState {
    vm: Option<pest_vm::Vm>,
    rule_names: Vec<String>,
    references: ReferenceIndex,
}

impl ParserState {
    /// The stored rule names agree with the compiled set's own keys.
    pub closed spec fn wf(self) -> bool {
        &&& self.references.wf()
        &&& match self.vm {
            Some(v) => vm_rule_set(v) == self.rule_names.deep_view().to_set(),
            None => true,
        }
    }

    /// Whether a successful compile has installed a rule set.
    pub closed spec fn grammar_loaded(self) -> bool {
        self.vm is Some
    }

    /// The current reference index.
    pub closed spec fn reference_map(self) -> Map<Seq<char>, Seq<Location>> {
        self.references@
    }

    /// What executing `rule` against `input` in this state comes to.
    pub closed spec fn execute_outcome(self, rule: Seq<char>, input: Seq<char>) -> ExecOutcome {
        match self.vm {
            None => ExecOutcome::Absent,
            Some(v) => if !vm_rule_set(v).contains(rule) {
                ExecOutcome::UnknownRule
            } else {
                match vm_match(v, rule, input) {
                    Some(ms) => ExecOutcome::Matched(ms),
                    None => ExecOutcome::Unmatched,
                }
            },
        }
    }
}

impl Default for ParserState {
    /// A fresh engine: nothing compiled, an empty reference index, and the
    /// empty execution outcome for every rule/input pair.
    fn default() -> (r: ParserState)
        ensures
            r.wf(),
            !r.grammar_loaded(),
            r.reference_map() == Map::<Seq<char>, Seq<Location>>::empty(),
            forall|rule: Seq<char>, input: Seq<char>| #[trigger]
                r.execute_outcome(rule, input) == ExecOutcome::Absent,
    {
        ParserState { vm: None, rule_names: Vec::new(), references: ReferenceIndex::new() }
    }
}

/// A fresh vector holding the same strings.
fn clone_strings(v: &Vec<String>) -> (r: Vec<String>)
    ensures
        r@ == v@,
{
    let n = v.len();
    let mut out: Vec<String> = Vec::new();
    let mut i: usize = 0;
    while i < n
        invariant
            n == v@.len(),
            0 <= i <= n,
            out@ == v@.subrange(0, i as int),
        decreases n - i,
    {
        out.push(v[i].clone());
        proof {
            assert(out@ =~= v@.subrange(0, i as int + 1));
        }
        i += 1;
    }
    proof {
        assert(out@ =~= v@);
    }
    out
}

/// Normalizes each reported stage error in order.
fn normalize_errors(es: Vec<Error<MetaRule>>) -> (r: Vec<PestGrammarError>)
    ensures
        r@.len() == es@.len(),
{
    let mut work = es;
    let mut out: Vec<PestGrammarError> = Vec::new();
    while work.len() > 0
        invariant
            out@.len() + work@.len() == es@.len(),
        decreases work@.len(),
    {
        let e = work.remove(0);
        out.push(PestGrammarError::from_raw(raw_meta_error(e)));
    }
    out
}

/// Whether one of the strings reads as `s`.
fn contains_name(v: &Vec<String>, s: &str) -> (b: bool)
    ensures
        b == v.deep_view().contains(s@),
{
    let key: String = s.to_owned();
    let n = v.len();
    let mut i: usize = 0;
    while i < n
        invariant
            n == v@.len(),
            0 <= i <= n,
            key@ == s@,
            forall|j: int| 0 <= j < i ==> v.deep_view()[j] != s@,
        decreases n - i,
    {
        if v[i] == key {
            proof {
                assert(v.deep_view()[i as int] == s@);
            }
            return true;
        }
        i += 1;
    }
    proof {
        if v.deep_view().contains(s@) {
            let w = choose|w: int| 0 <= w < v.deep_view().len() && v.deep_view()[w] == s@;
            assert(v.deep_view()[w] != s@);
        }
    }
    false
}

impl ParserState {
    /// Compiles grammar source through the four ordered stages, short-circuiting
    /// at the first failing stage. On success the compiled rule set replaces the
    /// current one and the rule names are returned in AST order. On any failure
    /// the current rule set stays untouched, so execution behaves exactly as
    /// before. The reference index is rebuilt from the syntax tree whenever the
    /// syntactic stage succeeds, even if a later stage fails, and is cleared
    /// when the syntactic stage itself fails (that failure yields exactly one
    /// error).
    pub fn update_pest_grammar(&mut self, grammar: &str) -> (r: Result<
        Vec<String>,
        Vec<PestGrammarError>,
    >)
        requires
            old(self).wf(),
        ensures
            final(self).wf(),
            r is Ok <==> compile_succeeds(grammar@),
            r is Ok ==> r->Ok_0.deep_view() == compiled_rule_names(grammar@)
                && final(self).grammar_loaded()
                && final(self).reference_map() == compiled_reference_index(grammar@),
            r is Ok ==> forall|rule: Seq<char>, input: Seq<char>|
                !compiled_rule_names(grammar@).contains(rule)
                    ==> #[trigger] final(self).execute_outcome(rule, input)
                    == ExecOutcome::UnknownRule,
            r is Err ==> r->Err_0@.len() >= 1 && forall|rule: Seq<char>, input: Seq<char>|
                #[trigger] final(self).execute_outcome(rule, input)
                    == old(self).execute_outcome(rule, input),
            meta_parse_result(grammar@) is None ==> r is Err && r->Err_0@.len() == 1
                && final(self).reference_map() == Map::<Seq<char>, Seq<Location>>::empty(),
            meta_parse_result(grammar@) is Some ==> final(self).reference_map()
                == compiled_reference_index(grammar@),
    {
        match meta_parse(grammar) {
            Err(e) => {
                self.references = ReferenceIndex::new();
                let mut list: Vec<PestGrammarError> = Vec::new();
                list.push(PestGrammarError::from_raw(raw_meta_error(e)));
                proof {
                    assert forall|rule: Seq<char>, input: Seq<char>|
                        #[trigger] final(self).execute_outcome(rule, input) == old(
                            self,
                        ).execute_outcome(rule, input) by {}
                }
                Err(list)
            },
            Ok(pairs) => {
                let forest = forest_of_pairs(&pairs);
                let index = index_forest(&forest);
                match meta_validate(&pairs) {
                    Err(es) => {
                        self.references = index;
                        proof {
                            assert forall|rule: Seq<char>, input: Seq<char>|
                                #[trigger] final(self).execute_outcome(rule, input) == old(
                                    self,
                                ).execute_outcome(rule, input) by {}
                        }
                        Err(normalize_errors(es))
                    },
                    Ok(_) => {
                        match build_vm(&pairs) {
                            Err(es) => {
                                self.references = index;
                                proof {
                                    assert forall|rule: Seq<char>, input: Seq<char>|
                                        #[trigger] final(self).execute_outcome(rule, input) == old(
                                            self,
                                        ).execute_outcome(rule, input) by {}
                                }
                                Err(normalize_errors(es))
                            },
                            Ok((vm, names)) => {
                                self.references = index;
                                self.rule_names = clone_strings(&names);
                                self.vm = Some(vm);
                                proof {
                                    assert(self.rule_names.deep_view() =~= names.deep_view());
                                }
                                Ok(names)
                            },
                        }
                    },
                }
            },
        }
    }

    /// Executes the compiled rule set's `rule` against `input`. Before any
    /// successful compile this is the well-defined empty result, never an
    /// error. A rule name the compiled set does not define is a match
    /// failure, as is input the rule does not match. On a match, the result
    /// is the display tree: the invoked rule's name as the root label, one
    /// subtree per top-level match.
    pub fn parse_input(&self, input: &str, rule: &str) -> (r: Result<
        Option<TokenTree>,
        PestGrammarError,
    >)
        requires
            self.wf(),
        ensures
            match self.execute_outcome(rule@, input@) {
                ExecOutcome::Absent => r is Ok && r->Ok_0 is None,
                ExecOutcome::UnknownRule => r is Err && r->Err_0.message@ == "undefined rule "@
                    + rule@ && r->Err_0.location == (Location {
                    start_line: 1,
                    start_col: 1,
                    end_line: 1,
                    end_col: 1,
                }),
                ExecOutcome::Matched(ms) => r is Ok && r->Ok_0 is Some && (r->Ok_0->0).label@
                    == rule@ && (r->Ok_0->0).children@.len() == ms.len() && forall|i: int|
                    0 <= i < ms.len() ==> is_token_tree_of(
                        #[trigger] (r->Ok_0->0).children@[i],
                        ms[i],
                    ),
                ExecOutcome::Unmatched => r is Err,
            },
    {
        let known = contains_name(&self.rule_names, rule);
        match &self.vm {
            None => Ok(None),
            Some(vm) => {
                if !known {
                    proof {
                        assert(!vm_rule_set(*vm).contains(rule@));
                    }
                    Err(
                        PestGrammarError {
                            message: "undefined rule ".to_owned().concat(rule),
                            location: Location {
                                start_line: 1,
                                start_col: 1,
                                end_line: 1,
                                end_col: 1,
                            },
                        },
                    )
                } else {
                    proof {
                        assert(vm_rule_set(*vm).contains(rule@));
                    }
                    match vm_parse(vm, rule, input) {
                        Ok(pairs) => {
                            let ms = matches_of(&pairs);
                            Ok(Some(TokenTree::from_matches(rule, &ms)))
                        },
                        Err(e) => Err(PestGrammarError::from_raw(raw_vm_error(e))),
                    }
                }
            },
        }
    }

    /// Every location where `rule_name` occurs in the indexed grammar text,
    /// in depth-first source order, or `None` for a name that never occurs.
    pub fn find_rule_references(&self, rule_name: &str) -> (r: Option<Vec<Location>>)
        requires
            self.wf(),
        ensures
            match r {
                Some(locs) => self.reference_map().contains_key(rule_name@) && locs@
                    == self.reference_map()[rule_name@],
                None => !self.reference_map().contains_key(rule_name@),
            },
    {
        self.references.find(rule_name)
    }

    /// Every identifier text the index holds, each exactly once.
    pub fn get_all_rules(&self) -> (r: Vec<String>)
        requires
            self.wf(),
        ensures
            forall|name: Seq<char>| #[trigger]
                r.deep_view().contains(name) <==> self.reference_map().contains_key(name),
            forall|i: int, j: int| 0 <= i < j < r@.len() ==> r.deep_view()[i] != r.deep_view()[j],
    {
        self.references.names()
    }
}

/// Before any successful compile, every execution request has the empty
/// outcome, whatever the rule and the input: asking is never an error.
pub proof fn lemma_absent_before_compile(s: ParserState, rule: Seq<char>, input: Seq<char>)
    requires
        !s.grammar_loaded(),
    ensures
        s.execute_outcome(rule, input) == ExecOutcome::Absent,
{
}

/// Compiling the same grammar source twice in a row yields identical
/// rule-name lists and identical reference indexes both times: both are
/// functions of the source text alone.
pub proof fn lemma_compile_idempotent(
    source: Seq<char>,
    names1: Seq<Seq<char>>,
    names2: Seq<Seq<char>>,
    index1: Map<Seq<char>, Seq<Location>>,
    index2: Map<Seq<char>, Seq<Location>>,
)
    requires
        compile_succeeds(source),
        names1 == compiled_rule_names(source),
        names2 == compiled_rule_names(source),
        index1 == compiled_reference_index(source),
        index2 == compiled_reference_index(source),
    ensures
        names1 == names2,
        index1 == index2,
{
}

} // verus!
