//! The match results the engine reports, as plain nodes, and their
//! transformation into the generic labeled tree used for display.

use vstd::prelude::*;
use vstd::string::StringExecFns;

verus! {

/// One match the engine produced: the matched rule's name, the text it
/// matched, and the nested sub-matches in order.
pub struct MatchNode {
    pub name: String,
    pub text: String,
    pub children: Vec<MatchNode>,
}

/// A generic labeled tree suitable for display. An internal node carries the
/// matched rule's name; a leaf carries the rule's name and the matched text
/// rendered together, separated by a newline.
#[derive(Debug)]
pub struct TokenTree {
    pub label: String,
    pub children: Vec<TokenTree>,
}

/// The exact shape `TokenTree::from_match` produces: a match with sub-matches
/// becomes an internal node labeled with the rule's name, one child per
/// sub-match; a match without sub-matches becomes a leaf whose label joins
/// the rule's name and the matched text with a newline.
pub open spec fn is_token_tree_of(t: TokenTree, m: MatchNode) -> bool
    decreases m,
{
    if m.children@.len() > 0 {
        &&& t.label@ == m.name@
        &&& t.children@.len() == m.children@.len()
        &&& forall|i: int|
            0 <= i < m.children@.len() ==> is_token_tree_of(
                #[trigger] t.children@[i],
                m.children@[i],
            )
    } else {
        &&& t.label@ == m.name@ + "\n"@ + m.text@
        &&& t.children@.len() == 0
    }
}

impl TokenTree {
    /// A tree from a label and already-built children.
    pub fn new(label: String, children: Vec<TokenTree>) -> (r: TokenTree)
        ensures
            r.label == label,
            r.children == children,
    {
        TokenTree { label, children }
    }

    /// The display tree of one match, built recursively.
    pub fn from_match(m: &MatchNode) -> (r: TokenTree)
        ensures
            is_token_tree_of(r, *m),
        decreases *m,
    {
        let n = m.children.len();
        if n > 0 {
            let mut kids: Vec<TokenTree> = Vec::new();
            let mut i: usize = 0;
            while i < n
                invariant
                    n == m.children@.len(),
                    0 <= i <= n,
                    kids@.len() == i,
                    forall|j: int|
                        0 <= j < i ==> is_token_tree_of(#[trigger] kids@[j], m.children@[j]),
                decreases n - i,
            {
                kids.push(TokenTree::from_match(&m.children[i]));
                i += 1;
            }
            TokenTree { label: m.name.clone(), children: kids }
        } else {
            let mut label = m.name.clone();
            label.append("\n");
            label.append(m.text.as_str());
            TokenTree { label, children: Vec::new() }
        }
    }

    /// The display tree of a whole run: the invoked rule's name is the
    /// synthetic root label, with one child per top-level match.
    pub fn from_matches(rule: &str, ms: &Vec<MatchNode>) -> (r: TokenTree)
        ensures
            r.label@ == rule@,
            r.children@.len() == ms@.len(),
            forall|i: int|
                0 <= i < ms@.len() ==> is_token_tree_of(#[trigger] r.children@[i], ms@[i]),
    {
        let n = ms.len();
        let mut kids: Vec<TokenTree> = Vec::new();
        let mut i: usize = 0;
        while i < n
            invariant
                n == ms@.len(),
                0 <= i <= n,
                kids@.len() == i,
                forall|j: int| 0 <= j < i ==> is_token_tree_of(#[trigger] kids@[j], ms@[j]),
            decreases n - i,
        {
            kids.push(TokenTree::from_match(&ms[i]));
            i += 1;
        }
        TokenTree { label: rule.to_owned(), children: kids }
    }
}

} // verus!
