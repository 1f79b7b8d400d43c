//! The grammar's syntax tree as plain data, the depth-first notion of
//! identifier occurrences, and the reference index that maps every rule name
//! written anywhere in the grammar source to the ordered locations where it
//! occurs.

use vstd::prelude::*;

use crate::location::Location;

verus! {

/// One node of the grammar's own syntax tree, as plain values: whether the
/// node is a rule-name identifier, the text it covers, where that text
/// stands, and its sub-nodes in source order.
pub struct SyntaxNode {
    pub is_identifier: bool,
    pub text: String,
    pub location: Location,
    pub children: Vec<SyntaxNode>,
}

/// One identifier occurrence: the name written and where it is written.
pub struct IdentOccurrence {
    pub name: Seq<char>,
    pub location: Location,
}

/// The identifier occurrences of one node, depth-first: an identifier node is
/// one occurrence and is not descended into; any other node contributes the
/// occurrences of its children, left to right.
pub open spec fn node_occurrences(n: SyntaxNode) -> Seq<IdentOccurrence>
    decreases n, 0int,
{
    if n.is_identifier {
        seq![IdentOccurrence { name: n.text@, location: n.location }]
    } else {
        forest_occurrences_from(n.children@, 0)
    }
}

/// The occurrences of the nodes of `s` from index `i` on, in order.
pub open spec fn forest_occurrences_from(s: Seq<SyntaxNode>, i: int) -> Seq<IdentOccurrence>
    decreases s, s.len() - i,
{
    if i < 0 || i >= s.len() {
        Seq::empty()
    } else {
        node_occurrences(s[i]) + forest_occurrences_from(s, i + 1)
    }
}

/// All identifier occurrences of a forest of top-level nodes, depth-first,
/// left to right.
pub open spec fn forest_occurrences(s: Seq<SyntaxNode>) -> Seq<IdentOccurrence> {
    forest_occurrences_from(s, 0)
}

/// The locations at which `name` occurs within `occs`, keeping order.
pub open spec fn locations_for(occs: Seq<IdentOccurrence>, name: Seq<char>) -> Seq<Location>
    decreases occs.len(),
{
    if occs.len() == 0 {
        Seq::empty()
    } else {
        let rest = locations_for(occs.drop_first(), name);
        if occs[0].name == name {
            seq![occs[0].location] + rest
        } else {
            rest
        }
    }
}

/// The reference index a forest determines: every name that occurs at least
/// once maps to all of its occurrence locations, in depth-first source order.
pub open spec fn index_of_forest(s: Seq<SyntaxNode>) -> Map<Seq<char>, Seq<Location>> {
    Map::new(
        |name: Seq<char>| locations_for(forest_occurrences(s), name).len() > 0,
        |name: Seq<char>| locations_for(forest_occurrences(s), name),
    )
}

/// Round trip between writing a rule name and querying it: a name is indexed
/// exactly when it occurs in the grammar's syntax tree, and its entry then
/// lists every occurrence location — definition sites and use sites alike —
/// in depth-first source order.
pub proof fn lemma_reference_round_trip(forest: Seq<SyntaxNode>, name: Seq<char>)
    ensures
        index_of_forest(forest).contains_key(name) <==> locations_for(
            forest_occurrences(forest),
            name,
        ).len() > 0,
        index_of_forest(forest).contains_key(name) ==> index_of_forest(forest)[name]
            == locations_for(forest_occurrences(forest), name),
{
}

/// Recording one occurrence into an index map: the location is appended to
/// the name's list, which starts empty for a name not yet present.
pub open spec fn record_one(
    m: Map<Seq<char>, Seq<Location>>,
    o: IdentOccurrence,
) -> Map<Seq<char>, Seq<Location>> {
    let prior = if m.contains_key(o.name) {
        m[o.name]
    } else {
        Seq::empty()
    };
    m.insert(o.name, prior.push(o.location))
}

/// Recording a sequence of occurrences, first to last.
pub open spec fn record_occs(
    m: Map<Seq<char>, Seq<Location>>,
    occs: Seq<IdentOccurrence>,
) -> Map<Seq<char>, Seq<Location>>
    decreases occs.len(),
{
    if occs.len() == 0 {
        m
    } else {
        record_occs(record_one(m, occs[0]), occs.drop_first())
    }
}

proof fn lemma_record_occs_concat(
    m: Map<Seq<char>, Seq<Location>>,
    a: Seq<IdentOccurrence>,
    b: Seq<IdentOccurrence>,
)
    ensures
        record_occs(m, a + b) == record_occs(record_occs(m, a), b),
    decreases a.len(),
{
    if a.len() == 0 {
        assert(a + b =~= b);
    } else {
        assert((a + b).drop_first() =~= a.drop_first() + b);
        lemma_record_occs_concat(record_one(m, a[0]), a.drop_first(), b);
    }
}

proof fn lemma_record_occs_value(
    m: Map<Seq<char>, Seq<Location>>,
    occs: Seq<IdentOccurrence>,
    name: Seq<char>,
)
    ensures
        record_occs(m, occs).contains_key(name) <==> (m.contains_key(name) || locations_for(
            occs,
            name,
        ).len() > 0),
        record_occs(m, occs).contains_key(name) ==> record_occs(m, occs)[name] == (if m.contains_key(
            name,
        ) {
            m[name]
        } else {
            Seq::empty()
        }) + locations_for(occs, name),
    decreases occs.len(),
{
    if occs.len() == 0 {
        if m.contains_key(name) {
            assert(m[name] + Seq::<Location>::empty() =~= m[name]);
        }
    } else {
        let o = occs[0];
        let m1 = record_one(m, o);
        lemma_record_occs_value(m1, occs.drop_first(), name);
        let prior = if m.contains_key(name) {
            m[name]
        } else {
            Seq::<Location>::empty()
        };
        if o.name == name {
            if record_occs(m, occs).contains_key(name) {
                assert(prior.push(o.location) =~= prior + seq![o.location]);
                assert((prior + seq![o.location]) + locations_for(occs.drop_first(), name) =~= prior
                    + (seq![o.location] + locations_for(occs.drop_first(), name)));
            }
        }
    }
}

/// The index built by recording a forest's occurrences into the empty map is
/// exactly the index the forest determines.
pub proof fn lemma_record_occs_is_index(forest: Seq<SyntaxNode>)
    ensures
        record_occs(Map::empty(), forest_occurrences(forest)) == index_of_forest(forest),
{
    let built = record_occs(Map::empty(), forest_occurrences(forest));
    let declared = index_of_forest(forest);
    assert forall|name: Seq<char>| #![all_triggers]
        built.contains_key(name) == declared.contains_key(name) && (built.contains_key(name)
            ==> built[name] == declared[name]) by {
        lemma_record_occs_value(Map::empty(), forest_occurrences(forest), name);
        if built.contains_key(name) {
            assert(Seq::<Location>::empty() + locations_for(forest_occurrences(forest), name)
                =~= locations_for(forest_occurrences(forest), name));
        }
    }
    assert(built =~= declared);
}

/// The reference index: names in first-encounter order, each with every
/// location where it occurs, in source order.
pub struct ReferenceIndex {
    entries: Vec<(String, Vec<Location>)>,
}

spec fn entry_keys_distinct(s: Seq<(String, Vec<Location>)>) -> bool {
    forall|i: int, j: int| 0 <= i < j < s.len() ==> s[i].0@ != s[j].0@
}

impl ReferenceIndex {
    /// Distinct names, one entry per name.
    pub closed spec fn wf(self) -> bool {
        entry_keys_distinct(self.entries@)
    }
}

spec fn entries_map(s: Seq<(String, Vec<Location>)>) -> Map<Seq<char>, Seq<Location>>
    decreases s.len(),
{
    if s.len() == 0 {
        Map::empty()
    } else {
        entries_map(s.drop_last()).insert(s.last().0@, s.last().1@)
    }
}

impl View for ReferenceIndex {
    type V = Map<Seq<char>, Seq<Location>>;

    closed spec fn view(&self) -> Map<Seq<char>, Seq<Location>> {
        entries_map(self.entries@)
    }
}

proof fn lemma_entries_map_props(s: Seq<(String, Vec<Location>)>)
    requires
        entry_keys_distinct(s),
    ensures
        forall|name: Seq<char>| #[trigger]
            entries_map(s).contains_key(name) <==> (exists|i: int|
                0 <= i < s.len() && s[i].0@ == name),
        forall|i: int| #![all_triggers]
            0 <= i < s.len() ==> entries_map(s).contains_key(s[i].0@) && entries_map(s)[s[i].0@]
                == s[i].1@,
    decreases s.len(),
{
    if s.len() > 0 {
        let d = s.drop_last();
        assert(entry_keys_distinct(d));
        lemma_entries_map_props(d);
        assert forall|i: int| 0 <= i < s.len() - 1 implies d[i] == s[i] by {}
        assert forall|i: int| #![all_triggers]
            0 <= i < s.len() implies entries_map(s).contains_key(s[i].0@) && entries_map(s)[s[i].0@]
            == s[i].1@ by {
            if i < s.len() - 1 {
                assert(entries_map(d).contains_key(d[i].0@) && entries_map(d)[d[i].0@] == d[i].1@);
                assert(s[i].0@ != s.last().0@);
            }
        }
        assert forall|name: Seq<char>| #[trigger]
            entries_map(s).contains_key(name) implies (exists|i: int|
            0 <= i < s.len() && s[i].0@ == name) by {
            if name == s.last().0@ {
                assert(s[s.len() - 1].0@ == name);
            } else {
                assert(entries_map(d).contains_key(name));
                let w = choose|w: int| 0 <= w < d.len() && d[w].0@ == name;
                assert(s[w].0@ == name);
            }
        }
    }
}

proof fn lemma_entries_map_update(
    s: Seq<(String, Vec<Location>)>,
    i: int,
    e: (String, Vec<Location>),
)
    requires
        entry_keys_distinct(s),
        0 <= i < s.len(),
        e.0@ == s[i].0@,
    ensures
        entries_map(s.update(i, e)) == entries_map(s).insert(e.0@, e.1@),
    decreases s.len(),
{
    if i == s.len() - 1 {
        assert(s.update(i, e).drop_last() =~= s.drop_last());
        assert(entries_map(s.update(i, e)) == entries_map(s.drop_last()).insert(e.0@, e.1@));
        assert(entries_map(s.drop_last()).insert(s.last().0@, s.last().1@).insert(e.0@, e.1@)
            =~= entries_map(s.drop_last()).insert(e.0@, e.1@));
    } else {
        assert(s.update(i, e).drop_last() =~= s.drop_last().update(i, e));
        assert(entry_keys_distinct(s.drop_last()));
        lemma_entries_map_update(s.drop_last(), i, e);
        assert(s.update(i, e).last() == s.last());
        assert(e.0@ != s.last().0@);
        assert(entries_map(s.drop_last()).insert(e.0@, e.1@).insert(s.last().0@, s.last().1@)
            =~= entries_map(s.drop_last()).insert(s.last().0@, s.last().1@).insert(e.0@, e.1@));
    }
}

impl ReferenceIndex {
    /// The empty index.
    pub fn new() -> (r: ReferenceIndex)
        ensures
            r.wf(),
            r@ == Map::<Seq<char>, Seq<Location>>::empty(),
    {
        ReferenceIndex { entries: Vec::new() }
    }

    /// The list already recorded for `name`, empty for an unseen name.
    pub open spec fn recorded_for(self, name: Seq<char>) -> Seq<Location> {
        if self@.contains_key(name) {
            self@[name]
        } else {
            Seq::empty()
        }
    }

    /// Appends one occurrence of `name` at `location`, preserving the order
    /// of everything already recorded.
    pub fn record(&mut self, name: &str, location: Location)
        requires
            old(self).wf(),
        ensures
            final(self).wf(),
            final(self)@ == old(self)@.insert(
                name@,
                old(self).recorded_for(name@).push(location),
            ),
    {
        proof {
            lemma_entries_map_props(self.entries@);
        }
        let key: String = name.to_owned();
        let n = self.entries.len();
        let mut i: usize = 0;
        while i < n
            invariant
                n == self.entries@.len(),
                0 <= i <= n,
                *self == *old(self),
                old(self).wf(),
                key@ == name@,
                forall|j: int| 0 <= j < i ==> self.entries@[j].0@ != name@,
            decreases n - i,
        {
            if self.entries[i].0 == key {
                let slot = &mut self.entries[i];
                slot.1.push(location);
                proof {
                    let s0 = old(self).entries@;
                    lemma_entries_map_props(s0);
                    let e = self.entries@[i as int];
                    assert(e.0@ == s0[i as int].0@);
                    lemma_entries_map_update(s0, i as int, e);
                    assert forall|a: int, b: int|
                        0 <= a < b < self.entries@.len() implies self.entries@[a].0@
                        != self.entries@[b].0@ by {
                        assert(self.entries@ == s0.update(i as int, e));
                    }
                }
                return ;
            }
            i += 1;
        }
        let mut first: Vec<Location> = Vec::new();
        first.push(location);
        self.entries.push((key, first));
        proof {
            assert(self.entries@.drop_last() =~= old(self).entries@);
        }
    }

    /// Every location recorded for `name`, in recording order, or `None` for
    /// a name never recorded.
    pub fn find(&self, name: &str) -> (r: Option<Vec<Location>>)
        requires
            self.wf(),
        ensures
            match r {
                Some(locs) => self@.contains_key(name@) && locs@ == self@[name@],
                None => !self@.contains_key(name@),
            },
    {
        proof {
            lemma_entries_map_props(self.entries@);
        }
        let key: String = name.to_owned();
        let n = self.entries.len();
        let mut i: usize = 0;
        while i < n
            invariant
                n == self.entries@.len(),
                0 <= i <= n,
                self.wf(),
                key@ == name@,
                forall|j: int| 0 <= j < i ==> self.entries@[j].0@ != name@,
            decreases n - i,
        {
            if self.entries[i].0 == key {
                let found = &self.entries[i].1;
                let m = found.len();
                let mut out: Vec<Location> = Vec::new();
                let mut k: usize = 0;
                while k < m
                    invariant
                        m == found@.len(),
                        0 <= k <= m,
                        out@ == found@.subrange(0, k as int),
                    decreases m - k,
                {
                    out.push(found[k]);
                    proof {
                        assert(out@ =~= found@.subrange(0, k + 1 as int));
                    }
                    k += 1;
                }
                proof {
                    assert(out@ =~= found@);
                    lemma_entries_map_props(self.entries@);
                }
                return Some(out);
            }
            i += 1;
        }
        None
    }

    /// Every recorded name, one occurrence each.
    pub fn names(&self) -> (r: Vec<String>)
        requires
            self.wf(),
        ensures
            forall|name: Seq<char>| #[trigger]
                r.deep_view().contains(name) <==> self@.contains_key(name),
            forall|i: int, j: int| 0 <= i < j < r@.len() ==> r.deep_view()[i] != r.deep_view()[j],
    {
        proof {
            lemma_entries_map_props(self.entries@);
        }
        let n = self.entries.len();
        let mut out: Vec<String> = Vec::new();
        let mut i: usize = 0;
        while i < n
            invariant
                n == self.entries@.len(),
                0 <= i <= n,
                self.wf(),
                out@.len() == i,
                forall|j: int| #![all_triggers]
                    0 <= j < i ==> out.deep_view()[j] == self.entries@[j].0@,
            decreases n - i,
        {
            out.push(self.entries[i].0.clone());
            i += 1;
        }
        proof {
            assert forall|name: Seq<char>| #[trigger]
                out.deep_view().contains(name) <==> self@.contains_key(name) by {
                if self@.contains_key(name) {
                    let w = choose|w: int| 0 <= w < self.entries@.len() && self.entries@[w].0@
                        == name;
                    assert(out.deep_view()[w] == name);
                }
                if out.deep_view().contains(name) {
                    let w = choose|w: int| 0 <= w < out.deep_view().len() && out.deep_view()[w]
                        == name;
                    assert(self.entries@[w].0@ == name);
                }
            }
        }
        out
    }
}

/// Records every identifier occurrence of `node`, depth-first.
fn record_node(idx: &mut ReferenceIndex, node: &SyntaxNode)
    requires
        old(idx).wf(),
    ensures
        final(idx).wf(),
        final(idx)@ == record_occs(old(idx)@, node_occurrences(*node)),
    decreases *node,
{
    if node.is_identifier {
        idx.record(node.text.as_str(), node.location);
        proof {
            let o = IdentOccurrence { name: node.text@, location: node.location };
            assert(node_occurrences(*node) == seq![o]);
            assert(seq![o][0] == o);
            assert(seq![o].drop_first() =~= Seq::<IdentOccurrence>::empty());
            assert(record_occs(record_one(old(idx)@, o), Seq::<IdentOccurrence>::empty())
                == record_one(old(idx)@, o));
            assert(record_occs(old(idx)@, seq![o]) == record_one(old(idx)@, o));
        }
    } else {
        let n = node.children.len();
        let mut i: usize = 0;
        while i < n
            invariant
                n == node.children@.len(),
                0 <= i <= n,
                idx.wf(),
                record_occs(idx@, forest_occurrences_from(node.children@, i as int))
                    == record_occs(old(idx)@, forest_occurrences_from(node.children@, 0)),
            decreases n - i,
        {
            let ghost pre = idx@;
            record_node(idx, &node.children[i]);
            proof {
                lemma_record_occs_concat(
                    pre,
                    node_occurrences(node.children@[i as int]),
                    forest_occurrences_from(node.children@, i + 1 as int),
                );
            }
            i += 1;
        }
    }
}

/// Builds the reference index of a forest: a depth-first traversal that
/// records each identifier occurrence as it is encountered.
pub fn index_forest(forest: &Vec<SyntaxNode>) -> (r: ReferenceIndex)
    ensures
        r.wf(),
        r@ == index_of_forest(forest@),
{
    let mut idx = ReferenceIndex::new();
    let n = forest.len();
    let mut i: usize = 0;
    while i < n
        invariant
            n == forest@.len(),
            0 <= i <= n,
            idx.wf(),
            record_occs(idx@, forest_occurrences_from(forest@, i as int)) == record_occs(
                Map::empty(),
                forest_occurrences_from(forest@, 0),
            ),
        decreases n - i,
    {
        let ghost pre = idx@;
        record_node(&mut idx, &forest[i]);
        proof {
            lemma_record_occs_concat(
                pre,
                node_occurrences(forest@[i as int]),
                forest_occurrences_from(forest@, i + 1 as int),
            );
        }
        i += 1;
    }
    proof {
        lemma_record_occs_is_index(forest@);
    }
    idx
}

} // verus!
