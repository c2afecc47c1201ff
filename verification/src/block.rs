use vstd::prelude::*;
use crate::text::{chars_of, push_str, concat_all, texts};

verus! {

/// A block of statements and how it is laid out.
pub struct Block<S> {
    pub statements: Vec<S>,
    pub should_indent: bool,
    pub needs_noop: bool,
    pub parses_syntax: bool,
    pub is_conditional: bool,
}

impl<S> Block<S> {
    /// An empty block that is indented, parses its braces, and is neither
    /// conditional nor in need of a no-op.
    pub fn new() -> (r: Self)
        ensures
            r.statements@.len() == 0,
            r.should_indent,
            r.parses_syntax,
            !r.needs_noop,
            !r.is_conditional,
    {
        Block { statements: Vec::new(), should_indent: true, needs_noop: false, parses_syntax: true, is_conditional: false }
    }

    pub fn is_empty(&self) -> (r: bool)
        ensures
            r == (self.statements@.len() == 0),
    {
        self.statements.len() == 0
    }

    pub fn with_condition(self) -> (r: Self)
        ensures
            r.is_conditional,
            r.statements == self.statements,
            r.should_indent == self.should_indent,
            r.needs_noop == self.needs_noop,
            r.parses_syntax == self.parses_syntax,
    {
        let mut b = self;
        b.is_conditional = true;
        b
    }

    pub fn with_needs_noop(self) -> (r: Self)
        ensures
            r.needs_noop,
            r.statements == self.statements,
            r.should_indent == self.should_indent,
            r.is_conditional == self.is_conditional,
            r.parses_syntax == self.parses_syntax,
    {
        let mut b = self;
        b.needs_noop = true;
        b
    }

    pub fn with_no_indent(self) -> (r: Self)
        ensures
            !r.should_indent,
            r.statements == self.statements,
            r.needs_noop == self.needs_noop,
            r.is_conditional == self.is_conditional,
            r.parses_syntax == self.parses_syntax,
    {
        let mut b = self;
        b.should_indent = false;
        b
    }

    pub fn with_no_syntax(self) -> (r: Self)
        ensures
            !r.parses_syntax,
            r.statements == self.statements,
            r.should_indent == self.should_indent,
            r.needs_noop == self.needs_noop,
            r.is_conditional == self.is_conditional,
    {
        let mut b = self;
        b.parses_syntax = false;
        b
    }

    pub fn push_statement(&mut self, statement: S)
        ensures
            final(self).statements@ == old(self).statements@.push(statement),
            final(self).should_indent == old(self).should_indent,
            final(self).needs_noop == old(self).needs_noop,
            final(self).is_conditional == old(self).is_conditional,
            final(self).parses_syntax == old(self).parses_syntax,
    {
        self.statements.push(statement);
    }
}

/// Lexicographic order of texts by character, as `String`'s ordering has it.
pub open spec fn text_lt(a: Seq<char>, b: Seq<char>) -> bool
    decreases a.len(),
{
    if a.len() == 0 {
        b.len() > 0
    } else if b.len() == 0 {
        false
    } else if a[0] != b[0] {
        a[0] < b[0]
    } else {
        text_lt(a.drop_first(), b.drop_first())
    }
}

proof fn lemma_text_lt_irreflexive(a: Seq<char>)
    ensures
        !text_lt(a, a),
    decreases a.len(),
{
    if a.len() > 0 {
        lemma_text_lt_irreflexive(a.drop_first());
    }
}

proof fn lemma_text_lt_total(a: Seq<char>, b: Seq<char>)
    ensures
        a == b || text_lt(a, b) || text_lt(b, a),
        !(text_lt(a, b) && text_lt(b, a)),
    decreases a.len(),
{
    if a.len() > 0 && b.len() > 0 {
        if a[0] == b[0] {
            lemma_text_lt_total(a.drop_first(), b.drop_first());
            if a.drop_first() == b.drop_first() {
                assert(a =~= seq![a[0]] + a.drop_first());
                assert(b =~= seq![b[0]] + b.drop_first());
            }
        }
    } else if a.len() == 0 && b.len() == 0 {
        assert(a =~= b);
    }
}

proof fn lemma_text_lt_transitive(a: Seq<char>, b: Seq<char>, c: Seq<char>)
    requires
        text_lt(a, b),
        text_lt(b, c),
    ensures
        text_lt(a, c),
    decreases a.len(),
{
    if a.len() > 0 && b.len() > 0 && c.len() > 0 {
        if a[0] == b[0] && b[0] == c[0] {
            lemma_text_lt_transitive(a.drop_first(), b.drop_first(), c.drop_first());
        }
    }
}

/// The sort key of the statement at `i`: its documented name, then its index.
pub open spec fn key_lt(names: Seq<Option<Seq<char>>>, i: int, j: int) -> bool {
    text_lt(names[i]->0, names[j]->0) || (names[i]->0 == names[j]->0 && i < j)
}

/// The order in which the documented statements are rendered: each index of
/// a statement with a name exactly once, sorted by name and then by
/// position.
pub open spec fn is_doc_order(names: Seq<Option<Seq<char>>>, order: Seq<usize>) -> bool {
    &&& forall|k: int| 0 <= k < order.len() ==> (#[trigger] order[k]) < names.len() && names[order[k] as int] is Some
    &&& forall|i: int| 0 <= i < names.len() && #[trigger] names[i] is Some ==> order.contains(i as usize)
    &&& forall|a: int, b: int| 0 <= a < b < order.len() ==> key_lt(names, #[trigger] order[a] as int, #[trigger] order[b] as int)
}

pub open spec fn names_view(v: Seq<Option<String>>) -> Seq<Option<Seq<char>>> {
    v.map_values(|o: Option<String>| crate::text::opt_string_view(o))
}

fn text_less(a: &Vec<char>, b: &Vec<char>) -> (r: bool)
    ensures
        r == text_lt(a@, b@),
{
    let mut i: usize = 0;
    assert(a@.skip(0) =~= a@);
    assert(b@.skip(0) =~= b@);
    while i < a.len() && i < b.len() && a[i] == b[i]
        invariant
            i <= a@.len(),
            i <= b@.len(),
            text_lt(a@, b@) == text_lt(a@.skip(i as int), b@.skip(i as int)),
        decreases a@.len() - i,
    {
        proof {
            assert(a@.skip(i as int).drop_first() =~= a@.skip(i + 1));
            assert(b@.skip(i as int).drop_first() =~= b@.skip(i + 1));
        }
        i = i + 1;
    }
    proof {
        if i < a@.len() {
            assert(a@.skip(i as int)[0] == a@[i as int]);
        }
        if i < b@.len() {
            assert(b@.skip(i as int)[0] == b@[i as int]);
        }
    }
    if i == a.len() {
        i < b.len()
    } else if i == b.len() {
        false
    } else {
        a[i] < b[i]
    }
}

proof fn lemma_key_total(names: Seq<Option<Seq<char>>>, i: int, j: int)
    requires
        i != j,
    ensures
        key_lt(names, i, j) || key_lt(names, j, i),
        !(key_lt(names, i, j) && key_lt(names, j, i)),
{
    lemma_text_lt_total(names[i]->0, names[j]->0);
    if names[i]->0 == names[j]->0 {
        lemma_text_lt_irreflexive(names[i]->0);
    }
}

proof fn lemma_key_transitive(names: Seq<Option<Seq<char>>>, i: int, j: int, k: int)
    requires
        key_lt(names, i, j),
        key_lt(names, j, k),
    ensures
        key_lt(names, i, k),
{
    if text_lt(names[i]->0, names[j]->0) && text_lt(names[j]->0, names[k]->0) {
        lemma_text_lt_transitive(names[i]->0, names[j]->0, names[k]->0);
    }
}

/// The order in which the statements named `names` are documented.
pub fn doc_order(names: &Vec<Option<String>>) -> (r: Vec<usize>)
    ensures
        is_doc_order(names_view(names@), r@),
{
    let ghost nv = names_view(names@);
    let mut chars: Vec<Vec<char>> = Vec::new();
    let mut i: usize = 0;
    while i < names.len()
        invariant
            i <= names@.len(),
            nv == names_view(names@),
            chars@.len() == i,
            forall|k: int| 0 <= k < i ==> (#[trigger] nv[k]) is Some ==> chars@[k]@ == nv[k]->0,
        decreases names@.len() - i,
    {
        match &names[i] {
            Some(n) => chars.push(chars_of(n.as_str())),
            None => chars.push(Vec::new()),
        }
        i = i + 1;
    }
    let mut order: Vec<usize> = Vec::new();
    let mut i: usize = 0;
    while i < names.len()
        invariant
            i <= names@.len(),
            nv == names_view(names@),
            chars@.len() == names@.len(),
            forall|k: int| 0 <= k < names@.len() ==> (#[trigger] nv[k]) is Some ==> chars@[k]@ == nv[k]->0,
            forall|k: int| 0 <= k < order@.len() ==> (#[trigger] order@[k]) < i && nv[order@[k] as int] is Some,
            forall|k: int| 0 <= k < i && #[trigger] nv[k] is Some ==> order@.contains(k as usize),
            forall|a: int, b: int| 0 <= a < b < order@.len() ==> key_lt(nv, #[trigger] order@[a] as int, #[trigger] order@[b] as int),
        decreases names@.len() - i,
    {
        if names[i].is_some() {
            assert(nv[i as int] is Some);
            // position of the first element whose key is greater than i's
            let mut p: usize = 0;
            while p < order.len() && !(text_less(&chars[i], &chars[order[p]]))
                invariant
                    p <= order@.len(),
                    i < names@.len(),
                    nv[i as int] is Some,
                    chars@.len() == names@.len(),
                    forall|k: int| 0 <= k < names@.len() ==> (#[trigger] nv[k]) is Some ==> chars@[k]@ == nv[k]->0,
                    forall|k: int| 0 <= k < order@.len() ==> (#[trigger] order@[k]) < i && nv[order@[k] as int] is Some,
                    forall|k: int| 0 <= k < p ==> key_lt(nv, #[trigger] order@[k] as int, i as int),
                decreases order@.len() - p,
            {
                proof {
                    let o = order@[p as int] as int;
                    assert(o < i);
                    lemma_text_lt_total(nv[i as int]->0, nv[o]->0);
                }
                p = p + 1;
            }
            proof {
                if p < order@.len() {
                    let o = order@[p as int] as int;
                    assert(key_lt(nv, i as int, o));
                }
            }
            let ghost before = order@;
            order.insert(p, i);
            proof {
                assert forall|a: int, b: int| 0 <= a < b < order@.len() implies key_lt(nv, #[trigger] order@[a] as int, #[trigger] order@[b] as int) by {
                    if a < p && b == p {
                    } else if a < p && b > p {
                        assert(order@[b] == before[b - 1]);
                        assert(key_lt(nv, before[a] as int, i as int));
                        assert(key_lt(nv, i as int, before[p as int] as int));
                        if b - 1 > p {
                            assert(key_lt(nv, before[p as int] as int, before[b - 1] as int));
                            lemma_key_transitive(nv, i as int, before[p as int] as int, before[b - 1] as int);
                        }
                        lemma_key_transitive(nv, before[a] as int, i as int, before[b - 1] as int);
                    } else if a == p {
                        assert(order@[b] == before[b - 1]);
                        if b - 1 > p {
                            assert(key_lt(nv, before[p as int] as int, before[b - 1] as int));
                            lemma_key_transitive(nv, i as int, before[p as int] as int, before[b - 1] as int);
                        }
                    } else if a > p {
                        assert(order@[a] == before[a - 1]);
                        assert(order@[b] == before[b - 1]);
                    }
                }
                assert forall|k: int| 0 <= k < i + 1 && #[trigger] nv[k] is Some implies order@.contains(k as usize) by {
                    if k < i {
                        let m = choose|m: int| 0 <= m < before.len() && before[m] == k as usize;
                        if m < p {
                            assert(order@[m] == k as usize);
                        } else {
                            assert(order@[m + 1] == k as usize);
                        }
                    } else {
                        assert(order@[p as int] == i);
                    }
                }
            }
        }
        i = i + 1;
    }
    order
}

impl<S> Block<S> {
    /// The documentation of the block: the documentation of its named
    /// statements, ordered by name and then by position, concatenated.
    /// `names` and `docs` hold, for each statement, its documented name (if
    /// it has one) and its rendered documentation.
    pub fn document(&self, names: &Vec<Option<String>>, docs: &Vec<String>) -> (r: String)
        requires
            names@.len() == docs@.len(),
        ensures
            exists|order: Seq<usize>| is_doc_order(names_view(names@), order) && r@ == concat_all(
                order.map_values(|k: usize| docs@[k as int]@),
            ),
    {
        let order = doc_order(names);
        let mut r = String::new();
        let mut k: usize = 0;
        while k < order.len()
            invariant
                k <= order@.len(),
                is_doc_order(names_view(names@), order@),
                names@.len() == docs@.len(),
                r@ == concat_all(order@.take(k as int).map_values(|j: usize| docs@[j as int]@)),
            decreases order@.len() - k,
        {
            let j = order[k];
            assert(j < names@.len());
            push_str(&mut r, docs[j].as_str());
            proof {
                assert(order@.take(k + 1).map_values(|j: usize| docs@[j as int]@).drop_last() =~= order@.take(k as int).map_values(|j: usize| docs@[j as int]@));
            }
            k = k + 1;
        }
        assert(order@.take(order@.len() as int) =~= order@);
        r
    }
}

/// The documentation order is unique: two orders of the same statements
/// are equal.
pub proof fn law_doc_order_unique(names: Seq<Option<Seq<char>>>, a: Seq<usize>, b: Seq<usize>)
    requires
        names.len() <= usize::MAX,
        is_doc_order(names, a),
        is_doc_order(names, b),
    ensures
        a == b,
    decreases a.len() + b.len(),
{
    lemma_doc_order_unique(names, a, b);
}

proof fn lemma_sorted_distinct(names: Seq<Option<Seq<char>>>, a: Seq<usize>, x: int, y: int)
    requires
        is_doc_order(names, a),
        0 <= x < y < a.len(),
    ensures
        a[x] != a[y],
{
    assert(key_lt(names, a[x] as int, a[y] as int));
    lemma_text_lt_irreflexive(names[a[x] as int]->0);
}

proof fn lemma_doc_order_unique(names: Seq<Option<Seq<char>>>, a: Seq<usize>, b: Seq<usize>)
    requires
        names.len() <= usize::MAX,
        is_doc_order(names, a),
        is_doc_order(names, b),
    ensures
        a == b,
    decreases a.len() + b.len(),
{
    // every element of one order is in the other
    assert forall|k: int| 0 <= k < a.len() implies b.contains(#[trigger] a[k]) by {
        assert(names[a[k] as int] is Some);
    }
    assert forall|k: int| 0 <= k < b.len() implies a.contains(#[trigger] b[k]) by {
        assert(names[b[k] as int] is Some);
    }
    if a.len() == 0 {
        if b.len() > 0 {
            assert(a.contains(b[0]));
        }
        assert(a =~= b);
    } else if b.len() == 0 {
        assert(b.contains(a[0]));
    } else {
        // the first elements are both the least key
        let ia = choose|m: int| 0 <= m < b.len() && b[m] == a[0];
        let ib = choose|m: int| 0 <= m < a.len() && a[m] == b[0];
        if a[0] != b[0] {
            assert(ia > 0 && ib > 0);
            assert(key_lt(names, b[0] as int, b[ia] as int));
            assert(key_lt(names, a[0] as int, a[ib] as int));
            lemma_key_total(names, a[0] as int, b[0] as int);
        }
        assert(a[0] == b[0]);
        let a1 = a.drop_first();
        let b1 = b.drop_first();
        let n1 = names.update(a[0] as int, None);
        assert(is_doc_order(n1, a1)) by {
            assert forall|k: int| 0 <= k < a1.len() implies (#[trigger] a1[k]) < n1.len() && n1[a1[k] as int] is Some by {
                lemma_sorted_distinct(names, a, 0, k + 1);
            }
            assert forall|i: int| 0 <= i < n1.len() && #[trigger] n1[i] is Some implies a1.contains(i as usize) by {
                assert(a.contains(i as usize));
                let m = choose|m: int| 0 <= m < a.len() && a[m] == i as usize;
                if m == 0 {
                    assert(a[0] as int == i);
                    assert(n1[i] is None);
                }
                assert(a1[m - 1] == i as usize);
            }
            assert forall|x: int, y: int| 0 <= x < y < a1.len() implies key_lt(n1, #[trigger] a1[x] as int, #[trigger] a1[y] as int) by {
                assert(key_lt(names, a[x + 1] as int, a[y + 1] as int));
                lemma_sorted_distinct(names, a, 0, x + 1);
                lemma_sorted_distinct(names, a, 0, y + 1);
            }
        }
        assert(is_doc_order(n1, b1)) by {
            assert forall|k: int| 0 <= k < b1.len() implies (#[trigger] b1[k]) < n1.len() && n1[b1[k] as int] is Some by {
                lemma_sorted_distinct(names, b, 0, k + 1);
            }
            assert forall|i: int| 0 <= i < n1.len() && #[trigger] n1[i] is Some implies b1.contains(i as usize) by {
                assert(b.contains(i as usize));
                let m = choose|m: int| 0 <= m < b.len() && b[m] == i as usize;
                if m == 0 {
                    assert(b[0] as int == i);
                    assert(n1[i] is None);
                }
                assert(b1[m - 1] == i as usize);
            }
            assert forall|x: int, y: int| 0 <= x < y < b1.len() implies key_lt(n1, #[trigger] b1[x] as int, #[trigger] b1[y] as int) by {
                assert(key_lt(names, b[x + 1] as int, b[y + 1] as int));
                lemma_sorted_distinct(names, b, 0, x + 1);
                lemma_sorted_distinct(names, b, 0, y + 1);
            }
        }
        lemma_doc_order_unique(n1, a1, b1);
        assert(a =~= seq![a[0]] + a1);
        assert(b =~= seq![b[0]] + b1);
    }
}

} // verus!
