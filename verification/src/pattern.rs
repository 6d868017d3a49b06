//! The polymorphic pattern tree: a conjunction of sub-patterns, or a single
//! constraint as a leaf. A conjunction serializes as a block: `{`, a line
//! break, each child's rendering indented by one unit and terminated by `;`
//! and a line break, then `}`. Indentation is a text transform applied to the
//! already-rendered child, so a nested block gains one unit at every
//! enclosing level.

use crate::constraint::{IsConstraint, render_is_constraint};
use crate::reference::ReferenceV;
use crate::text::{indent, indented};
use vstd::prelude::*;
use vstd::string::*;

verus! {

/// A node of the query's logical-structure tree.
#[derive(Debug, PartialEq, Eq)]
pub enum Pattern {
    Conjunction(Conjunction),
    Constraint(IsConstraint),
}

/// An ordered conjunction of sub-patterns. The order is insignificant for
/// logical meaning but is preserved exactly by serialization.
#[derive(Debug, PartialEq, Eq)]
pub struct Conjunction {
    pub patterns: Vec<Pattern>,
}

/// The mathematical model of a [`Pattern`].
#[verifier::ext_equal]
pub enum PatternV {
    Conjunction(Seq<PatternV>),
    Constraint(ReferenceV),
}

/// The model of one pattern node.
pub open spec fn pattern_view(p: Pattern) -> PatternV
    decreases p, 1int,
{
    match p {
        Pattern::Conjunction(c) => PatternV::Conjunction(patterns_view(c.patterns@)),
        Pattern::Constraint(c) => PatternV::Constraint(c@),
    }
}

/// The model of an ordered sequence of pattern nodes, element by element.
pub open spec fn patterns_view(v: Seq<Pattern>) -> Seq<PatternV>
    decreases v, 0int,
{
    if v.len() == 0 {
        Seq::empty()
    } else {
        patterns_view(v.drop_last()).push(pattern_view(v.last()))
    }
}

/// [`patterns_view`] maps [`pattern_view`] over its argument.
pub proof fn lemma_patterns_view_index(v: Seq<Pattern>)
    ensures
        patterns_view(v).len() == v.len(),
        forall|i: int| 0 <= i < v.len() ==> patterns_view(v)[i] == pattern_view(v[i]),
    decreases v.len(),
{
    if v.len() > 0 {
        lemma_patterns_view_index(v.drop_last());
    }
}

impl View for Pattern {
    type V = PatternV;

    open spec fn view(&self) -> PatternV {
        pattern_view(*self)
    }
}

impl View for Conjunction {
    type V = Seq<PatternV>;

    open spec fn view(&self) -> Seq<PatternV> {
        patterns_view(self.patterns@)
    }
}

/// The canonical text of a pattern tree.
pub open spec fn render_pattern(p: PatternV) -> Seq<char>
    decreases p, 1int,
{
    match p {
        PatternV::Conjunction(ps) => seq!['{', '\n'] + render_conjunction_body(ps) + seq!['}'],
        PatternV::Constraint(r) => render_is_constraint(r),
    }
}

/// The interior lines of a conjunction block: each child's rendering,
/// indented by one unit, terminated by `;` and a line break, in order.
pub open spec fn render_conjunction_body(ps: Seq<PatternV>) -> Seq<char>
    decreases ps, 0int,
{
    if ps.len() == 0 {
        Seq::empty()
    } else {
        render_conjunction_body(ps.drop_last()) + indented(render_pattern(ps.last())) + seq![
            ';',
            '\n',
        ]
    }
}

/// The canonical text of a conjunction: `{`, a line break, the indented
/// interior lines, `}`.
pub open spec fn render_conjunction(ps: Seq<PatternV>) -> Seq<char> {
    seq!['{', '\n'] + render_conjunction_body(ps) + seq!['}']
}

impl Conjunction {
    /// Builds a conjunction from an ordered sequence of patterns; any length,
    /// including empty, is permitted.
    pub fn new(patterns: Vec<Pattern>) -> (c: Self)
        ensures
            c.patterns == patterns,
    {
        Conjunction { patterns }
    }

    /// Wraps this conjunction as a pattern node.
    pub fn into_pattern(self) -> (p: Pattern)
        ensures
            p == Pattern::Conjunction(self),
    {
        Pattern::Conjunction(self)
    }

    /// Renders this conjunction as its block text.
    pub fn to_string(&self) -> (r: String)
        ensures
            r@ == render_conjunction(self@),
        decreases self, 0int,
    {
        let mut out = "{\n".to_owned();
        proof {
            reveal_strlit("{\n");
            lemma_patterns_view_index(self.patterns@);
            assert(self@.take(0) =~= Seq::<PatternV>::empty());
            assert(out@ =~= seq!['{', '\n'] + render_conjunction_body(self@.take(0)));
        }
        let n = self.patterns.len();
        let mut i: usize = 0;
        while i < n
            invariant
                n == self.patterns.len(),
                n == self@.len(),
                i <= n,
                out@ == seq!['{', '\n'] + render_conjunction_body(self@.take(i as int)),
            decreases n - i,
        {
            let child = self.patterns[i].to_string();
            let ind = indent(child.as_str());
            out.append(ind.as_str());
            out.append(";\n");
            proof {
                reveal_strlit(";\n");
                lemma_patterns_view_index(self.patterns@);
                let t = self@.take(i as int + 1);
                assert(t.drop_last() =~= self@.take(i as int));
                assert(t.last() == self@[i as int]);
                assert(self@[i as int] == pattern_view(self.patterns@[i as int]));
                assert(out@ =~= seq!['{', '\n'] + render_conjunction_body(t));
            }
            i = i + 1;
        }
        out.append("}");
        proof {
            reveal_strlit("}");
            assert(self@.take(n as int) =~= self@);
            assert(out@ =~= render_conjunction(self@));
        }
        out
    }
}

impl Pattern {
    /// Renders this pattern: a constraint's own line, or a conjunction block.
    pub fn to_string(&self) -> (r: String)
        ensures
            r@ == render_pattern(self@),
        decreases self, 1int,
    {
        match self {
            Pattern::Constraint(c) => c.to_string(),
            Pattern::Conjunction(c) => c.to_string(),
        }
    }
}

/// Law: a conjunction of one pattern indents that pattern's rendering by
/// exactly one unit — and, applied to a nested conjunction, the inner lines
/// gain one more unit at every enclosing level, because the transform acts on
/// the already-rendered child text.
pub proof fn lemma_single_pattern_conjunction(p: PatternV)
    ensures
        render_conjunction(seq![p]) == seq!['{', '\n'] + indented(render_pattern(p)) + seq![
            ';',
            '\n',
            '}',
        ],
{
    assert(seq![p].drop_last() =~= Seq::<PatternV>::empty());
    assert(seq![p].last() == p);
    assert(render_conjunction_body(Seq::<PatternV>::empty()) =~= Seq::<char>::empty());
    assert(render_conjunction_body(seq![p]) =~= indented(render_pattern(p)) + seq![';', '\n']);
    assert(render_conjunction(seq![p]) =~= seq!['{', '\n'] + indented(render_pattern(p)) + seq![
        ';',
        '\n',
        '}',
    ]);
}

/// A leaf the builder layer produces: an identity constraint over a named
/// reference with a valid identifier.
pub open spec fn named_constraint(p: PatternV) -> bool {
    match p {
        PatternV::Constraint(ReferenceV::Name(n)) => crate::reference::valid_var_name(n),
        _ => false,
    }
}

/// The name such a leaf constrains.
pub open spec fn constraint_name(p: PatternV) -> Seq<char> {
    match p {
        PatternV::Constraint(ReferenceV::Name(n)) => n,
        _ => Seq::empty(),
    }
}

/// A conjunction whose children are all builder-produced constraint leaves.
pub open spec fn named_constraint_conjunction(ps: Seq<PatternV>) -> bool {
    forall|i: int| 0 <= i < ps.len() ==> named_constraint(#[trigger] ps[i])
}

/// The interior line of a constraint leaf inside a conjunction block: the
/// indentation unit, the constraint's text, `;`, a line break.
pub open spec fn constraint_item_text(n: Seq<char>) -> Seq<char> {
    seq![' ', ' ', 'i', 's', ' ', '$'] + n + seq![';', '\n']
}

/// A constraint leaf's rendering has no line break, so its indented interior
/// line is exactly [`constraint_item_text`] of its name.
pub proof fn lemma_constraint_item_text(p: PatternV)
    requires
        named_constraint(p),
    ensures
        indented(render_pattern(p)) + seq![';', '\n'] == constraint_item_text(constraint_name(p)),
{
    let n = constraint_name(p);
    let x = render_pattern(p);
    assert(x =~= seq!['i', 's', ' ', '$'] + n);
    assert forall|i: int| 0 <= i < x.len() implies x[i] != '\n' by {
        if i >= 4 {
            assert(x[i] == n[i - 4]);
            assert(crate::reference::is_ident_char(n[i - 4]));
        }
    }
    crate::text::lemma_indent_rest_no_newline(x);
    assert(indented(x) + seq![';', '\n'] =~= constraint_item_text(n));
}

/// The interior of a conjunction block, peeled from the front: the first
/// child's interior line, then the rest.
pub proof fn lemma_conjunction_body_front(ps: Seq<PatternV>)
    requires
        ps.len() > 0,
    ensures
        render_conjunction_body(ps) == indented(render_pattern(ps[0])) + seq![';', '\n']
            + render_conjunction_body(ps.drop_first()),
    decreases ps.len(),
{
    if ps.len() == 1 {
        assert(ps.drop_last() =~= Seq::<PatternV>::empty());
        assert(ps.drop_first() =~= Seq::<PatternV>::empty());
        assert(ps.last() == ps[0]);
        assert(render_conjunction_body(ps) =~= indented(render_pattern(ps[0])) + seq![';', '\n']
            + render_conjunction_body(ps.drop_first()));
    } else {
        let dl = ps.drop_last();
        lemma_conjunction_body_front(dl);
        assert(dl[0] == ps[0]);
        assert(ps.drop_first().drop_last() =~= dl.drop_first());
        assert(ps.drop_first().last() == ps.last());
        assert(ps.drop_first().len() > 0);
        assert(render_conjunction_body(ps) =~= indented(render_pattern(ps[0])) + seq![';', '\n']
            + render_conjunction_body(ps.drop_first()));
    }
}

/// The interior of a conjunction block determines the children, for
/// builder-produced constraint leaves: the first semicolon of the text pins
/// the first name, and so on inductively.
pub proof fn lemma_conjunction_body_injective(ps1: Seq<PatternV>, ps2: Seq<PatternV>)
    requires
        named_constraint_conjunction(ps1),
        named_constraint_conjunction(ps2),
        render_conjunction_body(ps1) == render_conjunction_body(ps2),
    ensures
        ps1 == ps2,
    decreases ps1.len(),
{
    if ps1.len() == 0 && ps2.len() == 0 {
        assert(ps1 =~= ps2);
    } else if ps1.len() == 0 {
        assert(render_conjunction_body(ps2).len() >= 2);
        assert(false);
    } else if ps2.len() == 0 {
        assert(render_conjunction_body(ps1).len() >= 2);
        assert(false);
    } else {
        lemma_conjunction_body_front(ps1);
        lemma_conjunction_body_front(ps2);
        lemma_constraint_item_text(ps1[0]);
        lemma_constraint_item_text(ps2[0]);
        let n1 = constraint_name(ps1[0]);
        let n2 = constraint_name(ps2[0]);
        let a1 = seq![' ', ' ', 'i', 's', ' ', '$'] + n1;
        let a2 = seq![' ', ' ', 'i', 's', ' ', '$'] + n2;
        let x1 = seq!['\n'] + render_conjunction_body(ps1.drop_first());
        let x2 = seq!['\n'] + render_conjunction_body(ps2.drop_first());
        assert(render_conjunction_body(ps1) =~= a1 + seq![';'] + x1);
        assert(render_conjunction_body(ps2) =~= a2 + seq![';'] + x2);
        assert forall|i: int| 0 <= i < a1.len() implies a1[i] != ';' by {
            if i >= 6 {
                assert(a1[i] == n1[i - 6]);
                assert(crate::reference::is_ident_char(n1[i - 6]));
            }
        }
        assert forall|i: int| 0 <= i < a2.len() implies a2[i] != ';' by {
            if i >= 6 {
                assert(a2[i] == n2[i - 6]);
                assert(crate::reference::is_ident_char(n2[i - 6]));
            }
        }
        crate::text::lemma_delimiter_split(a1, x1, a2, x2, ';');
        assert(n1.len() == n2.len());
        assert forall|i: int| 0 <= i < n1.len() implies n1[i] == n2[i] by {
            assert(a1[6 + i] == n1[i]);
            assert(a2[6 + i] == n2[i]);
        }
        assert(n1 =~= n2);
        assert(ps1[0] == ps2[0]);
        assert(render_conjunction_body(ps1.drop_first()) =~= x1.drop_first());
        assert(render_conjunction_body(ps2.drop_first()) =~= x2.drop_first());
        assert forall|i: int| 0 <= i < ps1.drop_first().len() implies named_constraint(
            #[trigger] ps1.drop_first()[i],
        ) by {
            assert(ps1.drop_first()[i] == ps1[i + 1]);
        }
        assert forall|i: int| 0 <= i < ps2.drop_first().len() implies named_constraint(
            #[trigger] ps2.drop_first()[i],
        ) by {
            assert(ps2.drop_first()[i] == ps2[i + 1]);
        }
        lemma_conjunction_body_injective(ps1.drop_first(), ps2.drop_first());
        assert(ps1.len() == ps2.len());
        assert forall|i: int| 0 <= i < ps1.len() implies ps1[i] == ps2[i] by {
            if i > 0 {
                assert(ps1.drop_first()[i - 1] == ps1[i]);
                assert(ps2.drop_first()[i - 1] == ps2[i]);
            }
        }
        assert(ps1 =~= ps2);
    }
}

/// Law (round trip, conjunction of constraints): the canonical block text of
/// a conjunction of builder-produced constraint leaves determines the
/// conjunction, so re-parsing it recovers an equal tree.
pub proof fn lemma_conjunction_text_injective(ps1: Seq<PatternV>, ps2: Seq<PatternV>)
    requires
        named_constraint_conjunction(ps1),
        named_constraint_conjunction(ps2),
        render_conjunction(ps1) == render_conjunction(ps2),
    ensures
        ps1 == ps2,
{
    let b1 = render_conjunction_body(ps1);
    let b2 = render_conjunction_body(ps2);
    let f1 = render_conjunction(ps1);
    let f2 = render_conjunction(ps2);
    assert(f1.len() == 2 + b1.len() + 1);
    assert(f2.len() == 2 + b2.len() + 1);
    assert(b1.len() == b2.len());
    assert forall|i: int| 0 <= i < b1.len() implies b1[i] == b2[i] by {
        assert(f1[2 + i] == b1[i]);
        assert(f2[2 + i] == b2[i]);
    }
    assert(b1 =~= b2);
    lemma_conjunction_body_injective(ps1, ps2);
}

} // verus!
