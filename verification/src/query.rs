//! The top-level statement: a match clause (or a grouped match clause)
//! optionally wrapped by an aggregate. The builder capability lets any base
//! query produce aggregate wrappers without hand-assembling them, and the two
//! construction paths — a count-only one taking no variable, and a general
//! one taking a method and a variable — make an invalid method/variable
//! pairing inexpressible.

use crate::pattern::{Conjunction, PatternV, lemma_patterns_view_index, pattern_view, render_pattern};
use crate::reference::{ReferenceV, render_reference};
use crate::variable::UnboundVariable;
use vstd::prelude::*;
use vstd::string::*;

verus! {

/// The aggregation method tag.
#[derive(Debug, Clone, Copy, PartialEq, Eq, Structural)]
pub enum Aggregate {
    Count,
    Max,
    Min,
    Mean,
    Median,
    Std,
    Sum,
}

/// The token of an aggregation method.
pub open spec fn render_aggregate_method(m: Aggregate) -> Seq<char> {
    match m {
        Aggregate::Count => seq!['c', 'o', 'u', 'n', 't'],
        Aggregate::Max => seq!['m', 'a', 'x'],
        Aggregate::Min => seq!['m', 'i', 'n'],
        Aggregate::Mean => seq!['m', 'e', 'a', 'n'],
        Aggregate::Median => seq!['m', 'e', 'd', 'i', 'a', 'n'],
        Aggregate::Std => seq!['s', 't', 'd'],
        Aggregate::Sum => seq!['s', 'u', 'm'],
    }
}

/// The token of an aggregation method, as text.
pub fn aggregate_method_str(m: Aggregate) -> (r: &'static str)
    ensures
        r@ == render_aggregate_method(m),
{
    match m {
        Aggregate::Count => {
            proof {
                reveal_strlit("count");
                assert("count"@ =~= render_aggregate_method(m));
            }
            "count"
        },
        Aggregate::Max => {
            proof {
                reveal_strlit("max");
                assert("max"@ =~= render_aggregate_method(m));
            }
            "max"
        },
        Aggregate::Min => {
            proof {
                reveal_strlit("min");
                assert("min"@ =~= render_aggregate_method(m));
            }
            "min"
        },
        Aggregate::Mean => {
            proof {
                reveal_strlit("mean");
                assert("mean"@ =~= render_aggregate_method(m));
            }
            "mean"
        },
        Aggregate::Median => {
            proof {
                reveal_strlit("median");
                assert("median"@ =~= render_aggregate_method(m));
            }
            "median"
        },
        Aggregate::Std => {
            proof {
                reveal_strlit("std");
                assert("std"@ =~= render_aggregate_method(m));
            }
            "std"
        },
        Aggregate::Sum => {
            proof {
                reveal_strlit("sum");
                assert("sum"@ =~= render_aggregate_method(m));
            }
            "sum"
        },
    }
}

/// The clauses of a match: each pattern's rendering on a line of its own,
/// terminated by `;`.
pub open spec fn render_match_body(ps: Seq<PatternV>) -> Seq<char>
    decreases ps,
{
    if ps.len() == 0 {
        Seq::empty()
    } else {
        render_match_body(ps.drop_last()) + seq!['\n'] + render_pattern(ps.last()) + seq![';']
    }
}

/// The canonical text of a match clause: the keyword, then the clauses.
pub open spec fn render_match(ps: Seq<PatternV>) -> Seq<char> {
    seq!['m', 'a', 't', 'c', 'h'] + render_match_body(ps)
}

/// A match clause formed from patterns.
#[derive(Debug, PartialEq, Eq)]
pub struct TypeQLMatch {
    pub conjunction: Conjunction,
}

impl View for TypeQLMatch {
    type V = Seq<PatternV>;

    open spec fn view(&self) -> Seq<PatternV> {
        self.conjunction@
    }
}

impl TypeQLMatch {
    /// Builds a match clause over the given patterns.
    pub fn new(conjunction: Conjunction) -> (q: Self)
        ensures
            q == (TypeQLMatch { conjunction }),
    {
        TypeQLMatch { conjunction }
    }
}

/// The model of a grouped match clause.
#[verifier::ext_equal]
pub struct MatchGroupV {
    pub patterns: Seq<PatternV>,
    pub group_var: ReferenceV,
}

/// The canonical text of a grouped match clause: the match clause, a space,
/// the keyword `group`, a space, the grouping variable, `;`.
pub open spec fn render_match_group(g: MatchGroupV) -> Seq<char> {
    render_match(g.patterns) + seq![' ', 'g', 'r', 'o', 'u', 'p', ' '] + render_reference(
        g.group_var,
    ) + seq![';']
}

/// A grouped match clause: a match whose answers are grouped by one variable.
#[derive(Debug, PartialEq, Eq)]
pub struct TypeQLMatchGroup {
    pub query: TypeQLMatch,
    pub group_var: UnboundVariable,
}

impl View for TypeQLMatchGroup {
    type V = MatchGroupV;

    open spec fn view(&self) -> MatchGroupV {
        MatchGroupV { patterns: self.query@, group_var: self.group_var@ }
    }
}

impl TypeQLMatchGroup {
    /// Builds a grouped match clause.
    pub fn new(query: TypeQLMatch, group_var: UnboundVariable) -> (q: Self)
        ensures
            q == (TypeQLMatchGroup { query, group_var }),
    {
        TypeQLMatchGroup { query, group_var }
    }
}

/// The view of an optional aggregate variable.
pub open spec fn opt_var_view(v: Option<UnboundVariable>) -> Option<ReferenceV> {
    match v {
        Option::Some(u) => Option::Some(u@),
        Option::None => Option::None,
    }
}

/// The aggregate line that follows a base query: the method token, the target
/// variable after one space when there is one, and `;`.
pub open spec fn render_aggregate_suffix(m: Aggregate, var: Option<ReferenceV>) -> Seq<char> {
    render_aggregate_method(m) + (match var {
        Option::Some(r) => seq![' '] + render_reference(r),
        Option::None => Seq::<char>::empty(),
    }) + seq![';']
}

/// The canonical text of an aggregate over a single match: the base text, a
/// line break, then the aggregate line.
pub open spec fn render_match_aggregate(
    base: Seq<char>,
    m: Aggregate,
    var: Option<ReferenceV>,
) -> Seq<char> {
    base + seq!['\n'] + render_aggregate_suffix(m, var)
}

/// The canonical text of an aggregate over a grouped match: the base text, a
/// space, then the aggregate line.
pub open spec fn render_group_aggregate(
    base: Seq<char>,
    m: Aggregate,
    var: Option<ReferenceV>,
) -> Seq<char> {
    base + seq![' '] + render_aggregate_suffix(m, var)
}

/// An aggregate wrapped around a finished base query. `Count` never carries a
/// target variable; every other method carries exactly one — the two
/// constructors below are the only ways to build one.
#[derive(Debug, PartialEq, Eq)]
pub struct AggregateQuery<T> {
    pub query: T,
    pub method: Aggregate,
    pub var: Option<UnboundVariable>,
}

/// An aggregate over a single match clause.
pub type TypeQLMatchAggregate = AggregateQuery<TypeQLMatch>;

/// An aggregate over a grouped match clause.
pub type TypeQLMatchGroupAggregate = AggregateQuery<TypeQLMatchGroup>;

impl<T> AggregateQuery<T> {
    /// Wraps a base query in a count aggregate: no target variable, ever.
    pub fn new_count(base: T) -> (q: Self)
        ensures
            q == (AggregateQuery {
                query: base,
                method: Aggregate::Count,
                var: None::<UnboundVariable>,
            }),
    {
        AggregateQuery { query: base, method: Aggregate::Count, var: None }
    }

    /// Wraps a base query in an aggregate with the given method and exactly
    /// one target variable.
    pub fn new(base: T, method: Aggregate, variable: UnboundVariable) -> (q: Self)
        ensures
            q == (AggregateQuery { query: base, method, var: Some(variable) }),
    {
        AggregateQuery { query: base, method, var: Some(variable) }
    }
}

/// The builder capability: available to any base-query type that is a value
/// type offering structural equality and canonical text rendering. Each named
/// convenience method pins the method tag; `count` alone produces a
/// variable-less aggregate.
pub trait AggregateQueryBuilder: Sized + PartialEq + Eq + View {
    /// The canonical text of this base query.
    spec fn rendered(&self) -> Seq<char>;

    /// Renders this base query into its canonical text.
    fn to_string(&self) -> (r: String)
        ensures
            r@ == self.rendered(),
    ;

    /// Wraps this query in a count aggregate, which never carries a variable.
    fn count(self) -> (q: AggregateQuery<Self>)
        ensures
            q == (AggregateQuery {
                query: self,
                method: Aggregate::Count,
                var: None::<UnboundVariable>,
            }),
    {
        AggregateQuery::<Self>::new_count(self)
    }

    /// Wraps this query in an aggregate with the given method and variable.
    fn aggregate(self, method: Aggregate, var: UnboundVariable) -> (q: AggregateQuery<Self>)
        ensures
            q == (AggregateQuery { query: self, method, var: Some(var) }),
    {
        AggregateQuery::<Self>::new(self, method, var)
    }

    /// Wraps this query in a maximum aggregate over `var`.
    fn max(self, var: UnboundVariable) -> (q: AggregateQuery<Self>)
        ensures
            q == (AggregateQuery { query: self, method: Aggregate::Max, var: Some(var) }),
    {
        self.aggregate(Aggregate::Max, var)
    }

    /// Wraps this query in a minimum aggregate over `var`.
    fn min(self, var: UnboundVariable) -> (q: AggregateQuery<Self>)
        ensures
            q == (AggregateQuery { query: self, method: Aggregate::Min, var: Some(var) }),
    {
        self.aggregate(Aggregate::Min, var)
    }

    /// Wraps this query in a mean aggregate over `var`.
    fn mean(self, var: UnboundVariable) -> (q: AggregateQuery<Self>)
        ensures
            q == (AggregateQuery { query: self, method: Aggregate::Mean, var: Some(var) }),
    {
        self.aggregate(Aggregate::Mean, var)
    }

    /// Wraps this query in a median aggregate over `var`.
    fn median(self, var: UnboundVariable) -> (q: AggregateQuery<Self>)
        ensures
            q == (AggregateQuery { query: self, method: Aggregate::Median, var: Some(var) }),
    {
        self.aggregate(Aggregate::Median, var)
    }

    /// Wraps this query in a standard-deviation aggregate over `var`.
    fn std_dev(self, var: UnboundVariable) -> (q: AggregateQuery<Self>)
        ensures
            q == (AggregateQuery { query: self, method: Aggregate::Std, var: Some(var) }),
    {
        self.aggregate(Aggregate::Std, var)
    }

    /// Wraps this query in a sum aggregate over `var`.
    fn sum(self, var: UnboundVariable) -> (q: AggregateQuery<Self>)
        ensures
            q == (AggregateQuery { query: self, method: Aggregate::Sum, var: Some(var) }),
    {
        self.aggregate(Aggregate::Sum, var)
    }
}

impl AggregateQueryBuilder for TypeQLMatch {
    open spec fn rendered(&self) -> Seq<char> {
        render_match(self@)
    }

    fn to_string(&self) -> (r: String) {
        let mut out = "match".to_owned();
        proof {
            reveal_strlit("match");
            lemma_patterns_view_index(self.conjunction.patterns@);
            assert(self@.take(0) =~= Seq::<PatternV>::empty());
            assert(out@ =~= seq!['m', 'a', 't', 'c', 'h'] + render_match_body(self@.take(0)));
        }
        let n = self.conjunction.patterns.len();
        let mut i: usize = 0;
        while i < n
            invariant
                n == self.conjunction.patterns.len(),
                n == self@.len(),
                i <= n,
                out@ == seq!['m', 'a', 't', 'c', 'h'] + render_match_body(self@.take(i as int)),
            decreases n - i,
        {
            out.append("\n");
            let p = self.conjunction.patterns[i].to_string();
            out.append(p.as_str());
            out.append(";");
            proof {
                reveal_strlit("\n");
                reveal_strlit(";");
                lemma_patterns_view_index(self.conjunction.patterns@);
                let t = self@.take(i as int + 1);
                assert(t.drop_last() =~= self@.take(i as int));
                assert(t.last() == self@[i as int]);
                assert(self@[i as int] == pattern_view(self.conjunction.patterns@[i as int]));
                assert(out@ =~= seq!['m', 'a', 't', 'c', 'h'] + render_match_body(t));
            }
            i = i + 1;
        }
        proof {
            assert(self@.take(n as int) =~= self@);
        }
        out
    }
}

impl AggregateQueryBuilder for TypeQLMatchGroup {
    open spec fn rendered(&self) -> Seq<char> {
        render_match_group(self@)
    }

    fn to_string(&self) -> (r: String) {
        let mut out = self.query.to_string();
        out.append(" group ");
        let v = self.group_var.to_string();
        out.append(v.as_str());
        out.append(";");
        proof {
            reveal_strlit(" group ");
            reveal_strlit(";");
            assert(out@ =~= render_match_group(self@));
        }
        out
    }
}

/// Appends the aggregate line to a partly built query text.
fn append_aggregate_suffix(out: &mut String, m: Aggregate, var: &Option<UnboundVariable>)
    ensures
        final (out)@ == old(out)@ + render_aggregate_suffix(m, opt_var_view(*var)),
{
    out.append(aggregate_method_str(m));
    match var {
        Option::Some(v) => {
            out.append(" ");
            let t = v.to_string();
            out.append(t.as_str());
            proof {
                reveal_strlit(" ");
            }
        },
        Option::None => {},
    }
    out.append(";");
    proof {
        reveal_strlit(";");
        assert(out@ =~= old(out)@ + render_aggregate_suffix(m, opt_var_view(*var)));
    }
}

/// The generic top-level query value: one tag for an aggregate over a match,
/// another for an aggregate over a grouped match.
#[derive(Debug, PartialEq, Eq)]
pub enum Query {
    Aggregate(AggregateQuery<TypeQLMatch>),
    GroupAggregate(AggregateQuery<TypeQLMatchGroup>),
}

/// The canonical text of a top-level query.
pub open spec fn render_query(q: Query) -> Seq<char> {
    match q {
        Query::Aggregate(a) => render_match_aggregate(
            a.query.rendered(),
            a.method,
            opt_var_view(a.var),
        ),
        Query::GroupAggregate(a) => render_group_aggregate(
            a.query.rendered(),
            a.method,
            opt_var_view(a.var),
        ),
    }
}

impl AggregateQuery<TypeQLMatch> {
    /// Converts into the generic query value, tagged as an aggregate over a
    /// match.
    pub fn into_query(self) -> (q: Query)
        ensures
            q == Query::Aggregate(self),
    {
        Query::Aggregate(self)
    }

    /// Renders: the base query's text, a line break, then the aggregate line.
    pub fn to_string(&self) -> (r: String)
        ensures
            r@ == render_match_aggregate(self.query.rendered(), self.method, opt_var_view(self.var)),
    {
        let mut out = self.query.to_string();
        out.append("\n");
        proof {
            reveal_strlit("\n");
        }
        append_aggregate_suffix(&mut out, self.method, &self.var);
        proof {
            assert(out@ =~= render_match_aggregate(
                self.query.rendered(),
                self.method,
                opt_var_view(self.var),
            ));
        }
        out
    }
}

impl AggregateQuery<TypeQLMatchGroup> {
    /// Converts into the generic query value, tagged as an aggregate over a
    /// grouped match.
    pub fn into_query(self) -> (q: Query)
        ensures
            q == Query::GroupAggregate(self),
    {
        Query::GroupAggregate(self)
    }

    /// Renders: the base query's text, a space, then the aggregate line.
    pub fn to_string(&self) -> (r: String)
        ensures
            r@ == render_group_aggregate(self.query.rendered(), self.method, opt_var_view(self.var)),
    {
        let mut out = self.query.to_string();
        out.append(" ");
        proof {
            reveal_strlit(" ");
        }
        append_aggregate_suffix(&mut out, self.method, &self.var);
        proof {
            assert(out@ =~= render_group_aggregate(
                self.query.rendered(),
                self.method,
                opt_var_view(self.var),
            ));
        }
        out
    }
}

impl Query {
    /// Renders this query into its canonical text.
    pub fn to_string(&self) -> (r: String)
        ensures
            r@ == render_query(*self),
    {
        match self {
            Query::Aggregate(a) => a.to_string(),
            Query::GroupAggregate(a) => a.to_string(),
        }
    }
}

/// Law: a single-match aggregate's text puts a line break between the base
/// query's text and the method token, where a grouped aggregate puts a space.
pub proof fn lemma_aggregate_separator(base: Seq<char>, m: Aggregate, var: Option<ReferenceV>)
    ensures
        render_match_aggregate(base, m, var)[base.len() as int] == '\n',
        render_group_aggregate(base, m, var)[base.len() as int] == ' ',
{
    assert((base + seq!['\n'] + render_aggregate_suffix(m, var))[base.len() as int] == '\n');
    assert((base + seq![' '] + render_aggregate_suffix(m, var))[base.len() as int] == ' ');
}

/// An aggregate variable the builder layer can produce: absent, or a named
/// reference with a valid identifier.
pub open spec fn wf_opt_var(v: Option<ReferenceV>) -> bool {
    match v {
        Option::Some(r) => r is Name && crate::reference::wf_reference(r),
        Option::None => true,
    }
}

/// No two aggregation methods share a token.
pub proof fn lemma_method_text_injective(m1: Aggregate, m2: Aggregate)
    requires
        render_aggregate_method(m1) == render_aggregate_method(m2),
    ensures
        m1 == m2,
{
    let t1 = render_aggregate_method(m1);
    let t2 = render_aggregate_method(m2);
    assert(t1.len() == t2.len());
    assert(t1[0] == t2[0]);
    assert(t1[1] == t2[1]);
    assert(t1[2] == t2[2]);
}

/// Every method token is three to six characters of plain letters: never a
/// space, a semicolon, a line break, or a variable sigil.
pub proof fn lemma_method_token_plain(m: Aggregate)
    ensures
        3 <= render_aggregate_method(m).len() <= 6,
        forall|i: int|
            0 <= i < render_aggregate_method(m).len() ==> render_aggregate_method(m)[i] != ' '
                && render_aggregate_method(m)[i] != ';' && render_aggregate_method(m)[i] != '\n'
                && render_aggregate_method(m)[i] != '$',
{
    let t = render_aggregate_method(m);
    assert forall|i: int| 0 <= i < t.len() implies t[i] != ' ' && t[i] != ';' && t[i] != '\n'
        && t[i] != '$' by {
        assert(0 <= i < 6);
    }
}

/// No character of an aggregate line is a line break.
pub proof fn lemma_suffix_no_newline(m: Aggregate, v: Option<ReferenceV>)
    requires
        wf_opt_var(v),
    ensures
        forall|i: int|
            0 <= i < render_aggregate_suffix(m, v).len() ==> render_aggregate_suffix(m, v)[i]
                != '\n',
{
    let s = render_aggregate_suffix(m, v);
    let t = render_aggregate_method(m);
    lemma_method_token_plain(m);
    match v {
        Option::Some(r) => {
            let rr = render_reference(r);
            crate::reference::lemma_render_reference_plain(r);
            assert(s =~= t + seq![' '] + rr + seq![';']);
            assert forall|i: int| 0 <= i < s.len() implies s[i] != '\n' by {
                if i < t.len() {
                    assert(s[i] == t[i]);
                } else if i == t.len() {
                    assert(s[i] == ' ');
                } else if i < t.len() + 1 + rr.len() {
                    assert(s[i] == rr[i - t.len() - 1]);
                } else {
                    assert(s[i] == ';');
                }
            }
        },
        Option::None => {
            assert(s =~= t + seq![';']);
            assert forall|i: int| 0 <= i < s.len() implies s[i] != '\n' by {
                if i < t.len() {
                    assert(s[i] == t[i]);
                } else {
                    assert(s[i] == ';');
                }
            }
        },
    }
}

/// Law: the aggregate line determines the method and the target variable —
/// two aggregate lines over builder-produced variables agree only when both
/// parts agree.
pub proof fn lemma_aggregate_suffix_injective(
    m1: Aggregate,
    v1: Option<ReferenceV>,
    m2: Aggregate,
    v2: Option<ReferenceV>,
)
    requires
        wf_opt_var(v1),
        wf_opt_var(v2),
        render_aggregate_suffix(m1, v1) == render_aggregate_suffix(m2, v2),
    ensures
        m1 == m2,
        v1 == v2,
{
    let s1 = render_aggregate_suffix(m1, v1);
    let s2 = render_aggregate_suffix(m2, v2);
    let t1 = render_aggregate_method(m1);
    let t2 = render_aggregate_method(m2);
    lemma_method_token_plain(m1);
    lemma_method_token_plain(m2);
    match (v1, v2) {
        (Option::None, Option::None) => {
            assert(s1 =~= t1 + seq![';']);
            assert(s2 =~= t2 + seq![';']);
            assert(t1.len() == t2.len());
            assert forall|i: int| 0 <= i < t1.len() implies t1[i] == t2[i] by {
                assert(s1[i] == t1[i]);
                assert(s2[i] == t2[i]);
            }
            assert(t1 =~= t2);
            lemma_method_text_injective(m1, m2);
        },
        (Option::Some(r1), Option::Some(r2)) => {
            let x1 = render_reference(r1) + seq![';'];
            let x2 = render_reference(r2) + seq![';'];
            assert(s1 =~= t1 + seq![' '] + x1);
            assert(s2 =~= t2 + seq![' '] + x2);
            crate::text::lemma_delimiter_split(t1, x1, t2, x2, ' ');
            lemma_method_text_injective(m1, m2);
            assert(render_reference(r1) =~= x1.drop_last());
            assert(render_reference(r2) =~= x2.drop_last());
            crate::reference::lemma_reference_text_injective(r1, r2);
        },
        (Option::None, Option::Some(r2)) => {
            let rr = render_reference(r2);
            assert(s1 =~= t1 + seq![';']);
            assert(s2 =~= t2 + seq![' '] + rr + seq![';']);
            assert(rr.len() >= 2);
            assert(t2.len() < t1.len());
            assert(s1[t2.len() as int] == t1[t2.len() as int]);
            assert(s2[t2.len() as int] == ' ');
            assert(false);
        },
        (Option::Some(r1), Option::None) => {
            let rr = render_reference(r1);
            assert(s1 =~= t1 + seq![' '] + rr + seq![';']);
            assert(s2 =~= t2 + seq![';']);
            assert(rr.len() >= 2);
            assert(t1.len() < t2.len());
            assert(s2[t1.len() as int] == t2[t1.len() as int]);
            assert(s1[t1.len() as int] == ' ');
            assert(false);
        },
    }
}

/// Law (round trip, single-match aggregate): the canonical text of an
/// aggregate over a match determines the base query's text, the method, and
/// the target variable, so re-parsing it recovers an equal tree. The line
/// break before the aggregate line is the last one of the text, which pins
/// the boundary.
pub proof fn lemma_match_aggregate_text_injective(
    b1: Seq<char>,
    m1: Aggregate,
    v1: Option<ReferenceV>,
    b2: Seq<char>,
    m2: Aggregate,
    v2: Option<ReferenceV>,
)
    requires
        wf_opt_var(v1),
        wf_opt_var(v2),
        render_match_aggregate(b1, m1, v1) == render_match_aggregate(b2, m2, v2),
    ensures
        b1 == b2,
        m1 == m2,
        v1 == v2,
{
    let s1 = render_aggregate_suffix(m1, v1);
    let s2 = render_aggregate_suffix(m2, v2);
    lemma_suffix_no_newline(m1, v1);
    lemma_suffix_no_newline(m2, v2);
    crate::text::lemma_last_delimiter_split(b1, s1, b2, s2, '\n');
    lemma_aggregate_suffix_injective(m1, v1, m2, v2);
}

/// Law (round trip, grouped aggregate): over one grouped base query, the
/// canonical text of the aggregate determines the method and the target
/// variable.
pub proof fn lemma_group_aggregate_text_injective(
    base: Seq<char>,
    m1: Aggregate,
    v1: Option<ReferenceV>,
    m2: Aggregate,
    v2: Option<ReferenceV>,
)
    requires
        wf_opt_var(v1),
        wf_opt_var(v2),
        render_group_aggregate(base, m1, v1) == render_group_aggregate(base, m2, v2),
    ensures
        m1 == m2,
        v1 == v2,
{
    let s1 = render_aggregate_suffix(m1, v1);
    let s2 = render_aggregate_suffix(m2, v2);
    let l = render_group_aggregate(base, m1, v1);
    let r = render_group_aggregate(base, m2, v2);
    assert(l.len() == base.len() + 1 + s1.len());
    assert(r.len() == base.len() + 1 + s2.len());
    assert(s1.len() == s2.len());
    assert forall|i: int| 0 <= i < s1.len() implies s1[i] == s2[i] by {
        assert(l[base.len() + 1 + i] == s1[i]);
        assert(r[base.len() + 1 + i] == s2[i]);
    }
    assert(s1 =~= s2);
    lemma_aggregate_suffix_injective(m1, v1, m2, v2);
}

/// The clauses of a match, peeled from the front: the first pattern's line,
/// then the rest.
pub proof fn lemma_match_body_front(ps: Seq<PatternV>)
    requires
        ps.len() > 0,
    ensures
        render_match_body(ps) == seq!['\n'] + render_pattern(ps[0]) + seq![';']
            + render_match_body(ps.drop_first()),
    decreases ps.len(),
{
    if ps.len() == 1 {
        assert(ps.drop_last() =~= Seq::<PatternV>::empty());
        assert(ps.drop_first() =~= Seq::<PatternV>::empty());
        assert(ps.last() == ps[0]);
        assert(render_match_body(ps) =~= seq!['\n'] + render_pattern(ps[0]) + seq![';']
            + render_match_body(ps.drop_first()));
    } else {
        let dl = ps.drop_last();
        lemma_match_body_front(dl);
        assert(dl[0] == ps[0]);
        assert(ps.drop_first().drop_last() =~= dl.drop_first());
        assert(ps.drop_first().last() == ps.last());
        assert(ps.drop_first().len() > 0);
        assert(render_match_body(ps) =~= seq!['\n'] + render_pattern(ps[0]) + seq![';']
            + render_match_body(ps.drop_first()));
    }
}

/// The clauses of a match determine the patterns, for builder-produced
/// constraint leaves.
pub proof fn lemma_match_body_injective(ps1: Seq<PatternV>, ps2: Seq<PatternV>)
    requires
        crate::pattern::named_constraint_conjunction(ps1),
        crate::pattern::named_constraint_conjunction(ps2),
        render_match_body(ps1) == render_match_body(ps2),
    ensures
        ps1 == ps2,
    decreases ps1.len(),
{
    if ps1.len() == 0 && ps2.len() == 0 {
        assert(ps1 =~= ps2);
    } else if ps1.len() == 0 {
        assert(render_match_body(ps2).len() >= 2);
        assert(false);
    } else if ps2.len() == 0 {
        assert(render_match_body(ps1).len() >= 2);
        assert(false);
    } else {
        lemma_match_body_front(ps1);
        lemma_match_body_front(ps2);
        let n1 = crate::pattern::constraint_name(ps1[0]);
        let n2 = crate::pattern::constraint_name(ps2[0]);
        let a1 = seq!['\n', 'i', 's', ' ', '$'] + n1;
        let a2 = seq!['\n', 'i', 's', ' ', '$'] + n2;
        let x1 = render_match_body(ps1.drop_first());
        let x2 = render_match_body(ps2.drop_first());
        assert(render_match_body(ps1) =~= a1 + seq![';'] + x1);
        assert(render_match_body(ps2) =~= a2 + seq![';'] + x2);
        assert forall|i: int| 0 <= i < a1.len() implies a1[i] != ';' by {
            if i >= 5 {
                assert(a1[i] == n1[i - 5]);
                assert(crate::reference::is_ident_char(n1[i - 5]));
            }
        }
        assert forall|i: int| 0 <= i < a2.len() implies a2[i] != ';' by {
            if i >= 5 {
                assert(a2[i] == n2[i - 5]);
                assert(crate::reference::is_ident_char(n2[i - 5]));
            }
        }
        crate::text::lemma_delimiter_split(a1, x1, a2, x2, ';');
        assert(n1.len() == n2.len());
        assert forall|i: int| 0 <= i < n1.len() implies n1[i] == n2[i] by {
            assert(a1[5 + i] == n1[i]);
            assert(a2[5 + i] == n2[i]);
        }
        assert(n1 =~= n2);
        assert(ps1[0] == ps2[0]);
        assert forall|i: int| 0 <= i < ps1.drop_first().len() implies crate::pattern::named_constraint(
            #[trigger] ps1.drop_first()[i],
        ) by {
            assert(ps1.drop_first()[i] == ps1[i + 1]);
        }
        assert forall|i: int| 0 <= i < ps2.drop_first().len() implies crate::pattern::named_constraint(
            #[trigger] ps2.drop_first()[i],
        ) by {
            assert(ps2.drop_first()[i] == ps2[i + 1]);
        }
        lemma_match_body_injective(ps1.drop_first(), ps2.drop_first());
        assert(ps1.len() == ps2.len());
        assert forall|i: int| 0 <= i < ps1.len() implies ps1[i] == ps2[i] by {
            if i > 0 {
                assert(ps1.drop_first()[i - 1] == ps1[i]);
                assert(ps2.drop_first()[i - 1] == ps2[i]);
            }
        }
        assert(ps1 =~= ps2);
    }
}

/// Law: the canonical text of a match clause over builder-produced constraint
/// leaves determines the clause.
pub proof fn lemma_match_text_injective(ps1: Seq<PatternV>, ps2: Seq<PatternV>)
    requires
        crate::pattern::named_constraint_conjunction(ps1),
        crate::pattern::named_constraint_conjunction(ps2),
        render_match(ps1) == render_match(ps2),
    ensures
        ps1 == ps2,
{
    let b1 = render_match_body(ps1);
    let b2 = render_match_body(ps2);
    let f1 = render_match(ps1);
    let f2 = render_match(ps2);
    assert(f1.len() == 5 + b1.len());
    assert(f2.len() == 5 + b2.len());
    assert(b1.len() == b2.len());
    assert forall|i: int| 0 <= i < b1.len() implies b1[i] == b2[i] by {
        assert(f1[5 + i] == b1[i]);
        assert(f2[5 + i] == b2[i]);
    }
    assert(b1 =~= b2);
    lemma_match_body_injective(ps1, ps2);
}

/// A grouped clause the builder layer produces: constraint leaves over valid
/// names, grouped by a named variable with a valid identifier.
pub open spec fn wf_match_group(g: MatchGroupV) -> bool {
    &&& crate::pattern::named_constraint_conjunction(g.patterns)
    &&& g.group_var is Name
    &&& crate::reference::wf_reference(g.group_var)
}

/// Law: the canonical text of a grouped match clause determines the clause,
/// for builder-produced groups — the last space of the text pins the grouping
/// variable.
pub proof fn lemma_match_group_text_injective(g1: MatchGroupV, g2: MatchGroupV)
    requires
        wf_match_group(g1),
        wf_match_group(g2),
        render_match_group(g1) == render_match_group(g2),
    ensures
        g1 == g2,
{
    let r1 = render_reference(g1.group_var);
    let r2 = render_reference(g2.group_var);
    let ma1 = render_match(g1.patterns);
    let ma2 = render_match(g2.patterns);
    let a1 = ma1 + seq![' ', 'g', 'r', 'o', 'u', 'p'];
    let a2 = ma2 + seq![' ', 'g', 'r', 'o', 'u', 'p'];
    crate::reference::lemma_render_reference_plain(g1.group_var);
    crate::reference::lemma_render_reference_plain(g2.group_var);
    assert(render_match_group(g1) =~= a1 + seq![' '] + (r1 + seq![';']));
    assert(render_match_group(g2) =~= a2 + seq![' '] + (r2 + seq![';']));
    assert forall|i: int| 0 <= i < (r1 + seq![';']).len() implies (r1 + seq![';'])[i] != ' ' by {
        if i < r1.len() {
            assert((r1 + seq![';'])[i] == r1[i]);
        } else {
            assert((r1 + seq![';'])[i] == ';');
        }
    }
    assert forall|i: int| 0 <= i < (r2 + seq![';']).len() implies (r2 + seq![';'])[i] != ' ' by {
        if i < r2.len() {
            assert((r2 + seq![';'])[i] == r2[i]);
        } else {
            assert((r2 + seq![';'])[i] == ';');
        }
    }
    crate::text::lemma_last_delimiter_split(a1, r1 + seq![';'], a2, r2 + seq![';'], ' ');
    assert(r1 =~= (r1 + seq![';']).drop_last());
    assert(r2 =~= (r2 + seq![';']).drop_last());
    crate::reference::lemma_reference_text_injective(g1.group_var, g2.group_var);
    assert(ma1.len() == ma2.len());
    assert forall|i: int| 0 <= i < ma1.len() implies ma1[i] == ma2[i] by {
        assert(a1[i] == ma1[i]);
        assert(a2[i] == ma2[i]);
    }
    assert(ma1 =~= ma2);
    lemma_match_text_injective(g1.patterns, g2.patterns);
    assert(g1 =~= g2);
}

/// Law (round trip, aggregate over a match): the full canonical text of an
/// aggregate over a match of builder-produced constraint leaves determines
/// the patterns, the method, and the target variable, so re-parsing it
/// recovers an equal tree.
pub proof fn lemma_match_aggregate_round_trip(
    ps1: Seq<PatternV>,
    m1: Aggregate,
    v1: Option<ReferenceV>,
    ps2: Seq<PatternV>,
    m2: Aggregate,
    v2: Option<ReferenceV>,
)
    requires
        crate::pattern::named_constraint_conjunction(ps1),
        crate::pattern::named_constraint_conjunction(ps2),
        wf_opt_var(v1),
        wf_opt_var(v2),
        render_match_aggregate(render_match(ps1), m1, v1) == render_match_aggregate(
            render_match(ps2),
            m2,
            v2,
        ),
    ensures
        ps1 == ps2,
        m1 == m2,
        v1 == v2,
{
    lemma_match_aggregate_text_injective(
        render_match(ps1),
        m1,
        v1,
        render_match(ps2),
        m2,
        v2,
    );
    lemma_match_text_injective(ps1, ps2);
}

/// Law (round trip, aggregate over a grouped match): the full canonical text
/// of an aggregate over a builder-produced grouped match determines the
/// grouped clause, the method, and the target variable, so re-parsing it
/// recovers an equal tree — the last semicolon before the aggregate line pins
/// the boundary.
pub proof fn lemma_group_aggregate_round_trip(
    g1: MatchGroupV,
    m1: Aggregate,
    v1: Option<ReferenceV>,
    g2: MatchGroupV,
    m2: Aggregate,
    v2: Option<ReferenceV>,
)
    requires
        wf_match_group(g1),
        wf_match_group(g2),
        wf_opt_var(v1),
        wf_opt_var(v2),
        render_group_aggregate(render_match_group(g1), m1, v1) == render_group_aggregate(
            render_match_group(g2),
            m2,
            v2,
        ),
    ensures
        g1 == g2,
        m1 == m2,
        v1 == v2,
{
    let c1 = render_match(g1.patterns) + seq![' ', 'g', 'r', 'o', 'u', 'p', ' ']
        + render_reference(g1.group_var);
    let c2 = render_match(g2.patterns) + seq![' ', 'g', 'r', 'o', 'u', 'p', ' ']
        + render_reference(g2.group_var);
    let w1 = match v1 {
        Option::Some(r) => render_aggregate_method(m1) + seq![' '] + render_reference(r),
        Option::None => render_aggregate_method(m1),
    };
    let w2 = match v2 {
        Option::Some(r) => render_aggregate_method(m2) + seq![' '] + render_reference(r),
        Option::None => render_aggregate_method(m2),
    };
    let t1 = render_group_aggregate(render_match_group(g1), m1, v1);
    let t2 = render_group_aggregate(render_match_group(g2), m2, v2);
    assert(t1 =~= (c1 + seq![';'] + (seq![' '] + w1)) + seq![';']);
    assert(t2 =~= (c2 + seq![';'] + (seq![' '] + w2)) + seq![';']);
    let u1 = c1 + seq![';'] + (seq![' '] + w1);
    let u2 = c2 + seq![';'] + (seq![' '] + w2);
    assert(u1.len() == u2.len());
    assert forall|i: int| 0 <= i < u1.len() implies u1[i] == u2[i] by {
        assert(t1[i] == u1[i]);
        assert(t2[i] == u2[i]);
    }
    assert(u1 =~= u2);
    lemma_method_token_plain(m1);
    lemma_method_token_plain(m2);
    lemma_no_semicolon_before_end(m1, v1, w1);
    lemma_no_semicolon_before_end(m2, v2, w2);
    crate::text::lemma_last_delimiter_split(c1, seq![' '] + w1, c2, seq![' '] + w2, ';');
    assert(render_match_group(g1) =~= c1 + seq![';']);
    assert(render_match_group(g2) =~= c2 + seq![';']);
    assert(render_match_group(g1) == render_match_group(g2));
    lemma_match_group_text_injective(g1, g2);
    assert(w1 =~= (seq![' '] + w1).drop_first());
    assert(w2 =~= (seq![' '] + w2).drop_first());
    assert(render_aggregate_suffix(m1, v1) =~= w1 + seq![';']);
    assert(render_aggregate_suffix(m2, v2) =~= w2 + seq![';']);
    lemma_aggregate_suffix_injective(m1, v1, m2, v2);
}

/// No character of the aggregate line before its final semicolon is a
/// semicolon or a line break.
proof fn lemma_no_semicolon_before_end(m: Aggregate, v: Option<ReferenceV>, w: Seq<char>)
    requires
        wf_opt_var(v),
        w == (match v {
            Option::Some(r) => render_aggregate_method(m) + seq![' '] + render_reference(r),
            Option::None => render_aggregate_method(m),
        }),
    ensures
        forall|i: int| 0 <= i < (seq![' '] + w).len() ==> (seq![' '] + w)[i] != ';',
{
    let t = render_aggregate_method(m);
    lemma_method_token_plain(m);
    let x = seq![' '] + w;
    match v {
        Option::Some(r) => {
            let rr = render_reference(r);
            crate::reference::lemma_render_reference_plain(r);
            assert(x =~= seq![' '] + t + seq![' '] + rr);
            assert forall|i: int| 0 <= i < x.len() implies x[i] != ';' by {
                if i == 0 {
                    assert(x[i] == ' ');
                } else if i < 1 + t.len() {
                    assert(x[i] == t[i - 1]);
                } else if i == 1 + t.len() {
                    assert(x[i] == ' ');
                } else {
                    assert(x[i] == rr[i - t.len() - 2]);
                }
            }
        },
        Option::None => {
            assert(x =~= seq![' '] + t);
            assert forall|i: int| 0 <= i < x.len() implies x[i] != ';' by {
                if i == 0 {
                    assert(x[i] == ' ');
                } else {
                    assert(x[i] == t[i - 1]);
                }
            }
        },
    }
}

} // verus!
