//! The identity of a query variable: named, or anonymous with an explicit
//! visibility. A named reference renders as `$name`; any anonymous reference
//! renders as `$_` regardless of visibility, which affects only whether the
//! variable is reported elsewhere, never its text.

use vstd::prelude::*;
use vstd::string::*;

verus! {

/// Whether an anonymous variable is reported in output.
#[derive(Debug, Clone, Copy, PartialEq, Eq, Structural)]
pub enum Visibility {
    Visible,
    Invisible,
}

/// The identity of a query variable.
#[derive(Debug, Clone, PartialEq, Eq)]
pub enum Reference {
    Anonymous(Visibility),
    Name(String),
}

/// The mathematical model of a [`Reference`]: the name is a character
/// sequence.
pub enum ReferenceV {
    Anonymous(Visibility),
    Name(Seq<char>),
}

impl View for Reference {
    type V = ReferenceV;

    open spec fn view(&self) -> ReferenceV {
        match self {
            Reference::Anonymous(v) => ReferenceV::Anonymous(*v),
            Reference::Name(n) => ReferenceV::Name(n@),
        }
    }
}

/// A character that may occur in a variable identifier.
pub open spec fn is_ident_char(c: char) -> bool {
    ('a' <= c && c <= 'z') || ('A' <= c && c <= 'Z') || ('0' <= c && c <= '9') || c == '_' || c
        == '-'
}

/// A syntactically valid variable identifier: non-empty, made of identifier
/// characters, and not starting with an underscore (so that no name renders
/// like the anonymous placeholder `$_`). The external scanner enforces this;
/// this core assumes it where a law needs it.
pub open spec fn valid_var_name(n: Seq<char>) -> bool {
    &&& n.len() > 0
    &&& n[0] != '_'
    &&& forall|i: int| 0 <= i < n.len() ==> is_ident_char(#[trigger] n[i])
}

/// A reference whose name, if it has one, is a valid identifier.
pub open spec fn wf_reference(v: ReferenceV) -> bool {
    match v {
        ReferenceV::Anonymous(_) => true,
        ReferenceV::Name(n) => valid_var_name(n),
    }
}

/// The canonical text of a reference: `$` followed by the name, or `$_` for
/// any anonymous reference.
pub open spec fn render_reference(v: ReferenceV) -> Seq<char> {
    match v {
        ReferenceV::Anonymous(_) => seq!['$', '_'],
        ReferenceV::Name(n) => seq!['$'] + n,
    }
}

/// Whether a reference is visible in reported output: everything but an
/// invisible anonymous reference.
pub open spec fn spec_is_visible(v: ReferenceV) -> bool {
    match v {
        ReferenceV::Anonymous(vis) => vis != Visibility::Invisible,
        ReferenceV::Name(_) => true,
    }
}

impl Reference {
    /// Whether this is a named reference.
    pub fn is_name(&self) -> (r: bool)
        ensures
            r == (self@ is Name),
    {
        match self {
            Reference::Name(_) => true,
            Reference::Anonymous(_) => false,
        }
    }

    /// Whether this reference is visible in reported output.
    pub fn is_visible(&self) -> (r: bool)
        ensures
            r == spec_is_visible(self@),
    {
        match self {
            Reference::Anonymous(Visibility::Invisible) => false,
            _ => true,
        }
    }

    /// Renders this reference: `$name`, or `$_` when anonymous.
    pub fn to_string(&self) -> (r: String)
        ensures
            r@ == render_reference(self@),
    {
        match self {
            Reference::Anonymous(_) => {
                let r = "$_".to_owned();
                proof {
                    reveal_strlit("$_");
                    assert(r@ =~= seq!['$', '_']);
                }
                r
            },
            Reference::Name(n) => {
                let mut r = "$".to_owned();
                r.append(n.as_str());
                proof {
                    reveal_strlit("$");
                    assert(r@ =~= seq!['$'] + n@);
                }
                r
            },
        }
    }
}

/// No character of a rendered reference is a separator of the surrounding
/// syntax: never a semicolon, a line break, or a space.
pub proof fn lemma_render_reference_plain(v: ReferenceV)
    requires
        wf_reference(v),
    ensures
        forall|i: int|
            0 <= i < render_reference(v).len() ==> render_reference(v)[i] != ';' && render_reference(
                v,
            )[i] != '\n' && render_reference(v)[i] != ' ',
{
    let t = render_reference(v);
    match v {
        ReferenceV::Anonymous(_) => {
            assert forall|i: int| 0 <= i < t.len() implies t[i] != ';' && t[i] != '\n' && t[i]
                != ' ' by {
                assert(t[0] == '$');
                assert(t[1] == '_');
            }
        },
        ReferenceV::Name(n) => {
            assert forall|i: int| 0 <= i < t.len() implies t[i] != ';' && t[i] != '\n' && t[i]
                != ' ' by {
                if i == 0 {
                    assert(t[0] == '$');
                } else {
                    assert(t[i] == n[i - 1]);
                    assert(is_ident_char(n[i - 1]));
                }
            }
        },
    }
}

/// Law: rendering is injective on well-formed references, except that the two
/// anonymous visibilities share the text `$_`. Re-parsing the text of a named
/// reference recovers exactly that reference.
pub proof fn lemma_reference_text_injective(v1: ReferenceV, v2: ReferenceV)
    requires
        wf_reference(v1),
        wf_reference(v2),
        render_reference(v1) == render_reference(v2),
    ensures
        v1 is Name <==> v2 is Name,
        v1 is Name ==> v1 == v2,
{
    let t1 = render_reference(v1);
    let t2 = render_reference(v2);
    match (v1, v2) {
        (ReferenceV::Name(n1), ReferenceV::Name(n2)) => {
            assert(t1.len() == t2.len());
            assert forall|i: int| 0 <= i < n1.len() implies n1[i] == n2[i] by {
                assert(t1[i + 1] == n1[i]);
                assert(t2[i + 1] == n2[i]);
            }
            assert(n1 =~= n2);
        },
        (ReferenceV::Name(n1), ReferenceV::Anonymous(_)) => {
            assert(t1.len() == 1 + n1.len());
            assert(n1.len() == 1);
            assert(t1[1] == n1[0]);
            assert(t2[1] == '_');
            assert(false);
        },
        (ReferenceV::Anonymous(_), ReferenceV::Name(n2)) => {
            assert(t2.len() == 1 + n2.len());
            assert(n2.len() == 1);
            assert(t2[1] == n2[0]);
            assert(t1[1] == '_');
            assert(false);
        },
        (ReferenceV::Anonymous(_), ReferenceV::Anonymous(_)) => {
        },
    }
}

} // verus!
