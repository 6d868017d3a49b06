//! The identity constraint: `is $x`. Several equivalent input shapes — a raw
//! name, an owned string, an unbound variable, or an already-typed concept
//! variable — normalize to the same internal reference form, so callers never
//! need to know which shape they started from, and no construction path here
//! can fail.

use crate::reference::{ReferenceV, render_reference};
use crate::variable::{ConceptVariable, UnboundVariable, var};
use vstd::prelude::*;
use vstd::string::*;

verus! {

/// An identity constraint on one concept variable.
#[derive(Debug, Clone, PartialEq, Eq)]
pub struct IsConstraint {
    variable: Box<ConceptVariable>,
}

impl View for IsConstraint {
    type V = ReferenceV;

    closed spec fn view(&self) -> ReferenceV {
        self.variable@
    }
}

/// The canonical text of an identity constraint: the keyword, one space, and
/// the constrained variable's own rendering.
pub open spec fn render_is_constraint(v: ReferenceV) -> Seq<char> {
    seq!['i', 's', ' '] + render_reference(v)
}

impl IsConstraint {
    /// Normalizes a raw name into an identity constraint.
    pub fn from_name(name: &str) -> (c: Self)
        ensures
            c@ == ReferenceV::Name(name@),
    {
        Self::from_unbound(var(name))
    }

    /// Normalizes an owned name into an identity constraint.
    pub fn from_owned_name(name: String) -> (c: Self)
        ensures
            c@ == ReferenceV::Name(name@),
    {
        Self::from_name(name.as_str())
    }

    /// Normalizes an unbound variable into an identity constraint, typing it
    /// as a concept variable on the way.
    pub fn from_unbound(variable: UnboundVariable) -> (c: Self)
        ensures
            c@ == variable@,
    {
        Self::from_concept(variable.into_concept())
    }

    /// Wraps an already-typed concept variable into an identity constraint.
    pub fn from_concept(variable: ConceptVariable) -> (c: Self)
        ensures
            c@ == variable@,
    {
        IsConstraint { variable: Box::new(variable) }
    }

    /// Renders this constraint: the keyword `is`, a space, the variable.
    pub fn to_string(&self) -> (r: String)
        ensures
            r@ == render_is_constraint(self@),
    {
        let mut r = "is ".to_owned();
        let v = self.variable.to_string();
        r.append(v.as_str());
        proof {
            reveal_strlit("is ");
            assert(r@ =~= render_is_constraint(self@));
        }
        r
    }
}

} // verus!
