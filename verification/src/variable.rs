//! Query variables: the unbound form a builder call introduces, and the
//! concept-typed form a constraint owns. Both are thin carriers of a
//! [`Reference`] and render exactly as their reference does.

use crate::reference::{Reference, ReferenceV, render_reference};
use vstd::prelude::*;

verus! {

/// A variable not yet bound to a category; the form the builder layer hands
/// around.
#[derive(Debug, Clone, PartialEq, Eq)]
pub struct UnboundVariable {
    pub reference: Reference,
}

/// A variable of the "concept" category, the only category an identity
/// constraint may hold. The conversion paths below are the construction-time
/// guarantee: no other way to make one exists in this layer.
#[derive(Debug, Clone, PartialEq, Eq)]
pub struct ConceptVariable {
    pub reference: Reference,
}

impl View for UnboundVariable {
    type V = ReferenceV;

    open spec fn view(&self) -> ReferenceV {
        self.reference@
    }
}

impl View for ConceptVariable {
    type V = ReferenceV;

    open spec fn view(&self) -> ReferenceV {
        self.reference@
    }
}

/// Introduces a named query variable.
pub fn var(name: &str) -> (v: UnboundVariable)
    ensures
        v@ == ReferenceV::Name(name@),
{
    UnboundVariable { reference: Reference::Name(name.to_owned()) }
}

impl UnboundVariable {
    /// Types this variable as a concept variable, keeping its reference.
    pub fn into_concept(self) -> (c: ConceptVariable)
        ensures
            c@ == self@,
    {
        ConceptVariable { reference: self.reference }
    }

    /// Renders this variable: its reference's own text.
    pub fn to_string(&self) -> (r: String)
        ensures
            r@ == render_reference(self@),
    {
        self.reference.to_string()
    }
}

impl ConceptVariable {
    /// Renders this variable: its reference's own text.
    pub fn to_string(&self) -> (r: String)
        ensures
            r@ == render_reference(self@),
    {
        self.reference.to_string()
    }
}

} // verus!
