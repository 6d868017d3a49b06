//! A typed abstract-syntax model for a declarative graph-pattern query
//! language, together with a fluent builder layer for aggregate queries, a
//! canonical serializer that renders each tree back into the language's exact
//! textual syntax, and a structured syntax-error reporter.
//!
//! Every entity is an immutable value type; construction and serialization are
//! pure. The serializer's output is specified character by character, so the
//! rendering of every tree is pinned down exactly by the contracts.

pub mod constraint;
pub mod error;
pub mod pattern;
pub mod query;
pub mod reference;
pub mod text;
pub mod variable;

pub use constraint::IsConstraint;
pub use error::SyntaxError;
pub use pattern::{Conjunction, Pattern};
pub use query::{
    Aggregate, AggregateQuery, AggregateQueryBuilder, Query, TypeQLMatch, TypeQLMatchAggregate,
    TypeQLMatchGroup, TypeQLMatchGroupAggregate,
};
pub use reference::{Reference, Visibility};
pub use text::indent;
pub use variable::{ConceptVariable, UnboundVariable, var};
