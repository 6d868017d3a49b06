use typeql::AggregateQueryBuilder;
use typeql::query::aggregate_method_str;
use typeql::{
    Aggregate, AggregateQuery, Conjunction, IsConstraint, Pattern, Query, Reference, TypeQLMatch,
    TypeQLMatchGroup, Visibility, var,
};

fn is_x_pattern() -> Pattern {
    Pattern::Constraint(IsConstraint::from_name("x"))
}

fn match_is_x() -> TypeQLMatch {
    TypeQLMatch::new(Conjunction::new(vec![is_x_pattern()]))
}

#[test]
fn reference_name_renders_with_sigil() {
    let r = Reference::Name(String::from("x"));
    assert_eq!(r.to_string(), "$x");
    let long = Reference::Name(String::from("person-name_2"));
    assert_eq!(long.to_string(), "$person-name_2");
}

#[test]
fn reference_anonymous_renders_placeholder() {
    let visible = Reference::Anonymous(Visibility::Visible);
    let invisible = Reference::Anonymous(Visibility::Invisible);
    assert_eq!(visible.to_string(), "$_");
    assert_eq!(invisible.to_string(), "$_");
}

#[test]
fn reference_queries() {
    let named = Reference::Name(String::from("x"));
    assert!(named.is_name());
    assert!(named.is_visible());
    let visible = Reference::Anonymous(Visibility::Visible);
    assert!(!visible.is_name());
    assert!(visible.is_visible());
    let invisible = Reference::Anonymous(Visibility::Invisible);
    assert!(!invisible.is_name());
    assert!(!invisible.is_visible());
}

#[test]
fn constraint_normalizes_all_input_shapes() {
    let from_name = IsConstraint::from_name("x");
    let from_owned = IsConstraint::from_owned_name(String::from("x"));
    let from_unbound = IsConstraint::from_unbound(var("x"));
    let from_concept = IsConstraint::from_concept(var("x").into_concept());
    assert_eq!(from_name, from_owned);
    assert_eq!(from_name, from_unbound);
    assert_eq!(from_name, from_concept);
    assert_eq!(from_name.to_string(), "is $x");
}

#[test]
fn conjunction_single_constraint_indentation() {
    let conj = Conjunction::new(vec![is_x_pattern()]);
    assert_eq!(conj.to_string(), "{\n  is $x;\n}");
}

#[test]
fn conjunction_nested_indentation_doubles() {
    let inner = Conjunction::new(vec![is_x_pattern()]);
    let outer = Conjunction::new(vec![inner.into_pattern()]);
    assert_eq!(outer.to_string(), "{\n  {\n    is $x;\n  };\n}");
}

#[test]
fn conjunction_empty_block() {
    let conj = Conjunction::new(vec![]);
    assert_eq!(conj.to_string(), "{\n}");
}

#[test]
fn conjunction_order_preserved() {
    let conj = Conjunction::new(vec![
        Pattern::Constraint(IsConstraint::from_name("a")),
        Pattern::Constraint(IsConstraint::from_name("b")),
    ]);
    assert_eq!(conj.to_string(), "{\n  is $a;\n  is $b;\n}");
    let swapped = Conjunction::new(vec![
        Pattern::Constraint(IsConstraint::from_name("b")),
        Pattern::Constraint(IsConstraint::from_name("a")),
    ]);
    assert_ne!(conj.to_string(), swapped.to_string());
}

#[test]
fn match_renders_clauses() {
    assert_eq!(match_is_x().to_string(), "match\nis $x;");
}

#[test]
fn count_has_no_variable() {
    let q = match_is_x().count();
    assert_eq!(q.method, Aggregate::Count);
    assert!(q.var.is_none());
    let direct = AggregateQuery::new_count(match_is_x());
    assert_eq!(q, direct);
}

#[test]
fn named_aggregates_carry_variable() {
    assert_eq!(match_is_x().max(var("x")).var, Some(var("x")));
    assert_eq!(match_is_x().max(var("x")).method, Aggregate::Max);
    assert_eq!(match_is_x().min(var("x")).var, Some(var("x")));
    assert_eq!(match_is_x().min(var("x")).method, Aggregate::Min);
    assert_eq!(match_is_x().mean(var("x")).var, Some(var("x")));
    assert_eq!(match_is_x().mean(var("x")).method, Aggregate::Mean);
    assert_eq!(match_is_x().median(var("x")).var, Some(var("x")));
    assert_eq!(match_is_x().median(var("x")).method, Aggregate::Median);
    assert_eq!(match_is_x().std_dev(var("x")).var, Some(var("x")));
    assert_eq!(match_is_x().std_dev(var("x")).method, Aggregate::Std);
    assert_eq!(match_is_x().sum(var("x")).var, Some(var("x")));
    assert_eq!(match_is_x().sum(var("x")).method, Aggregate::Sum);
    assert_eq!(match_is_x().aggregate(Aggregate::Max, var("x")), match_is_x().max(var("x")));
}

#[test]
fn match_aggregate_newline_separator() {
    let base_text = match_is_x().to_string();
    let count_text = match_is_x().count().to_string();
    assert_eq!(count_text, format!("{}\ncount;", base_text));
    let max_text = match_is_x().max(var("x")).to_string();
    assert_eq!(max_text, format!("{}\nmax $x;", base_text));
}

#[test]
fn group_aggregate_space_separator() {
    let group = TypeQLMatchGroup::new(match_is_x(), var("x"));
    let base_text = group.to_string();
    assert_eq!(base_text, "match\nis $x; group $x;");
    let group_count = TypeQLMatchGroup::new(match_is_x(), var("x")).count();
    assert_eq!(group_count.to_string(), format!("{} count;", base_text));
    let group_sum = TypeQLMatchGroup::new(match_is_x(), var("x")).sum(var("x"));
    assert_eq!(group_sum.to_string(), format!("{} sum $x;", base_text));
}

#[test]
fn aggregate_method_tokens() {
    assert_eq!(aggregate_method_str(Aggregate::Count), "count");
    assert_eq!(aggregate_method_str(Aggregate::Max), "max");
    assert_eq!(aggregate_method_str(Aggregate::Min), "min");
    assert_eq!(aggregate_method_str(Aggregate::Mean), "mean");
    assert_eq!(aggregate_method_str(Aggregate::Median), "median");
    assert_eq!(aggregate_method_str(Aggregate::Std), "std");
    assert_eq!(aggregate_method_str(Aggregate::Sum), "sum");
}

#[test]
fn aggregates_fold_into_query_variants() {
    let q = match_is_x().count().into_query();
    assert!(matches!(q, Query::Aggregate(_)));
    assert_eq!(q.to_string(), "match\nis $x;\ncount;");
    let g = TypeQLMatchGroup::new(match_is_x(), var("x")).count().into_query();
    assert!(matches!(g, Query::GroupAggregate(_)));
    assert_eq!(g.to_string(), "match\nis $x; group $x; count;");
}

#[test]
fn round_trip_conjunction_of_constraints() {
    // Re-parsing the canonical text of a builder-made tree yields an equal
    // tree: building the tree the text describes gives back the original.
    let original = Conjunction::new(vec![
        Pattern::Constraint(IsConstraint::from_name("a")),
        Pattern::Constraint(IsConstraint::from_name("b")),
    ]);
    let text = original.to_string();
    assert_eq!(text, "{\n  is $a;\n  is $b;\n}");
    let reparsed = Conjunction::new(vec![
        Pattern::Constraint(IsConstraint::from_name("a")),
        Pattern::Constraint(IsConstraint::from_name("b")),
    ]);
    assert_eq!(reparsed.to_string(), text);
    assert_eq!(original, reparsed);
}

#[test]
fn round_trip_both_aggregate_shapes() {
    let m1 = match_is_x().median(var("x"));
    let m2 = match_is_x().median(var("x"));
    assert_eq!(m1.to_string(), m2.to_string());
    assert_eq!(m1, m2);
    let g1 = TypeQLMatchGroup::new(match_is_x(), var("x")).max(var("x"));
    let g2 = TypeQLMatchGroup::new(match_is_x(), var("x")).max(var("x"));
    assert_eq!(g1.to_string(), g2.to_string());
    assert_eq!(g1, g2);
    // Distinct methods and variables give distinct texts.
    assert_ne!(m1.to_string(), match_is_x().mean(var("x")).to_string());
    assert_ne!(m1.to_string(), match_is_x().median(var("y")).to_string());
    assert_ne!(m1.to_string(), match_is_x().count().to_string());
}

#[test]
fn indent_transforms_every_line() {
    assert_eq!(typeql::indent("a"), "  a");
    assert_eq!(typeql::indent("a\nb"), "  a\n  b");
    assert_eq!(typeql::indent(""), "  ");
}
