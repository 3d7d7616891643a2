//! Tests for the refinement formula algebra: identifier traversal,
//! substitution, and the smart constructors.

use refinement_types::ids::DefinitionInfoId;
use refinement_types::refinements::BaseType;
use refinement_types::refinements::Primitive;
use refinement_types::refinements::PrimitiveType;
use refinement_types::refinements::Refinement;
use refinement_types::refinements::RefinementType;

fn var(n: u64) -> Refinement {
    Refinement::Variable(DefinitionInfoId(n))
}

fn int_base() -> BaseType {
    BaseType::Primitive(PrimitiveType::IntegerType)
}

#[test]
fn find_variables_covers_heads_binders_and_duplicates() {
    // ((f x x) and forall b:int. b) mentions f, x twice, and the binder b.
    let call = Refinement::Uninterpreted(DefinitionInfoId(7), vec![var(1), var(1)]);
    let quant = Refinement::Forall(
        DefinitionInfoId(9),
        Box::new(RefinementType::Base(int_base(), None)),
        Box::new(var(9)),
    );
    let both = call.and(quant);
    let vars = both.find_variables();
    assert_eq!(
        vars,
        vec![
            DefinitionInfoId(7),
            DefinitionInfoId(1),
            DefinitionInfoId(1),
            DefinitionInfoId(9),
            DefinitionInfoId(9),
        ]
    );
}

#[test]
fn find_variables_of_leaves_is_empty() {
    assert_eq!(Refinement::Integer(3).find_variables(), vec![]);
    assert_eq!(Refinement::Boolean(false).find_variables(), vec![]);
    assert_eq!(Refinement::Float(0x3ff0000000000000).find_variables(), vec![]);
    assert_eq!(Refinement::Unit.find_variables(), vec![]);
}

#[test]
fn substitute_replaces_every_variable_occurrence() {
    // (x + x) with x := 5 becomes (5 + 5).
    let sum = Refinement::PrimitiveCall(Primitive::Add, vec![var(1), var(1)]);
    let result = sum.substitute(DefinitionInfoId(1), &Refinement::Integer(5));
    assert_eq!(
        result,
        Refinement::PrimitiveCall(
            Primitive::Add,
            vec![Refinement::Integer(5), Refinement::Integer(5)]
        )
    );
}

#[test]
fn substitute_leaves_binders_and_heads_untouched() {
    // forall x:int. (f x): substituting for x rewrites the body's variable
    // occurrence but neither the binder nor the application head.
    let body = Refinement::Uninterpreted(DefinitionInfoId(1), vec![var(1)]);
    let quant = Refinement::Forall(
        DefinitionInfoId(1),
        Box::new(RefinementType::Base(int_base(), None)),
        Box::new(body),
    );
    let result = quant.substitute(DefinitionInfoId(1), &Refinement::Integer(0));
    assert_eq!(
        result,
        Refinement::Forall(
            DefinitionInfoId(1),
            Box::new(RefinementType::Base(int_base(), None)),
            Box::new(Refinement::Uninterpreted(
                DefinitionInfoId(1),
                vec![Refinement::Integer(0)]
            )),
        )
    );
}

#[test]
fn substitute_vacuous_when_id_absent() {
    // id 42 does not occur in (x > 0), so substitution is the identity.
    let pred = Refinement::PrimitiveCall(Primitive::Gt, vec![var(1), Refinement::Integer(0)]);
    let result = pred.substitute(DefinitionInfoId(42), &Refinement::Integer(9));
    assert_eq!(result, pred);
}

#[test]
fn substitute_result_identifiers_come_from_expr_or_replacement() {
    // Substituting r into e: every identifier of the result is an identifier
    // of e other than the substituted one, or an identifier of r.
    let e = Refinement::PrimitiveCall(Primitive::And, vec![var(1), var(2)]);
    let r = Refinement::Uninterpreted(DefinitionInfoId(3), vec![var(4)]);
    let result = e.substitute(DefinitionInfoId(2), &r);
    let kept: Vec<_> = e
        .find_variables()
        .into_iter()
        .filter(|v| *v != DefinitionInfoId(2))
        .collect();
    let from_r = r.find_variables();
    for v in result.find_variables() {
        assert!(kept.contains(&v) || from_r.contains(&v));
    }
}

#[test]
fn substitute_ignores_constructor_heads_even_when_they_match() {
    // Substitution replaces variable occurrences only: a constructor head
    // equal to the substituted id survives untouched, while the argument
    // occurrence is replaced.
    let e = Refinement::Constructor(DefinitionInfoId(1), vec![var(1), Refinement::Unit]);
    let result = e.substitute(DefinitionInfoId(1), &Refinement::Integer(5));
    assert_eq!(
        result,
        Refinement::Constructor(
            DefinitionInfoId(1),
            vec![Refinement::Integer(5), Refinement::Unit]
        )
    );
}

#[test]
fn substitute_var_is_variable_substitution() {
    let pred = Refinement::PrimitiveCall(Primitive::Lt, vec![var(2), Refinement::Integer(10)]);
    let renamed = pred.substitute_var(DefinitionInfoId(2), DefinitionInfoId(5));
    assert_eq!(
        renamed,
        Refinement::PrimitiveCall(Primitive::Lt, vec![var(5), Refinement::Integer(10)])
    );
}

#[test]
fn smart_constructors_build_primitive_calls_without_simplifying() {
    assert_eq!(Refinement::none(), Refinement::Boolean(true));
    let both_true = Refinement::Boolean(true).and(Refinement::Boolean(true));
    // Conjoining two `true` literals yields a call node, not a literal.
    assert_eq!(
        both_true,
        Refinement::PrimitiveCall(
            Primitive::And,
            vec![Refinement::Boolean(true), Refinement::Boolean(true)]
        )
    );
    assert_eq!(
        var(1).implies(var(2)),
        Refinement::PrimitiveCall(Primitive::Implies, vec![var(1), var(2)])
    );
    assert_eq!(
        var(1).eq(var(2)),
        Refinement::PrimitiveCall(Primitive::Eq, vec![var(1), var(2)])
    );
    assert_eq!(
        var(1).not(),
        Refinement::PrimitiveCall(Primitive::Not, vec![var(1)])
    );
}

#[test]
fn type_substitution_keeps_self_binder() {
    // int{v: v == x} with x := 3: the self-binder v stays, the predicate is
    // rewritten.
    let v = DefinitionInfoId(1);
    let x = DefinitionInfoId(2);
    let ty = RefinementType::Base(
        int_base(),
        Some((v, Refinement::PrimitiveCall(Primitive::Eq, vec![var(1), var(2)]))),
    );
    let result = ty.substitute(x, &Refinement::Integer(3));
    assert_eq!(
        result,
        RefinementType::Base(
            int_base(),
            Some((
                v,
                Refinement::PrimitiveCall(Primitive::Eq, vec![var(1), Refinement::Integer(3)])
            )),
        )
    );
}

#[test]
fn type_substitution_reaches_parameters_and_return() {
    // (a: int{v: v > x}) -> int{w: w == x}, with x renamed to y.
    let x = DefinitionInfoId(10);
    let y = DefinitionInfoId(11);
    let param = RefinementType::Base(
        int_base(),
        Some((
            DefinitionInfoId(1),
            Refinement::PrimitiveCall(Primitive::Gt, vec![var(1), var(10)]),
        )),
    );
    let ret = RefinementType::Base(
        int_base(),
        Some((
            DefinitionInfoId(2),
            Refinement::PrimitiveCall(Primitive::Eq, vec![var(2), var(10)]),
        )),
    );
    let f = RefinementType::Function(vec![(DefinitionInfoId(3), param)], Box::new(ret));
    let renamed = f.substitute_var(x, y);
    let expected_param = RefinementType::Base(
        int_base(),
        Some((
            DefinitionInfoId(1),
            Refinement::PrimitiveCall(Primitive::Gt, vec![var(1), var(11)]),
        )),
    );
    let expected_ret = RefinementType::Base(
        int_base(),
        Some((
            DefinitionInfoId(2),
            Refinement::PrimitiveCall(Primitive::Eq, vec![var(2), var(11)]),
        )),
    );
    assert_eq!(
        renamed,
        RefinementType::Function(
            vec![(DefinitionInfoId(3), expected_param)],
            Box::new(expected_ret)
        )
    );
}
