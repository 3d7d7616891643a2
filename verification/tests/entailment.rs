//! Tests for the entailment fold, the binding context, the operator-token
//! mapping, and the fresh-identifier allocator.

use refinement_types::context::RefinementContext;
use refinement_types::ids::DefinitionInfoId;
use refinement_types::ids::IdAllocator;
use refinement_types::refinements::BaseType;
use refinement_types::refinements::Primitive;
use refinement_types::refinements::PrimitiveType;
use refinement_types::refinements::Refinement;
use refinement_types::refinements::RefinementType;
use refinement_types::refinements::Token;
use refinement_types::refinements::fresh_bool_var;
use refinement_types::subtype::entails;

fn var(n: u64) -> Refinement {
    Refinement::Variable(DefinitionInfoId(n))
}

fn int_base() -> BaseType {
    BaseType::Primitive(PrimitiveType::IntegerType)
}

/// `int{binder: binder <op> 0}`.
fn int_refined(binder: u64, op: Primitive) -> RefinementType {
    RefinementType::Base(
        int_base(),
        Some((
            DefinitionInfoId(binder),
            Refinement::PrimitiveCall(op, vec![var(binder), Refinement::Integer(0)]),
        )),
    )
}

#[test]
fn entails_on_the_empty_context_is_the_goal() {
    let ctx = RefinementContext::new();
    let goal = var(1).eq(Refinement::Integer(2));
    assert_eq!(entails(&ctx, &goal), goal);
}

#[test]
fn entails_nests_two_assumptions_newest_outermost() {
    // Push (x, int{x: x>0}) then (y, int{y: y>=0}); the fold must produce
    // exactly p2 => (p1 => c), the most recently pushed assumption
    // outermost.  The bound types' self-binders equal the bound ids here,
    // so the renaming inside each assumption is the identity.
    let x = DefinitionInfoId(1);
    let y = DefinitionInfoId(2);
    let mut ctx = RefinementContext::new();
    ctx.insert_refinement(x, int_refined(1, Primitive::Gt));
    ctx.insert_refinement(y, int_refined(2, Primitive::Gte));
    let c = var(3).eq(Refinement::Integer(7));
    let p1 = Refinement::PrimitiveCall(Primitive::Gt, vec![var(1), Refinement::Integer(0)]);
    let p2 = Refinement::PrimitiveCall(Primitive::Gte, vec![var(2), Refinement::Integer(0)]);
    let expected = Refinement::PrimitiveCall(
        Primitive::Implies,
        vec![
            p2,
            Refinement::PrimitiveCall(Primitive::Implies, vec![p1, c.clone()]),
        ],
    );
    assert_eq!(entails(&ctx, &c), expected);
}

#[test]
fn entails_renames_the_self_binder_to_the_bound_id() {
    // Binding x to int{v: v>0} assumes x>0, not v>0.
    let x = DefinitionInfoId(9);
    let mut ctx = RefinementContext::new();
    ctx.insert_refinement(x, int_refined(1, Primitive::Gt));
    let c = Refinement::Boolean(false);
    let assumption = Refinement::PrimitiveCall(Primitive::Gt, vec![var(9), Refinement::Integer(0)]);
    assert_eq!(
        entails(&ctx, &c),
        Refinement::PrimitiveCall(Primitive::Implies, vec![assumption, c])
    );
}

#[test]
fn unrefined_bindings_contribute_true() {
    let mut ctx = RefinementContext::new();
    ctx.insert_refinement(DefinitionInfoId(1), RefinementType::unit());
    let c = var(2).eq(Refinement::Integer(1));
    assert_eq!(
        entails(&ctx, &c),
        Refinement::PrimitiveCall(Primitive::Implies, vec![Refinement::Boolean(true), c])
    );
}

#[test]
fn remove_refinement_pops_the_newest_matching_binding() {
    let x = DefinitionInfoId(1);
    let mut ctx = RefinementContext::new();
    ctx.insert_refinement(x, RefinementType::unit());
    ctx.insert_refinement(x, RefinementType::bool());
    ctx.insert_refinement(DefinitionInfoId(2), RefinementType::unit());
    ctx.remove_refinement(x);
    assert_eq!(ctx.len(), 2);
    assert_eq!(ctx.binding(0).1, RefinementType::unit());
    assert_eq!(ctx.binding(1).0, DefinitionInfoId(2));

    // Removing an absent binder leaves the context unchanged.
    ctx.remove_refinement(DefinitionInfoId(77));
    assert_eq!(ctx.len(), 2);
}

#[test]
fn from_token_maps_the_operator_set_and_nothing_else() {
    assert_eq!(Primitive::from_token(&Token::Add), Some(Primitive::Add));
    assert_eq!(Primitive::from_token(&Token::Subtract), Some(Primitive::Sub));
    assert_eq!(Primitive::from_token(&Token::Multiply), Some(Primitive::Mul));
    assert_eq!(Primitive::from_token(&Token::Divide), Some(Primitive::Div));
    assert_eq!(Primitive::from_token(&Token::EqualEqual), Some(Primitive::Eq));
    assert_eq!(Primitive::from_token(&Token::NotEqual), Some(Primitive::Neq));
    assert_eq!(Primitive::from_token(&Token::LessThan), Some(Primitive::Lt));
    assert_eq!(Primitive::from_token(&Token::GreaterThan), Some(Primitive::Gt));
    assert_eq!(
        Primitive::from_token(&Token::LessThanOrEqual),
        Some(Primitive::Lte)
    );
    assert_eq!(
        Primitive::from_token(&Token::GreaterThanOrEqual),
        Some(Primitive::Gte)
    );
    assert_eq!(Primitive::from_token(&Token::And), Some(Primitive::And));
    assert_eq!(Primitive::from_token(&Token::Or), Some(Primitive::Or));
    assert_eq!(Primitive::from_token(&Token::Not), Some(Primitive::Not));
    assert_eq!(Primitive::from_token(&Token::Assignment), None);
    assert_eq!(Primitive::from_token(&Token::Comma), None);
}

#[test]
fn the_allocator_never_repeats_an_id() {
    let mut alloc = IdAllocator::starting_at(100);
    let a = alloc.fresh_internal_var();
    let b = alloc.fresh_internal_var();
    let c = fresh_bool_var(&mut alloc);
    assert_eq!(a, DefinitionInfoId(100));
    assert_eq!(b, DefinitionInfoId(101));
    assert_eq!(c, DefinitionInfoId(102));
    assert!(a != b && b != c && a != c);
}

#[test]
fn bool_refined_mints_a_fresh_self_binder() {
    let mut alloc = IdAllocator::starting_at(7);
    let pred = var(1).eq(var(2));
    let ty = RefinementType::bool_refined(pred.clone(), &mut alloc);
    assert_eq!(
        ty,
        RefinementType::Base(
            BaseType::Primitive(PrimitiveType::BooleanType),
            Some((DefinitionInfoId(7), pred))
        )
    );
    // The next mint is distinct.
    assert_eq!(alloc.fresh_internal_var(), DefinitionInfoId(8));
}

#[test]
fn unit_and_bool_factories_are_unrefined() {
    assert_eq!(
        RefinementType::unit(),
        RefinementType::Base(BaseType::Primitive(PrimitiveType::UnitType), None)
    );
    assert_eq!(
        RefinementType::bool(),
        RefinementType::Base(BaseType::Primitive(PrimitiveType::BooleanType), None)
    );
}
