//! Laws of the substitution engine, stated over the formula model and
//! proved once for all inputs.

use vstd::prelude::*;

use crate::ids::DefinitionInfoId;
use crate::refinements::SpecRefinement;
use crate::refinements::lemma_contains_add;
use crate::refinements::subst_formula_seq;
use crate::refinements::vars_formula_seq;

verus! {

/// Substitution vacuity: if `id` does not occur in `e`, substituting for it
/// leaves the formula unchanged, whatever the replacement.
pub proof fn lemma_substitute_vacuous(e: SpecRefinement, id: DefinitionInfoId, r: SpecRefinement)
    requires
        !e.vars().contains(id),
    ensures
        e.subst(id, r) == e,
    decreases e,
{
    match e {
        SpecRefinement::Variable(v) => {
            assert(e.vars()[0] == v);
            assert(v != id);
        },
        SpecRefinement::Integer(_) => {},
        SpecRefinement::Boolean(_) => {},
        SpecRefinement::Float(_) => {},
        SpecRefinement::Unit => {},
        SpecRefinement::Constructor(f, args) => {
            lemma_contains_add(seq![f], vars_formula_seq(args), id);
            lemma_substitute_vacuous_seq(args, id, r);
        },
        SpecRefinement::PrimitiveCall(_, args) => {
            lemma_substitute_vacuous_seq(args, id, r);
        },
        SpecRefinement::Uninterpreted(f, args) => {
            lemma_contains_add(seq![f], vars_formula_seq(args), id);
            lemma_substitute_vacuous_seq(args, id, r);
        },
        SpecRefinement::Forall(x, _t, e2) => {
            lemma_contains_add(seq![x], (*e2).vars(), id);
            lemma_substitute_vacuous(*e2, id, r);
        },
    }
}

/// Substitution vacuity, lifted elementwise over a sequence of formulas.
pub proof fn lemma_substitute_vacuous_seq(
    s: Seq<SpecRefinement>,
    id: DefinitionInfoId,
    r: SpecRefinement,
)
    requires
        !vars_formula_seq(s).contains(id),
    ensures
        subst_formula_seq(s, id, r) == s,
    decreases s,
{
    if s.len() > 0 {
        lemma_contains_add(vars_formula_seq(s.drop_last()), s.last().vars(), id);
        lemma_substitute_vacuous_seq(s.drop_last(), id, r);
        lemma_substitute_vacuous(s.last(), id, r);
        assert(subst_formula_seq(s, id, r) =~= s);
    }
}

/// The identifiers occurring in non-variable position: constructor and
/// uninterpreted-application heads and quantifier binders, which
/// substitution never touches.
pub open spec fn non_variable_ids(e: SpecRefinement) -> Seq<DefinitionInfoId>
    decreases e,
{
    match e {
        SpecRefinement::Variable(_) => Seq::empty(),
        SpecRefinement::Integer(_) => Seq::empty(),
        SpecRefinement::Boolean(_) => Seq::empty(),
        SpecRefinement::Float(_) => Seq::empty(),
        SpecRefinement::Unit => Seq::empty(),
        SpecRefinement::PrimitiveCall(_, args) => non_variable_ids_seq(args),
        SpecRefinement::Constructor(f, args) => seq![f] + non_variable_ids_seq(args),
        SpecRefinement::Uninterpreted(f, args) => seq![f] + non_variable_ids_seq(args),
        SpecRefinement::Forall(x, _t, e2) => seq![x] + non_variable_ids(*e2),
    }
}

/// The non-variable identifiers of a sequence of formulas, concatenated.
pub open spec fn non_variable_ids_seq(s: Seq<SpecRefinement>) -> Seq<DefinitionInfoId>
    decreases s,
{
    if s.len() == 0 {
        Seq::empty()
    } else {
        non_variable_ids_seq(s.drop_last()) + non_variable_ids(s.last())
    }
}

/// Referenced-identifier coverage: when `id` occurs in `e` only in variable
/// position, every identifier of the substituted formula comes either from
/// `e` without `id`, or from the replacement `r`.
///
/// The restriction is necessary: an occurrence of `id` as an application
/// head or quantifier binder survives substitution untouched, and is then
/// neither in the identifiers of `e` minus `id` nor in those of `r`.
pub proof fn lemma_substitute_coverage(e: SpecRefinement, id: DefinitionInfoId, r: SpecRefinement)
    requires
        !non_variable_ids(e).contains(id),
    ensures
        forall|x: DefinitionInfoId| #[trigger] e.subst(id, r).vars().contains(x) ==> (
        e.vars().contains(x) && x != id) || r.vars().contains(x),
    decreases e,
{
    match e {
        SpecRefinement::Variable(v) => {
            if v != id {
                assert forall|x: DefinitionInfoId| #[trigger] e.subst(id, r).vars().contains(x)
                    implies (e.vars().contains(x) && x != id) || r.vars().contains(x) by {
                    assert(e.subst(id, r) == e);
                    assert(e.vars() == seq![v]);
                    assert(e.vars().contains(v));
                }
            }
        },
        SpecRefinement::Integer(_) => {},
        SpecRefinement::Boolean(_) => {},
        SpecRefinement::Float(_) => {},
        SpecRefinement::Unit => {},
        SpecRefinement::PrimitiveCall(_, args) => {
            lemma_substitute_coverage_seq(args, id, r);
            assert forall|x: DefinitionInfoId| #[trigger] e.subst(id, r).vars().contains(x)
                implies (e.vars().contains(x) && x != id) || r.vars().contains(x) by {
                assert(e.subst(id, r).vars() == vars_formula_seq(subst_formula_seq(args, id, r)));
            }
        },
        SpecRefinement::Constructor(f, args) => {
            lemma_head_coverage(e, f, args, id, r);
        },
        SpecRefinement::Uninterpreted(f, args) => {
            lemma_head_coverage(e, f, args, id, r);
        },
        SpecRefinement::Forall(x0, _t, e2) => {
            assert(non_variable_ids(e)[0] == x0);
            assert(x0 != id);
            lemma_contains_add(seq![x0], non_variable_ids(*e2), id);
            lemma_substitute_coverage(*e2, id, r);
            assert forall|x: DefinitionInfoId| #[trigger] e.subst(id, r).vars().contains(x)
                implies (e.vars().contains(x) && x != id) || r.vars().contains(x) by {
                lemma_contains_add(seq![x0], (*e2).subst(id, r).vars(), x);
                if seq![x0].contains(x) {
                    assert(x == x0);
                    assert(e.vars()[0] == x0);
                } else {
                    lemma_contains_add(seq![x0], (*e2).vars(), x);
                }
            }
        },
    }
}

/// Coverage for the two head-applied variants, which share one shape.
proof fn lemma_head_coverage(
    e: SpecRefinement,
    f: DefinitionInfoId,
    args: Seq<SpecRefinement>,
    id: DefinitionInfoId,
    r: SpecRefinement,
)
    requires
        !non_variable_ids(e).contains(id),
        e == SpecRefinement::Constructor(f, args) || e == SpecRefinement::Uninterpreted(f, args),
    ensures
        forall|x: DefinitionInfoId| #[trigger] e.subst(id, r).vars().contains(x) ==> (
        e.vars().contains(x) && x != id) || r.vars().contains(x),
    decreases e, 1int,
{
    assert(non_variable_ids(e)[0] == f);
    assert(f != id);
    lemma_contains_add(seq![f], non_variable_ids_seq(args), id);
    lemma_substitute_coverage_seq(args, id, r);
    assert forall|x: DefinitionInfoId| #[trigger] e.subst(id, r).vars().contains(x) implies (
    e.vars().contains(x) && x != id) || r.vars().contains(x) by {
        assert(e.subst(id, r).vars() == seq![f] + vars_formula_seq(
            subst_formula_seq(args, id, r),
        ));
        lemma_contains_add(seq![f], vars_formula_seq(subst_formula_seq(args, id, r)), x);
        if seq![f].contains(x) {
            assert(x == f);
            assert(e.vars()[0] == f);
        } else {
            lemma_contains_add(seq![f], vars_formula_seq(args), x);
        }
    }
}

/// Coverage, lifted elementwise over a sequence of formulas.
pub proof fn lemma_substitute_coverage_seq(
    s: Seq<SpecRefinement>,
    id: DefinitionInfoId,
    r: SpecRefinement,
)
    requires
        !non_variable_ids_seq(s).contains(id),
    ensures
        forall|x: DefinitionInfoId|
            #[trigger] vars_formula_seq(subst_formula_seq(s, id, r)).contains(x) ==> (
            vars_formula_seq(s).contains(x) && x != id) || r.vars().contains(x),
    decreases s,
{
    if s.len() > 0 {
        lemma_contains_add(non_variable_ids_seq(s.drop_last()), non_variable_ids(s.last()), id);
        lemma_substitute_coverage_seq(s.drop_last(), id, r);
        lemma_substitute_coverage(s.last(), id, r);
        assert(subst_formula_seq(s, id, r).drop_last() =~= subst_formula_seq(
            s.drop_last(),
            id,
            r,
        ));
        assert(vars_formula_seq(subst_formula_seq(s, id, r)) == vars_formula_seq(
            subst_formula_seq(s.drop_last(), id, r),
        ) + s.last().subst(id, r).vars());
        assert forall|x: DefinitionInfoId|
            #[trigger] vars_formula_seq(subst_formula_seq(s, id, r)).contains(x) implies (
        vars_formula_seq(s).contains(x) && x != id) || r.vars().contains(x) by {
            lemma_contains_add(
                vars_formula_seq(subst_formula_seq(s.drop_last(), id, r)),
                s.last().subst(id, r).vars(),
                x,
            );
            lemma_contains_add(vars_formula_seq(s.drop_last()), s.last().vars(), x);
        }
    }
}

} // verus!
