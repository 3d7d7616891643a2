//! The subtyping engine.
//!
//! Given a candidate subtype, a candidate supertype and the live binding
//! context, [`RefinementType::check_subtype`] reduces the subtyping question
//! to a single verification-condition formula whose external validity is
//! necessary and sufficient for the judgment to hold.  The engine never
//! evaluates validity itself; an external decision procedure does.
//!
//! Dispatch is by the paired shapes of the two types.  A shape mismatch is a
//! contract violation (upstream kind-checking must already have unified the
//! shapes) and is reported as a distinct error, never as a silently accepted
//! or rejected formula.  The constructor-application and quantifier
//! subtyping rules are open in this design: they fail loudly with an
//! explicit incomplete-rule error rather than defaulting to a vacuously true
//! formula, which would unsoundly accept ill-typed programs.

use vstd::prelude::*;

use crate::context::RefinementContext;
use crate::context::remove_newest;
use crate::ids::DefinitionInfoId;
use crate::refinements::BaseType;
use crate::refinements::NamedType;
use crate::refinements::Refinement;
use crate::refinements::RefinementType;
use crate::refinements::SpecRefinement;
use crate::refinements::SpecRefinementType;
use crate::refinements::lemma_model_named_seq;
use crate::refinements::lemma_size_named_seq_first;
use crate::refinements::lemma_size_pos;
use crate::refinements::lemma_subst_preserves_size;
use crate::refinements::model_named_seq;
use crate::refinements::spec_and;
use crate::refinements::spec_implies;

verus! {

/// How a subtyping query can fail.  Both cases are fatal to the current
/// type-check query and indicate a checker defect, not a program defect.
#[derive(Debug, Clone, Copy, PartialEq, Eq, Structural)]
pub enum SubtypeError {
    /// The two types differ in shape; upstream kind-checking should have
    /// ruled this out.
    MismatchedShapes,
    /// Both types are parameterized type applications; that rule is open in
    /// this design.
    IncompleteTypeApplicationRule,
    /// Both types are universally quantified schemes; that rule is open in
    /// this design.  The intended rule requires matching arity of the two
    /// quantified-variable sequences, then recursively checks subtyping of
    /// the bodies after instantiating both with the same fresh type
    /// variables.
    IncompleteForAllRule,
}

/// The [Sub-Base] obligation over binder/predicate pairs: a missing pair is
/// treated as the binder-irrelevant predicate `true`.  When only the
/// supertype carries a pair its own binder is kept, and when neither does
/// the binder choice is immaterial, both predicates being `true`.
pub open spec fn spec_base_vc(
    r1: Option<(DefinitionInfoId, SpecRefinement)>,
    r2: Option<(DefinitionInfoId, SpecRefinement)>,
) -> SpecRefinement {
    let v1 = match r1 {
        Option::Some(p) => p.0,
        Option::None => match r2 {
            Option::Some(q) => q.0,
            Option::None => DefinitionInfoId(0),
        },
    };
    let p1 = match r1 {
        Option::Some(p) => p.1,
        Option::None => SpecRefinement::Boolean(true),
    };
    let v2 = match r2 {
        Option::Some(q) => q.0,
        Option::None => v1,
    };
    let p2 = match r2 {
        Option::Some(q) => q.1,
        Option::None => SpecRefinement::Boolean(true),
    };
    spec_implies(p1, p2.subst_var(v2, v1))
}

/// The remainder of a function type once its first parameter is peeled off:
/// the return type itself for a one-parameter function, otherwise the
/// function over the remaining parameters.
pub open spec fn spec_peel(
    args: Seq<(DefinitionInfoId, SpecRefinementType)>,
    ret: SpecRefinementType,
) -> SpecRefinementType {
    if args.len() <= 1 {
        ret
    } else {
        SpecRefinementType::Function(args.drop_first(), Box::new(ret))
    }
}

/// Combine the two [Sub-Fun] sub-obligations: the first error wins, and two
/// successes conjoin.
pub open spec fn sub_vc_combine(
    ra: Result<SpecRefinement, SubtypeError>,
    rb: Result<SpecRefinement, SubtypeError>,
) -> Result<SpecRefinement, SubtypeError> {
    match ra {
        Result::Err(e) => Result::Err(e),
        Result::Ok(fa) => match rb {
            Result::Err(e) => Result::Err(e),
            Result::Ok(fb) => Result::Ok(spec_and(fa, fb)),
        },
    }
}

/// The verification condition for `sub <: sup`, or the error the engine
/// reports.  Multi-parameter functions are handled as their curried form:
/// pairwise, left to right.
pub open spec fn sub_vc(
    sub: SpecRefinementType,
    sup: SpecRefinementType,
) -> Result<SpecRefinement, SubtypeError>
    decreases sub.size() + sup.size(), 1int
    via sub_vc_decreases
{
    match (sub, sup) {
        (SpecRefinementType::Base(_b1, r1), SpecRefinementType::Base(_b2, r2)) => Result::Ok(
            spec_base_vc(r1, r2),
        ),
        (
            SpecRefinementType::Function(args1, ret1),
            SpecRefinementType::Function(args2, ret2),
        ) => {
            if args1.len() != args2.len() {
                Result::Err(SubtypeError::MismatchedShapes)
            } else if args1.len() == 0 {
                sub_vc(*ret1, *ret2)
            } else {
                let x1 = args1[0].0;
                let s1 = args1[0].1;
                let x2 = args2[0].0;
                let s2 = args2[0].1;
                let t1 = spec_peel(args1, *ret1).subst_var(x1, x2);
                let t2 = spec_peel(args2, *ret2);
                sub_vc_combine(sub_vc(s2, s1), sub_vc(t1, t2))
            }
        },
        (
            SpecRefinementType::TypeApplication(_, _),
            SpecRefinementType::TypeApplication(_, _),
        ) => Result::Err(SubtypeError::IncompleteTypeApplicationRule),
        (SpecRefinementType::ForAll(_, _), SpecRefinementType::ForAll(_, _)) => Result::Err(
            SubtypeError::IncompleteForAllRule,
        ),
        _ => Result::Err(SubtypeError::MismatchedShapes),
    }
}

#[via_fn]
proof fn sub_vc_decreases(sub: SpecRefinementType, sup: SpecRefinementType) {
    match (sub, sup) {
        (
            SpecRefinementType::Function(args1, ret1),
            SpecRefinementType::Function(args2, ret2),
        ) => {
            if args1.len() == args2.len() && args1.len() > 0 {
                lemma_size_named_seq_first(args1);
                lemma_size_named_seq_first(args2);
                lemma_size_pos(args1[0].1);
                lemma_size_pos(args2[0].1);
                lemma_size_pos(*ret1);
                lemma_size_pos(*ret2);
                lemma_subst_preserves_size(
                    spec_peel(args1, *ret1),
                    args1[0].0,
                    SpecRefinement::Variable(args2[0].0),
                );
            }
        },
        _ => {},
    }
}

/// The obligation of one [Sub-Fun] step on `x1:s1 -> t1 <: x2:s2 -> t2`:
/// the contravariant parameter obligation conjoined with the covariant
/// return obligation, the return of the subtype side renamed to the
/// supertype's parameter binder.
pub open spec fn spec_check_subtype_fun(
    x1: DefinitionInfoId,
    s1: SpecRefinementType,
    t1: SpecRefinementType,
    x2: DefinitionInfoId,
    s2: SpecRefinementType,
    t2: SpecRefinementType,
) -> Result<SpecRefinement, SubtypeError> {
    sub_vc_combine(sub_vc(s2, s1), sub_vc(t1.subst_var(x1, x2), t2))
}

/// The returned formula (or error) implements the specified one.
pub open spec fn result_models(
    r: Result<Refinement, SubtypeError>,
    s: Result<SpecRefinement, SubtypeError>,
) -> bool {
    match (r, s) {
        (Result::Ok(f), Result::Ok(sf)) => f.model() == sf,
        (Result::Err(e1), Result::Err(e2)) => e1 == e2,
        _ => false,
    }
}

/// [Sub-Base]
///
/// ```text
/// forall (v1:b). p1 => p2[v2 := v1]
/// ---------------------------------
///        b{v1:p1} <: b{v2:p2}
/// ```
///
/// Assuming the subtype's invariant under its own binder name, the
/// supertype's invariant must follow; the supertype predicate's self-binder
/// is renamed to the subtype's.
pub fn check_subtype_base(
    _b1: BaseType,
    v1: DefinitionInfoId,
    p1: &Refinement,
    _b2: BaseType,
    v2: DefinitionInfoId,
    p2: Refinement,
) -> (r: Refinement)
    ensures
        r.model() == spec_implies(p1.model(), p2.model().subst_var(v2, v1)),
{
    let q = p2.substitute_var(v2, v1);
    p1.clone().implies(q)
}

/// [Sub-Fun]
///
/// ```text
/// s2 <: s1    x2:s2 |- t1[x1:=x2] <: t2
/// -------------------------------------
///     x1:s1 -> t1 <: x2:s2 -> t2
/// ```
///
/// The context is extended with `(x2, s2)` only while the return types are
/// compared, and is restored before returning, whether or not the inner
/// checks succeeded.
pub fn check_subtype_fun(
    context: &mut RefinementContext,
    x1: DefinitionInfoId,
    s1: &RefinementType,
    t1: &RefinementType,
    x2: DefinitionInfoId,
    s2: &RefinementType,
    t2: &RefinementType,
) -> (r: Result<Refinement, SubtypeError>)
    ensures
        final(context)@ == old(context)@,
        result_models(
            r,
            spec_check_subtype_fun(x1, s1.model(), t1.model(), x2, s2.model(), t2.model()),
        ),
    decreases s1.model().size() + t1.model().size() + s2.model().size() + t2.model().size(), 0int,
{
    proof {
        lemma_size_pos(t1.model());
        lemma_size_pos(t2.model());
        lemma_size_pos(s1.model());
        lemma_size_pos(s2.model());
    }
    let r1 = s2.check_subtype(s1, context);
    context.insert_refinement(x2, s2.clone());
    let t1_renamed = t1.substitute_var(x1, x2);
    proof {
        lemma_subst_preserves_size(t1.model(), x1, SpecRefinement::Variable(x2));
    }
    let r2 = t1_renamed.check_subtype(t2, context);
    context.remove_refinement(x2);
    proof {
        let pushed = old(context)@.push((x2, s2.model()));
        assert(pushed.last().0 == x2);
        assert(pushed.drop_last() =~= old(context)@);
        assert(remove_newest(pushed, x2) == old(context)@);
    }
    match (r1, r2) {
        (Result::Ok(f1), Result::Ok(f2)) => Result::Ok(f1.and(f2)),
        (Result::Err(e), _) => Result::Err(e),
        (_, Result::Err(e)) => Result::Err(e),
    }
}

/// [Sub-TCon]
///
/// ```text
/// G,v:int{p} |- q[w:=v]     G |- si <: ti
/// ---------------------------------------
///  G |- (C s1...)[v|p] <: (C t1...)[w|q]
/// ```
///
/// The intended obligation conjoins an index-predicate entailment, obtained
/// by quantifying a fresh value binder over the constructor's value domain
/// and substituting it into the supertype's index predicate, with pairwise,
/// argument-position-invariant subtyping obligations for each positional
/// type argument.  The rule is open in this design: the engine reports it as
/// incomplete rather than producing a vacuously true formula.
pub fn check_subtype_tcon() -> (r: Result<Refinement, SubtypeError>)
    ensures
        r == Result::<Refinement, SubtypeError>::Err(SubtypeError::IncompleteTypeApplicationRule),
{
    Result::Err(SubtypeError::IncompleteTypeApplicationRule)
}

/// The remainder of a function type once its first parameter is peeled off.
fn peel_function(args: &Vec<NamedType>, ret: &Box<RefinementType>) -> (r: RefinementType)
    requires
        args@.len() >= 1,
    ensures
        r.model() == spec_peel(model_named_seq(args@), (**ret).model()),
{
    proof {
        lemma_model_named_seq(args@);
    }
    if args.len() == 1 {
        (**ret).clone()
    } else {
        let mut rest: Vec<NamedType> = Vec::new();
        let mut i: usize = 1;
        while i < args.len()
            invariant
                1 <= i <= args@.len(),
                rest@.len() == i - 1,
                forall|j: int| 0 <= j < i - 1 ==> rest@[j].0 == args@[j + 1].0
                    && rest@[j].1.model() == args@[j + 1].1.model(),
            decreases args@.len() - i,
        {
            let t = args[i].1.clone();
            rest.push((args[i].0, t));
            i = i + 1;
        }
        proof {
            lemma_model_named_seq(rest@);
            assert(model_named_seq(rest@) =~= model_named_seq(args@).drop_first());
        }
        RefinementType::Function(rest, Box::new((**ret).clone()))
    }
}

impl RefinementType {
    /// Is `self` a subtype of `other`?  Produces the single verification
    /// condition whose external validity is necessary and sufficient, under
    /// the ambient assumptions recorded in `context`.  The context is exactly
    /// as before the call when it returns, whatever the outcome.
    pub fn check_subtype(
        &self,
        other: &RefinementType,
        context: &mut RefinementContext,
    ) -> (r: Result<Refinement, SubtypeError>)
        ensures
            final(context)@ == old(context)@,
            result_models(r, sub_vc(self.model(), other.model())),
        decreases self.model().size() + other.model().size(), 1int,
    {
        match (self, other) {
            (RefinementType::Base(b1, r1), RefinementType::Base(b2, r2)) => {
                match (r1, r2) {
                    (Option::Some((v1, p1)), Option::Some((v2, p2))) => Result::Ok(
                        check_subtype_base(*b1, *v1, p1, *b2, *v2, p2.clone()),
                    ),
                    (Option::Some((v1, p1)), Option::None) => Result::Ok(
                        check_subtype_base(*b1, *v1, p1, *b2, *v1, Refinement::none()),
                    ),
                    (Option::None, Option::Some((v2, p2))) => {
                        let t = Refinement::none();
                        Result::Ok(check_subtype_base(*b1, *v2, &t, *b2, *v2, p2.clone()))
                    },
                    (Option::None, Option::None) => {
                        let d = DefinitionInfoId(0);
                        let t = Refinement::none();
                        Result::Ok(check_subtype_base(*b1, d, &t, *b2, d, Refinement::none()))
                    },
                }
            },
            (RefinementType::Function(args1, ret1), RefinementType::Function(args2, ret2)) => {
                proof {
                    lemma_model_named_seq(args1@);
                    lemma_model_named_seq(args2@);
                }
                if args1.len() != args2.len() {
                    Result::Err(SubtypeError::MismatchedShapes)
                } else if args1.len() == 0 {
                    proof {
                        lemma_size_pos((**ret1).model());
                        lemma_size_pos((**ret2).model());
                    }
                    (**ret1).check_subtype(&**ret2, context)
                } else {
                    let t1 = peel_function(args1, ret1);
                    let t2 = peel_function(args2, ret2);
                    proof {
                        lemma_size_named_seq_first(model_named_seq(args1@));
                        lemma_size_named_seq_first(model_named_seq(args2@));
                        lemma_size_pos(model_named_seq(args1@)[0].1);
                        lemma_size_pos(model_named_seq(args2@)[0].1);
                        lemma_size_pos((**ret1).model());
                        lemma_size_pos((**ret2).model());
                    }
                    check_subtype_fun(context, args1[0].0, &args1[0].1, &t1, args2[0].0, &args2[0].1, &t2)
                }
            },
            (RefinementType::TypeApplication(_, _), RefinementType::TypeApplication(_, _)) => {
                check_subtype_tcon()
            },
            (RefinementType::ForAll(_, _), RefinementType::ForAll(_, _)) => Result::Err(
                SubtypeError::IncompleteForAllRule,
            ),
            _ => Result::Err(SubtypeError::MismatchedShapes),
        }
    }
}

/// The assumption one context binding contributes to entailment: the
/// predicate of a refined base type with its self-binder renamed to the
/// bound id, as in [Ent-Ext]; any other bound type contributes `true`.
pub open spec fn spec_assumption(x: DefinitionInfoId, t: SpecRefinementType) -> SpecRefinement {
    match t {
        SpecRefinementType::Base(_, Option::Some((v, p))) => p.subst_var(v, x),
        _ => SpecRefinement::Boolean(true),
    }
}

/// The entailment fold: the goal wrapped in one implication per context
/// binding, the most recently pushed assumption outermost.  With `(x,p1)`
/// pushed before `(y,p2)` the result is `p2 => (p1 => c)`.
pub open spec fn spec_entails(
    s: Seq<(DefinitionInfoId, SpecRefinementType)>,
    c: SpecRefinement,
) -> SpecRefinement
    decreases s,
{
    if s.len() == 0 {
        c
    } else {
        spec_implies(spec_assumption(s.last().0, s.last().1), spec_entails(s.drop_last(), c))
    }
}

/// The assumption a context binding contributes; see [`spec_assumption`].
fn assumption_formula(b: &NamedType) -> (r: Refinement)
    ensures
        r.model() == spec_assumption(b.0, b.1.model()),
{
    match &b.1 {
        RefinementType::Base(_, Option::Some((v, p))) => p.substitute_var(*v, b.0),
        _ => Refinement::none(),
    }
}

/// [Ent-Ext] and [Ent-Emp]
///
/// ```text
/// G |- forall x:b. p => c          SmtValid(c)
/// -----------------------         ------------
///    G; x:b{x:p} |- c              empty |- c
/// ```
///
/// Under every currently assumed refinement the goal must hold: the context
/// is folded, in one fixed order, into a single nested implication for the
/// external solver.
pub fn entails(context: &RefinementContext, c: &Refinement) -> (r: Refinement)
    ensures
        r.model() == spec_entails(context@, c.model()),
{
    let mut result = c.clone();
    let mut i: usize = 0;
    proof {
        assert(context@.take(0) =~= Seq::<(DefinitionInfoId, SpecRefinementType)>::empty());
    }
    let n = context.len();
    while i < n
        invariant
            n == context@.len(),
            i <= n,
            result.model() == spec_entails(context@.take(i as int), c.model()),
        decreases n - i,
    {
        let b = context.binding(i);
        let p = assumption_formula(b);
        result = p.implies(result);
        proof {
            assert(context@.take(i + 1).drop_last() =~= context@.take(i as int));
            assert(context@.take(i + 1).last() == context@[i as int]);
        }
        i = i + 1;
    }
    proof {
        assert(context@.take(n as int) =~= context@);
    }
    result
}

} // verus!
