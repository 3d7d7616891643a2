//! Refinement formulas and refinement types.
//!
//! A refinement is a boolean expression that narrows down the set of values a
//! type accepts; its semantics are limited to a small logic usually solvable
//! by an SMT solver.  A refinement type pairs a base type with such a
//! predicate, or builds dependent function types, parameterized type
//! applications and universally quantified schemes out of smaller refinement
//! types.
//!
//! Every executable operation here is specified against a mathematical model:
//! [`SpecRefinement`] and [`SpecRefinementType`] mirror the executable
//! representation with `Seq` in place of `Vec`, and the `model` functions map
//! one onto the other.

use vstd::prelude::*;

use crate::ids::DefinitionInfoId;
use crate::ids::IdAllocator;
use crate::ids::LifetimeVariableId;
use crate::ids::TypeInfoId;
use crate::ids::TypeVariableId;

verus! {

/// The fixed, closed catalog of primitive operators a refinement formula may
/// apply.
#[derive(Debug, Clone, Copy, PartialEq, Eq, PartialOrd, Ord, Hash, Structural)]
pub enum Primitive {
    Add,
    Sub,
    Mul,
    Div,
    Eq,
    Neq,
    Lt,
    Gt,
    Lte,
    Gte,
    Implies,
    And,
    Or,
    Not,
}

/// The primitive base-type kinds a refinement type can be built over.
#[derive(Debug, Clone, Copy, PartialEq, Eq, PartialOrd, Ord, Hash, Structural)]
pub enum PrimitiveType {
    IntegerType,
    FloatType,
    CharType,
    StringType,
    BooleanType,
    UnitType,
}

/// The lexical operator tokens that may map to a [`Primitive`].  Tokens
/// outside the operator set have no corresponding operator.
#[derive(Debug, Clone, Copy, PartialEq, Eq, PartialOrd, Ord, Hash, Structural)]
pub enum Token {
    Add,
    Subtract,
    Multiply,
    Divide,
    EqualEqual,
    NotEqual,
    LessThan,
    GreaterThan,
    LessThanOrEqual,
    GreaterThanOrEqual,
    And,
    Or,
    Not,
    Assignment,
    Comma,
}

/// The unrefined carrier of a refinement type.
#[derive(Debug, Clone, Copy, PartialEq, Eq, PartialOrd, Ord, Hash, Structural)]
pub enum BaseType {
    TypeVariable(TypeVariableId),
    Primitive(PrimitiveType),
    UserDefinedType(TypeInfoId),
    Ref(LifetimeVariableId),
}

/// A boolean refinement formula.  Floats are stored as their bit pattern and
/// decoded only for display, outside this crate.
#[derive(Debug, PartialEq, Eq, PartialOrd, Ord, Hash)]
pub enum Refinement {
    Variable(DefinitionInfoId),
    Integer(i64),
    Boolean(bool),
    Float(u64),
    Unit,
    Constructor(DefinitionInfoId, Vec<Refinement>),
    PrimitiveCall(Primitive, Vec<Refinement>),
    Uninterpreted(DefinitionInfoId, Vec<Refinement>),
    Forall(DefinitionInfoId, Box<RefinementType>, Box<Refinement>),
}

/// A refinement type: a base type and a refinement, `t & r`.
#[derive(Debug, PartialEq, Eq, PartialOrd, Ord, Hash)]
pub enum RefinementType {
    /// `b{v: p}`; a missing binder/predicate pair means the type carries no
    /// constraint (logically `true`).
    Base(BaseType, Option<(DefinitionInfoId, Refinement)>),
    /// A dependent function type: later parameter types and the return type
    /// may reference earlier parameter ids.
    Function(Vec<NamedType>, Box<RefinementType>),
    /// A parameterized user type with named instantiation arguments.
    TypeApplication(BaseType, Vec<NamedType>),
    /// Universal quantification over type variables.
    ForAll(Vec<TypeVariableId>, Box<RefinementType>),
}

pub type NamedType = (DefinitionInfoId, RefinementType);

/// The mathematical model of a [`Refinement`].
pub enum SpecRefinement {
    Variable(DefinitionInfoId),
    Integer(i64),
    Boolean(bool),
    Float(u64),
    Unit,
    Constructor(DefinitionInfoId, Seq<SpecRefinement>),
    PrimitiveCall(Primitive, Seq<SpecRefinement>),
    Uninterpreted(DefinitionInfoId, Seq<SpecRefinement>),
    Forall(DefinitionInfoId, Box<SpecRefinementType>, Box<SpecRefinement>),
}

/// The mathematical model of a [`RefinementType`].
pub enum SpecRefinementType {
    Base(BaseType, Option<(DefinitionInfoId, SpecRefinement)>),
    Function(Seq<(DefinitionInfoId, SpecRefinementType)>, Box<SpecRefinementType>),
    TypeApplication(BaseType, Seq<(DefinitionInfoId, SpecRefinementType)>),
    ForAll(Seq<TypeVariableId>, Box<SpecRefinementType>),
}

impl Refinement {
    /// The model of this formula.
    pub open spec fn model(self) -> SpecRefinement
        decreases self,
    {
        match self {
            Refinement::Variable(id) => SpecRefinement::Variable(id),
            Refinement::Integer(x) => SpecRefinement::Integer(x),
            Refinement::Boolean(b) => SpecRefinement::Boolean(b),
            Refinement::Float(f) => SpecRefinement::Float(f),
            Refinement::Unit => SpecRefinement::Unit,
            Refinement::Constructor(f, args) => SpecRefinement::Constructor(
                f,
                model_formula_seq(args@),
            ),
            Refinement::PrimitiveCall(p, args) => SpecRefinement::PrimitiveCall(
                p,
                model_formula_seq(args@),
            ),
            Refinement::Uninterpreted(f, args) => SpecRefinement::Uninterpreted(
                f,
                model_formula_seq(args@),
            ),
            Refinement::Forall(x, t, e) => SpecRefinement::Forall(
                x,
                Box::new((*t).model()),
                Box::new((*e).model()),
            ),
        }
    }
}

/// The models of a sequence of formulas, elementwise.
pub open spec fn model_formula_seq(s: Seq<Refinement>) -> Seq<SpecRefinement>
    decreases s,
{
    if s.len() == 0 {
        Seq::empty()
    } else {
        model_formula_seq(s.drop_last()).push(s.last().model())
    }
}

impl RefinementType {
    /// The model of this type.
    pub open spec fn model(self) -> SpecRefinementType
        decreases self,
    {
        match self {
            RefinementType::Base(b, r) => SpecRefinementType::Base(
                b,
                match r {
                    Option::Some((v, p)) => Option::Some((v, p.model())),
                    Option::None => Option::None,
                },
            ),
            RefinementType::Function(args, ret) => SpecRefinementType::Function(
                model_named_seq(args@),
                Box::new((*ret).model()),
            ),
            RefinementType::TypeApplication(b, args) => SpecRefinementType::TypeApplication(
                b,
                model_named_seq(args@),
            ),
            RefinementType::ForAll(vars, t) => SpecRefinementType::ForAll(
                vars@,
                Box::new((*t).model()),
            ),
        }
    }
}

/// The models of a sequence of named types, elementwise.
pub open spec fn model_named_seq(s: Seq<NamedType>) -> Seq<(DefinitionInfoId, SpecRefinementType)>
    decreases s,
{
    if s.len() == 0 {
        Seq::empty()
    } else {
        model_named_seq(s.drop_last()).push((s.last().0, s.last().1.model()))
    }
}

/// The implication formula `a => b`.
pub open spec fn spec_implies(a: SpecRefinement, b: SpecRefinement) -> SpecRefinement {
    SpecRefinement::PrimitiveCall(Primitive::Implies, seq![a, b])
}

/// The conjunction formula `a and b`.
pub open spec fn spec_and(a: SpecRefinement, b: SpecRefinement) -> SpecRefinement {
    SpecRefinement::PrimitiveCall(Primitive::And, seq![a, b])
}

impl SpecRefinement {
    /// Every identifier occurring anywhere in the formula, in traversal
    /// order, including binder-position ids of nested quantifiers and head
    /// ids of constructor and uninterpreted applications.  Duplicates are
    /// preserved; this is not a free-variable computation.
    pub open spec fn vars(self) -> Seq<DefinitionInfoId>
        decreases self,
    {
        match self {
            SpecRefinement::Variable(id) => seq![id],
            SpecRefinement::Integer(_) => Seq::empty(),
            SpecRefinement::Boolean(_) => Seq::empty(),
            SpecRefinement::Float(_) => Seq::empty(),
            SpecRefinement::Unit => Seq::empty(),
            SpecRefinement::PrimitiveCall(_, args) => vars_formula_seq(args),
            SpecRefinement::Constructor(f, args) => seq![f] + vars_formula_seq(args),
            SpecRefinement::Uninterpreted(f, args) => seq![f] + vars_formula_seq(args),
            SpecRefinement::Forall(x, _t, e) => seq![x] + (*e).vars(),
        }
    }

    /// Structural replacement of every `Variable(id)` occurrence with
    /// `other`.  A `Forall` whose own bound id equals `id` still recurses
    /// into its body, and the binder id itself is left untouched:
    /// substitution never renames binders, relying entirely on global id
    /// uniqueness for correctness.
    pub open spec fn subst(self, id: DefinitionInfoId, other: SpecRefinement) -> SpecRefinement
        decreases self,
    {
        match self {
            SpecRefinement::Variable(v) => if v == id {
                other
            } else {
                SpecRefinement::Variable(v)
            },
            SpecRefinement::Integer(x) => SpecRefinement::Integer(x),
            SpecRefinement::Boolean(b) => SpecRefinement::Boolean(b),
            SpecRefinement::Float(f) => SpecRefinement::Float(f),
            SpecRefinement::Unit => SpecRefinement::Unit,
            SpecRefinement::Constructor(f, args) => SpecRefinement::Constructor(
                f,
                subst_formula_seq(args, id, other),
            ),
            SpecRefinement::PrimitiveCall(p, args) => SpecRefinement::PrimitiveCall(
                p,
                subst_formula_seq(args, id, other),
            ),
            SpecRefinement::Uninterpreted(f, args) => SpecRefinement::Uninterpreted(
                f,
                subst_formula_seq(args, id, other),
            ),
            SpecRefinement::Forall(x, t, e) => SpecRefinement::Forall(
                x,
                t,
                Box::new((*e).subst(id, other)),
            ),
        }
    }

    /// Substitution specialized to a variable-shaped replacement.
    pub open spec fn subst_var(
        self,
        id: DefinitionInfoId,
        replacement: DefinitionInfoId,
    ) -> SpecRefinement {
        self.subst(id, SpecRefinement::Variable(replacement))
    }
}

/// The identifiers of a sequence of formulas, concatenated in order.
pub open spec fn vars_formula_seq(s: Seq<SpecRefinement>) -> Seq<DefinitionInfoId>
    decreases s,
{
    if s.len() == 0 {
        Seq::empty()
    } else {
        vars_formula_seq(s.drop_last()) + s.last().vars()
    }
}

/// Substitution over a sequence of formulas, elementwise.
pub open spec fn subst_formula_seq(
    s: Seq<SpecRefinement>,
    id: DefinitionInfoId,
    other: SpecRefinement,
) -> Seq<SpecRefinement>
    decreases s,
{
    if s.len() == 0 {
        Seq::empty()
    } else {
        subst_formula_seq(s.drop_last(), id, other).push(s.last().subst(id, other))
    }
}

impl SpecRefinementType {
    /// Structural substitution, pushed into parameter, return and argument
    /// positions.  For a `Base` type whose attached self-binder equals `id`,
    /// the self-binder identifier is left unchanged; only the predicate
    /// inside it is substituted.
    pub open spec fn subst(self, id: DefinitionInfoId, other: SpecRefinement) -> SpecRefinementType
        decreases self,
    {
        match self {
            SpecRefinementType::Base(b, r) => SpecRefinementType::Base(
                b,
                match r {
                    Option::Some((v, p)) => Option::Some((v, p.subst(id, other))),
                    Option::None => Option::None,
                },
            ),
            SpecRefinementType::Function(args, ret) => SpecRefinementType::Function(
                subst_named_seq(args, id, other),
                Box::new((*ret).subst(id, other)),
            ),
            SpecRefinementType::TypeApplication(b, args) => SpecRefinementType::TypeApplication(
                b,
                subst_named_seq(args, id, other),
            ),
            SpecRefinementType::ForAll(vars, t) => SpecRefinementType::ForAll(
                vars,
                Box::new((*t).subst(id, other)),
            ),
        }
    }

    /// Substitution specialized to a variable-shaped replacement.
    pub open spec fn subst_var(
        self,
        id: DefinitionInfoId,
        replacement: DefinitionInfoId,
    ) -> SpecRefinementType {
        self.subst(id, SpecRefinement::Variable(replacement))
    }

    /// The number of type nodes in this type.  Substitution replaces
    /// formula variables only, so it preserves this measure; the subtyping
    /// algorithm's termination rests on that.
    pub open spec fn size(self) -> nat
        decreases self,
    {
        match self {
            SpecRefinementType::Base(_, _) => 1,
            SpecRefinementType::Function(args, ret) => 1 + size_named_seq(args) + (*ret).size(),
            SpecRefinementType::TypeApplication(_, args) => 1 + size_named_seq(args),
            SpecRefinementType::ForAll(_, t) => 1 + (*t).size(),
        }
    }
}

/// Substitution over a sequence of named types, elementwise; the names are
/// left unchanged.
pub open spec fn subst_named_seq(
    s: Seq<(DefinitionInfoId, SpecRefinementType)>,
    id: DefinitionInfoId,
    other: SpecRefinement,
) -> Seq<(DefinitionInfoId, SpecRefinementType)>
    decreases s,
{
    if s.len() == 0 {
        Seq::empty()
    } else {
        subst_named_seq(s.drop_last(), id, other).push(
            (s.last().0, s.last().1.subst(id, other)),
        )
    }
}

/// The total size of the types in a sequence of named types.
pub open spec fn size_named_seq(s: Seq<(DefinitionInfoId, SpecRefinementType)>) -> nat
    decreases s,
{
    if s.len() == 0 {
        0
    } else {
        size_named_seq(s.drop_last()) + s.last().1.size()
    }
}

/// Membership in a concatenation is membership in either part.
pub proof fn lemma_contains_add<A>(a: Seq<A>, b: Seq<A>, x: A)
    ensures
        (a + b).contains(x) <==> a.contains(x) || b.contains(x),
{
    if (a + b).contains(x) {
        let i = choose|i: int| 0 <= i < (a + b).len() && (a + b)[i] == x;
        if i < a.len() {
            assert(a[i] == x);
        } else {
            assert(b[i - a.len()] == x);
        }
    }
    if a.contains(x) {
        let i = choose|i: int| 0 <= i < a.len() && a[i] == x;
        assert((a + b)[i] == x);
    }
    if b.contains(x) {
        let i = choose|i: int| 0 <= i < b.len() && b[i] == x;
        assert((a + b)[a.len() + i] == x);
    }
}

/// `model_formula_seq` maps the model over the sequence, elementwise.
pub proof fn lemma_model_formula_seq(s: Seq<Refinement>)
    ensures
        model_formula_seq(s).len() == s.len(),
        forall|i: int| 0 <= i < s.len() ==> model_formula_seq(s)[i] == s[i].model(),
    decreases s,
{
    if s.len() > 0 {
        lemma_model_formula_seq(s.drop_last());
        assert forall|i: int| 0 <= i < s.len() implies model_formula_seq(s)[i] == s[i].model() by {
            if i < s.len() - 1 {
                assert(s.drop_last()[i] == s[i]);
            }
        }
    }
}

/// `model_named_seq` maps the model over the sequence, elementwise.
pub proof fn lemma_model_named_seq(s: Seq<NamedType>)
    ensures
        model_named_seq(s).len() == s.len(),
        forall|i: int| 0 <= i < s.len() ==> model_named_seq(s)[i] == (s[i].0, s[i].1.model()),
    decreases s,
{
    if s.len() > 0 {
        lemma_model_named_seq(s.drop_last());
        assert forall|i: int| 0 <= i < s.len() implies model_named_seq(s)[i] == (
            s[i].0,
            s[i].1.model(),
        ) by {
            if i < s.len() - 1 {
                assert(s.drop_last()[i] == s[i]);
            }
        }
    }
}

/// `subst_formula_seq` substitutes elementwise.
pub proof fn lemma_subst_formula_seq(s: Seq<SpecRefinement>, id: DefinitionInfoId, other: SpecRefinement)
    ensures
        subst_formula_seq(s, id, other).len() == s.len(),
        forall|i: int| 0 <= i < s.len() ==> subst_formula_seq(s, id, other)[i] == s[i].subst(
            id,
            other,
        ),
    decreases s,
{
    if s.len() > 0 {
        lemma_subst_formula_seq(s.drop_last(), id, other);
        assert forall|i: int| 0 <= i < s.len() implies subst_formula_seq(s, id, other)[i] == s[i]
            .subst(id, other) by {
            if i < s.len() - 1 {
                assert(s.drop_last()[i] == s[i]);
            }
        }
    }
}

/// `subst_named_seq` substitutes elementwise and keeps the names.
pub proof fn lemma_subst_named_seq(
    s: Seq<(DefinitionInfoId, SpecRefinementType)>,
    id: DefinitionInfoId,
    other: SpecRefinement,
)
    ensures
        subst_named_seq(s, id, other).len() == s.len(),
        forall|i: int| 0 <= i < s.len() ==> subst_named_seq(s, id, other)[i] == (
            s[i].0,
            s[i].1.subst(id, other),
        ),
    decreases s,
{
    if s.len() > 0 {
        lemma_subst_named_seq(s.drop_last(), id, other);
        assert forall|i: int| 0 <= i < s.len() implies subst_named_seq(s, id, other)[i] == (
            s[i].0,
            s[i].1.subst(id, other),
        ) by {
            if i < s.len() - 1 {
                assert(s.drop_last()[i] == s[i]);
            }
        }
    }
}

/// Every type has at least one node.
pub proof fn lemma_size_pos(t: SpecRefinementType)
    ensures
        t.size() >= 1,
{
}

/// The total size splits off the first element as well as the last.
pub proof fn lemma_size_named_seq_first(s: Seq<(DefinitionInfoId, SpecRefinementType)>)
    requires
        s.len() > 0,
    ensures
        size_named_seq(s) == s.first().1.size() + size_named_seq(s.drop_first()),
    decreases s,
{
    if s.len() == 1 {
        assert(s.drop_first() =~= Seq::<(DefinitionInfoId, SpecRefinementType)>::empty());
        assert(s.drop_last() =~= Seq::<(DefinitionInfoId, SpecRefinementType)>::empty());
        assert(size_named_seq(Seq::empty()) == 0);
        assert(size_named_seq(s) == size_named_seq(s.drop_last()) + s.last().1.size());
        assert(s.first() == s.last());
    } else {
        lemma_size_named_seq_first(s.drop_last());
        assert(s.drop_last().first() == s.first());
        assert(s.drop_last().drop_first() =~= s.drop_first().drop_last());
        assert(s.drop_first().last() == s.last());
        assert(size_named_seq(s.drop_first()) == size_named_seq(s.drop_first().drop_last())
            + s.drop_first().last().1.size());
    }
}

/// Substitution replaces formula variables only: the type skeleton keeps its
/// size.
pub proof fn lemma_subst_preserves_size(
    t: SpecRefinementType,
    id: DefinitionInfoId,
    other: SpecRefinement,
)
    ensures
        t.subst(id, other).size() == t.size(),
    decreases t,
{
    match t {
        SpecRefinementType::Base(_, _) => {},
        SpecRefinementType::Function(args, ret) => {
            lemma_subst_preserves_size_seq(args, id, other);
            lemma_subst_preserves_size(*ret, id, other);
        },
        SpecRefinementType::TypeApplication(_, args) => {
            lemma_subst_preserves_size_seq(args, id, other);
        },
        SpecRefinementType::ForAll(_, t2) => {
            lemma_subst_preserves_size(*t2, id, other);
        },
    }
}

/// Elementwise substitution keeps the total size of a named-type sequence.
pub proof fn lemma_subst_preserves_size_seq(
    s: Seq<(DefinitionInfoId, SpecRefinementType)>,
    id: DefinitionInfoId,
    other: SpecRefinement,
)
    ensures
        size_named_seq(subst_named_seq(s, id, other)) == size_named_seq(s),
    decreases s,
{
    if s.len() > 0 {
        lemma_subst_preserves_size_seq(s.drop_last(), id, other);
        lemma_subst_preserves_size(s.last().1, id, other);
        assert(subst_named_seq(s, id, other).drop_last() =~= subst_named_seq(
            s.drop_last(),
            id,
            other,
        ));
    }
}

impl Clone for Refinement {
    /// A deep copy with the same model.
    fn clone(&self) -> (r: Refinement)
        ensures
            r.model() == self.model(),
        decreases self,
    {
        match self {
            Refinement::Variable(id) => Refinement::Variable(*id),
            Refinement::Integer(x) => Refinement::Integer(*x),
            Refinement::Boolean(b) => Refinement::Boolean(*b),
            Refinement::Float(f) => Refinement::Float(*f),
            Refinement::Unit => Refinement::Unit,
            Refinement::Constructor(f, args) => Refinement::Constructor(
                *f,
                clone_formula_vec(args),
            ),
            Refinement::PrimitiveCall(p, args) => Refinement::PrimitiveCall(
                *p,
                clone_formula_vec(args),
            ),
            Refinement::Uninterpreted(f, args) => Refinement::Uninterpreted(
                *f,
                clone_formula_vec(args),
            ),
            Refinement::Forall(x, t, e) => Refinement::Forall(
                *x,
                Box::new((**t).clone()),
                Box::new((**e).clone()),
            ),
        }
    }
}

/// A deep copy of a formula vector, elementwise.
fn clone_formula_vec(args: &Vec<Refinement>) -> (r: Vec<Refinement>)
    ensures
        model_formula_seq(r@) == model_formula_seq(args@),
    decreases args@,
{
    let mut out: Vec<Refinement> = Vec::new();
    let mut i: usize = 0;
    while i < args.len()
        invariant
            i <= args@.len(),
            out@.len() == i,
            forall|j: int| 0 <= j < i ==> out@[j].model() == args@[j].model(),
        decreases args@.len() - i,
    {
        let c = args[i].clone();
        out.push(c);
        i = i + 1;
    }
    proof {
        lemma_model_formula_seq(out@);
        lemma_model_formula_seq(args@);
        assert(model_formula_seq(out@) =~= model_formula_seq(args@));
    }
    out
}

impl Clone for RefinementType {
    /// A deep copy with the same model.
    fn clone(&self) -> (r: RefinementType)
        ensures
            r.model() == self.model(),
        decreases self,
    {
        match self {
            RefinementType::Base(b, r) => RefinementType::Base(
                *b,
                match r {
                    Option::Some((v, p)) => Option::Some((*v, p.clone())),
                    Option::None => Option::None,
                },
            ),
            RefinementType::Function(args, ret) => RefinementType::Function(
                clone_named_vec(args),
                Box::new((**ret).clone()),
            ),
            RefinementType::TypeApplication(b, args) => RefinementType::TypeApplication(
                *b,
                clone_named_vec(args),
            ),
            RefinementType::ForAll(vars, t) => RefinementType::ForAll(
                copy_type_vars(vars),
                Box::new((**t).clone()),
            ),
        }
    }
}

/// A deep copy of a named-type vector, elementwise.
fn clone_named_vec(args: &Vec<NamedType>) -> (r: Vec<NamedType>)
    ensures
        model_named_seq(r@) == model_named_seq(args@),
    decreases args@,
{
    let mut out: Vec<NamedType> = Vec::new();
    let mut i: usize = 0;
    while i < args.len()
        invariant
            i <= args@.len(),
            out@.len() == i,
            forall|j: int| 0 <= j < i ==> out@[j].0 == args@[j].0 && out@[j].1.model()
                == args@[j].1.model(),
        decreases args@.len() - i,
    {
        let t = args[i].1.clone();
        out.push((args[i].0, t));
        i = i + 1;
    }
    proof {
        lemma_model_named_seq(out@);
        lemma_model_named_seq(args@);
        assert(model_named_seq(out@) =~= model_named_seq(args@));
    }
    out
}

impl Refinement {
    /// Every identifier occurring anywhere in the formula, in traversal
    /// order, including binder-position ids of nested quantifiers and head
    /// ids of constructor and uninterpreted applications; duplicates are
    /// preserved.  This is not a free-variable computation.
    pub fn find_variables(&self) -> (r: Vec<DefinitionInfoId>)
        ensures
            r@ == self.model().vars(),
        decreases self,
    {
        match self {
            Refinement::Variable(id) => {
                let mut out: Vec<DefinitionInfoId> = Vec::new();
                out.push(*id);
                proof {
                    assert(out@ =~= seq![*id]);
                }
                out
            },
            Refinement::Integer(_) => Vec::new(),
            Refinement::Boolean(_) => Vec::new(),
            Refinement::Float(_) => Vec::new(),
            Refinement::Unit => Vec::new(),
            Refinement::PrimitiveCall(_, args) => {
                let mut out: Vec<DefinitionInfoId> = Vec::new();
                find_variables_in_args(args, &mut out);
                proof {
                    assert(out@ =~= vars_formula_seq(model_formula_seq(args@)));
                }
                out
            },
            Refinement::Constructor(f, args) => {
                let mut out: Vec<DefinitionInfoId> = Vec::new();
                out.push(*f);
                find_variables_in_args(args, &mut out);
                proof {
                    assert(out@ =~= seq![*f] + vars_formula_seq(model_formula_seq(args@)));
                }
                out
            },
            Refinement::Uninterpreted(f, args) => {
                let mut out: Vec<DefinitionInfoId> = Vec::new();
                out.push(*f);
                find_variables_in_args(args, &mut out);
                proof {
                    assert(out@ =~= seq![*f] + vars_formula_seq(model_formula_seq(args@)));
                }
                out
            },
            Refinement::Forall(x, _t, e) => {
                let mut out: Vec<DefinitionInfoId> = Vec::new();
                out.push(*x);
                let mut inner = (**e).find_variables();
                out.append(&mut inner);
                proof {
                    assert(out@ =~= seq![*x] + (**e).model().vars());
                }
                out
            },
        }
    }
}

/// Append the identifiers of every formula in `args`, in order, to `out`.
fn find_variables_in_args(args: &Vec<Refinement>, out: &mut Vec<DefinitionInfoId>)
    ensures
        final(out)@ == old(out)@ + vars_formula_seq(model_formula_seq(args@)),
    decreases args@,
{
    let ghost base = out@;
    let ghost m = model_formula_seq(args@);
    proof {
        lemma_model_formula_seq(args@);
        assert(m.take(0) =~= Seq::empty());
        assert(base + vars_formula_seq(m.take(0)) =~= base);
    }
    let mut i: usize = 0;
    while i < args.len()
        invariant
            i <= args@.len(),
            m == model_formula_seq(args@),
            m.len() == args@.len(),
            forall|j: int| 0 <= j < args@.len() ==> m[j] == args@[j].model(),
            out@ == base + vars_formula_seq(m.take(i as int)),
        decreases args@.len() - i,
    {
        let mut vs = args[i].find_variables();
        out.append(&mut vs);
        proof {
            assert(m.take(i + 1).drop_last() =~= m.take(i as int));
            assert(m.take(i + 1).last() == m[i as int]);
            assert(vars_formula_seq(m.take(i + 1)) == vars_formula_seq(m.take(i as int))
                + args@[i as int].model().vars());
            assert(out@ =~= base + vars_formula_seq(m.take(i + 1)));
        }
        i = i + 1;
    }
    proof {
        assert(m.take(args@.len() as int) =~= m);
    }
}

impl Refinement {
    /// Structural replacement of every `Variable(id)` occurrence with
    /// `other`.  A `Forall` whose own bound id equals `id` still recurses
    /// into its body; the binder id itself is left untouched.  Substitution
    /// never renames binders, relying entirely on global id uniqueness for
    /// correctness.
    pub fn substitute(&self, id: DefinitionInfoId, other: &Refinement) -> (r: Refinement)
        ensures
            r.model() == self.model().subst(id, other.model()),
        decreases self,
    {
        match self {
            Refinement::Variable(v) => if *v == id {
                other.clone()
            } else {
                Refinement::Variable(*v)
            },
            Refinement::Integer(x) => Refinement::Integer(*x),
            Refinement::Boolean(b) => Refinement::Boolean(*b),
            Refinement::Float(f) => Refinement::Float(*f),
            Refinement::Unit => Refinement::Unit,
            Refinement::Constructor(f, args) => Refinement::Constructor(
                *f,
                substitute_formula_vec(args, id, other),
            ),
            Refinement::PrimitiveCall(p, args) => Refinement::PrimitiveCall(
                *p,
                substitute_formula_vec(args, id, other),
            ),
            Refinement::Uninterpreted(f, args) => Refinement::Uninterpreted(
                *f,
                substitute_formula_vec(args, id, other),
            ),
            Refinement::Forall(x, t, e) => Refinement::Forall(
                *x,
                Box::new((**t).clone()),
                Box::new((**e).substitute(id, other)),
            ),
        }
    }

    /// Substitution specialized to a variable-shaped replacement.
    pub fn substitute_var(
        &self,
        id: DefinitionInfoId,
        replacement: DefinitionInfoId,
    ) -> (r: Refinement)
        ensures
            r.model() == self.model().subst_var(id, replacement),
    {
        self.substitute(id, &Refinement::Variable(replacement))
    }

    /// The trivial refinement: no constraint at all, logically `true`.
    pub fn none() -> (r: Refinement)
        ensures
            r.model() == SpecRefinement::Boolean(true),
    {
        Refinement::Boolean(true)
    }

    /// The implication `self => other`.  No simplification is performed.
    pub fn implies(self, other: Refinement) -> (r: Refinement)
        ensures
            r.model() == spec_implies(self.model(), other.model()),
    {
        let ghost sm = self.model();
        let ghost om = other.model();
        let mut args: Vec<Refinement> = Vec::new();
        args.push(self);
        args.push(other);
        proof {
            lemma_model_formula_seq(args@);
            assert(model_formula_seq(args@) =~= seq![sm, om]);
        }
        Refinement::PrimitiveCall(Primitive::Implies, args)
    }

    /// The conjunction `self and other`.  No simplification is performed.
    pub fn and(self, other: Refinement) -> (r: Refinement)
        ensures
            r.model() == spec_and(self.model(), other.model()),
    {
        let ghost sm = self.model();
        let ghost om = other.model();
        let mut args: Vec<Refinement> = Vec::new();
        args.push(self);
        args.push(other);
        proof {
            lemma_model_formula_seq(args@);
            assert(model_formula_seq(args@) =~= seq![sm, om]);
        }
        Refinement::PrimitiveCall(Primitive::And, args)
    }

    /// The equation `self == other`.  No simplification is performed.
    pub fn eq(self, other: Refinement) -> (r: Refinement)
        ensures
            r.model() == SpecRefinement::PrimitiveCall(
                Primitive::Eq,
                seq![self.model(), other.model()],
            ),
    {
        let ghost sm = self.model();
        let ghost om = other.model();
        let mut args: Vec<Refinement> = Vec::new();
        args.push(self);
        args.push(other);
        proof {
            lemma_model_formula_seq(args@);
            assert(model_formula_seq(args@) =~= seq![sm, om]);
        }
        Refinement::PrimitiveCall(Primitive::Eq, args)
    }

    /// The negation `not self`.  No simplification is performed.
    pub fn not(self) -> (r: Refinement)
        ensures
            r.model() == SpecRefinement::PrimitiveCall(Primitive::Not, seq![self.model()]),
    {
        let ghost sm = self.model();
        let mut args: Vec<Refinement> = Vec::new();
        args.push(self);
        proof {
            lemma_model_formula_seq(args@);
            assert(model_formula_seq(args@) =~= seq![sm]);
        }
        Refinement::PrimitiveCall(Primitive::Not, args)
    }
}

/// Substitution over a formula vector, elementwise.
fn substitute_formula_vec(
    args: &Vec<Refinement>,
    id: DefinitionInfoId,
    other: &Refinement,
) -> (r: Vec<Refinement>)
    ensures
        model_formula_seq(r@) == subst_formula_seq(model_formula_seq(args@), id, other.model()),
    decreases args@,
{
    let mut out: Vec<Refinement> = Vec::new();
    let mut i: usize = 0;
    while i < args.len()
        invariant
            i <= args@.len(),
            out@.len() == i,
            forall|j: int| 0 <= j < i ==> out@[j].model() == args@[j].model().subst(
                id,
                other.model(),
            ),
        decreases args@.len() - i,
    {
        let s = args[i].substitute(id, other);
        out.push(s);
        i = i + 1;
    }
    proof {
        lemma_model_formula_seq(out@);
        lemma_model_formula_seq(args@);
        lemma_subst_formula_seq(model_formula_seq(args@), id, other.model());
        assert(model_formula_seq(out@) =~= subst_formula_seq(
            model_formula_seq(args@),
            id,
            other.model(),
        ));
    }
    out
}

/// The partial mapping from lexical operator tokens to the operator catalog.
pub open spec fn spec_from_token(token: Token) -> Option<Primitive> {
    match token {
        Token::Add => Option::Some(Primitive::Add),
        Token::Subtract => Option::Some(Primitive::Sub),
        Token::Multiply => Option::Some(Primitive::Mul),
        Token::Divide => Option::Some(Primitive::Div),
        Token::EqualEqual => Option::Some(Primitive::Eq),
        Token::NotEqual => Option::Some(Primitive::Neq),
        Token::LessThan => Option::Some(Primitive::Lt),
        Token::GreaterThan => Option::Some(Primitive::Gt),
        Token::LessThanOrEqual => Option::Some(Primitive::Lte),
        Token::GreaterThanOrEqual => Option::Some(Primitive::Gte),
        Token::And => Option::Some(Primitive::And),
        Token::Or => Option::Some(Primitive::Or),
        Token::Not => Option::Some(Primitive::Not),
        _ => Option::None,
    }
}

impl Primitive {
    /// The operator a lexical token stands for; tokens outside the operator
    /// set have none.
    pub fn from_token(token: &Token) -> (r: Option<Primitive>)
        ensures
            r == spec_from_token(*token),
    {
        match token {
            Token::Add => Option::Some(Primitive::Add),
            Token::Subtract => Option::Some(Primitive::Sub),
            Token::Multiply => Option::Some(Primitive::Mul),
            Token::Divide => Option::Some(Primitive::Div),
            Token::EqualEqual => Option::Some(Primitive::Eq),
            Token::NotEqual => Option::Some(Primitive::Neq),
            Token::LessThan => Option::Some(Primitive::Lt),
            Token::GreaterThan => Option::Some(Primitive::Gt),
            Token::LessThanOrEqual => Option::Some(Primitive::Lte),
            Token::GreaterThanOrEqual => Option::Some(Primitive::Gte),
            Token::And => Option::Some(Primitive::And),
            Token::Or => Option::Some(Primitive::Or),
            Token::Not => Option::Some(Primitive::Not),
            _ => Option::None,
        }
    }
}

impl RefinementType {
    /// Structural substitution, pushed into parameter, return and argument
    /// positions.  For a `Base` type whose attached self-binder equals `id`,
    /// the self-binder identifier is left unchanged; only the predicate
    /// inside it is substituted.
    pub fn substitute(&self, id: DefinitionInfoId, replacement: &Refinement) -> (r: RefinementType)
        ensures
            r.model() == self.model().subst(id, replacement.model()),
        decreases self,
    {
        match self {
            RefinementType::Base(b, refinement) => RefinementType::Base(
                *b,
                match refinement {
                    Option::Some((v, p)) => Option::Some((*v, p.substitute(id, replacement))),
                    Option::None => Option::None,
                },
            ),
            RefinementType::Function(args, ret) => RefinementType::Function(
                substitute_named_vec(args, id, replacement),
                Box::new((**ret).substitute(id, replacement)),
            ),
            RefinementType::TypeApplication(base, args) => RefinementType::TypeApplication(
                *base,
                substitute_named_vec(args, id, replacement),
            ),
            RefinementType::ForAll(vars, typ) => RefinementType::ForAll(
                copy_type_vars(vars),
                Box::new((**typ).substitute(id, replacement)),
            ),
        }
    }

    /// Substitution specialized to a variable-shaped replacement.
    pub fn substitute_var(
        &self,
        id: DefinitionInfoId,
        replacement: DefinitionInfoId,
    ) -> (r: RefinementType)
        ensures
            r.model() == self.model().subst_var(id, replacement),
    {
        self.substitute(id, &Refinement::Variable(replacement))
    }

    /// The parameter list and return type of a function type.  Defined only
    /// for the `Function` variant: any other input is a contract violation
    /// signaling that kind-checking upstream failed to establish the
    /// expected shape.  See [`RefinementType::try_unwrap_function`] for the
    /// checked extraction.
    pub fn unwrap_function(self) -> (r: (Vec<NamedType>, RefinementType))
        requires
            self is Function,
        ensures
            self.model() matches SpecRefinementType::Function(a, ret) && model_named_seq(r.0@)
                == a && r.1.model() == *ret,
    {
        match self {
            RefinementType::Function(args, ret) => (args, *ret),
            _ => vstd::pervasive::unreached(),
        }
    }

    /// The checked form of [`RefinementType::unwrap_function`]: `Some` for a
    /// function type, `None` for every other shape.
    pub fn try_unwrap_function(self) -> (r: Option<(Vec<NamedType>, RefinementType)>)
        ensures
            r is Some <==> self is Function,
            r matches Some(p) ==> self.model() matches SpecRefinementType::Function(a, ret)
                && model_named_seq(p.0@) == a && p.1.model() == *ret,
    {
        match self {
            RefinementType::Function(args, ret) => Option::Some((args, *ret)),
            _ => Option::None,
        }
    }

    /// The unrefined unit type.
    pub fn unit() -> (r: RefinementType)
        ensures
            r.model() == SpecRefinementType::Base(
                BaseType::Primitive(PrimitiveType::UnitType),
                Option::None,
            ),
    {
        RefinementType::Base(BaseType::Primitive(PrimitiveType::UnitType), Option::None)
    }

    /// The unrefined boolean type.
    pub fn bool() -> (r: RefinementType)
        ensures
            r.model() == SpecRefinementType::Base(
                BaseType::Primitive(PrimitiveType::BooleanType),
                Option::None,
            ),
    {
        RefinementType::Base(BaseType::Primitive(PrimitiveType::BooleanType), Option::None)
    }

    /// A refined boolean type wrapping the given predicate, with a fresh
    /// self-binder id minted from the allocator.
    pub fn bool_refined(refinement: Refinement, cache: &mut IdAllocator) -> (r: RefinementType)
        requires
            old(cache).next_id() < u64::MAX,
        ensures
            r.model() == SpecRefinementType::Base(
                BaseType::Primitive(PrimitiveType::BooleanType),
                Option::Some((DefinitionInfoId(old(cache).next_id()), refinement.model())),
            ),
            final(cache).next_id() == old(cache).next_id() + 1,
    {
        let id = fresh_bool_var(cache);
        RefinementType::Base(
            BaseType::Primitive(PrimitiveType::BooleanType),
            Option::Some((id, refinement)),
        )
    }
}

/// Mint a fresh identifier to stand for a boolean value.
pub fn fresh_bool_var(cache: &mut IdAllocator) -> (r: DefinitionInfoId)
    requires
        old(cache).next_id() < u64::MAX,
    ensures
        r == DefinitionInfoId(old(cache).next_id()),
        final(cache).next_id() == old(cache).next_id() + 1,
{
    cache.fresh_internal_var()
}

/// Substitution over a named-type vector, elementwise; the names are left
/// unchanged.
fn substitute_named_vec(
    args: &Vec<NamedType>,
    id: DefinitionInfoId,
    replacement: &Refinement,
) -> (r: Vec<NamedType>)
    ensures
        model_named_seq(r@) == subst_named_seq(model_named_seq(args@), id, replacement.model()),
    decreases args@,
{
    let mut out: Vec<NamedType> = Vec::new();
    let mut i: usize = 0;
    while i < args.len()
        invariant
            i <= args@.len(),
            out@.len() == i,
            forall|j: int| 0 <= j < i ==> out@[j].0 == args@[j].0 && out@[j].1.model()
                == args@[j].1.model().subst(id, replacement.model()),
        decreases args@.len() - i,
    {
        let t = args[i].1.substitute(id, replacement);
        out.push((args[i].0, t));
        i = i + 1;
    }
    proof {
        lemma_model_named_seq(out@);
        lemma_model_named_seq(args@);
        lemma_subst_named_seq(model_named_seq(args@), id, replacement.model());
        assert(model_named_seq(out@) =~= subst_named_seq(
            model_named_seq(args@),
            id,
            replacement.model(),
        ));
    }
    out
}

/// A copy of a type-variable vector.
fn copy_type_vars(vars: &Vec<TypeVariableId>) -> (r: Vec<TypeVariableId>)
    ensures
        r@ == vars@,
{
    let mut out: Vec<TypeVariableId> = Vec::new();
    let mut i: usize = 0;
    while i < vars.len()
        invariant
            i <= vars@.len(),
            out@.len() == i,
            forall|j: int| 0 <= j < i ==> out@[j] == vars@[j],
        decreases vars@.len() - i,
    {
        out.push(vars[i]);
        i = i + 1;
    }
    proof {
        assert(out@ =~= vars@);
    }
    out
}

} // verus!
