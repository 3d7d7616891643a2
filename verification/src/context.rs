//! The binding context: an ordered stack of active (binder, assumed-type)
//! pairs, with scoped insert and remove.
//!
//! The subtyping engine temporarily extends the context while descending
//! into a function's return type.  Callers must push and pop in strict LIFO
//! order, including across recursive calls and early failures; the context
//! has no existence independent of one subtyping derivation's call tree.

use vstd::prelude::*;

use crate::ids::DefinitionInfoId;
use crate::refinements::NamedType;
use crate::refinements::RefinementType;
use crate::refinements::SpecRefinementType;
use crate::refinements::lemma_model_named_seq;
use crate::refinements::model_named_seq;

verus! {

/// The stack of active assumptions threaded through one subtyping
/// derivation.  Its view is the stack of (binder, assumed-type) models, the
/// first pushed binding first.
pub struct RefinementContext {
    bindings: Vec<NamedType>,
}

/// The stack after removing the most recently pushed binding for `id`; a
/// stack holding no binding for `id` is unchanged.
pub open spec fn remove_newest(
    s: Seq<(DefinitionInfoId, SpecRefinementType)>,
    id: DefinitionInfoId,
) -> Seq<(DefinitionInfoId, SpecRefinementType)>
    decreases s,
{
    if s.len() == 0 {
        s
    } else if s.last().0 == id {
        s.drop_last()
    } else {
        remove_newest(s.drop_last(), id).push(s.last())
    }
}

/// Removing the most recent binding for `id` removes exactly the matching
/// index nothing above matches.
proof fn lemma_remove_newest_at(
    s: Seq<(DefinitionInfoId, SpecRefinementType)>,
    id: DefinitionInfoId,
    j: int,
)
    requires
        0 <= j < s.len(),
        s[j].0 == id,
        forall|k: int| j < k < s.len() ==> s[k].0 != id,
    ensures
        remove_newest(s, id) == s.remove(j),
    decreases s,
{
    if j == s.len() - 1 {
        assert(s.remove(j) =~= s.drop_last());
    } else {
        assert(s.last().0 != id);
        assert(s.drop_last()[j] == s[j]);
        lemma_remove_newest_at(s.drop_last(), id, j);
        assert(s.drop_last().remove(j) =~= s.remove(j).drop_last());
        assert(s.remove(j).last() == s.last());
        assert(remove_newest(s, id) =~= s.remove(j));
    }
}

/// A stack with no binding for `id` is left unchanged.
proof fn lemma_remove_newest_none(
    s: Seq<(DefinitionInfoId, SpecRefinementType)>,
    id: DefinitionInfoId,
)
    requires
        forall|k: int| 0 <= k < s.len() ==> s[k].0 != id,
    ensures
        remove_newest(s, id) == s,
    decreases s,
{
    if s.len() > 0 {
        lemma_remove_newest_none(s.drop_last(), id);
        assert(remove_newest(s, id) =~= s);
    }
}

impl View for RefinementContext {
    type V = Seq<(DefinitionInfoId, SpecRefinementType)>;

    closed spec fn view(&self) -> Seq<(DefinitionInfoId, SpecRefinementType)> {
        model_named_seq(self.bindings@)
    }
}

impl RefinementContext {
    /// The empty context.
    pub fn new() -> (r: RefinementContext)
        ensures
            r@ == Seq::<(DefinitionInfoId, SpecRefinementType)>::empty(),
    {
        let r = RefinementContext { bindings: Vec::new() };
        proof {
            assert(r@ =~= Seq::<(DefinitionInfoId, SpecRefinementType)>::empty());
        }
        r
    }

    /// The number of active bindings.
    pub fn len(&self) -> (r: usize)
        ensures
            r == self@.len(),
    {
        proof {
            lemma_model_named_seq(self.bindings@);
        }
        self.bindings.len()
    }

    /// The binding at position `i`, position 0 being the first pushed.
    pub fn binding(&self, i: usize) -> (r: &NamedType)
        requires
            i < self@.len(),
        ensures
            (r.0, r.1.model()) == self@[i as int],
    {
        proof {
            lemma_model_named_seq(self.bindings@);
        }
        &self.bindings[i]
    }

    /// Push a scoped assumption.
    pub fn insert_refinement(&mut self, id: DefinitionInfoId, typ: RefinementType)
        ensures
            final(self)@ == old(self)@.push((id, typ.model())),
    {
        let ghost tm = typ.model();
        self.bindings.push((id, typ));
        proof {
            assert(self.bindings@.drop_last() =~= old(self).bindings@);
            assert(self@ =~= old(self)@.push((id, tm)));
        }
    }

    /// Pop the most recently pushed assumption for `id`; a context holding
    /// no binding for `id` is left unchanged.
    pub fn remove_refinement(&mut self, id: DefinitionInfoId)
        ensures
            final(self)@ == remove_newest(old(self)@, id),
    {
        proof {
            lemma_model_named_seq(self.bindings@);
        }
        let mut i: usize = self.bindings.len();
        while i > 0
            invariant
                i <= self.bindings@.len(),
                self == old(self),
                forall|k: int| i <= k < self.bindings@.len() ==> self.bindings@[k].0 != id,
            decreases i,
        {
            let j = i - 1;
            if self.bindings[j].0 == id {
                self.bindings.remove(j);
                proof {
                    lemma_model_named_seq(old(self).bindings@);
                    lemma_model_named_seq(self.bindings@);
                    assert forall|k: int| (j as int) < k < old(self)@.len() implies old(
                        self,
                    )@[k].0 != id by {
                        assert(old(self)@[k] == (
                            old(self).bindings@[k].0,
                            old(self).bindings@[k].1.model(),
                        ));
                    }
                    assert(old(self)@[j as int].0 == id);
                    lemma_remove_newest_at(old(self)@, id, j as int);
                    assert(self@ =~= old(self)@.remove(j as int));
                }
                return ;
            }
            i = j;
        }
        proof {
            lemma_model_named_seq(self.bindings@);
            assert forall|k: int| 0 <= k < self@.len() implies self@[k].0 != id by {
                assert(self@[k] == (self.bindings@[k].0, self.bindings@[k].1.model()));
            }
            lemma_remove_newest_none(self@, id);
        }
    }
}

} // verus!
