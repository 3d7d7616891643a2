//! Opaque identifiers and the process-wide fresh-identifier allocator.
//!
//! Identifiers are minted once by a single monotonic allocator and never
//! reused for unrelated declarations.  This global uniqueness is the
//! load-bearing invariant that lets substitution over refinement formulas
//! skip alpha-renaming of binders.

use vstd::prelude::*;

verus! {

/// An opaque, totally ordered, hashable identifier for a definition
/// (a variable, a binder, or an uninterpreted function head).
#[derive(Debug, Clone, Copy, PartialEq, Eq, PartialOrd, Ord, Hash, Structural)]
pub struct DefinitionInfoId(pub u64);

/// An opaque identifier for a unification type variable.
#[derive(Debug, Clone, Copy, PartialEq, Eq, PartialOrd, Ord, Hash, Structural)]
pub struct TypeVariableId(pub u64);

/// An opaque identifier for a user-defined type declaration.
#[derive(Debug, Clone, Copy, PartialEq, Eq, PartialOrd, Ord, Hash, Structural)]
pub struct TypeInfoId(pub u64);

/// An opaque identifier for a lifetime variable of a reference type.
#[derive(Debug, Clone, Copy, PartialEq, Eq, PartialOrd, Ord, Hash, Structural)]
pub struct LifetimeVariableId(pub u64);

/// The single allocator from which every [`DefinitionInfoId`] is minted.
///
/// It hands out ids from one monotonic counter, so every id it returns is
/// distinct from every id it returned before.  Self-binder ids for newly
/// constructed refined types are the only values minted inside this crate.
pub struct IdAllocator {
    next: u64,
}

impl IdAllocator {
    /// The counter value: every id issued so far is strictly below it.
    pub closed spec fn next_id(self) -> u64 {
        self.next
    }

    /// A fresh allocator whose first issued id will be `first`.
    pub fn starting_at(first: u64) -> (r: IdAllocator)
        ensures
            r.next_id() == first,
    {
        IdAllocator { next: first }
    }

    /// Mint a fresh identifier, distinct from every previously issued one.
    pub fn fresh_internal_var(&mut self) -> (r: DefinitionInfoId)
        requires
            old(self).next_id() < u64::MAX,
        ensures
            r == DefinitionInfoId(old(self).next_id()),
            final(self).next_id() == old(self).next_id() + 1,
    {
        let id = DefinitionInfoId(self.next);
        self.next = self.next + 1;
        id
    }
}

} // verus!
