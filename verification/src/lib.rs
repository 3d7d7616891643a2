//! A refinement-type subtyping engine: boolean refinement formulas attached to
//! base types, identifier-keyed substitution over formulas and types, and a
//! structural algorithm that reduces a subtyping question between two
//! refinement types to a single logical verification condition for an
//! external decision procedure.

pub mod context;
pub mod ids;
pub mod laws;
pub mod refinements;
pub mod subtype;
