//! Type-level building blocks and decision logic of a random Move bytecode
//! test generator: signature tokens and their substitution, the ability
//! calculus of the Move type system, the arguments handed to an entry
//! function, seeding, and the bookkeeping of the generation pipeline.
use vstd::prelude::*;

pub mod abilities;
pub mod laws;
pub mod entry;
pub mod generation;
pub mod seed;
pub mod types;

verus! {

/// The outcome of one generated module: rejected by the bytecode verifier,
/// failed when run, or neither.
#[derive(Debug, Clone, Copy, PartialEq, Eq, Structural)]
pub enum Status {
    VerificationFailure,
    ExecutionFailure,
    Valid,
}

} // verus!
