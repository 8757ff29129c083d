//! Validation of entities, field by field.
//!
//! An entity type declares, for each of its fields, an ordered list of
//! rules: checks, which compare the value of the field and leave a message
//! when they fail, and transforms, which rewrite it. `derive_validator`
//! compiles such a declaration into a `ValidationPlan` and reports every
//! fault of the declaration at that point. `ValidationPlan::validate` runs
//! the plan on the values of an entity: every rule of every field, in the
//! order of the declaration, none skipped, and returns either success or
//! the messages of all the rules that failed.
//!
//! A validation can also be written by hand, with `ruleset` and `rule`.
//!
//! The contracts speak of a run of a plan as a list of outcomes, one for
//! each rule; `laws` holds what follows for every run.

pub mod catalog;
pub mod compile;
pub mod declaration;
pub mod entity;
pub mod error;
pub mod gather;
pub mod laws;
pub mod plan;
pub mod ruleset;
pub mod text;
pub mod valid;
pub mod value;

pub use compile::derive_validator;
pub use ruleset::{rule, ruleset};
pub use valid::{Valid, ValidationError};

use vstd::prelude::*;

verus! {

/// An entity that can be validated.
pub trait Validate: Sized {
    /// Whether `validate` can turn the entity `before` into `after` with
    /// this result. An entity type that does not say what its validation
    /// does promises nothing.
    open spec fn validated(before: Self, after: Self, result: Result<(), Vec<String>>) -> bool {
        true
    }

    /// Validates the entity, and may rewrite it on the way. Returns `Ok`
    /// when the entity is valid, else the messages of all the rules that it
    /// failed.
    fn validate(&mut self) -> (result: Result<(), Vec<String>>)
        ensures
            Self::validated(*old(self), *final(self), result),
    ;
}

} // verus!
