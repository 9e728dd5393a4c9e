//! Rewriting of trait declarations so that every constraint they state is
//! entailed: callers that require the trait get the constraints for free,
//! instead of having to repeat them at every usage site.
//!
//! The crate works on its own model of a trait declaration (see [`ast`]):
//! generic parameters with inline bounds, and a `where` clause whose
//! predicates bound either `Self` or some other type. Bounds written on a
//! generic parameter, and `where` predicates whose bounded type is not
//! literally `Self`, are not entailed; the transformation extracts them and
//! re-expresses each as `Self: ImpliedPredicate<subject, Impls: bounds>`,
//! which the compiler entails for every user of the trait.
//!
//! The helper traits that make this encoding work are in [`helper_trait`];
//! the pipeline entry points are in [`pipeline`].

use vstd::prelude::*;

pub mod args;
pub mod ast;
pub mod diag;
pub mod extract;
pub mod helper_trait;
pub mod laws;
pub mod pipeline;
pub mod span;
pub mod transform;
