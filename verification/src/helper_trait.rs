//! The always-satisfiable helper traits behind the entailed encoding.
//!
//! [`HasAssoc`] pairs any type with an associated type `Impls` that is, by
//! its single blanket implementation, always the generic argument itself.
//! [`ImpliedPredicate`] requires `HasAssoc<T, Impls = T>` and is likewise
//! implemented for every type, so *requiring* it costs nothing; but writing
//!
//! ```text
//! Self: ImpliedPredicate<X, Impls: Bounds>
//! ```
//!
//! is well-formed exactly when `Impls` — that is, `X` itself — satisfies
//! `Bounds`. Because the constraint's subject is `Self`, the compiler entails
//! it for every caller that requires the surrounding trait, which is the
//! whole point of the rewriting done by this crate:
//!
//! ```text
//! X: Bounds    <=>    Self: ImpliedPredicate<X, Impls: Bounds>
//! ```

use vstd::prelude::*;

verus! {

/// A trait that relates any type to an associated type `Impls`.
///
/// Its one blanket implementation fixes `Impls = T`, so for every `Self_`
/// and every `T`, `Self_: HasAssoc<T, Impls = T>` holds. Every `Sized`
/// bound is relaxed: the rewriting must accept unsized subjects (`str`, a
/// `dyn` type) and unsized implementors alike.
pub trait HasAssoc<T: ?Sized> {
    /// Always the `T` fed to the trait, by the blanket implementation.
    type Impls: ?Sized;
}

impl<T: ?Sized, S: ?Sized> HasAssoc<T> for S {
    type Impls = T;
}

/// The always-holding predicate used by the rewriting.
///
/// `Self_: ImpliedPredicate<T>` holds for every pair of types, so requiring
/// it never excludes an implementor; the rewritten constraint
/// `Self: ImpliedPredicate<X, Impls: Bounds>` therefore holds exactly when
/// `X: Bounds` does.
pub trait ImpliedPredicate<T: ?Sized>: HasAssoc<T, Impls = T> {
}

impl<T: ?Sized, S: ?Sized> ImpliedPredicate<T> for S {
}

} // verus!
