//! Rewriting one extracted predicate into its entailed equivalent.
//!
//! `subject: bounds` becomes
//!
//! ```text
//! Self: krate::ImpliedPredicate<subject, Impls: bounds>
//! ```
//!
//! (modulo the predicate's own `for<…>` quantifier, which is kept). The
//! subject and the bounds travel verbatim into the wrapper, so the rewriting
//! is robust against whatever path or quantifier syntax they contain; and
//! because the new predicate's subject is `Self`, the compiler entails it
//! for every user of the trait.

use vstd::prelude::*;

use crate::args::Crate;
use crate::ast::{
    lemma_bounds_deep_view, Bound, Path, PathArgs, PathSegment, Predicate, SpecBound, SpecPath,
    SpecPathArgs, SpecPathSegment, SpecPredicate, SpecTypeExpr, TypeExpr,
};
use crate::span::Span;

verus! {

/// The wrapper path used when no `crate = path` override was given.
pub open spec fn spec_default_krate_path() -> SpecPath {
    SpecPath {
        leading_colon: true,
        segments: seq![
            SpecPathSegment { ident: "implied_bounds"@, args: SpecPathArgs::Bare },
        ],
    }
}

/// The wrapper path used when no `crate = path` override was given
/// (see [`spec_default_krate_path`]).
pub fn default_krate_path() -> (r: Path)
    ensures
        r.deep_view() == spec_default_krate_path(),
{
    let r = Path {
        leading_colon: true,
        segments: vec![PathSegment { ident: "implied_bounds".to_owned(), args: PathArgs::Bare }],
    };
    proof {
        assert(r.deep_view().segments =~= spec_default_krate_path().segments);
    }
    r
}

/// The literal type `Self`, at the given span.
pub open spec fn spec_self_subject(span: Span) -> SpecTypeExpr {
    SpecTypeExpr::Path {
        qself: false,
        path: SpecPath {
            leading_colon: false,
            segments: seq![SpecPathSegment { ident: "Self"@, args: SpecPathArgs::Bare }],
        },
        span,
    }
}

/// What [`transform_into_equivalent_implied_predicate`] yields.
///
/// The span of the rewritten predicate's opening tokens is the *location*
/// of the original subject's leading token; the span of the wrapper's
/// closing `>` is the location of the original bound list's end. Either
/// way only the position is kept, with hygienic resolution, so the
/// generated tokens point at the original text without inheriting its name
/// resolution; and later errors about an unmet bound keep their positional
/// fidelity.
pub open spec fn spec_transform(p: SpecPredicate, krate: Option<SpecPath>) -> SpecPredicate {
    let opening = p.subject.leading_span().spec_location();
    let closing = p.bounds[p.bounds.len() - 1].leading_span().spec_location();
    SpecPredicate {
        quantifiers: p.quantifiers,
        subject: spec_self_subject(opening),
        bounds: seq![
            SpecBound::Implied {
                krate: match krate {
                    Some(k) => k,
                    None => spec_default_krate_path(),
                },
                subject: p.subject,
                bounds: p.bounds,
                span: opening,
                close_span: closing,
            },
        ],
        span: opening,
    }
}

/// Transform `subject: bounds` into
/// `Self: krate::ImpliedPredicate<subject, Impls: bounds>`
/// (see [`spec_transform`]).
///
/// The wrapper path comes from the run's [`Crate`] context when a
/// `crate = path` override was given, and is `::implied_bounds` otherwise.
/// This step cannot fail: every predicate the extractor hands over has a
/// non-empty bound list.
pub fn transform_into_equivalent_implied_predicate(pred: Predicate, krate: &Crate) -> (r:
    Predicate)
    requires
        pred.deep_view().bounds.len() > 0,
    ensures
        r.deep_view() == spec_transform(pred.deep_view(), krate.krate.deep_view()),
{
    let ghost p0 = pred.deep_view();
    let opening: Span = pred.subject.leading_span().location().bare();
    let closing: Span = pred.bounds[pred.bounds.len() - 1].leading_span().location().bare();
    let path: Path = match krate.get() {
        Some(k) => k.duplicate(),
        None => default_krate_path(),
    };
    let subject = TypeExpr::Path {
        qself: false,
        path: Path {
            leading_colon: false,
            segments: vec![PathSegment { ident: "Self".to_owned(), args: PathArgs::Bare }],
        },
        span: opening,
    };
    proof {
        assert(subject.deep_view() == spec_self_subject(opening)) by {
            assert(subject.deep_view()->Path_path.segments =~= spec_self_subject(
                opening,
            )->Path_path.segments);
        }
    }
    let Predicate { quantifiers, subject: original_subject, bounds, span: _ } = pred;
    let wrapper = Bound::Implied {
        krate: path,
        subject: original_subject,
        bounds,
        span: opening,
        close_span: closing,
    };
    proof {
        let target = spec_transform(p0, krate.krate.deep_view()).bounds[0];
        assert(wrapper.deep_view() == target) by {
            assert(wrapper.deep_view() matches SpecBound::Implied { bounds: bs, .. }
                ==> bs == p0.bounds) by {
                match wrapper {
                    Bound::Implied { bounds: ref inner, .. } => {
                        lemma_bounds_deep_view(*inner);
                    },
                    _ => {},
                }
            }
        }
    }
    let r = Predicate { quantifiers, subject, bounds: vec![wrapper], span: opening };
    proof {
        assert(r.deep_view().bounds =~= spec_transform(p0, krate.krate.deep_view()).bounds);
    }
    r
}

} // verus!
