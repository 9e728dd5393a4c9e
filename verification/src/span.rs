//! Source positions.
//!
//! Every piece of the declaration model carries a [`Span`]: the byte range of
//! the original text it came from, together with a [`Resolution`] that says
//! how names inside that range resolve. The transformation never reads a
//! position; it only moves spans around so that the rewritten output still
//! points at the offending source text, which is what keeps the emitted
//! diagnostics readable.

use vstd::prelude::*;

verus! {

/// How the names under a span resolve.
///
/// `CallSite` is the resolution of tokens that were written by the user at
/// the invocation site; `MixedSite` is the hygienic resolution given to
/// freshly generated tokens.
#[derive(Clone, Copy, Debug, PartialEq, Eq, Structural)]
pub enum Resolution {
    CallSite,
    MixedSite,
}

/// A source position: a byte range plus a name-resolution mode.
#[derive(Clone, Copy, Debug, PartialEq, Eq, Structural)]
pub struct Span {
    /// Offset of the first byte covered.
    pub lo: u32,
    /// Offset one past the last byte covered.
    pub hi: u32,
    /// How names under this span resolve.
    pub resolution: Resolution,
}

impl Span {
    /// The span of freshly generated text: no position, hygienic resolution.
    pub open spec fn spec_mixed_site() -> Span {
        Span { lo: 0, hi: 0, resolution: Resolution::MixedSite }
    }

    /// The span of freshly generated text: no position, hygienic resolution.
    pub fn mixed_site() -> (r: Span)
        ensures
            r == Span::spec_mixed_site(),
    {
        Span { lo: 0, hi: 0, resolution: Resolution::MixedSite }
    }

    /// `self`'s resolution at `other`'s position.
    pub open spec fn spec_located_at(self, other: Span) -> Span {
        Span { lo: other.lo, hi: other.hi, resolution: self.resolution }
    }

    /// `self`'s resolution at `other`'s position.
    pub fn located_at(self, other: Span) -> (r: Span)
        ensures
            r == self.spec_located_at(other),
    {
        Span { lo: other.lo, hi: other.hi, resolution: self.resolution }
    }

    /// `self`'s position with `other`'s resolution.
    pub open spec fn spec_resolved_at(self, other: Span) -> Span {
        Span { lo: self.lo, hi: self.hi, resolution: other.resolution }
    }

    /// `self`'s position with `other`'s resolution.
    pub fn resolved_at(self, other: Span) -> (r: Span)
        ensures
            r == self.spec_resolved_at(other),
    {
        Span { lo: self.lo, hi: self.hi, resolution: other.resolution }
    }

    /// Only the position of `self`: its range, with hygienic resolution.
    pub open spec fn spec_location(self) -> Span {
        Span { lo: self.lo, hi: self.hi, resolution: Resolution::MixedSite }
    }

    /// Extract *only* the location information of a span, leaving out its
    /// resolution information (which thus defaults to the hygienic
    /// [`Span::mixed_site`] resolution).
    ///
    /// Use this when a span is wanted purely for its diagnostic properties:
    /// the generated tokens then point at the original text without
    /// accidentally inheriting its name resolution.
    pub fn location(self) -> (r: ExplicitSpan)
        ensures
            r.bare == self.spec_location(),
    {
        ExplicitSpan { bare: Span::mixed_site().located_at(self) }
    }

    /// Only the resolution of `self`: its resolution, at no position.
    pub open spec fn spec_hygiene(self) -> Span {
        Span { lo: 0, hi: 0, resolution: self.resolution }
    }

    /// Extract *only* the resolution information of a span, leaving out its
    /// position (which thus defaults to the [`Span::mixed_site`] position).
    pub fn hygiene(self) -> (r: ExplicitSpan)
        ensures
            r.bare == self.spec_hygiene(),
    {
        ExplicitSpan { bare: Span::mixed_site().resolved_at(self) }
    }

    /// The span unchanged: both its position and its resolution.
    pub fn location_and_hygiene(self) -> (r: ExplicitSpan)
        ensures
            r.bare == self,
    {
        ExplicitSpan { bare: self }
    }

    /// The one-element range `self..self`.
    pub fn span_range(self) -> (r: SpanRange)
        ensures
            r == (SpanRange { start: self, end: self }),
    {
        SpanRange { start: self, end: self }
    }
}

impl DeepView for Span {
    type V = Span;

    open spec fn deep_view(&self) -> Span {
        *self
    }
}

/// Newtype so as not to forget to pick one of [`Span::location`],
/// [`Span::hygiene`] or [`Span::location_and_hygiene`] when a span is handed
/// on: holding an `ExplicitSpan` records that the choice has been made.
#[derive(Clone, Copy, Debug, PartialEq, Eq, Structural)]
pub struct ExplicitSpan {
    /// The chosen span.
    pub bare: Span,
}

impl ExplicitSpan {
    /// The span that was chosen.
    pub fn bare(self) -> (r: Span)
        ensures
            r == self.bare,
    {
        self.bare
    }

    /// The explicit choice of the hygienic [`Span::mixed_site`] span.
    pub fn mixed_site() -> (r: ExplicitSpan)
        ensures
            r.bare == Span::spec_mixed_site(),
    {
        ExplicitSpan { bare: Span::mixed_site() }
    }
}

/// A range of spans: the spans of the first and of the last token of some
/// stretch of text. Diagnostics attach their marker from `start` to `end`.
#[derive(Clone, Copy, Debug, PartialEq, Eq, Structural)]
pub struct SpanRange {
    /// Span of the first token.
    pub start: Span,
    /// Span of the last token.
    pub end: Span,
}

impl SpanRange {
    /// The range standing for "the whole invocation": both ends are the
    /// [`Span::mixed_site`] span.
    pub fn full() -> (r: SpanRange)
        ensures
            r == (SpanRange {
                start: Span::spec_mixed_site(),
                end: Span::spec_mixed_site(),
            }),
    {
        SpanRange { start: Span::mixed_site(), end: Span::mixed_site() }
    }
}

} // verus!
