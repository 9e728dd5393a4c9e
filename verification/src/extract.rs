//! Locating and extracting the non-entailed predicates of a declaration.
//!
//! A predicate is *entailed* when the compiler guarantees it at every usage
//! site of the trait; that is the case exactly for predicates whose subject
//! is the implementing type itself. Everything else — the inline bounds of
//! a generic parameter, and `where` predicates whose subject is not
//! literally `Self` — must today be repeated by every caller, and is what
//! this module extracts, so that the transformer can re-express it in an
//! entailed form.
//!
//! Extraction strips the declaration of these predicates, except that a
//! predicate that is safe to repeat (not higher-ranked) leaves a verbatim
//! copy behind at its original site, purely so that later compiler
//! diagnostics name the readable original subject instead of the wrapper's
//! internal member.

use vstd::prelude::*;

use crate::ast::{
    bound_seq_wf, bounds_span_range, duplicate_bounds, lemma_bound_seq_wf,
    spec_bounds_span_range, Bound, GenericParam, Path, PathArgs, PathSegment, Predicate,
    SpecBound, SpecGenericParam, SpecPath, SpecPathArgs, SpecPathSegment, SpecPredicate,
    SpecTraitDecl, SpecTypeExpr, SpecTypeParam, SpecWherePredicate, TraitDecl, TypeExpr,
    TypeParam, WherePredicate,
};
use crate::args::{Args, SpecArgs};
use crate::diag::{
    compile_warning, error_at, spec_compile_warning, spec_error_at, Diagnostic, SpecDiagnostic,
};
use crate::span::{Span, SpanRange};

verus! {

/// The debug-mode warning attached at each extracted predicate's site.
pub const DEBUG_ADJUSTING_MSG: &'static str =
    "[debug] this predicate is not implied, adjusting it…";

/// The warning emitted when there was nothing at all to extract.
pub const NOTHING_TO_DO_MSG: &'static str =
    "No non-implied clauses found for this trait, you may skip using this macro altogether.\n\nTo silence this warning, use `#[…implied_bounds(allow_none, …)]`.";

/// The error for a parameter that has bounds but no `:` before them.
pub const MISSING_COLON_MSG: &'static str =
    "missing `:` between the parameter and its bounds";

// ---------------------------------------------------------------------------
// Classification
// ---------------------------------------------------------------------------

/// Whether one bound may be universally quantified: it has an explicit
/// non-empty `for<…>` list, or its trait path ends in parenthesized
/// (`Fn`-style) arguments.
///
/// The parenthesized-arguments test is deliberately coarse: not every such
/// bound is higher-ranked, but a false positive merely suppresses the
/// readability duplicate, while a false negative would duplicate a
/// quantifier onto a bare site and break the output.
pub open spec fn spec_bound_higher_ranked(b: SpecBound) -> bool {
    match b {
        SpecBound::Trait { quantifiers, path, .. } => quantifiers.len() > 0 || path.segments[
            path.segments.len() - 1
        ].args is Parenthesized,
        _ => false,
    }
}

/// Whether some bound of the list may be universally quantified.
pub open spec fn spec_bounds_higher_ranked(s: Seq<SpecBound>) -> bool {
    exists|i: int| 0 <= i < s.len() && spec_bound_higher_ranked(s[i])
}

/// Whether some bound of the list may be universally quantified
/// (see [`spec_bounds_higher_ranked`]).
pub fn may_be_higher_ranked(bounds: &Vec<Bound>) -> (r: bool)
    requires
        bound_seq_wf(bounds.deep_view()),
    ensures
        r == spec_bounds_higher_ranked(bounds.deep_view()),
{
    proof {
        lemma_bound_seq_wf(bounds.deep_view());
    }
    let n = bounds.len();
    let mut i: usize = 0;
    while i < n
        invariant
            n == bounds.len(),
            0 <= i <= n,
            bound_seq_wf(bounds.deep_view()),
            forall|j: int| 0 <= j < i ==> !spec_bound_higher_ranked(bounds.deep_view()[j]),
        decreases n - i,
    {
        proof {
            lemma_bound_seq_wf(bounds.deep_view());
            assert(bounds.deep_view()[i as int].wf());
        }
        let hr = match &bounds[i] {
            Bound::Trait { quantifiers, path, .. } => {
                if quantifiers.len() > 0 {
                    true
                } else {
                    let k = path.segments.len();
                    matches!(path.segments[k - 1].args, PathArgs::Parenthesized { .. })
                }
            },
            _ => false,
        };
        if hr {
            proof {
                assert(spec_bound_higher_ranked(bounds.deep_view()[i as int]));
            }
            return true;
        }
        i += 1;
    }
    false
}

// ---------------------------------------------------------------------------
// The extracted form
// ---------------------------------------------------------------------------

/// Deep view of [`FreeStandingPredicate`].
pub struct SpecFreeStandingPredicate {
    pub pred: SpecPredicate,
    pub higher_ranked: bool,
}

/// One extracted, not-entailed predicate, tagged with whether it may be
/// universally quantified (in which case no readability duplicate was left
/// behind).
#[derive(Debug, PartialEq, Eq)]
pub struct FreeStandingPredicate {
    /// The predicate, exactly as it stood (for a generic parameter's inline
    /// bounds: the predicate `Param: bounds` they abbreviate).
    pub pred: Predicate,
    /// Whether some of its bounds may be universally quantified.
    pub higher_ranked: bool,
}

impl DeepView for FreeStandingPredicate {
    type V = SpecFreeStandingPredicate;

    open spec fn deep_view(&self) -> SpecFreeStandingPredicate {
        SpecFreeStandingPredicate {
            pred: self.pred.deep_view(),
            higher_ranked: self.higher_ranked,
        }
    }
}

// ---------------------------------------------------------------------------
// What extraction yields — generic parameters
// ---------------------------------------------------------------------------

/// Whether a generic parameter has anything to extract: it is a type
/// parameter with a non-empty inline bound list.
pub open spec fn spec_param_extractable(p: SpecGenericParam) -> bool {
    match p {
        SpecGenericParam::Type { param } => param.bounds.len() > 0,
        SpecGenericParam::Verbatim { .. } => false,
    }
}

/// The type parameter inside a generic parameter.
pub open spec fn spec_as_type_param(p: SpecGenericParam) -> SpecTypeParam {
    match p {
        SpecGenericParam::Type { param } => param,
        SpecGenericParam::Verbatim { .. } => arbitrary(),
    }
}

/// The subject of the predicate a parameter's inline bounds abbreviate:
/// the parameter's own identifier as a path type, at the identifier's span.
pub open spec fn spec_param_subject(p: SpecTypeParam) -> SpecTypeExpr {
    SpecTypeExpr::Path {
        qself: false,
        path: SpecPath {
            leading_colon: false,
            segments: seq![SpecPathSegment { ident: p.ident, args: SpecPathArgs::Bare }],
        },
        span: p.ident_span,
    }
}

/// The free-standing predicate extracted from one type parameter.
pub open spec fn spec_free_from_param(p: SpecTypeParam) -> SpecFreeStandingPredicate {
    SpecFreeStandingPredicate {
        pred: SpecPredicate {
            quantifiers: Seq::empty(),
            subject: spec_param_subject(p),
            bounds: p.bounds,
            span: p.ident_span,
        },
        higher_ranked: spec_bounds_higher_ranked(p.bounds),
    }
}

/// The predicates extracted from the parameter list, in order.
pub open spec fn spec_params_extracted(ps: Seq<SpecGenericParam>) -> Seq<
    SpecFreeStandingPredicate,
>
    decreases ps.len(),
{
    if ps.len() == 0 {
        Seq::empty()
    } else {
        spec_params_extracted(ps.drop_last()) + if spec_param_extractable(ps.last()) {
            seq![spec_free_from_param(spec_as_type_param(ps.last()))]
        } else {
            Seq::empty()
        }
    }
}

/// One parameter after extraction: a parameter whose bounds may be
/// universally quantified loses them (they cannot be repeated soundly); any
/// other parameter — with bounds that are safe to repeat, or with nothing to
/// extract — stands unchanged.
pub open spec fn spec_param_after(p: SpecGenericParam) -> SpecGenericParam {
    match p {
        SpecGenericParam::Type { param } => if param.bounds.len() > 0
            && spec_bounds_higher_ranked(param.bounds) {
            SpecGenericParam::Type { param: SpecTypeParam { bounds: Seq::empty(), ..param } }
        } else {
            p
        },
        SpecGenericParam::Verbatim { .. } => p,
    }
}

/// The parameter list after extraction, element by element.
pub open spec fn spec_params_after(ps: Seq<SpecGenericParam>) -> Seq<SpecGenericParam> {
    Seq::new(ps.len(), |i: int| spec_param_after(ps[i]))
}

// ---------------------------------------------------------------------------
// What extraction yields — the `where` clause
// ---------------------------------------------------------------------------

/// Whether a `where` predicate is extractable: a typed predicate with a
/// non-empty bound list whose subject is not literally `Self`.
///
/// A `Self: …` predicate is a required capability — a super-interface
/// relationship that is already entailed everywhere — and rewriting it
/// would silently change what the trait means as a trait object, so it is
/// always kept as it stands.
pub open spec fn spec_where_extractable(w: SpecWherePredicate) -> bool {
    match w {
        SpecWherePredicate::Type { pred } => pred.bounds.len() > 0 && !pred.subject.is_self(),
        SpecWherePredicate::Verbatim { .. } => false,
    }
}

/// The predicate inside a typed `where` predicate.
pub open spec fn spec_as_predicate(w: SpecWherePredicate) -> SpecPredicate {
    match w {
        SpecWherePredicate::Type { pred } => pred,
        SpecWherePredicate::Verbatim { .. } => arbitrary(),
    }
}

/// Whether a whole predicate may be universally quantified: it carries its
/// own non-empty `for<…>` list, or some of its bounds may be.
pub open spec fn spec_pred_higher_ranked(pred: SpecPredicate) -> bool {
    pred.quantifiers.len() > 0 || spec_bounds_higher_ranked(pred.bounds)
}

/// The free-standing predicate extracted from one `where` predicate.
pub open spec fn spec_free_from_where(pred: SpecPredicate) -> SpecFreeStandingPredicate {
    SpecFreeStandingPredicate { pred, higher_ranked: spec_pred_higher_ranked(pred) }
}

/// The predicates extracted from the `where` clause, in order.
pub open spec fn spec_where_extracted(ws: Seq<SpecWherePredicate>) -> Seq<
    SpecFreeStandingPredicate,
>
    decreases ws.len(),
{
    if ws.len() == 0 {
        Seq::empty()
    } else {
        spec_where_extracted(ws.drop_last()) + if spec_where_extractable(ws.last()) {
            seq![spec_free_from_where(spec_as_predicate(ws.last()))]
        } else {
            Seq::empty()
        }
    }
}

/// The `where` clause after extraction, in the original order: a
/// non-extractable predicate stands unchanged; an extracted one that is
/// safe to repeat leaves a verbatim copy; an extracted one that may be
/// universally quantified leaves nothing.
pub open spec fn spec_where_retained(ws: Seq<SpecWherePredicate>) -> Seq<SpecWherePredicate>
    decreases ws.len(),
{
    if ws.len() == 0 {
        Seq::empty()
    } else {
        spec_where_retained(ws.drop_last()) + if !spec_where_extractable(ws.last()) {
            seq![ws.last()]
        } else if !spec_pred_higher_ranked(spec_as_predicate(ws.last())) {
            seq![ws.last()]
        } else {
            Seq::empty()
        }
    }
}

/// Every predicate extracted from a well-formed parameter list has a
/// non-empty, well-formed bound list, no quantifier of its own, and a tag
/// that matches its classification.
pub proof fn lemma_params_extracted_props(ps: Seq<SpecGenericParam>)
    requires
        forall|i: int| 0 <= i < ps.len() ==> (#[trigger] ps[i]).wf(),
    ensures
        forall|k: int|
            0 <= k < spec_params_extracted(ps).len() ==> {
                let f = #[trigger] spec_params_extracted(ps)[k];
                &&& f.pred.bounds.len() > 0
                &&& f.pred.wf()
                &&& f.pred.quantifiers.len() == 0
                &&& f.higher_ranked == spec_pred_higher_ranked(f.pred)
            },
    decreases ps.len(),
{
    if ps.len() > 0 {
        assert(forall|i: int|
            0 <= i < ps.drop_last().len() ==> (#[trigger] ps.drop_last()[i]).wf());
        lemma_params_extracted_props(ps.drop_last());
        assert(ps.last() == ps[ps.len() - 1]);
    }
}

/// Every predicate extracted from a well-formed `where` clause has a
/// non-empty, well-formed bound list, a subject that is not literally
/// `Self`, and a tag that matches its classification.
pub proof fn lemma_where_extracted_props(ws: Seq<SpecWherePredicate>)
    requires
        forall|i: int| 0 <= i < ws.len() ==> (#[trigger] ws[i]).wf(),
    ensures
        forall|k: int|
            0 <= k < spec_where_extracted(ws).len() ==> {
                let f = #[trigger] spec_where_extracted(ws)[k];
                &&& f.pred.bounds.len() > 0
                &&& f.pred.wf()
                &&& !f.pred.subject.is_self()
                &&& f.higher_ranked == spec_pred_higher_ranked(f.pred)
            },
    decreases ws.len(),
{
    if ws.len() > 0 {
        assert(forall|i: int|
            0 <= i < ws.drop_last().len() ==> (#[trigger] ws.drop_last()[i]).wf());
        lemma_where_extracted_props(ws.drop_last());
        assert(ws.last() == ws[ws.len() - 1]);
    }
}

// ---------------------------------------------------------------------------
// What extraction reports
// ---------------------------------------------------------------------------

/// The no-op warning: nothing was extractable, so the whole transformation
/// would change nothing.
pub open spec fn spec_nothing_to_do_warning() -> SpecDiagnostic {
    spec_compile_warning(
        SpanRange { start: Span::spec_mixed_site(), end: Span::spec_mixed_site() },
        NOTHING_TO_DO_MSG@,
    )
}

/// The diagnostics one generic parameter contributes: for an extractable
/// parameter, the debug-mode warning at its bound list, and an error when
/// the `:` before the bounds is missing.
pub open spec fn spec_param_diags(p: SpecGenericParam, debug: bool) -> Seq<SpecDiagnostic> {
    if !spec_param_extractable(p) {
        Seq::empty()
    } else {
        let param = spec_as_type_param(p);
        (if debug {
            seq![
                spec_compile_warning(spec_bounds_span_range(param.bounds), DEBUG_ADJUSTING_MSG@),
            ]
        } else {
            Seq::empty()
        }) + (if !param.has_colon {
            seq![spec_error_at(param.ident_span, MISSING_COLON_MSG@)]
        } else {
            Seq::empty()
        })
    }
}

/// The diagnostics of the whole parameter list, in order.
pub open spec fn spec_params_diags(ps: Seq<SpecGenericParam>, debug: bool) -> Seq<SpecDiagnostic>
    decreases ps.len(),
{
    if ps.len() == 0 {
        Seq::empty()
    } else {
        spec_params_diags(ps.drop_last(), debug) + spec_param_diags(ps.last(), debug)
    }
}

/// The diagnostics one `where` predicate contributes: the debug-mode
/// warning over the predicate's whole range, when it is extracted.
pub open spec fn spec_where_diags(ws: Seq<SpecWherePredicate>, debug: bool) -> Seq<SpecDiagnostic>
    decreases ws.len(),
{
    if ws.len() == 0 {
        Seq::empty()
    } else {
        spec_where_diags(ws.drop_last(), debug) + if spec_where_extractable(ws.last()) && debug {
            seq![
                spec_compile_warning(
                    spec_as_predicate(ws.last()).span_range(),
                    DEBUG_ADJUSTING_MSG@,
                ),
            ]
        } else {
            Seq::empty()
        }
    }
}

/// Whether the declaration has anything at all to extract.
pub open spec fn spec_any_extracted(d: SpecTraitDecl) -> bool {
    spec_params_extracted(d.params).len() + spec_where_extracted(d.predicates).len() > 0
}

/// Everything extraction reports for a declaration under a configuration:
/// the parameter diagnostics, then the `where` diagnostics, then — when
/// nothing was extractable and `allow_none` was not given — the no-op
/// warning.
pub open spec fn spec_extract_diags(d: SpecTraitDecl, args: SpecArgs) -> Seq<SpecDiagnostic> {
    spec_params_diags(d.params, args.debug is Some) + spec_where_diags(
        d.predicates,
        args.debug is Some,
    ) + if !spec_any_extracted(d) && args.allow_none is None {
        seq![spec_nothing_to_do_warning()]
    } else {
        Seq::empty()
    }
}

/// The declaration after extraction.
pub open spec fn spec_decl_after_extraction(d: SpecTraitDecl) -> SpecTraitDecl {
    SpecTraitDecl {
        params: spec_params_after(d.params),
        predicates: spec_where_retained(d.predicates),
        ..d
    }
}

// ---------------------------------------------------------------------------
// The extractor
// ---------------------------------------------------------------------------

/// Locate and extract the non-entailed predicates of this declaration.
///
///   - The inline bounds of each type parameter, which become the predicate
///     `Param: bounds`;
///   - each `where` predicate whose bounded type is not literally `Self`
///     (a `Self: …` predicate is a super-interface relationship and is kept
///     as it stands).
///
/// The extraction strips the declaration of what it takes, except that a
/// predicate that is safe to repeat — not higher-ranked — leaves a verbatim
/// copy at its original site, so that later diagnostics read
/// "`U` is not `Clone`" rather than naming the wrapper's internal member.
///
/// Under `debug`, one warning per extracted predicate is appended to
/// `diags`, at the predicate's original range; a parameter with bounds but
/// no separating `:` contributes a hard error; and when nothing at all was
/// extractable, a warning recommends skipping the transformation, unless
/// `allow_none` was given.
///
/// Constraints written on the declaration's own items (say, a `where`
/// clause on an associated type) are deliberately left alone: they are
/// syntactically ambiguous between a fact about the item and a
/// free-standing constraint, and classifying them is up to the user.
pub fn extract_non_implied_predicates(
    trait_: &mut TraitDecl,
    args: &Args,
    diags: &mut Vec<Diagnostic>,
) -> (ret: Vec<FreeStandingPredicate>)
    requires
        old(trait_).deep_view().wf(),
    ensures
        ret.deep_view() == spec_params_extracted(old(trait_).deep_view().params)
            + spec_where_extracted(old(trait_).deep_view().predicates),
        final(trait_).deep_view() == spec_decl_after_extraction(old(trait_).deep_view()),
        final(diags).deep_view() == old(diags).deep_view() + spec_extract_diags(
            old(trait_).deep_view(),
            args.deep_view(),
        ),
{
    let ghost d0 = trait_.deep_view();
    let ghost diags0 = diags.deep_view();
    let ghost dbg = args.deep_view().debug is Some;
    let mut ret: Vec<FreeStandingPredicate> = Vec::new();
    let mut new_params: Vec<GenericParam> = Vec::new();
    let mut found: bool = false;

    let n_params = trait_.params.len();
    let mut i: usize = 0;
    while i < n_params
        invariant
            n_params == trait_.params.len(),
            0 <= i <= n_params,
            *trait_ == *old(trait_),
            d0 == trait_.deep_view(),
            d0.wf(),
            diags0 == old(diags).deep_view(),
            dbg == (args.deep_view().debug is Some),
            new_params@.len() == i,
            forall|j: int|
                0 <= j < i ==> new_params@[j].deep_view() == spec_param_after(d0.params[j]),
            ret.deep_view() == spec_params_extracted(d0.params.take(i as int)),
            diags.deep_view() == diags0 + spec_params_diags(d0.params.take(i as int), dbg),
            found == (spec_params_extracted(d0.params.take(i as int)).len() > 0),
        decreases n_params - i,
    {
        let ghost prefix = d0.params.take(i as int);
        let ghost prefix1 = d0.params.take(i as int + 1);
        proof {
            assert(prefix1.drop_last() =~= prefix);
            assert(prefix1.last() == d0.params[i as int]);
            assert(d0.params[i as int] == trait_.params@[i as int].deep_view());
        }
        match &trait_.params[i] {
            GenericParam::Type { param } if param.bounds.len() > 0 => {
                let ghost sp = spec_as_type_param(d0.params[i as int]);
                proof {
                    assert(spec_param_extractable(d0.params[i as int]));
                    assert(d0.params[i as int].wf());
                    assert(sp.bounds == param.bounds.deep_view());
                }
                let ghost diags_pre = diags.deep_view();
                if args.debug.is_some() {
                    diags.push(compile_warning(
                        bounds_span_range(&param.bounds),
                        DEBUG_ADJUSTING_MSG,
                    ));
                }
                if !param.has_colon {
                    diags.push(error_at(param.ident_span, MISSING_COLON_MSG));
                }
                proof {
                    assert(diags.deep_view() =~= diags_pre + spec_param_diags(
                        d0.params[i as int],
                        dbg,
                    ));
                }
                found = true;
                let hr = may_be_higher_ranked(&param.bounds);
                let subject = TypeExpr::Path {
                    qself: false,
                    path: Path {
                        leading_colon: false,
                        segments: vec![
                            PathSegment { ident: param.ident.clone(), args: PathArgs::Bare },
                        ],
                    },
                    span: param.ident_span,
                };
                proof {
                    assert(subject.deep_view() == spec_param_subject(sp)) by {
                        assert(subject.deep_view()->Path_path.segments =~= spec_param_subject(
                            sp,
                        )->Path_path.segments);
                    }
                }
                let ghost ret_pre = ret.deep_view();
                let pred = Predicate {
                    quantifiers: Vec::new(),
                    subject,
                    bounds: duplicate_bounds(&param.bounds),
                    span: param.ident_span,
                };
                proof {
                    assert(pred.deep_view() == spec_free_from_param(sp).pred) by {
                        assert(pred.deep_view().quantifiers =~= Seq::<Seq<char>>::empty());
                    }
                }
                ret.push(FreeStandingPredicate { pred, higher_ranked: hr });
                proof {
                    assert(ret.deep_view() =~= ret_pre.push(spec_free_from_param(sp)));
                    assert(spec_params_extracted(prefix1) =~= spec_params_extracted(prefix).push(
                        spec_free_from_param(sp),
                    ));
                }
                let new_bounds: Vec<Bound> = if hr {
                    Vec::new()
                } else {
                    duplicate_bounds(&param.bounds)
                };
                let new_param = GenericParam::Type {
                    param: TypeParam {
                        ident: param.ident.clone(),
                        ident_span: param.ident_span,
                        has_colon: param.has_colon,
                        bounds: new_bounds,
                    },
                };
                proof {
                    if hr {
                        assert(new_param.deep_view() == spec_param_after(d0.params[i as int]))
                            by {
                            assert(new_param.deep_view()->Type_param.bounds =~= Seq::<
                                SpecBound,
                            >::empty());
                        }
                    } else {
                        assert(new_param.deep_view() == spec_param_after(d0.params[i as int]));
                    }
                }
                new_params.push(new_param);
            },
            other => {
                let copy = other.duplicate();
                proof {
                    assert(!spec_param_extractable(d0.params[i as int]));
                    assert(spec_params_extracted(prefix1) =~= spec_params_extracted(prefix));
                    assert(spec_param_diags(d0.params[i as int], dbg) =~= Seq::<
                        SpecDiagnostic,
                    >::empty());
                    assert(diags.deep_view() =~= diags0 + spec_params_diags(prefix1, dbg));
                    assert(spec_param_after(d0.params[i as int]) == d0.params[i as int]);
                }
                new_params.push(copy);
            },
        }
        i += 1;
    }
    proof {
        assert(d0.params.take(n_params as int) =~= d0.params);
    }

    let ghost params_done_diags = diags.deep_view();
    let mut retained: Vec<WherePredicate> = Vec::new();
    let n_preds = trait_.predicates.len();
    let mut k: usize = 0;
    while k < n_preds
        invariant
            n_preds == trait_.predicates.len(),
            0 <= k <= n_preds,
            *trait_ == *old(trait_),
            d0 == trait_.deep_view(),
            d0.wf(),
            dbg == (args.deep_view().debug is Some),
            params_done_diags == diags0 + spec_params_diags(d0.params, dbg),
            retained.deep_view() == spec_where_retained(d0.predicates.take(k as int)),
            ret.deep_view() == spec_params_extracted(d0.params) + spec_where_extracted(
                d0.predicates.take(k as int),
            ),
            diags.deep_view() == params_done_diags + spec_where_diags(
                d0.predicates.take(k as int),
                dbg,
            ),
            found == (spec_params_extracted(d0.params).len() + spec_where_extracted(
                d0.predicates.take(k as int),
            ).len() > 0),
        decreases n_preds - k,
    {
        let ghost prefix = d0.predicates.take(k as int);
        let ghost prefix1 = d0.predicates.take(k as int + 1);
        let ghost diags_at_entry = diags.deep_view();
        proof {
            assert(prefix1.drop_last() =~= prefix);
            assert(prefix1.last() == d0.predicates[k as int]);
            assert(d0.predicates[k as int] == trait_.predicates@[k as int].deep_view());
        }
        let extractable = match &trait_.predicates[k] {
            WherePredicate::Type { pred } => pred.bounds.len() > 0 && !pred.subject.is_self(),
            WherePredicate::Verbatim { .. } => false,
        };
        proof {
            assert(extractable == spec_where_extractable(d0.predicates[k as int]));
        }
        if extractable {
            match &trait_.predicates[k] {
                WherePredicate::Type { pred } => {
                    let ghost spred = spec_as_predicate(d0.predicates[k as int]);
                    proof {
                        assert(d0.predicates[k as int].wf());
                        assert(spred.bounds == pred.bounds.deep_view());
                    }
                    if args.debug.is_some() {
                        diags.push(compile_warning(pred.span_range(), DEBUG_ADJUSTING_MSG));
                        proof {
                            let w = spec_compile_warning(spred.span_range(), DEBUG_ADJUSTING_MSG@);
                            assert(diags.deep_view() =~= diags_at_entry.push(w));
                            assert(spec_where_diags(prefix1, dbg) == spec_where_diags(prefix, dbg)
                                + seq![w]);
                            assert(diags.deep_view() =~= params_done_diags + spec_where_diags(
                                prefix1,
                                dbg,
                            ));
                        }
                    } else {
                        proof {
                            assert(spec_where_diags(prefix1, dbg) =~= spec_where_diags(
                                prefix,
                                dbg,
                            ));
                        }
                    }
                    found = true;
                    let hr = pred.quantifiers.len() > 0 || may_be_higher_ranked(&pred.bounds);
                    proof {
                        assert(hr == spec_pred_higher_ranked(spred));
                    }
                    let ghost retained_pre = retained.deep_view();
                    if !hr {
                        retained.push(WherePredicate::Type { pred: pred.duplicate() });
                    }
                    proof {
                        assert(retained.deep_view() =~= spec_where_retained(prefix1));
                    }
                    let ghost ret_pre = ret.deep_view();
                    ret.push(FreeStandingPredicate { pred: pred.duplicate(), higher_ranked: hr });
                    proof {
                        assert(ret.deep_view() =~= ret_pre.push(spec_free_from_where(spred)));
                        assert(spec_where_extracted(prefix1) =~= spec_where_extracted(
                            prefix,
                        ).push(spec_free_from_where(spred)));
                    }
                },
                WherePredicate::Verbatim { .. } => {
                    proof {
                        assert(false);
                    }
                },
            }
        } else {
            let copy = trait_.predicates[k].duplicate();
            retained.push(copy);
            proof {
                assert(retained.deep_view() =~= spec_where_retained(prefix1));
                assert(spec_where_extracted(prefix1) =~= spec_where_extracted(prefix));
                assert(diags.deep_view() =~= params_done_diags + spec_where_diags(prefix1, dbg));
            }
        }
        k += 1;
    }
    proof {
        assert(d0.predicates.take(n_preds as int) =~= d0.predicates);
    }

    let ghost where_done_diags = diags.deep_view();
    if args.allow_none.is_none() && !found {
        diags.push(compile_warning(SpanRange::full(), NOTHING_TO_DO_MSG));
        proof {
            assert(diags.deep_view() =~= where_done_diags.push(spec_nothing_to_do_warning()));
        }
    }
    proof {
        assert(where_done_diags == (diags0 + spec_params_diags(d0.params, dbg))
            + spec_where_diags(d0.predicates, dbg));
        assert(found == spec_any_extracted(d0));
        assert(diags.deep_view() =~= diags0 + spec_extract_diags(d0, args.deep_view()));
    }

    trait_.params = new_params;
    trait_.predicates = retained;
    proof {
        assert(trait_.deep_view().params =~= spec_params_after(d0.params));
        assert(trait_.deep_view() == spec_decl_after_extraction(d0));
    }
    ret
}

} // verus!
