//! The laws of the transformation, stated and proved.
//!
//! The central one is soundness: a type satisfies the rewritten declaration
//! exactly when it satisfies the original. To state it, this module gives a
//! declaration a *semantics*: the set of constraint atoms it imposes, where
//! an atom is a (quantifier list, subject, bound) triple with all spans
//! erased — positions never change what a declaration means. An entailed
//! wrapper `Self: krate::ImpliedPredicate<subject, Impls: bounds>` imposes,
//! by construction of the helper trait (see [`crate::helper_trait`]),
//! exactly the atoms of `subject: bounds` — under any wrapper path — and
//! that equation is the one place where the encoding's meaning enters;
//! everything else is proved.
//!
//! The other laws: the transformation is a no-op (and says so) on an
//! already-rewritten declaration; a `Self:` predicate is never extracted,
//! never duplicated, and survives unchanged behind the new wrappers; a
//! readability duplicate appears exactly for the extracted predicates that
//! are not higher-ranked; and every new wrapper precedes every retained
//! original predicate.

use vstd::prelude::*;

use crate::args::SpecArgs;
use crate::ast::{
    SpecBound, SpecGenericParam, SpecPredicate, SpecTraitDecl, SpecTypeExpr, SpecWherePredicate,
};
use crate::diag::SpecDiagnostic;
use crate::extract::{
    spec_any_extracted, spec_as_predicate, spec_as_type_param, spec_bounds_higher_ranked,
    spec_extract_diags, spec_free_from_param, spec_free_from_where,
    spec_nothing_to_do_warning, spec_param_after, spec_param_extractable, spec_param_subject,
    spec_params_after, spec_params_diags, spec_params_extracted, spec_pred_higher_ranked,
    spec_where_diags, spec_where_extractable, spec_where_extracted, spec_where_retained,
    SpecFreeStandingPredicate,
};
use crate::pipeline::{spec_implied_bounds_impl, spec_wrappers};
use crate::span::Span;
use crate::transform::spec_transform;

verus! {

// ---------------------------------------------------------------------------
// Span erasure
// ---------------------------------------------------------------------------

/// The span every erased position becomes.
pub open spec fn erased_span() -> Span {
    Span::spec_mixed_site()
}

/// The type with its position erased.
pub open spec fn erase_type(t: SpecTypeExpr) -> SpecTypeExpr {
    match t {
        SpecTypeExpr::Path { qself, path, .. } => SpecTypeExpr::Path {
            qself,
            path,
            span: erased_span(),
        },
        SpecTypeExpr::Verbatim { tokens, .. } => SpecTypeExpr::Verbatim {
            tokens,
            span: erased_span(),
        },
    }
}

/// The bound with all positions erased, recursively.
pub open spec fn erase_bound(b: SpecBound) -> SpecBound
    decreases b, 0int,
{
    match b {
        SpecBound::Trait { quantifiers, maybe, path, .. } => SpecBound::Trait {
            quantifiers,
            maybe,
            path,
            span: erased_span(),
        },
        SpecBound::Lifetime { name, .. } => SpecBound::Lifetime { name, span: erased_span() },
        SpecBound::Verbatim { tokens, .. } => SpecBound::Verbatim {
            tokens,
            span: erased_span(),
        },
        SpecBound::Implied { krate, subject, bounds, .. } => SpecBound::Implied {
            krate,
            subject: erase_type(subject),
            bounds: erase_bounds(bounds),
            span: erased_span(),
            close_span: erased_span(),
        },
    }
}

/// Each bound of the sequence with all positions erased.
pub open spec fn erase_bounds(s: Seq<SpecBound>) -> Seq<SpecBound>
    decreases s, 1int,
{
    if s.len() == 0 {
        Seq::empty()
    } else {
        seq![erase_bound(s[0])] + erase_bounds(s.subrange(1, s.len() as int))
    }
}

// ---------------------------------------------------------------------------
// Constraint atoms
// ---------------------------------------------------------------------------

/// One constraint a declaration imposes, up to source positions.
pub enum SpecAtom {
    /// `for<quantifiers> subject: bound`, spans erased.
    Bound { quantifiers: Seq<Seq<char>>, subject: SpecTypeExpr, bound: SpecBound },
    /// A predicate of another kind, carried verbatim.
    Opaque { tokens: Seq<char> },
}

/// The atoms one bound imposes on an (already erased) subject under a
/// quantifier list.
///
/// An `Implied` wrapper bound imposes — whatever path its helper trait is
/// named by — exactly the atoms of its carried subject and bounds: the
/// wrapper itself holds for every type, and its well-formedness condition
/// is that the carried subject satisfy the carried bounds. This equation is
/// the semantics of the encoding; see [`crate::helper_trait`].
pub open spec fn bound_atoms(
    quantifiers: Seq<Seq<char>>,
    subject: SpecTypeExpr,
    b: SpecBound,
) -> Set<SpecAtom>
    decreases b, 0int,
{
    match b {
        SpecBound::Implied { subject: inner_subject, bounds, .. } => bounds_atoms(
            quantifiers,
            erase_type(inner_subject),
            bounds,
        ),
        _ => set![SpecAtom::Bound { quantifiers, subject, bound: erase_bound(b) }],
    }
}

/// The atoms a bound list imposes.
pub open spec fn bounds_atoms(
    quantifiers: Seq<Seq<char>>,
    subject: SpecTypeExpr,
    s: Seq<SpecBound>,
) -> Set<SpecAtom>
    decreases s, 1int,
{
    if s.len() == 0 {
        Set::empty()
    } else {
        bound_atoms(quantifiers, subject, s[0]) + bounds_atoms(
            quantifiers,
            subject,
            s.subrange(1, s.len() as int),
        )
    }
}

/// The atoms one `subject: bounds` predicate imposes.
pub open spec fn pred_atoms(p: SpecPredicate) -> Set<SpecAtom> {
    bounds_atoms(p.quantifiers, erase_type(p.subject), p.bounds)
}

/// The atoms one `where` predicate imposes.
pub open spec fn where_pred_atoms(w: SpecWherePredicate) -> Set<SpecAtom> {
    match w {
        SpecWherePredicate::Type { pred } => pred_atoms(pred),
        SpecWherePredicate::Verbatim { tokens, .. } => set![SpecAtom::Opaque { tokens }],
    }
}

/// The atoms a whole `where` clause imposes.
pub open spec fn where_preds_atoms(ws: Seq<SpecWherePredicate>) -> Set<SpecAtom>
    decreases ws.len(),
{
    if ws.len() == 0 {
        Set::empty()
    } else {
        where_preds_atoms(ws.drop_last()) + where_pred_atoms(ws.last())
    }
}

/// The atoms one generic parameter imposes: a type parameter's inline
/// bounds constrain the parameter itself, under no quantifier; a verbatim
/// (lifetime or const) parameter is carried as it stands.
pub open spec fn param_atoms(p: SpecGenericParam) -> Set<SpecAtom> {
    match p {
        SpecGenericParam::Type { param } => bounds_atoms(
            Seq::empty(),
            erase_type(spec_param_subject(param)),
            param.bounds,
        ),
        SpecGenericParam::Verbatim { tokens, .. } => set![SpecAtom::Opaque { tokens }],
    }
}

/// The atoms a whole parameter list imposes.
pub open spec fn params_atoms(ps: Seq<SpecGenericParam>) -> Set<SpecAtom>
    decreases ps.len(),
{
    if ps.len() == 0 {
        Set::empty()
    } else {
        params_atoms(ps.drop_last()) + param_atoms(ps.last())
    }
}

/// Everything a declaration imposes on its implementors, up to source
/// positions. Supertraits and the body's items pass through every run
/// untouched, so they are not part of the comparison.
pub open spec fn decl_atoms(d: SpecTraitDecl) -> Set<SpecAtom> {
    params_atoms(d.params) + where_preds_atoms(d.predicates)
}

/// The atoms a list of extracted predicates imposes.
pub open spec fn extracted_atoms(s: Seq<SpecFreeStandingPredicate>) -> Set<SpecAtom>
    decreases s.len(),
{
    if s.len() == 0 {
        Set::empty()
    } else {
        extracted_atoms(s.drop_last()) + pred_atoms(s.last().pred)
    }
}

// ---------------------------------------------------------------------------
// Soundness, piece by piece
// ---------------------------------------------------------------------------

/// Rewriting one predicate preserves its atoms: the entailed wrapper
/// imposes exactly what `subject: bounds` imposed.
pub proof fn lemma_transform_atoms(p: SpecPredicate, krate: Option<crate::ast::SpecPath>)
    ensures
        pred_atoms(spec_transform(p, krate)) == pred_atoms(p),
{
    let t = spec_transform(p, krate);
    let subj = erase_type(t.subject);
    assert(t.bounds.len() == 1);
    assert(bounds_atoms(t.quantifiers, subj, t.bounds.subrange(1, 1)) =~= Set::<
        SpecAtom,
    >::empty()) by {
        assert(t.bounds.subrange(1, 1).len() == 0);
    }
    assert(pred_atoms(t) =~= bound_atoms(t.quantifiers, subj, t.bounds[0]));
    assert(bound_atoms(t.quantifiers, subj, t.bounds[0]) == bounds_atoms(
        p.quantifiers,
        erase_type(p.subject),
        p.bounds,
    ));
    assert(pred_atoms(t) =~= pred_atoms(p));
}

/// The atoms of a concatenation of `where` predicates.
pub proof fn lemma_where_preds_atoms_concat(a: Seq<SpecWherePredicate>, b: Seq<SpecWherePredicate>)
    ensures
        where_preds_atoms(a + b) == where_preds_atoms(a) + where_preds_atoms(b),
    decreases b.len(),
{
    if b.len() == 0 {
        assert(a + b =~= a);
        assert(where_preds_atoms(a) + where_preds_atoms(b) =~= where_preds_atoms(a));
    } else {
        lemma_where_preds_atoms_concat(a, b.drop_last());
        assert((a + b).drop_last() =~= a + b.drop_last());
        assert((a + b).last() == b.last());
        assert(where_preds_atoms(a) + where_preds_atoms(b) =~= (where_preds_atoms(a)
            + where_preds_atoms(b.drop_last())) + where_pred_atoms(b.last()));
    }
}

/// The atoms of the rewritten predicates are the atoms of what was
/// extracted, under any wrapper path.
pub proof fn lemma_wrappers_atoms(
    extracted: Seq<SpecFreeStandingPredicate>,
    krate: Option<crate::ast::SpecPath>,
)
    ensures
        where_preds_atoms(spec_wrappers(extracted, krate)) == extracted_atoms(extracted),
    decreases extracted.len(),
{
    if extracted.len() == 0 {
        assert(spec_wrappers(extracted, krate).len() == 0);
    } else {
        lemma_wrappers_atoms(extracted.drop_last(), krate);
        assert(spec_wrappers(extracted, krate).drop_last() =~= spec_wrappers(
            extracted.drop_last(),
            krate,
        ));
        assert(spec_wrappers(extracted, krate).last() == SpecWherePredicate::Type {
            pred: spec_transform(extracted.last().pred, krate),
        });
        lemma_transform_atoms(extracted.last().pred, krate);
        assert(where_preds_atoms(spec_wrappers(extracted, krate)) == extracted_atoms(extracted));
    }
}

/// The atoms of a concatenation of extracted predicates.
pub proof fn lemma_extracted_atoms_concat(
    a: Seq<SpecFreeStandingPredicate>,
    b: Seq<SpecFreeStandingPredicate>,
)
    ensures
        extracted_atoms(a + b) == extracted_atoms(a) + extracted_atoms(b),
    decreases b.len(),
{
    if b.len() == 0 {
        assert(a + b =~= a);
        assert(extracted_atoms(a) + extracted_atoms(b) =~= extracted_atoms(a));
    } else {
        lemma_extracted_atoms_concat(a, b.drop_last());
        assert((a + b).drop_last() =~= a + b.drop_last());
        assert((a + b).last() == b.last());
        assert(extracted_atoms(a) + extracted_atoms(b) =~= (extracted_atoms(a) + extracted_atoms(
            b.drop_last(),
        )) + pred_atoms(b.last().pred));
    }
}

/// The atoms of a one-element extracted list.
pub proof fn lemma_extracted_atoms_singleton(f: SpecFreeStandingPredicate)
    ensures
        extracted_atoms(seq![f]) == pred_atoms(f.pred),
{
    let s = seq![f];
    assert(s.drop_last() =~= Seq::<SpecFreeStandingPredicate>::empty());
    assert(extracted_atoms(Seq::<SpecFreeStandingPredicate>::empty()) =~= Set::<
        SpecAtom,
    >::empty());
    assert(s.last() == f);
    assert(extracted_atoms(s) =~= pred_atoms(f.pred));
}

/// The atoms of a one-element `where` clause.
pub proof fn lemma_where_preds_atoms_singleton(w: SpecWherePredicate)
    ensures
        where_preds_atoms(seq![w]) == where_pred_atoms(w),
{
    let s = seq![w];
    assert(s.drop_last() =~= Seq::<SpecWherePredicate>::empty());
    assert(where_preds_atoms(Seq::<SpecWherePredicate>::empty()) =~= Set::<SpecAtom>::empty());
    assert(s.last() == w);
    assert(where_preds_atoms(s) =~= where_pred_atoms(w));
}

/// Extracting from the parameter list loses nothing and adds nothing: the
/// atoms of the stripped parameters plus those of the extracted predicates
/// are the atoms of the original parameters.
pub proof fn lemma_params_sound(ps: Seq<SpecGenericParam>)
    ensures
        params_atoms(spec_params_after(ps)) + extracted_atoms(spec_params_extracted(ps))
            == params_atoms(ps),
    decreases ps.len(),
{
    let after = spec_params_after(ps);
    let ex = spec_params_extracted(ps);
    if ps.len() == 0 {
        assert(after.len() == 0);
        assert(params_atoms(after) + extracted_atoms(ex) =~= params_atoms(ps));
    } else {
        lemma_params_sound(ps.drop_last());
        let p = ps.last();
        assert(after.drop_last() =~= spec_params_after(ps.drop_last()));
        assert(after.last() == spec_param_after(p));
        if spec_param_extractable(p) {
            let param = spec_as_type_param(p);
            let free = spec_free_from_param(param);
            assert(ex == spec_params_extracted(ps.drop_last()) + seq![free]);
            lemma_extracted_atoms_concat(spec_params_extracted(ps.drop_last()), seq![free]);
            lemma_extracted_atoms_singleton(free);
            assert(pred_atoms(free.pred) == param_atoms(p));
            if spec_bounds_higher_ranked(param.bounds) {
                assert(param_atoms(spec_param_after(p)) =~= Set::<SpecAtom>::empty()) by {
                    assert(spec_param_after(p)->Type_param.bounds.len() == 0);
                }
            } else {
                assert(spec_param_after(p) == p);
            }
            assert(params_atoms(after) + extracted_atoms(ex) =~= params_atoms(ps));
        } else {
            assert(spec_param_after(p) == p);
            assert(ex =~= spec_params_extracted(ps.drop_last()));
            assert(params_atoms(after) + extracted_atoms(ex) =~= params_atoms(ps));
        }
    }
}

/// Extracting from the `where` clause loses nothing and adds nothing: the
/// atoms of the extracted predicates plus those of the retained entries are
/// the atoms of the original clause.
pub proof fn lemma_where_sound(ws: Seq<SpecWherePredicate>)
    ensures
        extracted_atoms(spec_where_extracted(ws)) + where_preds_atoms(spec_where_retained(ws))
            == where_preds_atoms(ws),
    decreases ws.len(),
{
    let ex = spec_where_extracted(ws);
    let ret = spec_where_retained(ws);
    if ws.len() == 0 {
        assert(extracted_atoms(ex) + where_preds_atoms(ret) =~= where_preds_atoms(ws));
    } else {
        lemma_where_sound(ws.drop_last());
        let w = ws.last();
        let ex_rest = spec_where_extracted(ws.drop_last());
        let ret_rest = spec_where_retained(ws.drop_last());
        if spec_where_extractable(w) {
            let pred = spec_as_predicate(w);
            let free = spec_free_from_where(pred);
            assert(ex == ex_rest + seq![free]);
            lemma_extracted_atoms_concat(ex_rest, seq![free]);
            lemma_extracted_atoms_singleton(free);
            assert(where_pred_atoms(w) == pred_atoms(pred));
            if spec_pred_higher_ranked(pred) {
                assert(ret == ret_rest);
                assert(extracted_atoms(ex) + where_preds_atoms(ret) =~= where_preds_atoms(ws));
            } else {
                assert(ret == ret_rest + seq![w]);
                lemma_where_preds_atoms_concat(ret_rest, seq![w]);
                lemma_where_preds_atoms_singleton(w);
                assert(extracted_atoms(ex) + where_preds_atoms(ret) =~= where_preds_atoms(ws));
            }
        } else {
            assert(ex == ex_rest);
            assert(ret == ret_rest + seq![w]);
            lemma_where_preds_atoms_concat(ret_rest, seq![w]);
            lemma_where_preds_atoms_singleton(w);
            assert(extracted_atoms(ex) + where_preds_atoms(ret) =~= where_preds_atoms(ws));
        }
    }
}

/// **Soundness.** A type satisfies the rewritten declaration exactly when
/// it satisfies the original: whenever the transformation succeeds, the
/// output declaration imposes, up to source positions, exactly the
/// constraint atoms of the input declaration — whatever the declaration,
/// the configuration, and the wrapper path.
pub proof fn lemma_soundness(
    d: SpecTraitDecl,
    args: SpecArgs,
    out: SpecTraitDecl,
    warnings: Seq<SpecDiagnostic>,
)
    requires
        spec_implied_bounds_impl(d, args) == Ok::<_, Seq<SpecDiagnostic>>((out, warnings)),
    ensures
        decl_atoms(out) == decl_atoms(d),
{
    let params_ex = spec_params_extracted(d.params);
    let where_ex = spec_where_extracted(d.predicates);
    let ex = params_ex + where_ex;
    let wrappers = spec_wrappers(ex, args.krate);
    let retained = spec_where_retained(d.predicates);
    assert(out.params == spec_params_after(d.params));
    assert(out.predicates == wrappers + retained);
    lemma_where_preds_atoms_concat(wrappers, retained);
    lemma_wrappers_atoms(ex, args.krate);
    lemma_extracted_atoms_concat(params_ex, where_ex);
    lemma_params_sound(d.params);
    lemma_where_sound(d.predicates);
    assert(decl_atoms(out) =~= decl_atoms(d));
}

// ---------------------------------------------------------------------------
// No-op detection
// ---------------------------------------------------------------------------

/// Nothing is extracted from parameters that carry no inline bounds, their
/// list survives unchanged, and they contribute no diagnostics.
pub proof fn lemma_params_noop(ps: Seq<SpecGenericParam>, debug: bool)
    requires
        forall|i: int| 0 <= i < ps.len() ==> !spec_param_extractable(#[trigger] ps[i]),
    ensures
        spec_params_extracted(ps) == Seq::<SpecFreeStandingPredicate>::empty(),
        spec_params_after(ps) == ps,
        spec_params_diags(ps, debug) == Seq::<SpecDiagnostic>::empty(),
    decreases ps.len(),
{
    if ps.len() == 0 {
        assert(spec_params_after(ps) =~= ps);
    } else {
        assert(forall|i: int|
            0 <= i < ps.drop_last().len() ==> !spec_param_extractable(
                #[trigger] ps.drop_last()[i],
            ));
        lemma_params_noop(ps.drop_last(), debug);
        assert(!spec_param_extractable(ps.last()));
        assert(spec_params_extracted(ps) =~= Seq::<SpecFreeStandingPredicate>::empty());
        assert(spec_params_diags(ps, debug) =~= Seq::<SpecDiagnostic>::empty());
        assert(spec_params_after(ps) =~= ps);
    }
}

/// Nothing is extracted from a `where` clause with no extractable entry,
/// the clause survives unchanged, and it contributes no diagnostics.
pub proof fn lemma_wheres_noop(ws: Seq<SpecWherePredicate>, debug: bool)
    requires
        forall|i: int| 0 <= i < ws.len() ==> !spec_where_extractable(#[trigger] ws[i]),
    ensures
        spec_where_extracted(ws) == Seq::<SpecFreeStandingPredicate>::empty(),
        spec_where_retained(ws) == ws,
        spec_where_diags(ws, debug) == Seq::<SpecDiagnostic>::empty(),
    decreases ws.len(),
{
    if ws.len() == 0 {
        assert(spec_where_retained(ws) =~= ws);
    } else {
        assert(forall|i: int|
            0 <= i < ws.drop_last().len() ==> !spec_where_extractable(
                #[trigger] ws.drop_last()[i],
            ));
        lemma_wheres_noop(ws.drop_last(), debug);
        assert(!spec_where_extractable(ws.last()));
        assert(spec_where_extracted(ws) =~= Seq::<SpecFreeStandingPredicate>::empty());
        assert(spec_where_diags(ws, debug) =~= Seq::<SpecDiagnostic>::empty());
        assert(spec_where_retained(ws) =~= ws.drop_last().push(ws.last()));
        assert(ws.drop_last().push(ws.last()) =~= ws);
    }
}

/// **Idempotence under no-op detection.** On an already-rewritten
/// declaration — no parameter carries inline bounds, and every `where`
/// predicate with bounds has `Self` as its subject — the transformation
/// extracts nothing and returns the declaration unchanged; absent
/// `allow_none`, its one diagnostic is the warning that recommends
/// skipping the transformation, and with `allow_none` it is perfectly
/// silent.
pub proof fn lemma_idempotence(d: SpecTraitDecl, args: SpecArgs)
    requires
        forall|i: int|
            0 <= i < d.params.len() ==> ((#[trigger] d.params[i]) matches
            SpecGenericParam::Type { param } ==> param.bounds.len() == 0),
        forall|i: int|
            0 <= i < d.predicates.len() ==> ((#[trigger] d.predicates[i]) matches
            SpecWherePredicate::Type { pred } ==> (pred.bounds.len() > 0
                ==> pred.subject.is_self())),
    ensures
        spec_params_extracted(d.params) + spec_where_extracted(d.predicates) == Seq::<
            SpecFreeStandingPredicate,
        >::empty(),
        spec_implied_bounds_impl(d, args) == Ok::<_, Seq<SpecDiagnostic>>(
            (
                d,
                if args.allow_none is None {
                    seq![spec_nothing_to_do_warning()]
                } else {
                    Seq::<SpecDiagnostic>::empty()
                },
            ),
        ),
{
    assert(forall|i: int| 0 <= i < d.params.len() ==> !spec_param_extractable(
        #[trigger] d.params[i],
    ));
    assert(forall|i: int| 0 <= i < d.predicates.len() ==> !spec_where_extractable(
        #[trigger] d.predicates[i],
    ));
    let dbg = args.debug is Some;
    lemma_params_noop(d.params, dbg);
    lemma_wheres_noop(d.predicates, dbg);
    let diags = spec_extract_diags(d, args);
    assert(!spec_any_extracted(d));
    if args.allow_none is None {
        assert(diags =~= seq![spec_nothing_to_do_warning()]);
        assert(!crate::diag::spec_has_errors(diags)) by {
            assert(forall|i: int|
                0 <= i < diags.len() ==> (#[trigger] diags[i]).severity
                    == crate::diag::Severity::Warning);
        }
    } else {
        assert(diags =~= Seq::<SpecDiagnostic>::empty());
    }
    assert(spec_params_extracted(d.params) + spec_where_extracted(d.predicates) =~= Seq::<
        SpecFreeStandingPredicate,
    >::empty());
    let out = spec_implied_bounds_impl(d, args)->Ok_0.0;
    assert(spec_wrappers(Seq::empty(), args.krate) =~= Seq::<SpecWherePredicate>::empty());
    assert(out.predicates =~= d.predicates);
    assert(out == d);
}

// ---------------------------------------------------------------------------
// Self-exclusion
// ---------------------------------------------------------------------------

/// Whether a `where` predicate is a typed predicate whose subject is
/// literally `Self`.
pub open spec fn is_self_typed(w: SpecWherePredicate) -> bool {
    match w {
        SpecWherePredicate::Type { pred } => pred.subject.is_self(),
        SpecWherePredicate::Verbatim { .. } => false,
    }
}

/// No extracted predicate has `Self` as its subject.
pub proof fn lemma_extracted_never_self(ws: Seq<SpecWherePredicate>)
    ensures
        forall|k: int|
            0 <= k < spec_where_extracted(ws).len() ==> !(#[trigger] spec_where_extracted(
                ws,
            )[k]).pred.subject.is_self(),
    decreases ws.len(),
{
    if ws.len() > 0 {
        lemma_extracted_never_self(ws.drop_last());
    }
}

/// The retained entries keep exactly the `Self`-subject predicates of the
/// original clause: the same ones, unchanged, in the same order, with no
/// duplicate added.
pub proof fn lemma_retained_preserves_self(ws: Seq<SpecWherePredicate>)
    ensures
        spec_where_retained(ws).filter(|w: SpecWherePredicate| is_self_typed(w)) == ws.filter(
            |w: SpecWherePredicate| is_self_typed(w),
        ),
    decreases ws.len(),
{
    let p = |w: SpecWherePredicate| is_self_typed(w);
    reveal_with_fuel(Seq::filter, 2);
    if ws.len() == 0 {
        assert(spec_where_retained(ws) =~= ws);
    } else {
        lemma_retained_preserves_self(ws.drop_last());
        let w = ws.last();
        let ret_rest = spec_where_retained(ws.drop_last());
        assert(ws.drop_last().push(w) =~= ws);
        if !spec_where_extractable(w) || !spec_pred_higher_ranked(spec_as_predicate(w)) {
            assert(spec_where_retained(ws) =~= ret_rest.push(w));
            assert(ret_rest.push(w).drop_last() =~= ret_rest);
            assert(ret_rest.push(w).last() == w);
            assert(ret_rest.push(w).filter(p) == if p(w) {
                ret_rest.filter(p).push(w)
            } else {
                ret_rest.filter(p)
            });
            assert(ws.filter(p) == if p(w) {
                ws.drop_last().filter(p).push(w)
            } else {
                ws.drop_last().filter(p)
            });
        } else {
            assert(spec_where_retained(ws) =~= ret_rest);
            assert(!p(w));
            assert(ws.filter(p) == ws.drop_last().filter(p));
        }
    }
}

/// Every `Self`-subject predicate of the clause stands, unchanged, in the
/// retained entries.
pub proof fn lemma_retained_contains_self(ws: Seq<SpecWherePredicate>)
    ensures
        forall|i: int|
            0 <= i < ws.len() && is_self_typed(#[trigger] ws[i]) ==> exists|j: int|
                0 <= j < spec_where_retained(ws).len() && spec_where_retained(ws)[j] == ws[i],
    decreases ws.len(),
{
    if ws.len() > 0 {
        lemma_retained_contains_self(ws.drop_last());
        let ret = spec_where_retained(ws);
        let ret_rest = spec_where_retained(ws.drop_last());
        assert forall|i: int| 0 <= i < ws.len() && is_self_typed(#[trigger] ws[i]) implies exists|
            j: int,
        | 0 <= j < ret.len() && ret[j] == ws[i] by {
            if i < ws.len() - 1 {
                assert(ws.drop_last()[i] == ws[i]);
                let j = choose|j: int| 0 <= j < ret_rest.len() && ret_rest[j] == ws[i];
                assert(ret[j] == ws[i]);
            } else {
                assert(!spec_where_extractable(ws.last()));
                assert(ret =~= ret_rest.push(ws.last()));
                assert(ret[ret.len() - 1] == ws[i]);
            }
        }
    }
}

/// **Self-exclusion.** A `where` predicate whose subject is syntactically
/// `Self` is never extracted; the output's clause holds it unchanged, with
/// no duplicate added, behind the new wrapper predicates.
pub proof fn lemma_self_exclusion(
    d: SpecTraitDecl,
    args: SpecArgs,
    out: SpecTraitDecl,
    warnings: Seq<SpecDiagnostic>,
)
    requires
        spec_implied_bounds_impl(d, args) == Ok::<_, Seq<SpecDiagnostic>>((out, warnings)),
    ensures
        forall|k: int|
            0 <= k < spec_where_extracted(d.predicates).len() ==> !(
            #[trigger] spec_where_extracted(d.predicates)[k]).pred.subject.is_self(),
        spec_where_retained(d.predicates).filter(|w: SpecWherePredicate| is_self_typed(w))
            == d.predicates.filter(|w: SpecWherePredicate| is_self_typed(w)),
        forall|i: int|
            0 <= i < d.predicates.len() && is_self_typed(#[trigger] d.predicates[i])
                ==> exists|j: int|
                spec_wrappers(
                    spec_params_extracted(d.params) + spec_where_extracted(d.predicates),
                    args.krate,
                ).len() <= j < out.predicates.len() && out.predicates[j] == d.predicates[i],
{
    lemma_extracted_never_self(d.predicates);
    lemma_retained_preserves_self(d.predicates);
    lemma_retained_contains_self(d.predicates);
    let wrappers = spec_wrappers(
        spec_params_extracted(d.params) + spec_where_extracted(d.predicates),
        args.krate,
    );
    let retained = spec_where_retained(d.predicates);
    assert(out.predicates == wrappers + retained);
    assert forall|i: int|
        0 <= i < d.predicates.len() && is_self_typed(#[trigger] d.predicates[i]) implies exists|
        j: int,
    | wrappers.len() <= j < out.predicates.len() && out.predicates[j] == d.predicates[i] by {
        let j0 = choose|j0: int| 0 <= j0 < retained.len() && retained[j0] == d.predicates[i];
        assert(out.predicates[wrappers.len() + j0] == d.predicates[i]);
    }
}

// ---------------------------------------------------------------------------
// Duplication safety and ordering
// ---------------------------------------------------------------------------

/// Whether a `where` predicate survives at its original site: it was not
/// extracted, or it was extracted but is safe to repeat.
pub open spec fn spec_where_kept(w: SpecWherePredicate) -> bool {
    !spec_where_extractable(w) || !spec_pred_higher_ranked(spec_as_predicate(w))
}

/// The retained entries are exactly the kept originals, verbatim and in
/// order.
pub proof fn lemma_retained_is_filter(ws: Seq<SpecWherePredicate>)
    ensures
        spec_where_retained(ws) == ws.filter(|w: SpecWherePredicate| spec_where_kept(w)),
    decreases ws.len(),
{
    let p = |w: SpecWherePredicate| spec_where_kept(w);
    reveal_with_fuel(Seq::filter, 2);
    if ws.len() == 0 {
        assert(spec_where_retained(ws) =~= ws.filter(p));
    } else {
        lemma_retained_is_filter(ws.drop_last());
        let w = ws.last();
        assert(ws.drop_last().push(w) =~= ws);
        assert(ws.filter(p) == if p(w) {
            ws.drop_last().filter(p).push(w)
        } else {
            ws.drop_last().filter(p)
        });
        if p(w) {
            assert(spec_where_retained(ws) =~= spec_where_retained(ws.drop_last()).push(w));
        } else {
            assert(spec_where_retained(ws) =~= spec_where_retained(ws.drop_last()));
        }
    }
}

/// **Duplication safety.** In the output: a parameter whose extracted
/// bounds were not higher-ranked keeps a verbatim copy of them; one whose
/// bounds were higher-ranked is left bare. The `where` clause behind the
/// wrappers is exactly the original clause filtered to the entries that
/// were not extracted or were safe to repeat — so a higher-ranked extracted
/// predicate leaves no duplicate anywhere.
pub proof fn lemma_duplication_safety(
    d: SpecTraitDecl,
    args: SpecArgs,
    out: SpecTraitDecl,
    warnings: Seq<SpecDiagnostic>,
)
    requires
        spec_implied_bounds_impl(d, args) == Ok::<_, Seq<SpecDiagnostic>>((out, warnings)),
    ensures
        out.params.len() == d.params.len(),
        forall|i: int|
            0 <= i < d.params.len() ==> ((#[trigger] d.params[i]) matches
            SpecGenericParam::Type { param } ==> (param.bounds.len() > 0 ==> out.params[i] == (
            if spec_bounds_higher_ranked(param.bounds) {
                SpecGenericParam::Type {
                    param: crate::ast::SpecTypeParam { bounds: Seq::empty(), ..param },
                }
            } else {
                d.params[i]
            }))),
        out.predicates == spec_wrappers(
            spec_params_extracted(d.params) + spec_where_extracted(d.predicates),
            args.krate,
        ) + d.predicates.filter(|w: SpecWherePredicate| spec_where_kept(w)),
{
    lemma_retained_is_filter(d.predicates);
    assert(out.params == spec_params_after(d.params));
}

/// **Ordering.** Every rewritten (entailed) predicate precedes every
/// retained original entry in the output's `where` clause: position `j`
/// holds the rewriting of the `j`-th extracted predicate for `j` below the
/// number of extractions, and the retained originals follow in order.
pub proof fn lemma_ordering(
    d: SpecTraitDecl,
    args: SpecArgs,
    out: SpecTraitDecl,
    warnings: Seq<SpecDiagnostic>,
)
    requires
        spec_implied_bounds_impl(d, args) == Ok::<_, Seq<SpecDiagnostic>>((out, warnings)),
    ensures
        ({
            let extracted = spec_params_extracted(d.params) + spec_where_extracted(d.predicates);
            let retained = spec_where_retained(d.predicates);
            &&& out.predicates.len() == extracted.len() + retained.len()
            &&& forall|j: int|
                0 <= j < extracted.len() ==> out.predicates[j] == (SpecWherePredicate::Type {
                    pred: spec_transform((#[trigger] extracted[j]).pred, args.krate),
                })
            &&& forall|j: int|
                extracted.len() <= j < out.predicates.len() ==> out.predicates[j] == retained[
                    j - extracted.len()
                ]
        }),
{
    let extracted = spec_params_extracted(d.params) + spec_where_extracted(d.predicates);
    let retained = spec_where_retained(d.predicates);
    assert(out.predicates == spec_wrappers(extracted, args.krate) + retained);
    assert(spec_wrappers(extracted, args.krate).len() == extracted.len());
}

} // verus!
