//! The whole transformation, end to end.
//!
//! [`implied_bounds_impl`] runs extraction and rewriting on an
//! already-parsed declaration under an already-parsed configuration;
//! [`implied_bounds`] is the outermost entry: it takes what the host
//! front-end produced — a tokenized argument list and a declaration, either
//! of which may already be a parse error — and yields either the rewritten
//! declaration with its warnings, or one aggregated error report.
//!
//! Failure semantics: any hard error anywhere aborts the whole
//! transformation and no partial output is produced; all errors of the
//! failing stage are reported together, each message uniformly prefixed
//! with the annotation's name; warnings never abort and ride along with
//! successful output.

use vstd::prelude::*;

use vstd::string::StringExecFns;

use crate::args::{spec_args_parse, ArgItem, Args, Crate, SpecArgItem, SpecArgs};
use crate::ast::{SpecTraitDecl, SpecWherePredicate, TraitDecl, WherePredicate};
use crate::diag::{
    spec_errors_of, spec_has_errors, Diagnostic, Severity, SpecDiagnostic,
};
use crate::extract::{
    extract_non_implied_predicates, lemma_params_extracted_props, lemma_where_extracted_props,
    spec_decl_after_extraction, spec_extract_diags, spec_params_extracted, spec_where_extracted,
    spec_where_retained, FreeStandingPredicate, SpecFreeStandingPredicate,
};
use crate::transform::{spec_transform, transform_into_equivalent_implied_predicate};

verus! {

/// The prefix every error message of a failed run carries.
pub const ERROR_PREFIX: &'static str = "`#[::implied_bounds::implied_bounds]`: ";

/// A diagnostic with its message prefixed by the annotation's name.
pub open spec fn spec_prefixed(d: SpecDiagnostic) -> SpecDiagnostic {
    SpecDiagnostic { message: ERROR_PREFIX@ + d.message, ..d }
}

/// All diagnostics of the sequence, each with the prefixed message.
pub open spec fn spec_prefixed_all(s: Seq<SpecDiagnostic>) -> Seq<SpecDiagnostic> {
    Seq::new(s.len(), |i: int| spec_prefixed(s[i]))
}

/// Prefix every diagnostic of the list (see [`spec_prefixed_all`]).
pub fn prefix_all(v: &Vec<Diagnostic>) -> (r: Vec<Diagnostic>)
    ensures
        r.deep_view() == spec_prefixed_all(v.deep_view()),
{
    let mut r: Vec<Diagnostic> = Vec::new();
    let n = v.len();
    let mut i: usize = 0;
    while i < n
        invariant
            n == v.len(),
            0 <= i <= n,
            r@.len() == i,
            forall|j: int| 0 <= j < i ==> r@[j].deep_view() == spec_prefixed(v.deep_view()[j]),
        decreases n - i,
    {
        let mut message: String = ERROR_PREFIX.to_owned();
        message.append(v[i].message.as_str());
        r.push(Diagnostic {
            severity: v[i].severity,
            start: v[i].start,
            end: v[i].end,
            message,
        });
        i += 1;
    }
    proof {
        assert(r.deep_view() =~= spec_prefixed_all(v.deep_view()));
    }
    r
}

/// The rewritten predicates, in extraction order, as `where` predicates.
pub open spec fn spec_wrappers(
    extracted: Seq<SpecFreeStandingPredicate>,
    krate: Option<crate::ast::SpecPath>,
) -> Seq<SpecWherePredicate> {
    Seq::new(
        extracted.len(),
        |i: int| SpecWherePredicate::Type { pred: spec_transform(extracted[i].pred, krate) },
    )
}

/// What [`implied_bounds_impl`] yields for a declaration under a parsed
/// configuration.
///
/// When extraction reports any hard error, the run fails with exactly the
/// errors (the warnings are dropped along with the output). Otherwise the
/// output declaration keeps its name, supertraits and items; its parameters
/// are the parameters after extraction; and its `where` clause is the
/// rewritten (entailed) predicates — *prepended*, which empirically
/// surfaces their failures ahead of pre-existing ones in compiler output —
/// followed by the retained original predicates; the collected warnings
/// ride along.
pub open spec fn spec_implied_bounds_impl(d: SpecTraitDecl, args: SpecArgs) -> Result<
    (SpecTraitDecl, Seq<SpecDiagnostic>),
    Seq<SpecDiagnostic>,
> {
    let extracted = spec_params_extracted(d.params) + spec_where_extracted(d.predicates);
    let diags = spec_extract_diags(d, args);
    if spec_has_errors(diags) {
        Err(spec_errors_of(diags))
    } else {
        Ok(
            (
                SpecTraitDecl {
                    predicates: spec_wrappers(extracted, args.krate) + spec_where_retained(
                        d.predicates,
                    ),
                    ..spec_decl_after_extraction(d)
                },
                diags,
            ),
        )
    }
}

/// Run the transformation on an already-parsed declaration
/// (see [`spec_implied_bounds_impl`]).
pub fn implied_bounds_impl(trait_: TraitDecl, args: Args) -> (r: Result<
    (TraitDecl, Vec<Diagnostic>),
    Vec<Diagnostic>,
>)
    requires
        trait_.deep_view().wf(),
    ensures
        match r {
            Ok((out, warnings)) => spec_implied_bounds_impl(trait_.deep_view(), args.deep_view())
                == Ok::<_, Seq<SpecDiagnostic>>((out.deep_view(), warnings.deep_view())),
            Err(errors) => spec_implied_bounds_impl(trait_.deep_view(), args.deep_view()) == Err::<
                (SpecTraitDecl, Seq<SpecDiagnostic>),
                _,
            >(errors.deep_view()),
        },
{
    let ghost d0 = trait_.deep_view();
    let ghost args0 = args.deep_view();
    let mut trait_ = trait_;
    let Args { debug, allow_none, krate } = args;
    let krate_ctx = Crate::init(krate);
    let remaining_args = Args { debug, allow_none, krate: None };
    proof {
        assert(spec_extract_diags(d0, remaining_args.deep_view()) == spec_extract_diags(
            d0,
            args0,
        ));
    }

    let mut diags: Vec<Diagnostic> = Vec::new();
    let extracted = extract_non_implied_predicates(&mut trait_, &remaining_args, &mut diags);
    let ghost extracted_v = spec_params_extracted(d0.params) + spec_where_extracted(d0.predicates);

    if crate::diag::has_errors(&diags) {
        let errors = errors_only(&diags);
        return Err(errors);
    }

    proof {
        lemma_params_extracted_props(d0.params);
        lemma_where_extracted_props(d0.predicates);
    }
    let mut rewritten: Vec<WherePredicate> = Vec::new();
    let n = extracted.len();
    let mut i: usize = 0;
    while i < n
        invariant
            n == extracted.len(),
            0 <= i <= n,
            extracted.deep_view() == extracted_v,
            krate_ctx.krate.deep_view() == args0.krate,
            forall|k: int|
                0 <= k < extracted_v.len() ==> (#[trigger] extracted_v[k]).pred.bounds.len() > 0,
            rewritten@.len() == i,
            forall|j: int|
                0 <= j < i ==> rewritten@[j].deep_view() == spec_wrappers(
                    extracted_v,
                    args0.krate,
                )[j],
        decreases n - i,
    {
        proof {
            assert(extracted@[i as int].deep_view() == extracted_v[i as int]);
        }
        let pred = extracted[i].pred.duplicate();
        let new_pred = transform_into_equivalent_implied_predicate(pred, &krate_ctx);
        rewritten.push(WherePredicate::Type { pred: new_pred });
        i += 1;
    }

    let mut out_predicates = rewritten;
    let mut retained = trait_.predicates;
    proof {
        assert(retained.deep_view() == spec_where_retained(d0.predicates));
    }
    out_predicates.append(&mut retained);
    trait_.predicates = out_predicates;
    proof {
        assert(trait_.deep_view().predicates =~= spec_wrappers(extracted_v, args0.krate)
            + spec_where_retained(d0.predicates));
    }
    Ok((trait_, diags))
}

/// What [`implied_bounds`] yields, given what the front-end handed over.
///
/// Parsing the argument tokens, parsing the declaration, and the
/// transformation itself are tried in that order; the first stage that
/// fails aborts the whole run with its errors, every message uniformly
/// prefixed with the annotation's name. On success the rewritten
/// declaration is returned together with the collected warnings,
/// unprefixed.
pub open spec fn spec_implied_bounds(
    args: Result<Seq<SpecArgItem>, SpecDiagnostic>,
    input: Result<SpecTraitDecl, SpecDiagnostic>,
) -> Result<(SpecTraitDecl, Seq<SpecDiagnostic>), Seq<SpecDiagnostic>> {
    match args {
        Err(e) => Err(seq![spec_prefixed(e)]),
        Ok(items) => match spec_args_parse(items) {
            Err(errs) => Err(spec_prefixed_all(errs)),
            Ok(parsed) => match input {
                Err(e) => Err(seq![spec_prefixed(e)]),
                Ok(d) => match spec_implied_bounds_impl(d, parsed) {
                    Err(errs) => Err(spec_prefixed_all(errs)),
                    Ok(out) => Ok(out),
                },
            },
        },
    }
}

/// Rewrite a trait declaration so that all of its free-standing predicates
/// become entailed (see [`spec_implied_bounds`]).
///
/// `args` and `input` are what the host front-end made of the annotation's
/// argument tokens and of the annotated declaration: either the tokenized
/// or parsed value, or the front-end's own parse error, which is then
/// reported like any other failure of the run.
pub fn implied_bounds(
    args: Result<Vec<ArgItem>, Diagnostic>,
    input: Result<TraitDecl, Diagnostic>,
) -> (r: Result<(TraitDecl, Vec<Diagnostic>), Vec<Diagnostic>>)
    requires
        input matches Ok(d) ==> d.deep_view().wf(),
    ensures
        ({
            let args_v = match args {
                Ok(items) => Ok::<_, SpecDiagnostic>(items.deep_view()),
                Err(e) => Err(e.deep_view()),
            };
            let input_v = match input {
                Ok(d) => Ok::<_, SpecDiagnostic>(d.deep_view()),
                Err(e) => Err(e.deep_view()),
            };
            match r {
                Ok((out, warnings)) => spec_implied_bounds(args_v, input_v) == Ok::<
                    _,
                    Seq<SpecDiagnostic>,
                >((out.deep_view(), warnings.deep_view())),
                Err(errors) => spec_implied_bounds(args_v, input_v) == Err::<
                    (SpecTraitDecl, Seq<SpecDiagnostic>),
                    _,
                >(errors.deep_view()),
            }
        }),
{
    let items = match args {
        Ok(items) => items,
        Err(e) => {
            let errs = vec![e];
            let out = prefix_all(&errs);
            proof {
                assert(out.deep_view() =~= seq![spec_prefixed(errs.deep_view()[0])]);
            }
            return Err(out);
        },
    };
    let parsed = match Args::parse(&items) {
        Ok(parsed) => parsed,
        Err(errs) => {
            return Err(prefix_all(&errs));
        },
    };
    let decl = match input {
        Ok(d) => d,
        Err(e) => {
            let errs = vec![e];
            let out = prefix_all(&errs);
            proof {
                assert(out.deep_view() =~= seq![spec_prefixed(errs.deep_view()[0])]);
            }
            return Err(out);
        },
    };
    match implied_bounds_impl(decl, parsed) {
        Ok(out) => Ok(out),
        Err(errs) => Err(prefix_all(&errs)),
    }
}

/// The errors of the list, in order, without the warnings
/// (see [`crate::diag::spec_errors_of`]).
pub fn errors_only(v: &Vec<Diagnostic>) -> (r: Vec<Diagnostic>)
    ensures
        r.deep_view() == spec_errors_of(v.deep_view()),
{
    let mut r: Vec<Diagnostic> = Vec::new();
    let n = v.len();
    let mut i: usize = 0;
    while i < n
        invariant
            n == v.len(),
            0 <= i <= n,
            r.deep_view() == v.deep_view().take(i as int).filter(
                |d: SpecDiagnostic| d.severity == Severity::Error,
            ),
        decreases n - i,
    {
        let ghost prefix = v.deep_view().take(i as int);
        let ghost prefix1 = v.deep_view().take(i as int + 1);
        proof {
            assert(prefix1.drop_last() =~= prefix);
            assert(prefix1.last() == v.deep_view()[i as int]);
            reveal_with_fuel(Seq::filter, 2);
        }
        if matches!(v[i].severity, Severity::Error) {
            let copy = Diagnostic {
                severity: v[i].severity,
                start: v[i].start,
                end: v[i].end,
                message: v[i].message.clone(),
            };
            r.push(copy);
        }
        proof {
            assert(r.deep_view() =~= prefix1.filter(
                |d: SpecDiagnostic| d.severity == Severity::Error,
            ));
        }
        i += 1;
    }
    proof {
        assert(v.deep_view().take(n as int) =~= v.deep_view());
    }
    r
}

} // verus!
