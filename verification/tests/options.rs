//! Tests of the option parser, the span utilities, the diagnostics, and the
//! extractor's classification.

use implied_bounds::args::{ArgItem, Args, Crate, USAGE};
use implied_bounds::ast::{
    bounds_span_range, Bound, GenericParam, Path, PathArgs, PathSegment, Predicate, TraitDecl,
    TypeExpr, TypeParam, WherePredicate,
};
use implied_bounds::diag::{compile_warning, Severity};
use implied_bounds::extract::{extract_non_implied_predicates, may_be_higher_ranked};
use implied_bounds::span::{ExplicitSpan, Resolution, Span, SpanRange};

fn sp(lo: u32, hi: u32) -> Span {
    Span { lo, hi, resolution: Resolution::CallSite }
}

fn ident_path(name: &str) -> Path {
    Path {
        leading_colon: false,
        segments: vec![PathSegment { ident: name.to_string(), args: PathArgs::Bare }],
    }
}

fn trait_bound(name: &str, span: Span) -> Bound {
    Bound::Trait { quantifiers: vec![], maybe: false, path: ident_path(name), span }
}

#[test]
fn parses_each_option_once() {
    let path = Path {
        leading_colon: true,
        segments: vec![PathSegment { ident: "other".to_string(), args: PathArgs::Bare }],
    };
    let items = vec![
        ArgItem::AllowNone { span: sp(1, 10) },
        ArgItem::Debug { span: sp(12, 17) },
        ArgItem::CratePath { path: path.duplicate(), span: sp(19, 33) },
    ];
    let args = Args::parse(&items).expect("must parse");
    assert_eq!(args.debug, Some(sp(12, 17)));
    assert_eq!(args.allow_none, Some(sp(1, 10)));
    assert_eq!(args.krate, Some(path));
}

#[test]
fn empty_argument_list_means_defaults() {
    let args = Args::parse(&vec![]).expect("must parse");
    assert_eq!(args, Args::default());
}

#[test]
fn duplicate_debug_is_rejected_with_usage() {
    let items = vec![ArgItem::Debug { span: sp(1, 6) }, ArgItem::Debug { span: sp(8, 13) }];
    let errors = Args::parse(&items).expect_err("must fail");
    assert_eq!(errors.len(), 2);
    assert_eq!(errors[0].message, "duplicate arg");
    assert_eq!(errors[0].start, sp(8, 13));
    assert_eq!(errors[0].severity, Severity::Error);
    assert_eq!(errors[1].message, USAGE);
    assert!(errors[1].message.contains("#[implied_bounds("));
}

#[test]
fn unrecognized_token_is_rejected_with_its_own_complaint() {
    let items = vec![
        ArgItem::Debug { span: sp(1, 6) },
        ArgItem::Invalid { message: "expected one of: `debug`, `allow_none`, `crate`".to_string(), span: sp(8, 11) },
    ];
    let errors = Args::parse(&items).expect_err("must fail");
    assert_eq!(errors.len(), 2);
    assert!(errors[0].message.contains("expected one of"));
    assert!(errors[1].message.contains("Usage:"));
}

#[test]
fn crate_context_hands_back_what_it_was_given() {
    let path = ident_path("here");
    let with_override = Crate::init(Some(path.duplicate()));
    assert_eq!(with_override.get(), &Some(path));
    let without = Crate::init(None);
    assert_eq!(without.get(), &None);
}

#[test]
fn location_keeps_position_and_defaults_resolution() {
    let s = sp(7, 21);
    let loc = s.location().bare();
    assert_eq!(loc, Span { lo: 7, hi: 21, resolution: Resolution::MixedSite });
}

#[test]
fn hygiene_keeps_resolution_and_drops_position() {
    let s = sp(7, 21);
    let hyg = s.hygiene().bare();
    assert_eq!(hyg, Span { lo: 0, hi: 0, resolution: Resolution::CallSite });
    assert_eq!(s.location_and_hygiene().bare(), s);
}

#[test]
fn located_at_and_resolved_at_swap_the_right_halves() {
    let a = Span { lo: 1, hi: 2, resolution: Resolution::MixedSite };
    let b = sp(30, 40);
    assert_eq!(a.located_at(b), Span { lo: 30, hi: 40, resolution: Resolution::MixedSite });
    assert_eq!(a.resolved_at(b), Span { lo: 1, hi: 2, resolution: Resolution::CallSite });
    assert_eq!(ExplicitSpan::mixed_site().bare(), Span::mixed_site());
    assert_eq!(Span::mixed_site(), Span { lo: 0, hi: 0, resolution: Resolution::MixedSite });
    assert_eq!(b.span_range(), SpanRange { start: b, end: b });
}

#[test]
fn compile_warning_prepends_a_blank_line() {
    let range = SpanRange { start: sp(3, 4), end: sp(9, 12) };
    let w = compile_warning(range, "look here");
    assert_eq!(w.severity, Severity::Warning);
    assert_eq!(w.message, "\n\nlook here");
    assert_eq!(w.start, sp(3, 4));
    assert_eq!(w.end, Span { lo: 9, hi: 12, resolution: Resolution::MixedSite });
}

#[test]
fn bound_list_range_runs_first_to_last() {
    let bounds = vec![trait_bound("Clone", sp(5, 10)), trait_bound("Send", sp(13, 17))];
    let r = bounds_span_range(&bounds);
    assert_eq!(r, SpanRange { start: sp(5, 10), end: sp(13, 17) });
    assert_eq!(bounds_span_range(&vec![]), SpanRange::full());
}

#[test]
fn quantified_bounds_count_as_higher_ranked() {
    let quantified = Bound::Trait {
        quantifiers: vec!["'r".to_string()],
        maybe: false,
        path: ident_path("SomeCapability"),
        span: sp(0, 10),
    };
    assert!(may_be_higher_ranked(&vec![quantified]));
}

#[test]
fn fn_style_arguments_count_as_higher_ranked() {
    let fn_style = Bound::Trait {
        quantifiers: vec![],
        maybe: false,
        path: Path {
            leading_colon: false,
            segments: vec![PathSegment {
                ident: "FnMut".to_string(),
                args: PathArgs::Parenthesized { tokens: "u8".to_string() },
            }],
        },
        span: sp(0, 10),
    };
    assert!(may_be_higher_ranked(&vec![fn_style]));
}

#[test]
fn plain_bounds_are_not_higher_ranked() {
    let plain = trait_bound("Clone", sp(0, 5));
    let lifetime = Bound::Lifetime { name: "'static".to_string(), span: sp(8, 15) };
    assert!(!may_be_higher_ranked(&vec![plain, lifetime]));
    assert!(!may_be_higher_ranked(&vec![]));
}

#[test]
fn extractor_tags_and_strips() {
    let mut decl = TraitDecl {
        name: "Foo".to_string(),
        name_span: sp(6, 9),
        params: vec![GenericParam::Type {
            param: TypeParam {
                ident: "T".to_string(),
                ident_span: sp(10, 11),
                has_colon: true,
                bounds: vec![trait_bound("Clone", sp(13, 18))],
            },
        }],
        supertraits: vec![trait_bound("Super", sp(21, 26))],
        predicates: vec![
            WherePredicate::Verbatim { tokens: "'a: 'b".to_string(), span: sp(30, 36) },
            WherePredicate::Type {
                pred: Predicate {
                    quantifiers: vec!["'r".to_string()],
                    subject: TypeExpr::Verbatim { tokens: "&'r T".to_string(), span: sp(40, 45) },
                    bounds: vec![trait_bound("IntoIterator", sp(47, 59))],
                    span: sp(38, 39),
                },
            },
        ],
        items: vec![],
    };
    let args = Args::default();
    let mut diags = Vec::new();

    let extracted = extract_non_implied_predicates(&mut decl, &args, &mut diags);

    assert_eq!(extracted.len(), 2);
    // From the parameter: the predicate `T: Clone`, not higher-ranked.
    assert!(!extracted[0].higher_ranked);
    assert_eq!(extracted[0].pred.subject, TypeExpr::Path {
        qself: false,
        path: ident_path("T"),
        span: sp(10, 11),
    });
    // From the `where` clause: quantified, so higher-ranked.
    assert!(extracted[1].higher_ranked);
    assert_eq!(extracted[1].pred.quantifiers, vec!["'r".to_string()]);
    // The verbatim lifetime predicate is retained; the quantified one is not.
    assert_eq!(decl.predicates, vec![WherePredicate::Verbatim {
        tokens: "'a: 'b".to_string(),
        span: sp(30, 36),
    }]);
    // Supertraits pass through untouched.
    assert_eq!(decl.supertraits, vec![trait_bound("Super", sp(21, 26))]);
    // The parameter keeps its repeatable bound.
    match &decl.params[0] {
        GenericParam::Type { param } => assert_eq!(param.bounds.len(), 1),
        other => panic!("unexpected parameter: {other:?}"),
    }
    assert!(diags.is_empty());
}

#[test]
fn well_formedness_rejects_empty_trait_paths() {
    let mut decl = TraitDecl {
        name: "Foo".to_string(),
        name_span: sp(6, 9),
        params: vec![],
        supertraits: vec![],
        predicates: vec![],
        items: vec![],
    };
    assert!(decl.is_well_formed());
    decl.params = vec![GenericParam::Type {
        param: TypeParam {
            ident: "T".to_string(),
            ident_span: sp(10, 11),
            has_colon: true,
            bounds: vec![Bound::Trait {
                quantifiers: vec![],
                maybe: false,
                path: Path { leading_colon: false, segments: vec![] },
                span: sp(13, 18),
            }],
        },
    }];
    assert!(!decl.is_well_formed());
}

#[test]
fn deep_copies_compare_equal() {
    let pred = Predicate {
        quantifiers: vec!["'x".to_string()],
        subject: TypeExpr::Verbatim { tokens: "(Self)".to_string(), span: sp(1, 7) },
        bounds: vec![
            trait_bound("Eq", sp(9, 11)),
            Bound::Verbatim { tokens: "?Sized".to_string(), span: sp(14, 20) },
        ],
        span: sp(0, 1),
    };
    assert_eq!(pred.duplicate(), pred);
    let path = Path {
        leading_colon: true,
        segments: vec![PathSegment {
            ident: "x".to_string(),
            args: PathArgs::AngleBracketed { tokens: "'a, T".to_string() },
        }],
    };
    assert_eq!(path.duplicate(), path);
}

/// A parenthesized spelling of `Self` is deliberately not recognized as
/// `Self`: such a predicate is treated as free-standing and extracted,
/// which is the documented opt-out.
#[test]
fn parenthesized_self_is_extracted() {
    let mut decl = TraitDecl {
        name: "Foo".to_string(),
        name_span: sp(6, 9),
        params: vec![],
        supertraits: vec![],
        predicates: vec![WherePredicate::Type {
            pred: Predicate {
                quantifiers: vec![],
                subject: TypeExpr::Verbatim { tokens: "(Self)".to_string(), span: sp(20, 26) },
                bounds: vec![trait_bound("Send", sp(28, 32))],
                span: sp(20, 26),
            },
        }],
        items: vec![],
    };
    let original = decl.predicates[0].duplicate();
    let mut diags = Vec::new();
    let extracted = extract_non_implied_predicates(&mut decl, &Args::default(), &mut diags);
    assert_eq!(extracted.len(), 1);
    assert!(!extracted[0].higher_ranked);
    // Not higher-ranked, so a readability duplicate stays at the site.
    assert_eq!(decl.predicates, vec![original]);
}
