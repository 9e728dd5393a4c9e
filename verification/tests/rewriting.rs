//! End-to-end tests of the rewriting pipeline on concrete declarations.

use implied_bounds::args::{ArgItem, Args};
use implied_bounds::ast::{
    Bound, GenericParam, Path, PathArgs, PathSegment, Predicate, TraitDecl, TypeParam, TypeExpr,
    WherePredicate,
};
use implied_bounds::diag::Severity;
use implied_bounds::pipeline::{implied_bounds, implied_bounds_impl};
use implied_bounds::span::{Resolution, Span};

fn sp(lo: u32, hi: u32) -> Span {
    Span { lo, hi, resolution: Resolution::CallSite }
}

fn ident_path(name: &str) -> Path {
    Path {
        leading_colon: false,
        segments: vec![PathSegment { ident: name.to_string(), args: PathArgs::Bare }],
    }
}

fn trait_bound(name: &str, span: Span) -> Bound {
    Bound::Trait { quantifiers: vec![], maybe: false, path: ident_path(name), span }
}

fn path_type(path: Path, span: Span) -> TypeExpr {
    TypeExpr::Path { qself: false, path, span }
}

fn empty_decl(name: &str) -> TraitDecl {
    TraitDecl {
        name: name.to_string(),
        name_span: sp(0, 5),
        params: vec![],
        supertraits: vec![],
        predicates: vec![],
        items: vec![],
    }
}

/// `trait Trait<U: Clone> where Self::Gat<true>: Send` — both predicates are
/// extracted and duplicated (neither is higher-ranked), and the two new
/// wrapper predicates precede the retained copy.
#[test]
fn rewrites_inline_bound_and_gat_predicate() {
    let u_clone = trait_bound("Clone", sp(20, 25));
    let gat_subject = TypeExpr::Path {
        qself: false,
        path: Path {
            leading_colon: false,
            segments: vec![
                PathSegment { ident: "Self".to_string(), args: PathArgs::Bare },
                PathSegment {
                    ident: "Gat".to_string(),
                    args: PathArgs::AngleBracketed { tokens: "true".to_string() },
                },
            ],
        },
        span: sp(40, 55),
    };
    let gat_send = trait_bound("Send", sp(57, 61));
    let decl = TraitDecl {
        name: "Trait".to_string(),
        name_span: sp(6, 11),
        params: vec![GenericParam::Type {
            param: TypeParam {
                ident: "U".to_string(),
                ident_span: sp(12, 13),
                has_colon: true,
                bounds: vec![u_clone.duplicate()],
            },
        }],
        supertraits: vec![],
        predicates: vec![WherePredicate::Type {
            pred: Predicate {
                quantifiers: vec![],
                subject: gat_subject.duplicate(),
                bounds: vec![gat_send.duplicate()],
                span: sp(40, 55),
            },
        }],
        items: vec![],
    };
    let original_pred = decl.predicates[0].duplicate();

    let (out, warnings) = implied_bounds_impl(decl, Args::default()).expect("must succeed");

    // The parameter keeps a verbatim copy of its (repeatable) bound.
    match &out.params[0] {
        GenericParam::Type { param } => {
            assert_eq!(param.ident, "U");
            assert!(param.has_colon);
            assert_eq!(param.bounds, vec![u_clone.duplicate()]);
        }
        other => panic!("unexpected parameter: {other:?}"),
    }

    // Two wrappers first, then the retained duplicate of the original.
    assert_eq!(out.predicates.len(), 3);
    for (k, expected_subject, expected_bound) in
        [(0usize, path_type(ident_path("U"), sp(12, 13)), &u_clone), (1, gat_subject.duplicate(), &gat_send)]
    {
        match &out.predicates[k] {
            WherePredicate::Type { pred } => {
                assert_eq!(pred.quantifiers, Vec::<String>::new());
                // The rewritten subject is the literal `Self`, located at the
                // original predicate's position with hygienic resolution.
                match &pred.subject {
                    TypeExpr::Path { qself, path, span } => {
                        assert!(!qself);
                        assert_eq!(path, &ident_path("Self"));
                        assert_eq!(span.resolution, Resolution::MixedSite);
                    }
                    other => panic!("unexpected subject: {other:?}"),
                }
                assert_eq!(pred.bounds.len(), 1);
                match &pred.bounds[0] {
                    Bound::Implied { krate, subject, bounds, .. } => {
                        assert_eq!(
                            krate,
                            &Path {
                                leading_colon: true,
                                segments: vec![PathSegment {
                                    ident: "implied_bounds".to_string(),
                                    args: PathArgs::Bare,
                                }],
                            }
                        );
                        // The carried subject and bounds travel verbatim.
                        assert_eq!(subject, &expected_subject);
                        assert_eq!(bounds, &vec![expected_bound.duplicate()]);
                    }
                    other => panic!("unexpected bound: {other:?}"),
                }
            }
            other => panic!("unexpected predicate: {other:?}"),
        }
    }
    assert_eq!(out.predicates[2], original_pred);

    // Something was extracted, so no warning; debug was off.
    assert_eq!(warnings.len(), 0);
}

/// `trait Baz where Self: Super` — nothing is extractable; without
/// `allow_none` the run warns that the whole transformation is a no-op, and
/// the declaration comes back unchanged.
#[test]
fn self_predicate_alone_is_a_noop_with_warning() {
    let mut decl = empty_decl("Baz");
    decl.predicates = vec![WherePredicate::Type {
        pred: Predicate {
            quantifiers: vec![],
            subject: path_type(ident_path("Self"), sp(30, 34)),
            bounds: vec![trait_bound("Super", sp(36, 41))],
            span: sp(30, 34),
        },
    }];
    let original = WherePredicate::Type {
        pred: Predicate {
            quantifiers: vec![],
            subject: path_type(ident_path("Self"), sp(30, 34)),
            bounds: vec![trait_bound("Super", sp(36, 41))],
            span: sp(30, 34),
        },
    };

    let (out, warnings) = implied_bounds_impl(decl, Args::default()).expect("must succeed");

    assert_eq!(out.predicates, vec![original]);
    assert_eq!(out.params, vec![]);
    assert_eq!(warnings.len(), 1);
    assert!(warnings[0].message.contains("No non-implied clauses found"));
    assert!(warnings[0].message.contains("allow_none"));
    assert_eq!(warnings[0].severity, Severity::Warning);
}

/// The same declaration under `allow_none` is perfectly silent.
#[test]
fn allow_none_suppresses_the_noop_warning() {
    let mut decl = empty_decl("Baz");
    decl.predicates = vec![WherePredicate::Type {
        pred: Predicate {
            quantifiers: vec![],
            subject: path_type(ident_path("Self"), sp(30, 34)),
            bounds: vec![trait_bound("Super", sp(36, 41))],
            span: sp(30, 34),
        },
    }];
    let args = Args { debug: None, allow_none: Some(sp(1, 2)), krate: None };
    let (_, warnings) = implied_bounds_impl(decl, args).expect("must succeed");
    assert_eq!(warnings.len(), 0);
}

/// Under `debug`, each extracted predicate gets one warning at its original
/// range, with a message containing "not implied".
#[test]
fn debug_warns_once_per_extracted_predicate() {
    let mut decl = empty_decl("Foo");
    decl.params = vec![GenericParam::Type {
        param: TypeParam {
            ident: "T".to_string(),
            ident_span: sp(10, 11),
            has_colon: true,
            bounds: vec![trait_bound("Clone", sp(13, 18))],
        },
    }];
    decl.predicates = vec![WherePredicate::Type {
        pred: Predicate {
            quantifiers: vec![],
            subject: path_type(ident_path("T"), sp(26, 27)),
            bounds: vec![trait_bound("Send", sp(29, 33))],
            span: sp(26, 27),
        },
    }];
    let args = Args { debug: Some(sp(2, 7)), allow_none: None, krate: None };

    let (_, warnings) = implied_bounds_impl(decl, args).expect("must succeed");

    assert_eq!(warnings.len(), 2);
    for w in &warnings {
        assert_eq!(w.severity, Severity::Warning);
        assert!(w.message.contains("not implied"));
    }
    // The first warning points at the parameter's bound list…
    assert_eq!(warnings[0].start, sp(13, 18));
    // …the second at the whole `where` predicate.
    assert_eq!(warnings[1].start, sp(26, 27));
    assert_eq!(warnings[1].end.lo, 29);
    assert_eq!(warnings[1].end.resolution, Resolution::MixedSite);
}

/// A higher-ranked predicate — here `T: for<'r> SomeCapability<'r>` — is
/// extracted but leaves no duplicate at its original site.
#[test]
fn higher_ranked_predicate_leaves_no_duplicate() {
    let mut decl = empty_decl("Foo");
    decl.predicates = vec![WherePredicate::Type {
        pred: Predicate {
            quantifiers: vec![],
            subject: path_type(ident_path("T"), sp(26, 27)),
            bounds: vec![Bound::Trait {
                quantifiers: vec!["'r".to_string()],
                maybe: false,
                path: Path {
                    leading_colon: false,
                    segments: vec![PathSegment {
                        ident: "SomeCapability".to_string(),
                        args: PathArgs::AngleBracketed { tokens: "'r".to_string() },
                    }],
                },
                span: sp(29, 55),
            }],
            span: sp(26, 27),
        },
    }];

    let (out, warnings) = implied_bounds_impl(decl, Args::default()).expect("must succeed");

    // Only the wrapper: no retained copy of the higher-ranked predicate.
    assert_eq!(out.predicates.len(), 1);
    match &out.predicates[0] {
        WherePredicate::Type { pred } => match &pred.bounds[0] {
            Bound::Implied { .. } => {}
            other => panic!("unexpected bound: {other:?}"),
        },
        other => panic!("unexpected predicate: {other:?}"),
    }
    assert_eq!(warnings.len(), 0);
}

/// A higher-ranked inline bound strips the parameter bare.
#[test]
fn higher_ranked_param_bound_is_not_duplicated() {
    let mut decl = empty_decl("Foo");
    decl.params = vec![GenericParam::Type {
        param: TypeParam {
            ident: "F".to_string(),
            ident_span: sp(10, 11),
            has_colon: true,
            bounds: vec![Bound::Trait {
                quantifiers: vec![],
                maybe: false,
                path: Path {
                    leading_colon: false,
                    segments: vec![PathSegment {
                        ident: "Fn".to_string(),
                        args: PathArgs::Parenthesized { tokens: "&str".to_string() },
                    }],
                },
                span: sp(13, 22),
            }],
        },
    }];

    let (out, _) = implied_bounds_impl(decl, Args::default()).expect("must succeed");

    match &out.params[0] {
        GenericParam::Type { param } => {
            assert_eq!(param.ident, "F");
            assert!(param.bounds.is_empty());
        }
        other => panic!("unexpected parameter: {other:?}"),
    }
    assert_eq!(out.predicates.len(), 1);
}

/// Re-running the transformation on an already-rewritten declaration (all
/// remaining predicates bound `Self`) extracts nothing and, absent
/// `allow_none`, warns that it is a no-op.
#[test]
fn rerun_on_rewritten_output_is_a_noop() {
    let mut decl = empty_decl("Foo");
    decl.predicates = vec![WherePredicate::Type {
        pred: Predicate {
            quantifiers: vec![],
            subject: path_type(ident_path("T"), sp(26, 27)),
            bounds: vec![Bound::Trait {
                quantifiers: vec!["'r".to_string()],
                maybe: false,
                path: ident_path("SomeCapability"),
                span: sp(29, 55),
            }],
            span: sp(26, 27),
        },
    }];
    let (once, _) = implied_bounds_impl(decl, Args::default()).expect("must succeed");
    let expected = TraitDecl {
        name: once.name.clone(),
        name_span: once.name_span,
        params: vec![],
        supertraits: vec![],
        predicates: vec![once.predicates[0].duplicate()],
        items: vec![],
    };

    let (twice, warnings) = implied_bounds_impl(once, Args::default()).expect("must succeed");

    assert_eq!(twice, expected);
    assert_eq!(warnings.len(), 1);
    assert!(warnings[0].message.contains("you may skip using this macro"));
}

/// The `crate = path` override renames the wrapper path in the output.
#[test]
fn crate_override_changes_the_wrapper_path() {
    let mut decl = empty_decl("Foo");
    decl.params = vec![GenericParam::Type {
        param: TypeParam {
            ident: "T".to_string(),
            ident_span: sp(10, 11),
            has_colon: true,
            bounds: vec![trait_bound("Clone", sp(13, 18))],
        },
    }];
    let renamed = Path {
        leading_colon: true,
        segments: vec![PathSegment { ident: "renamed".to_string(), args: PathArgs::Bare }],
    };
    let args = Args { debug: None, allow_none: None, krate: Some(renamed.duplicate()) };

    let (out, _) = implied_bounds_impl(decl, args).expect("must succeed");

    match &out.predicates[0] {
        WherePredicate::Type { pred } => match &pred.bounds[0] {
            Bound::Implied { krate, .. } => assert_eq!(krate, &renamed),
            other => panic!("unexpected bound: {other:?}"),
        },
        other => panic!("unexpected predicate: {other:?}"),
    }
}

/// A predicate-level `for<…>` quantifier survives onto the rewritten
/// predicate, and such a predicate leaves no duplicate.
#[test]
fn predicate_quantifier_is_kept_on_the_wrapper() {
    let mut decl = empty_decl("Foo");
    decl.predicates = vec![WherePredicate::Type {
        pred: Predicate {
            quantifiers: vec!["'a".to_string()],
            subject: TypeExpr::Verbatim { tokens: "&'a T".to_string(), span: sp(30, 35) },
            bounds: vec![trait_bound("IntoIterator", sp(37, 49))],
            span: sp(26, 29),
        },
    }];

    let (out, _) = implied_bounds_impl(decl, Args::default()).expect("must succeed");

    assert_eq!(out.predicates.len(), 1);
    match &out.predicates[0] {
        WherePredicate::Type { pred } => {
            assert_eq!(pred.quantifiers, vec!["'a".to_string()]);
            // The opening span comes from the original subject (30..35),
            // not from the predicate's leading `for<…>` token (26..29).
            match &pred.subject {
                TypeExpr::Path { span, .. } => {
                    assert_eq!(*span, Span { lo: 30, hi: 35, resolution: Resolution::MixedSite });
                }
                other => panic!("unexpected subject: {other:?}"),
            }
        }
        other => panic!("unexpected predicate: {other:?}"),
    }
}

/// A parameter with bounds but no separating `:` is malformed input: the
/// whole run fails with an aggregated hard error naming the span, and no
/// output is produced.
#[test]
fn missing_colon_is_a_hard_error() {
    let mut decl = empty_decl("Foo");
    decl.params = vec![GenericParam::Type {
        param: TypeParam {
            ident: "T".to_string(),
            ident_span: sp(10, 11),
            has_colon: false,
            bounds: vec![trait_bound("Clone", sp(13, 18))],
        },
    }];

    let errors = implied_bounds_impl(decl, Args::default()).expect_err("must fail");

    assert_eq!(errors.len(), 1);
    assert_eq!(errors[0].severity, Severity::Error);
    assert_eq!(errors[0].start, sp(10, 11));
    assert!(errors[0].message.contains("missing `:`"));
}

/// The outermost entry aggregates and prefixes errors: a duplicate
/// `crate = …` option yields the "duplicate arg" complaint plus the usage
/// message, each prefixed with the annotation's name.
#[test]
fn duplicate_crate_option_reports_usage() {
    let p1 = Path {
        leading_colon: true,
        segments: vec![PathSegment { ident: "a".to_string(), args: PathArgs::Bare }],
    };
    let p2 = Path {
        leading_colon: true,
        segments: vec![PathSegment { ident: "b".to_string(), args: PathArgs::Bare }],
    };
    let items = vec![
        ArgItem::CratePath { path: p1, span: sp(2, 12) },
        ArgItem::CratePath { path: p2, span: sp(14, 24) },
    ];

    let errors = implied_bounds(Ok(items), Ok(empty_decl("Foo"))).expect_err("must fail");

    assert_eq!(errors.len(), 2);
    assert!(errors[0].message.starts_with("`#[::implied_bounds::implied_bounds]`: "));
    assert!(errors[0].message.contains("duplicate arg"));
    assert_eq!(errors[0].start, sp(14, 24));
    assert!(errors[1].message.starts_with("`#[::implied_bounds::implied_bounds]`: "));
    assert!(errors[1].message.contains("Usage:"));
    assert!(errors[1].message.contains("crate = $(::)? some::path,"));
}

/// A front-end parse error on the declaration aborts the run, prefixed like
/// every other error.
#[test]
fn input_parse_error_is_prefixed_and_aborts() {
    let parse_error = implied_bounds::diag::error_at(sp(0, 3), "expected `trait`");

    let errors = implied_bounds(Ok(vec![]), Err(parse_error)).expect_err("must fail");

    assert_eq!(errors.len(), 1);
    assert_eq!(
        errors[0].message,
        "`#[::implied_bounds::implied_bounds]`: expected `trait`"
    );
}

/// A front-end error on the argument tokens wins over everything else.
#[test]
fn argument_parse_error_comes_first() {
    let arg_error = implied_bounds::diag::error_at(sp(5, 6), "unexpected token");
    let decl_error = implied_bounds::diag::error_at(sp(0, 3), "expected `trait`");

    let errors = implied_bounds(Err(arg_error), Err(decl_error)).expect_err("must fail");

    assert_eq!(errors.len(), 1);
    assert!(errors[0].message.ends_with("unexpected token"));
}
