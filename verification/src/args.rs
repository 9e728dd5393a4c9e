//! The recognized configuration options, and their parsing.
//!
//! The front-end tokenizes the annotation's argument list into a sequence of
//! [`ArgItem`]s; [`Args::parse`] folds that sequence into an [`Args`] record,
//! rejecting duplicate and malformed options with a hard error that carries
//! the usage message.

use vstd::prelude::*;

use crate::ast::{Path, SpecPath};
use crate::diag::{spec_error_at, error_at, Diagnostic, SpecDiagnostic};
use crate::span::Span;

verus! {

/// The usage message attached to every configuration error.
pub const USAGE: &'static str = r#"Usage:

#[implied_bounds(
    // [Optional] Whether to disable the warning about lack of non-implied clauses.
    allow_none,

    // [Optional] Highlight every non-implied clause (via deprecation warnings).
    debug,

    // [Optional] Override `::implied_bounds::…` paths in the expansion with `$(::)? some::path::…`.
    //            Useful when `macro_rules!` or middle-libs are involved, and the `::implied_bounds`
    //            path is no longer (directly, and syntactically) reachable.
    crate = $(::)? some::path,
)]
"#;

/// Deep view of [`ArgItem`].
pub enum SpecArgItem {
    Debug { span: Span },
    AllowNone { span: Span },
    CratePath { path: SpecPath, span: Span },
    Invalid { message: Seq<char>, span: Span },
}

/// One already-tokenized item of the annotation's argument list.
#[derive(Debug, PartialEq, Eq)]
pub enum ArgItem {
    /// The bare option `debug`.
    Debug { span: Span },
    /// The bare option `allow_none`.
    AllowNone { span: Span },
    /// The option `crate = path`.
    CratePath { path: Path, span: Span },
    /// A token the tokenizer could not recognize, with its complaint.
    Invalid { message: String, span: Span },
}

impl DeepView for ArgItem {
    type V = SpecArgItem;

    open spec fn deep_view(&self) -> SpecArgItem {
        match self {
            ArgItem::Debug { span } => SpecArgItem::Debug { span: *span },
            ArgItem::AllowNone { span } => SpecArgItem::AllowNone { span: *span },
            ArgItem::CratePath { path, span } => SpecArgItem::CratePath {
                path: path.deep_view(),
                span: *span,
            },
            ArgItem::Invalid { message, span } => SpecArgItem::Invalid {
                message: message@,
                span: *span,
            },
        }
    }
}

/// Deep view of [`Args`].
pub struct SpecArgs {
    pub debug: Option<Span>,
    pub allow_none: Option<Span>,
    pub krate: Option<SpecPath>,
}

impl SpecArgs {
    /// The configuration with no option given.
    pub open spec fn empty() -> SpecArgs {
        SpecArgs { debug: None, allow_none: None, krate: None }
    }
}

/// The parsed configuration record.
///
/// Each flag remembers the span it was given at, so later diagnostics about
/// it could point back at it.
#[derive(Debug, PartialEq, Eq)]
pub struct Args {
    /// `debug`: warn, at its original site, about every extracted predicate.
    pub debug: Option<Span>,
    /// `allow_none`: keep quiet when there is nothing to extract.
    pub allow_none: Option<Span>,
    /// `crate = path`: the path override for the helper trait.
    pub krate: Option<Path>,
}

impl DeepView for Args {
    type V = SpecArgs;

    open spec fn deep_view(&self) -> SpecArgs {
        SpecArgs {
            debug: self.debug,
            allow_none: self.allow_none,
            krate: self.krate.deep_view(),
        }
    }
}

impl Default for Args {
    /// The configuration with no option given.
    fn default() -> (r: Args)
        ensures
            r.deep_view() == SpecArgs::empty(),
    {
        Args { debug: None, allow_none: None, krate: None }
    }
}

/// The error every configuration complaint is paired with: the usage
/// message, at the whole-invocation span.
pub open spec fn spec_usage_error() -> SpecDiagnostic {
    spec_error_at(Span::spec_mixed_site(), USAGE@)
}

/// The usage-message error (see [`spec_usage_error`]).
pub fn usage_error() -> (r: Diagnostic)
    ensures
        r.deep_view() == spec_usage_error(),
{
    error_at(Span::mixed_site(), USAGE)
}

/// What parsing the items from position `i` onwards, with `acc` already
/// accumulated, yields: the completed record, or the diagnostics of the
/// first offending item — its own complaint (`duplicate arg` for a repeated
/// option, the tokenizer's complaint for an unrecognized one) followed by
/// the usage message.
pub open spec fn spec_args_parse_from(
    items: Seq<SpecArgItem>,
    i: int,
    acc: SpecArgs,
) -> Result<SpecArgs, Seq<SpecDiagnostic>>
    decreases items.len() - i,
{
    if i < 0 || i >= items.len() {
        Ok(acc)
    } else {
        match items[i] {
            SpecArgItem::Debug { span } => if acc.debug is Some {
                Err(seq![spec_error_at(span, "duplicate arg"@), spec_usage_error()])
            } else {
                spec_args_parse_from(items, i + 1, SpecArgs { debug: Some(span), ..acc })
            },
            SpecArgItem::AllowNone { span } => if acc.allow_none is Some {
                Err(seq![spec_error_at(span, "duplicate arg"@), spec_usage_error()])
            } else {
                spec_args_parse_from(items, i + 1, SpecArgs { allow_none: Some(span), ..acc })
            },
            SpecArgItem::CratePath { path, span } => if acc.krate is Some {
                Err(seq![spec_error_at(span, "duplicate arg"@), spec_usage_error()])
            } else {
                spec_args_parse_from(items, i + 1, SpecArgs { krate: Some(path), ..acc })
            },
            SpecArgItem::Invalid { message, span } => Err(
                seq![spec_error_at(span, message), spec_usage_error()],
            ),
        }
    }
}

/// What [`Args::parse`] yields on an item sequence.
pub open spec fn spec_args_parse(items: Seq<SpecArgItem>) -> Result<
    SpecArgs,
    Seq<SpecDiagnostic>,
> {
    spec_args_parse_from(items, 0, SpecArgs::empty())
}

impl Args {
    /// Fold a tokenized argument list into the configuration record.
    ///
    /// Every recognized option may be given at most once; a repeated or
    /// unrecognized item stops the parse with a hard error that names the
    /// offence and carries the usage message.
    pub fn parse(items: &Vec<ArgItem>) -> (r: Result<Args, Vec<Diagnostic>>)
        ensures
            match r {
                Ok(args) => spec_args_parse(items.deep_view()) == Ok::<
                    SpecArgs,
                    Seq<SpecDiagnostic>,
                >(args.deep_view()),
                Err(errs) => spec_args_parse(items.deep_view()) == Err::<
                    SpecArgs,
                    Seq<SpecDiagnostic>,
                >(errs.deep_view()),
            },
    {
        let mut acc = Args::default();
        let n = items.len();
        let mut i: usize = 0;
        while i < n
            invariant
                n == items.len(),
                0 <= i <= n,
                spec_args_parse(items.deep_view()) == spec_args_parse_from(
                    items.deep_view(),
                    i as int,
                    acc.deep_view(),
                ),
            decreases n - i,
        {
            let ghost pre = acc.deep_view();
            match &items[i] {
                ArgItem::Debug { span } => {
                    if acc.debug.is_some() {
                        let errs = vec![error_at(*span, "duplicate arg"), usage_error()];
                        proof {
                            assert(errs.deep_view() =~= seq![
                                spec_error_at(*span, "duplicate arg"@),
                                spec_usage_error(),
                            ]);
                        }
                        return Err(errs);
                    }
                    acc.debug = Some(*span);
                },
                ArgItem::AllowNone { span } => {
                    if acc.allow_none.is_some() {
                        let errs = vec![error_at(*span, "duplicate arg"), usage_error()];
                        proof {
                            assert(errs.deep_view() =~= seq![
                                spec_error_at(*span, "duplicate arg"@),
                                spec_usage_error(),
                            ]);
                        }
                        return Err(errs);
                    }
                    acc.allow_none = Some(*span);
                },
                ArgItem::CratePath { path, span } => {
                    if acc.krate.is_some() {
                        let errs = vec![error_at(*span, "duplicate arg"), usage_error()];
                        proof {
                            assert(errs.deep_view() =~= seq![
                                spec_error_at(*span, "duplicate arg"@),
                                spec_usage_error(),
                            ]);
                        }
                        return Err(errs);
                    }
                    acc.krate = Some(path.duplicate());
                },
                ArgItem::Invalid { message, span } => {
                    let errs = vec![error_at(*span, message.as_str()), usage_error()];
                    proof {
                        assert(errs.deep_view() =~= seq![
                            spec_error_at(*span, message@),
                            spec_usage_error(),
                        ]);
                    }
                    return Err(errs);
                },
            }
            i += 1;
        }
        Ok(acc)
    }
}

/// The wrapper-path context of one transformation run.
///
/// The path override is scoped to a single run: it is established once,
/// from the parsed configuration, and passed by value down to whoever
/// renders the wrapper path — there is no ambient state that a later run on
/// the same thread could observe.
pub struct Crate {
    /// The override, when `crate = path` was given.
    pub krate: Option<Path>,
}

impl Crate {
    /// Establish the wrapper-path context for one run.
    pub fn init(path: Option<Path>) -> (c: Crate)
        ensures
            c.krate == path,
    {
        Crate { krate: path }
    }

    /// The override in effect, if any.
    pub fn get(&self) -> (r: &Option<Path>)
        ensures
            *r == self.krate,
    {
        &self.krate
    }
}

} // verus!
