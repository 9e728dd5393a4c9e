//! The model of a trait declaration.
//!
//! The transformation works on a closed set of tagged variants rather than
//! on host-compiler data: a [`TraitDecl`] holds generic parameters, a
//! `where` clause and opaque carried pieces (supertraits, trait items).
//! Only the parts the rewriting must *read* are structured — a bound's
//! quantifier list and the shape of its trait path, a predicate's bounded
//! type — everything else travels as verbatim token text, so the rewriting
//! can put it back exactly as it was found.
//!
//! Every executable type has a deep view (`Spec…`) over `Seq`, which the
//! contracts and the proved laws are stated on.

use vstd::prelude::*;

use crate::span::{Span, SpanRange};

verus! {

// ---------------------------------------------------------------------------
// Spec-level model (deep views)
// ---------------------------------------------------------------------------

/// Deep view of [`PathArgs`].
pub enum SpecPathArgs {
    /// No argument list at all.
    Bare,
    /// `<…>` arguments, carried verbatim.
    AngleBracketed { tokens: Seq<char> },
    /// `(…)` arguments as written on `Fn`-style bounds, carried verbatim.
    Parenthesized { tokens: Seq<char> },
}

/// Deep view of [`PathSegment`].
pub struct SpecPathSegment {
    pub ident: Seq<char>,
    pub args: SpecPathArgs,
}

/// Deep view of [`Path`].
pub struct SpecPath {
    pub leading_colon: bool,
    pub segments: Seq<SpecPathSegment>,
}

/// Deep view of [`TypeExpr`].
pub enum SpecTypeExpr {
    /// A plain path type, shaped enough to ask whether it is literally `Self`.
    Path { qself: bool, path: SpecPath, span: Span },
    /// Any other type, carried verbatim.
    Verbatim { tokens: Seq<char>, span: Span },
}

/// Deep view of [`Bound`].
pub enum SpecBound {
    /// A trait bound `for<'a, …> ?Trait<…>`.
    Trait {
        /// The lifetimes of an explicit `for<…>` quantifier; empty when
        /// there is none (or it is empty).
        quantifiers: Seq<Seq<char>>,
        /// Whether the bound is relaxed with a leading `?`.
        maybe: bool,
        /// The bound's trait path.
        path: SpecPath,
        /// Span of the bound's leading token.
        span: Span,
    },
    /// A lifetime bound such as `'static`.
    Lifetime { name: Seq<char>, span: Span },
    /// Anything else, carried verbatim.
    Verbatim { tokens: Seq<char>, span: Span },
    /// The rewritten, entailed form this crate produces:
    /// `krate::ImpliedPredicate<subject, Impls: bounds>`.
    Implied {
        /// Qualified path of the helper trait.
        krate: SpecPath,
        /// The original bounded type, verbatim.
        subject: SpecTypeExpr,
        /// The original bound list, verbatim.
        bounds: Seq<SpecBound>,
        /// Span of the opening tokens: the original subject's location.
        span: Span,
        /// Span of the closing `>`: the original bound list's end.
        close_span: Span,
    },
}

/// Deep view of [`Predicate`].
pub struct SpecPredicate {
    pub quantifiers: Seq<Seq<char>>,
    pub subject: SpecTypeExpr,
    pub bounds: Seq<SpecBound>,
    pub span: Span,
}

/// Deep view of [`WherePredicate`].
pub enum SpecWherePredicate {
    /// `subject: bounds`, possibly under a `for<…>` quantifier.
    Type { pred: SpecPredicate },
    /// A predicate of any other kind (a lifetime predicate, say), verbatim.
    Verbatim { tokens: Seq<char>, span: Span },
}

/// Deep view of [`TypeParam`].
pub struct SpecTypeParam {
    pub ident: Seq<char>,
    pub ident_span: Span,
    pub has_colon: bool,
    pub bounds: Seq<SpecBound>,
}

/// Deep view of [`GenericParam`].
pub enum SpecGenericParam {
    /// A type parameter, the one kind the rewriting touches.
    Type { param: SpecTypeParam },
    /// A lifetime or const parameter, carried verbatim.
    Verbatim { tokens: Seq<char>, span: Span },
}

/// Deep view of [`TraitItem`].
pub struct SpecTraitItem {
    pub tokens: Seq<char>,
    pub span: Span,
}

/// Deep view of [`TraitDecl`].
pub struct SpecTraitDecl {
    pub name: Seq<char>,
    pub name_span: Span,
    pub params: Seq<SpecGenericParam>,
    pub supertraits: Seq<SpecBound>,
    pub predicates: Seq<SpecWherePredicate>,
    pub items: Seq<SpecTraitItem>,
}

// ---------------------------------------------------------------------------
// Executable model
// ---------------------------------------------------------------------------

/// The argument list of one path segment.
#[derive(Debug, PartialEq, Eq)]
pub enum PathArgs {
    /// No argument list at all.
    Bare,
    /// `<…>` arguments, carried verbatim.
    AngleBracketed { tokens: String },
    /// `(…)` arguments as written on `Fn`-style bounds, carried verbatim.
    Parenthesized { tokens: String },
}

/// One segment of a path: an identifier plus its arguments.
#[derive(Debug, PartialEq, Eq)]
pub struct PathSegment {
    pub ident: String,
    pub args: PathArgs,
}

/// A (possibly `::`-rooted) path.
#[derive(Debug, PartialEq, Eq)]
pub struct Path {
    pub leading_colon: bool,
    pub segments: Vec<PathSegment>,
}

/// A type expression in subject position.
#[derive(Debug, PartialEq, Eq)]
pub enum TypeExpr {
    /// A plain path type, shaped enough to ask whether it is literally `Self`.
    Path { qself: bool, path: Path, span: Span },
    /// Any other type, carried verbatim.
    Verbatim { tokens: String, span: Span },
}

/// One bound of a bound list.
#[derive(Debug, PartialEq, Eq)]
pub enum Bound {
    /// A trait bound `for<'a, …> ?Trait<…>`.
    Trait { quantifiers: Vec<String>, maybe: bool, path: Path, span: Span },
    /// A lifetime bound such as `'static`.
    Lifetime { name: String, span: Span },
    /// Anything else, carried verbatim.
    Verbatim { tokens: String, span: Span },
    /// The rewritten, entailed form this crate produces:
    /// `krate::ImpliedPredicate<subject, Impls: bounds>`.
    Implied { krate: Path, subject: TypeExpr, bounds: Vec<Bound>, span: Span, close_span: Span },
}

/// A `subject: bounds` predicate, possibly under a `for<…>` quantifier.
#[derive(Debug, PartialEq, Eq)]
pub struct Predicate {
    /// The lifetimes of an explicit `for<…>` quantifier on the predicate;
    /// empty when there is none (or it is empty).
    pub quantifiers: Vec<String>,
    /// The bounded type.
    pub subject: TypeExpr,
    /// The bound list; the rewriting only ever extracts predicates whose
    /// list is non-empty.
    pub bounds: Vec<Bound>,
    /// Span of the predicate's leading token.
    pub span: Span,
}

/// One entry of a `where` clause.
#[derive(Debug, PartialEq, Eq)]
pub enum WherePredicate {
    /// `subject: bounds`, the one kind the rewriting may extract.
    Type { pred: Predicate },
    /// A predicate of any other kind (a lifetime predicate, say), verbatim.
    Verbatim { tokens: String, span: Span },
}

/// A generic type parameter with its inline bound list.
#[derive(Debug, PartialEq, Eq)]
pub struct TypeParam {
    pub ident: String,
    /// Span of the parameter's identifier.
    pub ident_span: Span,
    /// Whether a `:` separates the identifier from its bounds. Rust syntax
    /// forces this whenever `bounds` is non-empty; a model value that has
    /// bounds without it is malformed input and is reported as an error.
    pub has_colon: bool,
    pub bounds: Vec<Bound>,
}

/// One generic parameter of the declaration.
#[derive(Debug, PartialEq, Eq)]
pub enum GenericParam {
    /// A type parameter, the one kind the rewriting touches.
    Type { param: TypeParam },
    /// A lifetime or const parameter, carried verbatim.
    Verbatim { tokens: String, span: Span },
}

/// An item of the trait's body (an associated type, a method, …), carried
/// verbatim. Constraints written on such items are deliberately not
/// classified: a `where` clause on an associated type is syntactically
/// ambiguous between a fact about the item and a free-standing constraint,
/// and stays exactly where the user wrote it.
#[derive(Debug, PartialEq, Eq)]
pub struct TraitItem {
    pub tokens: String,
    pub span: Span,
}

/// A trait declaration: the unit the transformation rewrites.
#[derive(Debug, PartialEq, Eq)]
pub struct TraitDecl {
    pub name: String,
    pub name_span: Span,
    pub params: Vec<GenericParam>,
    /// The declaration's supertrait bounds, carried through untouched: a
    /// supertrait is already entailed at every usage site.
    pub supertraits: Vec<Bound>,
    /// The `where` clause.
    pub predicates: Vec<WherePredicate>,
    /// The body's items, carried through untouched.
    pub items: Vec<TraitItem>,
}

// ---------------------------------------------------------------------------
// Deep views
// ---------------------------------------------------------------------------

impl DeepView for PathArgs {
    type V = SpecPathArgs;

    open spec fn deep_view(&self) -> SpecPathArgs {
        match self {
            PathArgs::Bare => SpecPathArgs::Bare,
            PathArgs::AngleBracketed { tokens } => SpecPathArgs::AngleBracketed {
                tokens: tokens@,
            },
            PathArgs::Parenthesized { tokens } => SpecPathArgs::Parenthesized {
                tokens: tokens@,
            },
        }
    }
}

impl DeepView for PathSegment {
    type V = SpecPathSegment;

    open spec fn deep_view(&self) -> SpecPathSegment {
        SpecPathSegment { ident: self.ident@, args: self.args.deep_view() }
    }
}

impl DeepView for Path {
    type V = SpecPath;

    open spec fn deep_view(&self) -> SpecPath {
        SpecPath { leading_colon: self.leading_colon, segments: self.segments.deep_view() }
    }
}

impl DeepView for TypeExpr {
    type V = SpecTypeExpr;

    open spec fn deep_view(&self) -> SpecTypeExpr {
        match self {
            TypeExpr::Path { qself, path, span } => SpecTypeExpr::Path {
                qself: *qself,
                path: path.deep_view(),
                span: *span,
            },
            TypeExpr::Verbatim { tokens, span } => SpecTypeExpr::Verbatim {
                tokens: tokens@,
                span: *span,
            },
        }
    }
}

/// Deep view of one [`Bound`]; recursive through the bound list that an
/// [`Bound::Implied`] bound carries.
pub open spec fn bound_deep_view(b: Bound) -> SpecBound
    decreases b, 0int,
{
    match b {
        Bound::Trait { quantifiers, maybe, path, span } => SpecBound::Trait {
            quantifiers: quantifiers.deep_view(),
            maybe: maybe,
            path: path.deep_view(),
            span: span,
        },
        Bound::Lifetime { name, span } => SpecBound::Lifetime { name: name@, span: span },
        Bound::Verbatim { tokens, span } => SpecBound::Verbatim { tokens: tokens@, span: span },
        Bound::Implied { krate, subject, bounds, span, close_span } => SpecBound::Implied {
            krate: krate.deep_view(),
            subject: subject.deep_view(),
            bounds: bound_seq_deep_view(bounds@),
            span: span,
            close_span: close_span,
        },
    }
}

/// Deep view of a sequence of [`Bound`]s, element by element.
pub open spec fn bound_seq_deep_view(s: Seq<Bound>) -> Seq<SpecBound>
    decreases s, 1int,
{
    if s.len() == 0 {
        Seq::empty()
    } else {
        seq![bound_deep_view(s[0])] + bound_seq_deep_view(s.subrange(1, s.len() as int))
    }
}

impl DeepView for Bound {
    type V = SpecBound;

    open spec fn deep_view(&self) -> SpecBound {
        bound_deep_view(*self)
    }
}

/// The view of a bound sequence is the sequence of the bounds' views.
pub proof fn lemma_bound_seq_deep_view(s: Seq<Bound>)
    ensures
        bound_seq_deep_view(s).len() == s.len(),
        forall|i: int|
            0 <= i < s.len() ==> bound_seq_deep_view(s)[i] == bound_deep_view(s[i]),
    decreases s.len(),
{
    if s.len() > 0 {
        lemma_bound_seq_deep_view(s.subrange(1, s.len() as int));
    }
}

/// [`bound_seq_deep_view`] agrees with the element-wise deep view of a `Vec`.
pub proof fn lemma_bounds_deep_view(v: Vec<Bound>)
    ensures
        bound_seq_deep_view(v@) == v.deep_view(),
{
    lemma_bound_seq_deep_view(v@);
    assert(bound_seq_deep_view(v@) =~= v.deep_view());
}

impl DeepView for Predicate {
    type V = SpecPredicate;

    open spec fn deep_view(&self) -> SpecPredicate {
        SpecPredicate {
            quantifiers: self.quantifiers.deep_view(),
            subject: self.subject.deep_view(),
            bounds: self.bounds.deep_view(),
            span: self.span,
        }
    }
}

impl DeepView for WherePredicate {
    type V = SpecWherePredicate;

    open spec fn deep_view(&self) -> SpecWherePredicate {
        match self {
            WherePredicate::Type { pred } => SpecWherePredicate::Type { pred: pred.deep_view() },
            WherePredicate::Verbatim { tokens, span } => SpecWherePredicate::Verbatim {
                tokens: tokens@,
                span: *span,
            },
        }
    }
}

impl DeepView for TypeParam {
    type V = SpecTypeParam;

    open spec fn deep_view(&self) -> SpecTypeParam {
        SpecTypeParam {
            ident: self.ident@,
            ident_span: self.ident_span,
            has_colon: self.has_colon,
            bounds: self.bounds.deep_view(),
        }
    }
}

impl DeepView for GenericParam {
    type V = SpecGenericParam;

    open spec fn deep_view(&self) -> SpecGenericParam {
        match self {
            GenericParam::Type { param } => SpecGenericParam::Type { param: param.deep_view() },
            GenericParam::Verbatim { tokens, span } => SpecGenericParam::Verbatim {
                tokens: tokens@,
                span: *span,
            },
        }
    }
}

impl DeepView for TraitItem {
    type V = SpecTraitItem;

    open spec fn deep_view(&self) -> SpecTraitItem {
        SpecTraitItem { tokens: self.tokens@, span: self.span }
    }
}

impl DeepView for TraitDecl {
    type V = SpecTraitDecl;

    open spec fn deep_view(&self) -> SpecTraitDecl {
        SpecTraitDecl {
            name: self.name@,
            name_span: self.name_span,
            params: self.params.deep_view(),
            supertraits: self.supertraits.deep_view(),
            predicates: self.predicates.deep_view(),
            items: self.items.deep_view(),
        }
    }
}

// ---------------------------------------------------------------------------
// Well-formedness
// ---------------------------------------------------------------------------

impl SpecPath {
    /// A path has at least one segment.
    pub open spec fn wf(self) -> bool {
        self.segments.len() > 0
    }
}

impl SpecBound {
    /// Trait paths are never empty — the classification of a bound reads
    /// the last segment of its path.
    pub open spec fn wf(self) -> bool
        decreases self, 0int,
    {
        match self {
            SpecBound::Trait { path, .. } => path.wf(),
            SpecBound::Lifetime { .. } => true,
            SpecBound::Verbatim { .. } => true,
            SpecBound::Implied { krate, bounds, .. } => krate.wf() && bound_seq_wf(bounds),
        }
    }

    /// Span of the bound's leading token.
    pub open spec fn leading_span(self) -> Span {
        match self {
            SpecBound::Trait { span, .. } => span,
            SpecBound::Lifetime { span, .. } => span,
            SpecBound::Verbatim { span, .. } => span,
            SpecBound::Implied { span, .. } => span,
        }
    }
}

/// Every bound of the sequence is well-formed.
pub open spec fn bound_seq_wf(s: Seq<SpecBound>) -> bool
    decreases s, 1int,
{
    if s.len() == 0 {
        true
    } else {
        s[0].wf() && bound_seq_wf(s.subrange(1, s.len() as int))
    }
}

/// [`bound_seq_wf`] is the element-wise conjunction it looks like.
pub proof fn lemma_bound_seq_wf(s: Seq<SpecBound>)
    ensures
        bound_seq_wf(s) <==> (forall|i: int| 0 <= i < s.len() ==> (#[trigger] s[i]).wf()),
    decreases s.len(),
{
    if s.len() > 0 {
        lemma_bound_seq_wf(s.subrange(1, s.len() as int));
        if bound_seq_wf(s) {
            assert forall|i: int| 0 <= i < s.len() implies (#[trigger] s[i]).wf() by {
                if i > 0 {
                    assert(s.subrange(1, s.len() as int)[i - 1] == s[i]);
                }
            }
        }
        if forall|i: int| 0 <= i < s.len() ==> (#[trigger] s[i]).wf() {
            assert forall|i: int|
                0 <= i < s.len() - 1 implies (#[trigger] s.subrange(1, s.len() as int)[i]).wf() by {
                assert(s.subrange(1, s.len() as int)[i] == s[i + 1]);
            }
        }
    }
}

impl SpecPredicate {
    pub open spec fn wf(self) -> bool {
        bound_seq_wf(self.bounds)
    }
}

impl SpecWherePredicate {
    pub open spec fn wf(self) -> bool {
        match self {
            SpecWherePredicate::Type { pred } => pred.wf(),
            SpecWherePredicate::Verbatim { .. } => true,
        }
    }
}

impl SpecTypeParam {
    pub open spec fn wf(self) -> bool {
        bound_seq_wf(self.bounds)
    }
}

impl SpecGenericParam {
    pub open spec fn wf(self) -> bool {
        match self {
            SpecGenericParam::Type { param } => param.wf(),
            SpecGenericParam::Verbatim { .. } => true,
        }
    }
}

impl SpecTraitDecl {
    /// Everything the rewriting will look into is well-formed.
    pub open spec fn wf(self) -> bool {
        &&& forall|i: int| 0 <= i < self.params.len() ==> (#[trigger] self.params[i]).wf()
        &&& forall|i: int|
            0 <= i < self.predicates.len() ==> (#[trigger] self.predicates[i]).wf()
    }
}

impl Bound {
    /// Whether the bound is well-formed (see [`SpecBound::wf`]).
    pub fn is_well_formed(&self) -> (r: bool)
        ensures
            r == self.deep_view().wf(),
        decreases self, 0int,
    {
        match self {
            Bound::Trait { path, .. } => path.segments.len() > 0,
            Bound::Lifetime { .. } => true,
            Bound::Verbatim { .. } => true,
            Bound::Implied { krate, bounds, .. } => {
                let r = krate.segments.len() > 0 && bounds_well_formed(bounds);
                proof {
                    lemma_bounds_deep_view(*bounds);
                }
                r
            },
        }
    }
}

/// Whether every bound of the list is well-formed (see [`bound_seq_wf`]).
pub fn bounds_well_formed(v: &Vec<Bound>) -> (r: bool)
    ensures
        r == bound_seq_wf(v.deep_view()),
    decreases *v, 1int,
{
    proof {
        lemma_bound_seq_wf(v.deep_view());
    }
    let n = v.len();
    let mut i: usize = 0;
    while i < n
        invariant
            n == v.len(),
            0 <= i <= n,
            forall|j: int| 0 <= j < i ==> (#[trigger] v.deep_view()[j]).wf(),
        decreases n - i,
    {
        if !v[i].is_well_formed() {
            proof {
                lemma_bound_seq_wf(v.deep_view());
                assert(!v.deep_view()[i as int].wf());
                assert(!bound_seq_wf(v.deep_view()));
            }
            return false;
        }
        i += 1;
    }
    proof {
        lemma_bound_seq_wf(v.deep_view());
    }
    true
}

impl TraitDecl {
    /// Whether everything the rewriting will look into is well-formed: no
    /// trait bound anywhere in the parameters or the `where` clause has an
    /// empty path (see [`SpecTraitDecl::wf`]). A declaration produced by a
    /// real parser always is.
    pub fn is_well_formed(&self) -> (r: bool)
        ensures
            r == self.deep_view().wf(),
    {
        let n_params = self.params.len();
        let mut i: usize = 0;
        while i < n_params
            invariant
                n_params == self.params.len(),
                0 <= i <= n_params,
                forall|j: int| 0 <= j < i ==> (#[trigger] self.deep_view().params[j]).wf(),
            decreases n_params - i,
        {
            let ok = match &self.params[i] {
                GenericParam::Type { param } => bounds_well_formed(&param.bounds),
                GenericParam::Verbatim { .. } => true,
            };
            if !ok {
                proof {
                    assert(!self.deep_view().params[i as int].wf());
                }
                return false;
            }
            i += 1;
        }
        let n_preds = self.predicates.len();
        let mut k: usize = 0;
        while k < n_preds
            invariant
                n_preds == self.predicates.len(),
                0 <= k <= n_preds,
                forall|j: int| 0 <= j < self.deep_view().params.len() ==> (
                #[trigger] self.deep_view().params[j]).wf(),
                forall|j: int| 0 <= j < k ==> (#[trigger] self.deep_view().predicates[j]).wf(),
            decreases n_preds - k,
        {
            let ok = match &self.predicates[k] {
                WherePredicate::Type { pred } => bounds_well_formed(&pred.bounds),
                WherePredicate::Verbatim { .. } => true,
            };
            if !ok {
                proof {
                    assert(!self.deep_view().predicates[k as int].wf());
                }
                return false;
            }
            k += 1;
        }
        true
    }
}

// ---------------------------------------------------------------------------
// The literal-`Self` test
// ---------------------------------------------------------------------------

impl SpecTypeExpr {
    /// Whether the type is, syntactically, the lone identifier `Self`.
    ///
    /// This is a purely syntactic test, on purpose: a parenthesized or
    /// macro-produced spelling of `Self` is *not* recognized, and the
    /// predicate it subjects is then treated as free-standing. That blind
    /// spot is a documented opt-out for users who want to keep such a
    /// predicate as a plain clause.
    pub open spec fn is_self(self) -> bool {
        match self {
            SpecTypeExpr::Path { qself, path, .. } => {
                &&& !qself
                &&& !path.leading_colon
                &&& path.segments.len() == 1
                &&& path.segments[0].ident == "Self"@
                &&& path.segments[0].args is Bare
            },
            SpecTypeExpr::Verbatim { .. } => false,
        }
    }

    /// Span of the type's leading token.
    pub open spec fn leading_span(self) -> Span {
        match self {
            SpecTypeExpr::Path { span, .. } => span,
            SpecTypeExpr::Verbatim { span, .. } => span,
        }
    }
}

impl TypeExpr {
    /// Span of the type's leading token.
    pub fn leading_span(&self) -> (r: Span)
        ensures
            r == self.deep_view().leading_span(),
    {
        match self {
            TypeExpr::Path { span, .. } => *span,
            TypeExpr::Verbatim { span, .. } => *span,
        }
    }

    /// Whether the type is, syntactically, the lone identifier `Self`
    /// (see [`SpecTypeExpr::is_self`]).
    pub fn is_self(&self) -> (r: bool)
        ensures
            r == self.deep_view().is_self(),
    {
        match self {
            TypeExpr::Path { qself, path, .. } => {
                !*qself && !path.leading_colon && path.segments.len() == 1 && path.segments[0].ident
                    == "Self".to_owned() && matches!(path.segments[0].args, PathArgs::Bare)
            },
            TypeExpr::Verbatim { .. } => false,
        }
    }
}

// ---------------------------------------------------------------------------
// Span ranges
// ---------------------------------------------------------------------------

/// The span range covered by a bound list: from the first bound's leading
/// token to the last bound's; the whole-invocation range when the list is
/// empty.
pub open spec fn spec_bounds_span_range(s: Seq<SpecBound>) -> SpanRange {
    if s.len() == 0 {
        SpanRange { start: Span::spec_mixed_site(), end: Span::spec_mixed_site() }
    } else {
        SpanRange { start: s[0].leading_span(), end: s[s.len() - 1].leading_span() }
    }
}

impl Bound {
    /// Span of the bound's leading token.
    pub fn leading_span(&self) -> (r: Span)
        ensures
            r == self.deep_view().leading_span(),
    {
        match self {
            Bound::Trait { span, .. } => *span,
            Bound::Lifetime { span, .. } => *span,
            Bound::Verbatim { span, .. } => *span,
            Bound::Implied { span, .. } => *span,
        }
    }
}

/// The span range covered by a bound list (see [`spec_bounds_span_range`]).
pub fn bounds_span_range(v: &Vec<Bound>) -> (r: SpanRange)
    ensures
        r == spec_bounds_span_range(v.deep_view()),
{
    if v.len() == 0 {
        SpanRange::full()
    } else {
        SpanRange { start: v[0].leading_span(), end: v[v.len() - 1].leading_span() }
    }
}

// ---------------------------------------------------------------------------
// Deep copies
// ---------------------------------------------------------------------------
//
// The rewriting sometimes leaves a verbatim copy of a bound list at its
// original site. These functions produce copies that provably have the same
// deep view as their original.

impl PathSegment {
    /// A copy with the same deep view.
    pub fn duplicate(&self) -> (r: PathSegment)
        ensures
            r.deep_view() == self.deep_view(),
    {
        PathSegment {
            ident: self.ident.clone(),
            args: match &self.args {
                PathArgs::Bare => PathArgs::Bare,
                PathArgs::AngleBracketed { tokens } => PathArgs::AngleBracketed {
                    tokens: tokens.clone(),
                },
                PathArgs::Parenthesized { tokens } => PathArgs::Parenthesized {
                    tokens: tokens.clone(),
                },
            },
        }
    }
}

impl Path {
    /// A copy with the same deep view.
    pub fn duplicate(&self) -> (r: Path)
        ensures
            r.deep_view() == self.deep_view(),
    {
        let mut segments: Vec<PathSegment> = Vec::new();
        let n = self.segments.len();
        for i in 0..n
            invariant
                n == self.segments.len(),
                segments.len() == i,
                forall|j: int|
                    0 <= j < i ==> segments@[j].deep_view() == self.segments@[j].deep_view(),
        {
            segments.push(self.segments[i].duplicate());
        }
        let r = Path { leading_colon: self.leading_colon, segments };
        proof {
            assert(r.deep_view().segments =~= self.deep_view().segments);
        }
        r
    }
}

impl TypeExpr {
    /// A copy with the same deep view.
    pub fn duplicate(&self) -> (r: TypeExpr)
        ensures
            r.deep_view() == self.deep_view(),
    {
        match self {
            TypeExpr::Path { qself, path, span } => TypeExpr::Path {
                qself: *qself,
                path: path.duplicate(),
                span: *span,
            },
            TypeExpr::Verbatim { tokens, span } => TypeExpr::Verbatim {
                tokens: tokens.clone(),
                span: *span,
            },
        }
    }
}

/// A copy of a list of plain strings with the same deep view.
pub fn duplicate_strings(v: &Vec<String>) -> (r: Vec<String>)
    ensures
        r.deep_view() == v.deep_view(),
{
    let mut r: Vec<String> = Vec::new();
    let n = v.len();
    for i in 0..n
        invariant
            n == v.len(),
            r.len() == i,
            forall|j: int| 0 <= j < i ==> r.deep_view()[j] == v.deep_view()[j],
    {
        r.push(v[i].clone());
    }
    proof {
        assert(r.deep_view() =~= v.deep_view());
    }
    r
}

impl Bound {
    /// A copy with the same deep view.
    pub fn duplicate(&self) -> (r: Bound)
        ensures
            r.deep_view() == self.deep_view(),
        decreases self, 0int,
    {
        match self {
            Bound::Trait { quantifiers, maybe, path, span } => Bound::Trait {
                quantifiers: duplicate_strings(quantifiers),
                maybe: *maybe,
                path: path.duplicate(),
                span: *span,
            },
            Bound::Lifetime { name, span } => Bound::Lifetime {
                name: name.clone(),
                span: *span,
            },
            Bound::Verbatim { tokens, span } => Bound::Verbatim {
                tokens: tokens.clone(),
                span: *span,
            },
            Bound::Implied { krate, subject, bounds, span, close_span } => {
                let inner = duplicate_bounds(bounds);
                proof {
                    lemma_bounds_deep_view(*bounds);
                    lemma_bounds_deep_view(inner);
                }
                Bound::Implied {
                    krate: krate.duplicate(),
                    subject: subject.duplicate(),
                    bounds: inner,
                    span: *span,
                    close_span: *close_span,
                }
            },
        }
    }
}

/// A copy of a bound list with the same deep view.
pub fn duplicate_bounds(v: &Vec<Bound>) -> (r: Vec<Bound>)
    ensures
        r.deep_view() == v.deep_view(),
    decreases *v, 1int,
{
    let mut r: Vec<Bound> = Vec::new();
    let n = v.len();
    for i in 0..n
        invariant
            n == v.len(),
            r.len() == i,
            forall|j: int| 0 <= j < i ==> r@[j].deep_view() == v@[j].deep_view(),
        decreases n - i,
    {
        r.push(v[i].duplicate());
    }
    proof {
        assert(r.deep_view() =~= v.deep_view());
    }
    r
}

impl Predicate {
    /// A copy with the same deep view.
    pub fn duplicate(&self) -> (r: Predicate)
        ensures
            r.deep_view() == self.deep_view(),
    {
        Predicate {
            quantifiers: duplicate_strings(&self.quantifiers),
            subject: self.subject.duplicate(),
            bounds: duplicate_bounds(&self.bounds),
            span: self.span,
        }
    }
}

impl WherePredicate {
    /// A copy with the same deep view.
    pub fn duplicate(&self) -> (r: WherePredicate)
        ensures
            r.deep_view() == self.deep_view(),
    {
        match self {
            WherePredicate::Type { pred } => WherePredicate::Type { pred: pred.duplicate() },
            WherePredicate::Verbatim { tokens, span } => WherePredicate::Verbatim {
                tokens: tokens.clone(),
                span: *span,
            },
        }
    }
}

impl GenericParam {
    /// A copy with the same deep view.
    pub fn duplicate(&self) -> (r: GenericParam)
        ensures
            r.deep_view() == self.deep_view(),
    {
        match self {
            GenericParam::Type { param } => GenericParam::Type {
                param: TypeParam {
                    ident: param.ident.clone(),
                    ident_span: param.ident_span,
                    has_colon: param.has_colon,
                    bounds: duplicate_bounds(&param.bounds),
                },
            },
            GenericParam::Verbatim { tokens, span } => GenericParam::Verbatim {
                tokens: tokens.clone(),
                span: *span,
            },
        }
    }
}

impl SpecPredicate {
    /// The span range covered by the predicate: from its leading token to
    /// its last bound.
    pub open spec fn span_range(self) -> SpanRange {
        if self.bounds.len() == 0 {
            SpanRange { start: self.span, end: self.span }
        } else {
            SpanRange { start: self.span, end: self.bounds[self.bounds.len() - 1].leading_span() }
        }
    }
}

impl Predicate {
    /// The span range covered by the predicate (see
    /// [`SpecPredicate::span_range`]).
    pub fn span_range(&self) -> (r: SpanRange)
        ensures
            r == self.deep_view().span_range(),
    {
        if self.bounds.len() == 0 {
            SpanRange { start: self.span, end: self.span }
        } else {
            SpanRange {
                start: self.span,
                end: self.bounds[self.bounds.len() - 1].leading_span(),
            }
        }
    }
}

} // verus!
