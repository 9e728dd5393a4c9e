//! Diagnostics.
//!
//! A [`Diagnostic`] is either a hard error — invalid input, which aborts the
//! transformation — or a soft warning, which is attached to successful
//! output and never blocks it. Both point at the original source through a
//! pair of spans.

use vstd::prelude::*;

use vstd::string::StringExecFns;

use crate::span::{Span, SpanRange};

verus! {

/// Whether a diagnostic aborts the transformation or merely informs.
#[derive(Clone, Copy, Debug, PartialEq, Eq, Structural)]
pub enum Severity {
    /// Invalid input: the transformation yields no output, only errors.
    Error,
    /// Informational: attached to successful output.
    Warning,
}

/// Deep view of [`Diagnostic`].
pub struct SpecDiagnostic {
    pub severity: Severity,
    pub start: Span,
    pub end: Span,
    pub message: Seq<char>,
}

/// One diagnostic, pointing from `start` to `end` in the original source.
#[derive(Debug, PartialEq, Eq)]
pub struct Diagnostic {
    pub severity: Severity,
    /// Span of the first token the diagnostic points at.
    pub start: Span,
    /// Span of the last token the diagnostic points at.
    pub end: Span,
    pub message: String,
}

impl DeepView for Diagnostic {
    type V = SpecDiagnostic;

    open spec fn deep_view(&self) -> SpecDiagnostic {
        SpecDiagnostic {
            severity: self.severity,
            start: self.start,
            end: self.end,
            message: self.message@,
        }
    }
}

/// The warning [`compile_warning`] builds for a range and a message.
///
/// The marker starts at the range's start span as it stands — keeping its
/// resolution, so that the warning is attributed to the user's own code —
/// and ends at the location of the range's end span. The message gets a
/// blank line in front so that it reads well under the note an attached
/// warning is rendered with.
pub open spec fn spec_compile_warning(range: SpanRange, message: Seq<char>) -> SpecDiagnostic {
    SpecDiagnostic {
        severity: Severity::Warning,
        start: range.start,
        end: range.end.spec_location(),
        message: "\n\n"@ + message,
    }
}

/// Build the warning that a span range and a message describe
/// (see [`spec_compile_warning`]).
pub fn compile_warning(range: SpanRange, message: &str) -> (r: Diagnostic)
    ensures
        r.deep_view() == spec_compile_warning(range, message@),
{
    let mut text: String = "\n\n".to_owned();
    text.append(message);
    Diagnostic {
        severity: Severity::Warning,
        start: range.start,
        end: range.end.location().bare(),
        message: text,
    }
}

/// The error [`error_at`] builds: both ends on the offending span.
pub open spec fn spec_error_at(span: Span, message: Seq<char>) -> SpecDiagnostic {
    SpecDiagnostic { severity: Severity::Error, start: span, end: span, message: message }
}

/// An error pointing at one span (see [`spec_error_at`]).
pub fn error_at(span: Span, message: &str) -> (r: Diagnostic)
    ensures
        r.deep_view() == spec_error_at(span, message@),
{
    Diagnostic {
        severity: Severity::Error,
        start: span,
        end: span,
        message: message.to_owned(),
    }
}

/// Whether some diagnostic of the sequence is an error.
pub open spec fn spec_has_errors(s: Seq<SpecDiagnostic>) -> bool {
    exists|i: int| 0 <= i < s.len() && s[i].severity == Severity::Error
}

/// The errors of the sequence, in order, without the warnings.
pub open spec fn spec_errors_of(s: Seq<SpecDiagnostic>) -> Seq<SpecDiagnostic> {
    s.filter(|d: SpecDiagnostic| d.severity == Severity::Error)
}

/// Whether some diagnostic of the list is an error
/// (see [`spec_has_errors`]).
pub fn has_errors(v: &Vec<Diagnostic>) -> (r: bool)
    ensures
        r == spec_has_errors(v.deep_view()),
{
    let mut i: usize = 0;
    let n = v.len();
    while i < n
        invariant
            n == v.len(),
            0 <= i <= n,
            forall|j: int| 0 <= j < i ==> v.deep_view()[j].severity != Severity::Error,
        decreases n - i,
    {
        if matches!(v[i].severity, Severity::Error) {
            proof {
                assert(v.deep_view()[i as int].severity == Severity::Error);
            }
            return true;
        }
        i += 1;
    }
    false
}

} // verus!
