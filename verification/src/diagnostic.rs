//! What is handed to the host once a directive has expired.
//!
//! The library asks for a failure whenever a directive has expired. Whether
//! the host softens that to a warning in some builds is the host's policy and
//! is not decided here.

use crate::evaluate::{Verdict, VerdictView};
use vstd::prelude::*;

verus! {

/// How the host is asked to treat a diagnostic.
#[derive(Clone, Copy, Debug, PartialEq, Eq)]
pub enum Severity {
    /// Stop the build.
    Fatal,
    /// Report and go on.
    Warning,
}

/// A message for the host, and how it is asked to treat it.
#[derive(Debug, PartialEq, Eq)]
pub struct Diagnostic {
    pub message: String,
    pub severity: Severity,
}

/// A diagnostic as mathematical values.
pub struct DiagnosticView {
    pub message: Seq<char>,
    pub severity: Severity,
}

impl View for Diagnostic {
    type V = DiagnosticView;

    open spec fn view(&self) -> DiagnosticView {
        DiagnosticView { message: self.message@, severity: self.severity }
    }
}

/// What the host is handed: nothing while the directive is active, its
/// message as a failure once it has expired.
pub open spec fn report_of(verdict: VerdictView) -> Option<DiagnosticView> {
    match verdict {
        VerdictView::Active => None,
        VerdictView::Expired { rendered_message } => Some(
            DiagnosticView { message: rendered_message, severity: Severity::Fatal },
        ),
    }
}

/// The view of an optional diagnostic.
pub open spec fn reported(diagnostic: Option<Diagnostic>) -> Option<DiagnosticView> {
    match diagnostic {
        Some(d) => Some(d@),
        None => None,
    }
}

/// The diagnostic that fails the build with `msg`.
pub fn trigger_error_message(msg: String) -> (diagnostic: Diagnostic)
    ensures
        diagnostic@ == (DiagnosticView { message: msg@, severity: Severity::Fatal }),
{
    Diagnostic { message: msg, severity: Severity::Fatal }
}

impl Verdict {
    /// What the host is handed: nothing while the directive is active, a
    /// failure with the rendered message once it has expired.
    pub fn diagnostic(self) -> (diagnostic: Option<Diagnostic>)
        ensures
            reported(diagnostic) == report_of(self@),
    {
        match self {
            Verdict::Active => None,
            Verdict::Expired { rendered_message } => Some(trigger_error_message(rendered_message)),
        }
    }
}

} // verus!
