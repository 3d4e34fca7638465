//! The decision: has a directive expired?
//!
//! | directive             | expired when                                              |
//! |-----------------------|-----------------------------------------------------------|
//! | `ByDate`              | the deadline lies strictly before today                   |
//! | `BeforeVersion`       | there is a current version and the requirement matches it |
//! | `WhileVersionMatches` | there is a current version and the requirement fails it   |
//!
//! The deadline day itself is not yet expired. Without a current version no
//! version directive expires: there is nothing to hold the requirement
//! against. The two version directives are opposite on purpose and are never
//! folded into one rule.

use crate::context::{ContextView, EvaluationContext};
use crate::date::{CalendarDate, Ymd};
use crate::directive::{Directive, DirectiveView};
use crate::message::rendered_message;
use crate::version::requirement_holds;
use vstd::pervasive::unreached;
use vstd::prelude::*;

verus! {

/// The outcome of judging a directive.
#[derive(Debug, PartialEq, Eq)]
pub enum Verdict {
    /// The condition still holds; nothing is to be reported.
    Active,
    /// The directive has expired and is to be reported with this message.
    Expired { rendered_message: String },
}

/// A verdict as mathematical values.
pub enum VerdictView {
    Active,
    Expired { rendered_message: Seq<char> },
}

impl View for Verdict {
    type V = VerdictView;

    open spec fn view(&self) -> VerdictView {
        match *self {
            Verdict::Active => VerdictView::Active,
            Verdict::Expired { rendered_message } => VerdictView::Expired {
                rendered_message: rendered_message@,
            },
        }
    }
}

/// What the requirement of `directive` says of the current version: whether
/// it matches. `None` for a deadline, and where there is no current version.
pub open spec fn requirement_finding(directive: DirectiveView, context: ContextView) -> Option<
    bool,
> {
    match directive {
        DirectiveView::ByDate { .. } => None,
        DirectiveView::BeforeVersion { requirement, .. } => match context.current_version {
            Some(version) => Some(requirement_holds(requirement, version)),
            None => None,
        },
        DirectiveView::WhileVersionMatches { requirement, .. } => match context.current_version {
            Some(version) => Some(requirement_holds(requirement, version)),
            None => None,
        },
    }
}

/// The rule of expiry, given today's date and what the requirement says of
/// the current version.
pub open spec fn expires(directive: DirectiveView, today: Ymd, finding: Option<bool>) -> bool {
    match directive {
        DirectiveView::ByDate { deadline, .. } => deadline.precedes(today),
        DirectiveView::BeforeVersion { .. } => finding == Some(true),
        DirectiveView::WhileVersionMatches { .. } => finding == Some(false),
    }
}

/// `directive` has expired in `context`.
pub open spec fn is_expired(directive: DirectiveView, context: ContextView) -> bool {
    expires(directive, context.today, requirement_finding(directive, context))
}

/// The verdict on `directive` in `context`.
pub open spec fn verdict_of(directive: DirectiveView, context: ContextView) -> VerdictView {
    if is_expired(directive, context) {
        VerdictView::Expired { rendered_message: rendered_message(directive, context) }
    } else {
        VerdictView::Active
    }
}

/// Holds the requirement of a version directive against the current version.
pub fn check_requirement(directive: &Directive, context: &EvaluationContext) -> (finding: Option<bool>)
    ensures
        finding == requirement_finding(directive@, context@),
{
    match directive {
        Directive::ByDate { .. } => None,
        Directive::BeforeVersion { requirement, .. } => match &context.current_version {
            Some(version) => Some(requirement.matches(version)),
            None => None,
        },
        Directive::WhileVersionMatches { requirement, .. } => match &context.current_version {
            Some(version) => Some(requirement.matches(version)),
            None => None,
        },
    }
}

/// Applies the rule of expiry. `finding` is what the requirement says of the
/// current version: `Some(true)` where it matches, `Some(false)` where it
/// does not, `None` where there is no current version; a deadline ignores it.
pub fn decide(directive: &Directive, today: &CalendarDate, finding: Option<bool>) -> (expired: bool)
    ensures
        expired == expires(directive@, today@, finding),
{
    match directive {
        Directive::ByDate { deadline, .. } => deadline.is_before(today),
        Directive::BeforeVersion { .. } => match finding {
            Some(matched) => matched,
            None => false,
        },
        Directive::WhileVersionMatches { .. } => match finding {
            Some(matched) => !matched,
            None => false,
        },
    }
}

/// Judges `directive` in `context`. It always gives a verdict.
pub fn evaluate(directive: &Directive, context: &EvaluationContext) -> (verdict: Verdict)
    ensures
        verdict@ == verdict_of(directive@, context@),
{
    let finding = check_requirement(directive, context);
    if decide(directive, &context.today, finding) {
        match crate::message::format(directive, context) {
            Some(rendered_message) => Verdict::Expired { rendered_message },
            None => unreached(),
        }
    } else {
        Verdict::Active
    }
}

} // verus!
