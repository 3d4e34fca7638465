//! Expiring annotations: a deadline or a version condition attached to a note,
//! judged against today's date and the project's current version.
//!
//! An annotation is written with a primary literal, a date or a version
//! requirement, and an optional note. [`todo_by`] and [`todo_while_version`]
//! read the literals, judge the directive they make in a given context, and
//! answer with a [`Verdict`]: still active, or expired with a message for the
//! build to fail with.

pub mod context;
pub mod date;
pub mod diagnostic;
pub mod directive;
pub mod evaluate;
pub mod laws;
pub mod message;
pub mod text;
pub mod version;

use crate::context::{ContextView, EvaluationContext};
use crate::directive::{by_date_of, while_version_matches_of, Directive, DirectiveError, DirectiveView};
use crate::evaluate::{evaluate, verdict_of, Verdict, VerdictView};
use crate::text::borrowed_text;
use vstd::prelude::*;

verus! {

/// The verdict on what the literals made, or the reason they made nothing.
pub open spec fn judged(
    read: Result<DirectiveView, DirectiveError>,
    context: ContextView,
) -> Result<VerdictView, DirectiveError> {
    match read {
        Ok(directive) => Ok(verdict_of(directive, context)),
        Err(error) => Err(error),
    }
}

/// An outcome as mathematical values.
pub open spec fn verdict_outcome(outcome: Result<Verdict, DirectiveError>) -> Result<
    VerdictView,
    DirectiveError,
> {
    match outcome {
        Ok(verdict) => Ok(verdict@),
        Err(error) => Err(error),
    }
}

/// A lifetime for a TODO, with an optional note.
///
/// `primary` is the deadline as year, month and day, such as `2030-01-01`.
/// Once that day has passed in `context`, the verdict is `Expired` and
/// carries the message to fail the build with; until then it is `Active`.
/// A `primary` that is not a date is refused with `InvalidDate`.
pub fn todo_by(primary: &str, secondary: Option<&str>, context: &EvaluationContext) -> (outcome:
    Result<Verdict, DirectiveError>)
    ensures
        verdict_outcome(outcome) == judged(
            by_date_of(primary@, borrowed_text(secondary)),
            context@,
        ),
{
    match Directive::by_date(primary, secondary) {
        Ok(directive) => Ok(evaluate(&directive, context)),
        Err(error) => Err(error),
    }
}

/// A lifetime for a TODO that lasts while the project's version matches a
/// requirement, with an optional note.
///
/// `primary` is the requirement, such as `<2.0.0`. Once the current version
/// in `context` no longer matches it, the verdict is `Expired` and carries
/// the message to fail the build with; while it matches, and where the
/// context holds no current version, the verdict is `Active`. A `primary`
/// that is not a version requirement is refused with
/// `InvalidVersionRequirement`.
pub fn todo_while_version(
    primary: &str,
    secondary: Option<&str>,
    context: &EvaluationContext,
) -> (outcome: Result<Verdict, DirectiveError>)
    ensures
        verdict_outcome(outcome) == judged(
            while_version_matches_of(primary@, borrowed_text(secondary)),
            context@,
        ),
{
    match Directive::while_version_matches(primary, secondary) {
        Ok(directive) => Ok(evaluate(&directive, context)),
        Err(error) => Err(error),
    }
}

} // verus!
