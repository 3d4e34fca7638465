//! Directives: an expiry condition and an optional note.
//!
//! A directive is built from the literals that an annotation carries: a
//! primary literal, which is a deadline or a version requirement, and an
//! optional secondary literal, which is the note. The caller chooses the kind
//! of directive; the primary literal is read accordingly, and a literal that
//! cannot be read is refused on the spot.

use crate::date::{deadline_in, CalendarDate, Ymd};
use crate::text::{borrowed_text, owned_text};
use crate::version::{is_requirement, VersionRequirement};
use vstd::prelude::*;

verus! {

/// An expiring annotation, validated.
#[derive(Debug, PartialEq, Eq)]
pub enum Directive {
    /// Lives through the deadline day and expires on the day after it.
    ByDate { deadline: CalendarDate, message: Option<String> },
    /// Lives until the current version matches the requirement.
    BeforeVersion { requirement: VersionRequirement, message: Option<String> },
    /// Lives as long as the current version matches the requirement.
    WhileVersionMatches { requirement: VersionRequirement, message: Option<String> },
}

/// A directive as mathematical values: the deadline as a year, a month and a
/// day, the requirement as the text it was read from, the note as its
/// characters.
pub enum DirectiveView {
    ByDate { deadline: Ymd, message: Option<Seq<char>> },
    BeforeVersion { requirement: Seq<char>, message: Option<Seq<char>> },
    WhileVersionMatches { requirement: Seq<char>, message: Option<Seq<char>> },
}

/// Why the literals of an annotation make no directive.
#[derive(Clone, Copy, Debug, PartialEq, Eq)]
pub enum DirectiveError {
    /// The primary literal is not a date.
    InvalidDate,
    /// The primary literal is not a version requirement.
    InvalidVersionRequirement,
}

impl View for Directive {
    type V = DirectiveView;

    open spec fn view(&self) -> DirectiveView {
        match *self {
            Directive::ByDate { deadline, message } => DirectiveView::ByDate {
                deadline: deadline@,
                message: owned_text(message),
            },
            Directive::BeforeVersion { requirement, message } => DirectiveView::BeforeVersion {
                requirement: requirement@,
                message: owned_text(message),
            },
            Directive::WhileVersionMatches {
                requirement,
                message,
            } => DirectiveView::WhileVersionMatches {
                requirement: requirement@,
                message: owned_text(message),
            },
        }
    }
}

impl DirectiveView {
    /// The deadline is a day of the calendar, or the requirement text denotes
    /// a requirement.
    pub open spec fn is_valid(self) -> bool {
        match self {
            DirectiveView::ByDate { deadline, .. } => deadline.is_valid(),
            DirectiveView::BeforeVersion { requirement, .. } => is_requirement(requirement),
            DirectiveView::WhileVersionMatches { requirement, .. } => is_requirement(requirement),
        }
    }

    /// The note.
    pub open spec fn message(self) -> Option<Seq<char>> {
        match self {
            DirectiveView::ByDate { message, .. } => message,
            DirectiveView::BeforeVersion { message, .. } => message,
            DirectiveView::WhileVersionMatches { message, .. } => message,
        }
    }

    /// The same condition with another note, or with none.
    pub open spec fn with_message(self, message: Option<Seq<char>>) -> DirectiveView {
        match self {
            DirectiveView::ByDate { deadline, .. } => DirectiveView::ByDate { deadline, message },
            DirectiveView::BeforeVersion { requirement, .. } => DirectiveView::BeforeVersion {
                requirement,
                message,
            },
            DirectiveView::WhileVersionMatches {
                requirement,
                ..
            } => DirectiveView::WhileVersionMatches { requirement, message },
        }
    }
}

/// What the literals of a deadline annotation make.
pub open spec fn by_date_of(primary: Seq<char>, secondary: Option<Seq<char>>) -> Result<
    DirectiveView,
    DirectiveError,
> {
    match deadline_in(primary) {
        Some(deadline) => Ok(DirectiveView::ByDate { deadline, message: secondary }),
        None => Err(DirectiveError::InvalidDate),
    }
}

/// What the literals of a "before version" annotation make.
pub open spec fn before_version_of(primary: Seq<char>, secondary: Option<Seq<char>>) -> Result<
    DirectiveView,
    DirectiveError,
> {
    if is_requirement(primary) {
        Ok(DirectiveView::BeforeVersion { requirement: primary, message: secondary })
    } else {
        Err(DirectiveError::InvalidVersionRequirement)
    }
}

/// What the literals of a "while version matches" annotation make.
pub open spec fn while_version_matches_of(
    primary: Seq<char>,
    secondary: Option<Seq<char>>,
) -> Result<DirectiveView, DirectiveError> {
    if is_requirement(primary) {
        Ok(DirectiveView::WhileVersionMatches { requirement: primary, message: secondary })
    } else {
        Err(DirectiveError::InvalidVersionRequirement)
    }
}

/// A constructor's outcome as mathematical values.
pub open spec fn directive_outcome(outcome: Result<Directive, DirectiveError>) -> Result<
    DirectiveView,
    DirectiveError,
> {
    match outcome {
        Ok(directive) => Ok(directive@),
        Err(error) => Err(error),
    }
}

/// An owned copy of the note, if there is one.
fn keep_message(secondary: Option<&str>) -> (message: Option<String>)
    ensures
        owned_text(message) == borrowed_text(secondary),
{
    match secondary {
        Some(note) => Some(note.to_owned()),
        None => None,
    }
}

impl Directive {
    /// A directive that expires once `primary`, a date such as `2030-01-01`,
    /// has passed.
    pub fn by_date(primary: &str, secondary: Option<&str>) -> (outcome: Result<
        Directive,
        DirectiveError,
    >)
        ensures
            directive_outcome(outcome) == by_date_of(primary@, borrowed_text(secondary)),
            outcome matches Ok(directive) ==> directive@.is_valid(),
    {
        match CalendarDate::parse(primary) {
            Some(deadline) => {
                proof {
                    use_type_invariant(&deadline);
                }
                Ok(Directive::ByDate { deadline, message: keep_message(secondary) })
            },
            None => Err(DirectiveError::InvalidDate),
        }
    }

    /// A directive that expires once the current version matches `primary`,
    /// a version requirement such as `>=2.0.0`.
    pub fn before_version(primary: &str, secondary: Option<&str>) -> (outcome: Result<
        Directive,
        DirectiveError,
    >)
        ensures
            directive_outcome(outcome) == before_version_of(primary@, borrowed_text(secondary)),
            outcome matches Ok(directive) ==> directive@.is_valid(),
    {
        match VersionRequirement::parse(primary) {
            Some(requirement) => Ok(
                Directive::BeforeVersion { requirement, message: keep_message(secondary) },
            ),
            None => Err(DirectiveError::InvalidVersionRequirement),
        }
    }

    /// A directive that expires once the current version no longer matches
    /// `primary`, a version requirement such as `<2.0.0`.
    pub fn while_version_matches(primary: &str, secondary: Option<&str>) -> (outcome: Result<
        Directive,
        DirectiveError,
    >)
        ensures
            directive_outcome(outcome) == while_version_matches_of(
                primary@,
                borrowed_text(secondary),
            ),
            outcome matches Ok(directive) ==> directive@.is_valid(),
    {
        match VersionRequirement::parse(primary) {
            Some(requirement) => Ok(
                Directive::WhileVersionMatches { requirement, message: keep_message(secondary) },
            ),
            None => Err(DirectiveError::InvalidVersionRequirement),
        }
    }

    /// The note, if the annotation carries one.
    pub fn message(&self) -> (message: Option<&str>)
        ensures
            borrowed_text(message) == self@.message(),
    {
        let kept = match self {
            Directive::ByDate { message, .. } => message,
            Directive::BeforeVersion { message, .. } => message,
            Directive::WhileVersionMatches { message, .. } => message,
        };
        match kept {
            Some(note) => Some(note.as_str()),
            None => None,
        }
    }
}

} // verus!
