//! The message that an expired directive is reported with.
//!
//! A deadline is reported as `TODO by Jan 1, 2020 has passed`, a version
//! requirement with its canonical text and the current version. Where the
//! annotation carries a note, a colon, a space and the note follow.

use crate::context::{ContextView, EvaluationContext};
use crate::directive::{Directive, DirectiveView};
use crate::text::borrowed_text;
use crate::version::{requirement_display, version_display};
use vstd::prelude::*;
use vstd::string::StringExecFns;

verus! {

/// What a note adds to a message: a colon, a space and the note; nothing
/// where there is no note.
pub open spec fn note_suffix(message: Option<Seq<char>>) -> Seq<char> {
    match message {
        Some(note) => ": "@ + note,
        None => Seq::empty(),
    }
}

/// The report of a deadline that has passed; `deadline` is the rendered date.
pub open spec fn deadline_notice(deadline: Seq<char>, message: Option<Seq<char>>) -> Seq<char> {
    "TODO by "@ + deadline + " has passed"@ + note_suffix(message)
}

/// The words between a requirement and the current version: whether the
/// version has come to satisfy the requirement, or has ceased to.
pub open spec fn version_phrase(satisfied: bool) -> Seq<char> {
    if satisfied {
        "' satisfied by current v"@
    } else {
        "' not satisfied by current v"@
    }
}

/// The report of a version requirement that the current version has come to
/// satisfy, or has ceased to; both are given as rendered.
pub open spec fn version_notice(
    satisfied: bool,
    requirement: Seq<char>,
    version: Seq<char>,
    message: Option<Seq<char>>,
) -> Seq<char> {
    "TODO version requirement '"@ + requirement + version_phrase(satisfied) + version
        + note_suffix(message)
}

/// The message for `directive` in `context`. For a version directive it is
/// meant where the context holds a current version.
pub open spec fn rendered_message(directive: DirectiveView, context: ContextView) -> Seq<char> {
    match directive {
        DirectiveView::ByDate { deadline, message } => deadline_notice(deadline.text(), message),
        DirectiveView::BeforeVersion { requirement, message } => version_notice(
            true,
            requirement_display(requirement).unwrap(),
            version_display(context.current_version.unwrap()).unwrap(),
            message,
        ),
        DirectiveView::WhileVersionMatches { requirement, message } => version_notice(
            false,
            requirement_display(requirement).unwrap(),
            version_display(context.current_version.unwrap()).unwrap(),
            message,
        ),
    }
}

/// Appends the note, where there is one, to a message.
fn append_note(text: &mut String, message: Option<&str>)
    ensures
        final(text)@ == old(text)@ + note_suffix(borrowed_text(message)),
{
    match message {
        Some(note) => {
            text.append(": ");
            text.append(note);
        },
        None => {},
    }
}

/// Composes the report of a deadline that has passed from the rendered date
/// and the note.
pub fn compose_deadline_notice(deadline: &str, message: Option<&str>) -> (text: String)
    ensures
        text@ == deadline_notice(deadline@, borrowed_text(message)),
{
    let mut text = "TODO by ".to_owned();
    text.append(deadline);
    text.append(" has passed");
    append_note(&mut text, message);
    text
}

/// Composes the report of a version requirement from the rendered
/// requirement, the rendered current version and the note. `satisfied` tells
/// whether the version has come to satisfy the requirement or has ceased to.
pub fn compose_version_notice(
    satisfied: bool,
    requirement: &str,
    version: &str,
    message: Option<&str>,
) -> (text: String)
    ensures
        text@ == version_notice(satisfied, requirement@, version@, borrowed_text(message)),
{
    let mut text = "TODO version requirement '".to_owned();
    text.append(requirement);
    if satisfied {
        text.append("' satisfied by current v");
    } else {
        text.append("' not satisfied by current v");
    }
    text.append(version);
    append_note(&mut text, message);
    text
}

/// Renders the message that `directive` is reported with once it has
/// expired in `context`.
///
/// A deadline always has a message. A version directive has one where the
/// context holds a current version, which its message names; without one
/// there is nothing to report, and the answer is `None`.
pub fn format(directive: &Directive, context: &EvaluationContext) -> (text: Option<String>)
    ensures
        text is Some <==> (directive@ is ByDate || context@.current_version is Some),
        text matches Some(t) ==> t@ == rendered_message(directive@, context@),
{
    match directive {
        Directive::ByDate { deadline, .. } => {
            let shown = deadline.text();
            Some(compose_deadline_notice(shown.as_str(), directive.message()))
        },
        Directive::BeforeVersion { requirement, .. } => match &context.current_version {
            Some(version) => {
                let required = requirement.text();
                let current = version.text();
                Some(
                    compose_version_notice(
                        true,
                        required.as_str(),
                        current.as_str(),
                        directive.message(),
                    ),
                )
            },
            None => None,
        },
        Directive::WhileVersionMatches { requirement, .. } => match &context.current_version {
            Some(version) => {
                let required = requirement.text();
                let current = version.text();
                Some(
                    compose_version_notice(
                        false,
                        required.as_str(),
                        current.as_str(),
                        directive.message(),
                    ),
                )
            },
            None => None,
        },
    }
}

} // verus!
