//! Laws that relate the parts of the library.

use crate::context::{resolved_text, resolved_version, ContextView};
use crate::date::{lemma_date_text_has_no_colon, Ymd};
use crate::directive::DirectiveView;
use crate::evaluate::{verdict_of, VerdictView};
use crate::message::{note_suffix, rendered_message};
use crate::text::{ends_with, has_no_colon, lemma_colon_free_text_has_colon_free_ends};
use crate::version::{is_requirement, is_version, requirement_holds};
use vstd::prelude::*;

verus! {

/// On the deadline day itself a deadline is still active, whatever the note
/// and the current version.
pub proof fn deadline_day_is_active(
    day: Ymd,
    message: Option<Seq<char>>,
    current_version: Option<Seq<char>>,
)
    requires
        day.is_valid(),
    ensures
        verdict_of(
            DirectiveView::ByDate { deadline: day, message },
            ContextView { today: day, current_version },
        ) is Active,
{
}

/// On the day after the deadline a deadline has expired, whatever the note
/// and the current version. The deadline must have a following day, which
/// every day but the last day of the last year has.
pub proof fn day_after_deadline_is_expired(
    day: Ymd,
    message: Option<Seq<char>>,
    current_version: Option<Seq<char>>,
)
    requires
        day.is_valid(),
        day.next().is_valid(),
    ensures
        verdict_of(
            DirectiveView::ByDate { deadline: day, message },
            ContextView { today: day.next(), current_version },
        ) is Expired,
{
}

/// The order of calendar days is strict and total: no day comes before
/// itself, of two different days exactly one comes first, and what comes
/// before an earlier day comes before every later one.
pub proof fn calendar_order_is_strict_and_total(a: Ymd, b: Ymd, c: Ymd)
    ensures
        !a.precedes(a),
        a.precedes(b) ==> !b.precedes(a),
        a.precedes(b) && b.precedes(c) ==> a.precedes(c),
        a.precedes(b) || b.precedes(a) || a == b,
{
}

/// A deadline that has expired stays expired on every later day.
pub proof fn expired_deadline_stays_expired(
    deadline: Ymd,
    message: Option<Seq<char>>,
    earlier: ContextView,
    later: ContextView,
)
    requires
        earlier.today.precedes(later.today),
        verdict_of(DirectiveView::ByDate { deadline, message }, earlier) is Expired,
    ensures
        verdict_of(DirectiveView::ByDate { deadline, message }, later) is Expired,
{
}

/// The day after a day of the calendar is again a day of the calendar,
/// except after the last day of the last year, and it comes strictly later.
pub proof fn next_day_follows(day: Ymd)
    requires
        day.is_valid(),
    ensures
        day.precedes(day.next()),
        !day.next().precedes(day),
        day.next().is_valid() <==> !(day.year == crate::date::MAX_YEAR && day.month == 12 && day.day
            == 31),
{
}

/// A "before version" directive has expired under a current version exactly
/// when its requirement matches that version.
pub proof fn before_version_expires_on_match(
    requirement: Seq<char>,
    version: Seq<char>,
    message: Option<Seq<char>>,
    today: Ymd,
)
    requires
        is_requirement(requirement),
        is_version(version),
    ensures
        verdict_of(
            DirectiveView::BeforeVersion { requirement, message },
            ContextView { today, current_version: Some(version) },
        ) is Expired <==> requirement_holds(requirement, version),
{
}

/// A "while version matches" directive has expired under a current version
/// exactly when its requirement does not match that version.
pub proof fn while_version_expires_off_match(
    requirement: Seq<char>,
    version: Seq<char>,
    message: Option<Seq<char>>,
    today: Ymd,
)
    requires
        is_requirement(requirement),
        is_version(version),
    ensures
        verdict_of(
            DirectiveView::WhileVersionMatches { requirement, message },
            ContextView { today, current_version: Some(version) },
        ) is Expired <==> !requirement_holds(requirement, version),
{
}

/// Without a current version both version directives are active.
pub proof fn unresolved_version_is_active(
    requirement: Seq<char>,
    message: Option<Seq<char>>,
    today: Ymd,
)
    ensures
        verdict_of(
            DirectiveView::BeforeVersion { requirement, message },
            ContextView { today, current_version: None },
        ) is Active,
        verdict_of(
            DirectiveView::WhileVersionMatches { requirement, message },
            ContextView { today, current_version: None },
        ) is Active,
{
}

/// Under one current version the two version directives with one requirement
/// never agree: exactly one of them has expired.
pub proof fn version_directives_are_opposite(
    requirement: Seq<char>,
    version: Seq<char>,
    message: Option<Seq<char>>,
    today: Ymd,
)
    requires
        is_requirement(requirement),
        is_version(version),
    ensures
        verdict_of(
            DirectiveView::BeforeVersion { requirement, message },
            ContextView { today, current_version: Some(version) },
        ) is Expired <==> verdict_of(
            DirectiveView::WhileVersionMatches { requirement, message },
            ContextView { today, current_version: Some(version) },
        ) is Active,
{
}

/// An override decides the current version alone: whatever the manifest
/// declares, the resolved text is the override, and the resolved version is
/// the override where it denotes a version.
pub proof fn override_takes_precedence(
    stub: Seq<char>,
    declared: Option<Seq<char>>,
    other: Option<Seq<char>>,
)
    ensures
        resolved_text(Some(stub), declared) == Some(stub),
        resolved_version(Some(stub), declared) == resolved_version(Some(stub), other),
        is_version(stub) ==> resolved_version(Some(stub), declared) == Some(stub),
        !is_version(stub) ==> resolved_version(Some(stub), declared) is None,
{
}

/// A note reappears at the end of the message behind a colon and a space:
/// the message with a note is the message without one, followed by `": "`
/// and the note, and so it ends with them.
pub proof fn note_is_the_suffix(directive: DirectiveView, context: ContextView, note: Seq<char>)
    ensures
        rendered_message(directive.with_message(Some(note)), context) == rendered_message(
            directive.with_message(None),
            context,
        ) + (": "@ + note),
        ends_with(rendered_message(directive.with_message(Some(note)), context), ": "@ + note),
{
    let bare = rendered_message(directive.with_message(None), context);
    let noted = rendered_message(directive.with_message(Some(note)), context);
    let suffix = ": "@ + note;
    assert(note_suffix(Some(note)) == suffix);
    assert(noted =~= bare + suffix);
    assert((bare + suffix).subrange(bare.len() as int, (bare + suffix).len() as int) =~= suffix);
}

/// The message of a deadline without a note ends with no colon, space and
/// note: it holds no colon at all.
pub proof fn deadline_without_note_has_no_suffix(
    deadline: Ymd,
    context: ContextView,
    note: Seq<char>,
)
    ensures
        has_no_colon(
            rendered_message(DirectiveView::ByDate { deadline, message: None }, context),
        ),
        !ends_with(
            rendered_message(DirectiveView::ByDate { deadline, message: None }, context),
            ": "@ + note,
        ),
{
    let bare = rendered_message(DirectiveView::ByDate { deadline, message: None }, context);
    let suffix = ": "@ + note;
    reveal_strlit("TODO by ");
    reveal_strlit(" has passed");
    reveal_strlit(": ");
    lemma_date_text_has_no_colon(deadline);
    assert(has_no_colon(bare));
    assert(suffix[0] == ':');
    lemma_colon_free_text_has_colon_free_ends(bare, suffix);
}

} // verus!
