//! The context a directive is judged in, and how the current version is
//! resolved.
//!
//! The current version comes from one of two places. An override, where one
//! is set, replaces the project manifest altogether, which then need not be
//! read; otherwise the version that the manifest declares is taken. Where
//! neither yields a version the context holds none, and no version directive
//! will expire. Today's date is the caller's to give.

use crate::date::{CalendarDate, Ymd};
use crate::text::owned_text;
use crate::version::{is_version, Version};
use vstd::prelude::*;

verus! {

/// Why the project manifest yields no version.
#[derive(Clone, Copy, Debug, PartialEq, Eq)]
pub enum ManifestError {
    /// There is no manifest file.
    NotFound,
    /// The manifest file cannot be parsed.
    NotParseable,
    /// The manifest has no package section.
    NoPackage,
    /// The package declares no version.
    NoVersion,
}

/// Today's date and the project's current version, where it is known.
#[derive(Debug, PartialEq, Eq)]
pub struct EvaluationContext {
    pub today: CalendarDate,
    pub current_version: Option<Version>,
}

/// A context as mathematical values: the current version is the text it was
/// read from.
pub struct ContextView {
    pub today: Ymd,
    pub current_version: Option<Seq<char>>,
}

impl View for EvaluationContext {
    type V = ContextView;

    open spec fn view(&self) -> ContextView {
        ContextView {
            today: self.today@,
            current_version: match self.current_version {
                Some(version) => Some(version@),
                None => None,
            },
        }
    }
}

impl ContextView {
    /// Today is a day of the calendar, and the current version, where there
    /// is one, is a text that denotes a version.
    pub open spec fn is_valid(self) -> bool {
        &&& self.today.is_valid()
        &&& self.current_version matches Some(version) ==> is_version(version)
    }
}

/// The version text that the manifest declares, if it was read and reading
/// it succeeded.
pub open spec fn declared_text(manifest: Option<Result<String, ManifestError>>) -> Option<
    Seq<char>,
> {
    match manifest {
        Some(Ok(text)) => Some(text@),
        _ => None,
    }
}

/// The text that stands for the current version: the override where there
/// is one, else what the manifest declares.
pub open spec fn resolved_text(
    override_value: Option<Seq<char>>,
    declared: Option<Seq<char>>,
) -> Option<Seq<char>> {
    match override_value {
        Some(text) => Some(text),
        None => declared,
    }
}

/// The current version: the resolved text, where it denotes a version.
pub open spec fn resolved_version(
    override_value: Option<Seq<char>>,
    declared: Option<Seq<char>>,
) -> Option<Seq<char>> {
    match resolved_text(override_value, declared) {
        Some(text) => if is_version(text) {
            Some(text)
        } else {
            None
        },
        None => None,
    }
}

/// The view of an optional version.
pub open spec fn version_text(version: Option<Version>) -> Option<Seq<char>> {
    match version {
        Some(v) => Some(v@),
        None => None,
    }
}

impl EvaluationContext {
    /// The context of a build on the day `today`, with the current version
    /// as [`current_version`] resolves it.
    pub fn resolve(
        today: CalendarDate,
        override_value: Option<String>,
        manifest: Option<Result<String, ManifestError>>,
    ) -> (context: EvaluationContext)
        ensures
            context@.is_valid(),
            context@.today == today@,
            context@.current_version == resolved_version(
                owned_text(override_value),
                declared_text(manifest),
            ),
    {
        let current_version = current_version(override_value, manifest);
        proof {
            use_type_invariant(&today);
            if let Some(version) = &current_version {
                use_type_invariant(version);
            }
        }
        EvaluationContext { today, current_version }
    }
}

/// The text of the current version, not yet parsed.
///
/// `override_value` is the override, where one is set; `manifest` is what
/// reading the project manifest gave, or `None` where it was not read, as it
/// need not be under an override. An override is taken as it is and the
/// manifest is not looked at; a manifest that yields no version gives `None`.
pub fn current_version_str(
    override_value: Option<String>,
    manifest: Option<Result<String, ManifestError>>,
) -> (text: Option<String>)
    ensures
        owned_text(text) == resolved_text(owned_text(override_value), declared_text(manifest)),
{
    match override_value {
        Some(stub) => Some(stub),
        None => match manifest {
            Some(Ok(declared)) => Some(declared),
            _ => None,
        },
    }
}

/// The current version of the project, or `None` where it cannot be
/// resolved: no override and no declared version, or a text that is not a
/// version.
pub fn current_version(
    override_value: Option<String>,
    manifest: Option<Result<String, ManifestError>>,
) -> (version: Option<Version>)
    ensures
        version_text(version) == resolved_version(
            owned_text(override_value),
            declared_text(manifest),
        ),
{
    match current_version_str(override_value, manifest) {
        Some(text) => Version::parse(text.as_str()),
        None => None,
    }
}

} // verus!
