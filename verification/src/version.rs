//! Semantic versions and the requirements they are held against.
//!
//! Both are kept as the text they were read from. `semver` decides which
//! texts are versions and requirements, how each is written back, and whether
//! a requirement matches a version; its answers carry the names declared
//! here, and the rest of the library reasons over those names.

use vstd::pervasive::unreached;
use vstd::prelude::*;

verus! {

/// How `semver` writes the version that it reads out of `text`, or `None`
/// where it reads no version.
pub uninterp spec fn version_display(text: Seq<char>) -> Option<Seq<char>>;

/// How `semver` writes the version requirement that it reads out of `text`,
/// or `None` where it reads no requirement.
pub uninterp spec fn requirement_display(text: Seq<char>) -> Option<Seq<char>>;

/// Whether, to `semver`, the requirement read out of `requirement` matches
/// the version read out of `version`; `None` where either cannot be read.
pub uninterp spec fn requirement_match(requirement: Seq<char>, version: Seq<char>) -> Option<bool>;

/// `text` denotes a semantic version.
pub open spec fn is_version(text: Seq<char>) -> bool {
    version_display(text) is Some
}

/// `text` denotes a version requirement.
pub open spec fn is_requirement(text: Seq<char>) -> bool {
    requirement_display(text) is Some
}

/// The requirement `requirement` matches the version `version`.
pub open spec fn requirement_holds(requirement: Seq<char>, version: Seq<char>) -> bool {
    requirement_match(requirement, version) == Some(true)
}

/// Trusted: `semver::Version::parse`, and `Display` of the version it gives.
///
/// The contract claims that the outcome depends on `text` alone, so that it
/// can be named. Nothing is claimed about which texts are versions or how
/// they are written back.
#[verifier::external_body]
fn display_version(text: &str) -> (written: Option<String>)
    ensures
        match written {
            Some(w) => version_display(text@) == Some(w@),
            None => version_display(text@) is None,
        },
{
    match semver::Version::parse(text) {
        Ok(version) => Some(version.to_string()),
        Err(_) => None,
    }
}

/// Trusted: `semver::VersionReq::parse`, and `Display` of the requirement it
/// gives.
///
/// The contract claims that the outcome depends on `text` alone, so that it
/// can be named. Nothing is claimed about which texts are requirements or how
/// they are written back.
#[verifier::external_body]
fn display_requirement(text: &str) -> (written: Option<String>)
    ensures
        match written {
            Some(w) => requirement_display(text@) == Some(w@),
            None => requirement_display(text@) is None,
        },
{
    match semver::VersionReq::parse(text) {
        Ok(requirement) => Some(requirement.to_string()),
        Err(_) => None,
    }
}

/// Trusted: `semver::VersionReq::matches`, on what `semver::VersionReq::parse`
/// and `semver::Version::parse` read out of the two texts.
///
/// The contract claims that the outcome depends on the two texts alone, so
/// that it can be named, and that there is an answer exactly where both texts
/// can be read, which are the texts that the other two names are `Some` on.
/// Nothing is claimed about which versions a requirement matches.
#[verifier::external_body]
fn match_requirement(requirement: &str, version: &str) -> (matched: Option<bool>)
    ensures
        matched == requirement_match(requirement@, version@),
        (matched is Some) <==> (is_requirement(requirement@) && is_version(version@)),
{
    match (semver::VersionReq::parse(requirement), semver::Version::parse(version)) {
        (Ok(requirement), Ok(version)) => Some(requirement.matches(&version)),
        _ => None,
    }
}

/// A semantic version, such as `1.3.1` or `2.0.0-rc.1`.
#[derive(Debug, PartialEq, Eq)]
pub struct Version {
    source: String,
}

impl View for Version {
    type V = Seq<char>;

    /// The text that the version was read from.
    closed spec fn view(&self) -> Seq<char> {
        self.source@
    }
}

impl Version {
    /// Every version that the program holds was read from a text that
    /// denotes one.
    #[verifier::type_invariant]
    pub open spec fn is_valid(self) -> bool {
        is_version(self@)
    }

    /// Reads a version. The text is a version exactly where `semver` reads
    /// one out of it.
    pub fn parse(text: &str) -> (version: Option<Version>)
        ensures
            version is Some <==> is_version(text@),
            version matches Some(v) ==> v@ == text@,
    {
        match display_version(text) {
            Some(_) => Some(Version { source: text.to_owned() }),
            None => None,
        }
    }

    /// The version as `semver` writes it.
    pub fn text(&self) -> (text: String)
        ensures
            version_display(self@) == Some(text@),
    {
        proof {
            use_type_invariant(self);
        }
        match display_version(self.source.as_str()) {
            Some(written) => written,
            None => unreached(),
        }
    }
}

/// A requirement on versions, such as `<2.0.0` or `>=1.2, <1.5`.
#[derive(Debug, PartialEq, Eq)]
pub struct VersionRequirement {
    source: String,
}

impl View for VersionRequirement {
    type V = Seq<char>;

    /// The text that the requirement was read from.
    closed spec fn view(&self) -> Seq<char> {
        self.source@
    }
}

impl VersionRequirement {
    /// Every requirement that the program holds was read from a text that
    /// denotes one.
    #[verifier::type_invariant]
    pub open spec fn is_valid(self) -> bool {
        is_requirement(self@)
    }

    /// Reads a version requirement. The text is a requirement exactly where
    /// `semver` reads one out of it.
    pub fn parse(text: &str) -> (requirement: Option<VersionRequirement>)
        ensures
            requirement is Some <==> is_requirement(text@),
            requirement matches Some(r) ==> r@ == text@,
    {
        match display_requirement(text) {
            Some(_) => Some(VersionRequirement { source: text.to_owned() }),
            None => None,
        }
    }

    /// The requirement in its canonical form, as `semver` writes it.
    pub fn text(&self) -> (text: String)
        ensures
            requirement_display(self@) == Some(text@),
    {
        proof {
            use_type_invariant(self);
        }
        match display_requirement(self.source.as_str()) {
            Some(written) => written,
            None => unreached(),
        }
    }

    /// Whether the requirement matches `version`.
    pub fn matches(&self, version: &Version) -> (matched: bool)
        ensures
            matched == requirement_holds(self@, version@),
    {
        proof {
            use_type_invariant(self);
            use_type_invariant(version);
        }
        match match_requirement(self.source.as_str(), version.source.as_str()) {
            Some(matched) => matched,
            None => unreached(),
        }
    }
}

} // verus!
