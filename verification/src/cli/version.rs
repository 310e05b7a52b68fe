//! Version numbers, as two outside crates read them: `node-semver` tells
//! whether a text is a version, `version-compare` which of two is newer.

use vstd::prelude::*;

verus! {

/// How one version stands to another.
#[derive(Clone, Copy, Debug, PartialEq, Eq, Structural)]
pub enum VersionOrder {
    Older,
    Same,
    Newer,
    /// One of the two is no version number.
    Unknown,
}

/// Whether `name` is a version as `node-semver` reads one.
pub uninterp spec fn is_version(name: Seq<char>) -> bool;

/// How the version `a` stands to the version `b` by `version-compare`.
pub uninterp spec fn version_order(a: Seq<char>, b: Seq<char>) -> VersionOrder;

/// `node_semver::Version::parse`: whether the text is read as a version.
/// The answer depends on the text alone.
#[verifier::external_body]
pub(crate) fn parses_as_version(name: &str) -> (r: bool)
    ensures
        r == is_version(name@),
{
    node_semver::Version::parse(name).is_ok()
}

/// `version_compare::compare`: whether `a` is lower than, equal to or
/// greater than `b`, or that one of them is no version number. The answer
/// depends on the two texts alone.
#[verifier::external_body]
pub(crate) fn order_of(a: &str, b: &str) -> (r: VersionOrder)
    ensures
        r == version_order(a@, b@),
{
    match version_compare::compare(a, b) {
        Ok(version_compare::Cmp::Lt) => VersionOrder::Older,
        Ok(version_compare::Cmp::Eq) => VersionOrder::Same,
        Ok(version_compare::Cmp::Gt) => VersionOrder::Newer,
        _ => VersionOrder::Unknown,
    }
}

} // verus!
