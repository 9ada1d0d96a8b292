//! Reading a version text as a semantic version.

use vstd::prelude::*;
use semver_parser::version::Version;

verus! {

/// A semantic version: major, minor and patch number, pre-release and build identifiers.
#[verifier::external_type_specification]
#[verifier::external_body]
pub struct ExVersion(semver_parser::version::Version);

/// What `semver_parser::version::parse` makes of `text`: `None` where it reports an error.
pub uninterp spec fn semver_of(text: Seq<char>) -> Option<Version>;

/// `semver_parser::version::parse`, its error dropped.
#[verifier::external_body]
pub(crate) fn parse_version(text: &str) -> (r: Option<Version>)
    ensures
        r == semver_of(text@),
{
    semver_parser::version::parse(text).ok()
}

} // verus!
