//! Semantic versions, as the crate `semver` reads and orders them.
//!
//! A version is handled as its text. Whether a text is a version, and
//! which of two versions is the greater, is asked of `semver`. Both
//! answers are named here and not spelled out; of the order it is taken
//! over that it is a total order, as `semver` documents it.

use std::cmp::Ordering;
use vstd::prelude::*;

verus! {

/// How one version stands to another.
#[derive(Clone, Copy, Debug, PartialEq, Eq, Structural)]
pub enum Precedence {
    Lower,
    Same,
    Higher,
}

/// Whether `semver::Version::parse` accepts a text.
pub uninterp spec fn semver_valid(text: Seq<char>) -> bool;

/// How `semver` orders the version written `a` against the one written `b`.
pub uninterp spec fn semver_order(a: Seq<char>, b: Seq<char>) -> Precedence;

/// `semver::Version::parse`: whether the text is a semantic version.
#[verifier::external_body]
pub(crate) fn parses_as_semver(text: &str) -> (r: bool)
    ensures
        r == semver_valid(text@),
{
    semver::Version::parse(text).is_ok()
}

/// The order of `semver::Version`: how the version written `a` stands to
/// the one written `b`. Both texts are versions. `semver` documents this
/// order as a total order, of which two things are taken over here: one
/// version is lower than another exactly where the other is higher than
/// it, and a version that is not lower than one that is not lower than a
/// third is not lower than the third.
#[verifier::external_body]
pub(crate) fn semver_compare(a: &str, b: &str) -> (r: Precedence)
    requires
        semver_valid(a@),
        semver_valid(b@),
    ensures
        r == semver_order(a@, b@),
        (r == Precedence::Lower) == (semver_order(b@, a@) == Precedence::Higher),
        forall|c: Seq<char>|
            r != Precedence::Lower && semver_valid(c) && (#[trigger] semver_order(b@, c))
                != Precedence::Lower ==> semver_order(a@, c) != Precedence::Lower,
{
    let left = semver::Version::parse(a).unwrap();
    let right = semver::Version::parse(b).unwrap();
    match left.cmp(&right) {
        Ordering::Less => Precedence::Lower,
        Ordering::Equal => Precedence::Same,
        Ordering::Greater => Precedence::Higher,
    }
}

} // verus!
