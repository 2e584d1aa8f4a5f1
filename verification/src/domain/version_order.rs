//! The order of semantic versions.
//!
//! Numbers are compared here; how pre-release and build identifiers compare
//! is left to `semver`.

use crate::domain::version::{ModuleVersion, VersionParts};
use std::cmp::Ordering;
use vstd::prelude::*;
use vstd::std_specs::cmp::PartialOrdSpecImpl;

verus! {

/// How one version stands to another.
#[derive(Debug, Clone, Copy, PartialEq, Eq, Structural)]
pub enum VersionOrder {
    Less,
    Equal,
    Greater,
}

/// How `semver` orders two pre-release texts: the result of comparing the
/// `Prerelease` values that `Prerelease::new` makes of them, or `None` where
/// it makes none of one of them.
pub uninterp spec fn prerelease_order(a: Seq<char>, b: Seq<char>) -> Option<VersionOrder>;

/// How `semver` orders two build texts: the result of comparing the
/// `BuildMetadata` values that `BuildMetadata::new` makes of them, or `None`
/// where it makes none of one of them.
pub uninterp spec fn build_order(a: Seq<char>, b: Seq<char>) -> Option<VersionOrder>;

/// Makes a `semver::Prerelease` of each text and compares the two with the
/// `Ord` of that type. The result is what `prerelease_order` names; there is
/// one exactly where `Prerelease::new` accepts both texts, that is, where
/// each can be compared with itself.
#[verifier::external_body]
fn order_prereleases(a: &str, b: &str) -> (order: Option<VersionOrder>)
    ensures
        order == prerelease_order(a@, b@),
        order is Some == (prerelease_order(a@, a@) is Some && prerelease_order(b@, b@) is Some),
{
    let lhs = semver::Prerelease::new(a).ok()?;
    let rhs = semver::Prerelease::new(b).ok()?;
    Some(
        match lhs.cmp(&rhs) {
            Ordering::Less => VersionOrder::Less,
            Ordering::Equal => VersionOrder::Equal,
            Ordering::Greater => VersionOrder::Greater,
        },
    )
}

/// Makes a `semver::BuildMetadata` of each text and compares the two with
/// the `Ord` of that type. The result is what `build_order` names; there is
/// one exactly where `BuildMetadata::new` accepts both texts, that is, where
/// each can be compared with itself.
#[verifier::external_body]
fn order_builds(a: &str, b: &str) -> (order: Option<VersionOrder>)
    ensures
        order == build_order(a@, b@),
        order is Some == (build_order(a@, a@) is Some && build_order(b@, b@) is Some),
{
    let lhs = semver::BuildMetadata::new(a).ok()?;
    let rhs = semver::BuildMetadata::new(b).ok()?;
    Some(
        match lhs.cmp(&rhs) {
            Ordering::Less => VersionOrder::Less,
            Ordering::Equal => VersionOrder::Equal,
            Ordering::Greater => VersionOrder::Greater,
        },
    )
}

/// How two numbers stand to each other.
pub open spec fn number_order(a: nat, b: nat) -> VersionOrder {
    if a < b {
        VersionOrder::Less
    } else if a == b {
        VersionOrder::Equal
    } else {
        VersionOrder::Greater
    }
}

/// `first`, unless it is equal: then `second`.
pub open spec fn and_then(first: VersionOrder, second: VersionOrder) -> VersionOrder {
    if first == VersionOrder::Equal {
        second
    } else {
        first
    }
}

/// How the numbers of two versions stand to each other: by major number,
/// then minor, then patch.
pub open spec fn numbers_order(a: VersionParts, b: VersionParts) -> VersionOrder {
    and_then(
        and_then(number_order(a.major, b.major), number_order(a.minor, b.minor)),
        number_order(a.patch, b.patch),
    )
}

/// The order of two versions from the order of their numbers and the orders
/// of their identifiers: the first of numbers, pre-release and build that is
/// not equal decides.
pub open spec fn combined_order(
    numbers: VersionOrder,
    pre: VersionOrder,
    build: VersionOrder,
) -> VersionOrder {
    and_then(and_then(numbers, pre), build)
}

/// The precedence of two versions: as their order, with the build
/// identifiers left out; `None` where `semver` does not accept a pre-release
/// text.
pub open spec fn version_precedence(a: VersionParts, b: VersionParts) -> Option<VersionOrder> {
    match prerelease_order(a.pre, b.pre) {
        Some(pre) => Some(and_then(numbers_order(a, b), pre)),
        None => None,
    }
}

/// The order of two versions; `None` where `semver` does not accept one of
/// the identifier texts.
pub open spec fn version_order(a: VersionParts, b: VersionParts) -> Option<VersionOrder> {
    match (prerelease_order(a.pre, b.pre), build_order(a.build, b.build)) {
        (Some(pre), Some(build)) => Some(combined_order(numbers_order(a, b), pre, build)),
        _ => None,
    }
}

/// How two numbers stand to each other.
pub fn order_numbers(a: u64, b: u64) -> (order: VersionOrder)
    ensures
        order == number_order(a as nat, b as nat),
{
    if a < b {
        VersionOrder::Less
    } else if a == b {
        VersionOrder::Equal
    } else {
        VersionOrder::Greater
    }
}

/// `first`, unless it is equal: then `second`.
pub fn order_then(first: VersionOrder, second: VersionOrder) -> (order: VersionOrder)
    ensures
        order == and_then(first, second),
{
    match first {
        VersionOrder::Equal => second,
        _ => first,
    }
}

/// The order of two versions from the order of their numbers and the orders
/// of their identifiers.
pub fn combine_order(numbers: VersionOrder, pre: VersionOrder, build: VersionOrder) -> (order:
    VersionOrder)
    ensures
        order == combined_order(numbers, pre, build),
{
    order_then(order_then(numbers, pre), build)
}

/// How the numbers of two versions stand to each other.
fn order_version_numbers(a: &ModuleVersion, b: &ModuleVersion) -> (order: VersionOrder)
    ensures
        order == numbers_order(a@, b@),
{
    order_then(
        order_then(order_numbers(a.major(), b.major()), order_numbers(a.minor(), b.minor())),
        order_numbers(a.patch(), b.patch()),
    )
}

/// The order of two versions: by their numbers, then by their pre-release
/// identifiers, then by their build identifiers. Any two versions are
/// ordered.
pub fn compare_versions(a: &ModuleVersion, b: &ModuleVersion) -> (order: VersionOrder)
    ensures
        version_order(a@, b@) == Some(order),
{
    proof {
        use_type_invariant(a);
        use_type_invariant(b);
    }
    let pre = order_prereleases(a.pre(), b.pre());
    let build = order_builds(a.build(), b.build());
    combine_order(order_version_numbers(a, b), pre.unwrap(), build.unwrap())
}

/// The precedence of two versions: by their numbers, then by their
/// pre-release identifiers. Versions that differ in their build identifiers
/// alone have the same precedence.
pub fn compare_precedence(a: &ModuleVersion, b: &ModuleVersion) -> (order: VersionOrder)
    ensures
        version_precedence(a@, b@) == Some(order),
{
    proof {
        use_type_invariant(a);
        use_type_invariant(b);
    }
    let pre = order_prereleases(a.pre(), b.pre());
    order_then(order_version_numbers(a, b), pre.unwrap())
}

/// The order of two versions in the terms of the standard library; `None`
/// where `semver` does not accept one of the identifier texts, which is so of
/// no version.
pub open spec fn standard_order(a: VersionParts, b: VersionParts) -> Option<Ordering> {
    match version_order(a, b) {
        Some(VersionOrder::Less) => Some(Ordering::Less),
        Some(VersionOrder::Equal) => Some(Ordering::Equal),
        Some(VersionOrder::Greater) => Some(Ordering::Greater),
        None => None,
    }
}

impl PartialOrd for ModuleVersion {
    fn partial_cmp(&self, other: &ModuleVersion) -> (order: Option<Ordering>) {
        match compare_versions(self, other) {
            VersionOrder::Less => Some(Ordering::Less),
            VersionOrder::Equal => Some(Ordering::Equal),
            VersionOrder::Greater => Some(Ordering::Greater),
        }
    }
}

impl PartialOrdSpecImpl for ModuleVersion {
    open spec fn obeys_partial_cmp_spec() -> bool {
        true
    }

    open spec fn partial_cmp_spec(&self, other: &ModuleVersion) -> Option<Ordering> {
        standard_order(self@, other@)
    }
}

/// Versions with different numbers are ordered by the numbers, whatever
/// their identifiers are.
pub proof fn law_numbers_decide(a: VersionParts, b: VersionParts)
    requires
        numbers_order(a, b) != VersionOrder::Equal,
        version_order(a, b) is Some,
    ensures
        version_order(a, b) == Some(numbers_order(a, b)),
        version_precedence(a, b) == Some(numbers_order(a, b)),
{
}

/// The numbers of two versions are ordered as the triples of their major,
/// minor and patch numbers are.
pub proof fn law_numbers_order_is_lexicographic(a: VersionParts, b: VersionParts)
    ensures
        numbers_order(a, b) == VersionOrder::Less <==> a.major < b.major || (a.major == b.major
            && (a.minor < b.minor || (a.minor == b.minor && a.patch < b.patch))),
        numbers_order(a, b) == VersionOrder::Equal <==> a.major == b.major && a.minor == b.minor
            && a.patch == b.patch,
{
}

} // verus!
