//! Region names as the cloud providers' own parsers judge them.
//!
//! Which names a provider knows is decided by the provider crates, not here:
//! the two functions below ask them, and nothing in this module is proved.

use vstd::prelude::*;

verus! {

/// Whether the AWS region parser accepts `name`.
pub uninterp spec fn aws_region_parses(name: Seq<char>) -> bool;

/// Whether the Azure region parser accepts `name`.
pub uninterp spec fn azure_region_parses(name: Seq<char>) -> bool;

/// Asks `<rusoto_core::Region as FromStr>::from_str`, which tsunami re-exports
/// as its AWS region type, whether `name` is a region.
///
/// Unproved claims: the answer depends on `name` alone (the parser lowercases
/// it and matches it against a fixed table), and the empty name is in no row
/// of that table.
#[verifier::external_body]
pub(crate) fn aws_region_known(name: &str) -> (known: bool)
    ensures
        known == aws_region_parses(name@),
        name@.len() == 0 ==> !known,
{
    name.parse::<tsunami::providers::aws::Region>().is_ok()
}

/// Asks `<tsunami::providers::azure::Region as FromStr>::from_str` whether
/// `name` is a region.
///
/// Unproved claims: the answer depends on `name` alone (the parser compares it
/// with the fixed list of region names), and the empty name is not in that
/// list.
#[verifier::external_body]
pub(crate) fn azure_region_known(name: &str) -> (known: bool)
    ensures
        known == azure_region_parses(name@),
        name@.len() == 0 ==> !known,
{
    name.parse::<tsunami::providers::azure::Region>().is_ok()
}

} // verus!
