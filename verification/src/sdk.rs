//! Client helpers for buyers and owners.

use vstd::prelude::*;

use crate::crypto::{commit, commitment, Facts};
use crate::settlement::{sat_mul, saturating_mul_u64};
use crate::types::Lamports;

verus! {

/// The predicate commitment an owner publishes with a listing.
pub fn listing_commitment(facts: &Facts, salt: &[u8; 32]) -> (c: [u8; 32])
    ensures
        c@ == commitment(*facts, salt@),
{
    commit(facts, salt)
}

/// The cost of `n` queries at `per_query` each, saturating, to size an escrow
/// before opening it.
pub fn estimate_budget(per_query: Lamports, n: u32) -> (b: Lamports)
    ensures
        b == sat_mul(per_query, n as u64),
{
    saturating_mul_u64(per_query, n as u64)
}

} // verus!
