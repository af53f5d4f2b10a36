//! Zero-knowledge predicate proofs.
//!
//! The proof system is experimental: it is not audited and its soundness has
//! not been established. The entry points of this module belong to a build
//! that leaves the feature out, so each reports
//! [`Error::FeatureDisabled`] rather than degrading silently. The placeholder
//! backend of an experimental build lives in [`experimental`].

use vstd::prelude::*;

use crate::crypto::{Digest, Facts};
use crate::types::Error;

pub mod backend;
pub mod experimental;

verus! {

/// A predicate that a prover claims the committed dataset satisfies.
#[derive(Clone, Copy, Debug)]
pub enum Predicate {
    /// `n_rows > k`.
    RowsGreaterThan(u64),
    /// `freshness > t`.
    FresherThan(i64),
}

/// An opaque proof blob. Its layout is unstable.
#[derive(Clone, Debug, PartialEq, Eq)]
pub struct Proof(pub Vec<u8>);

/// The error every entry point of a build without the feature returns.
pub open spec fn feature_disabled() -> Error {
    Error::FeatureDisabled("zk-experimental")
}

/// Prove that the committed dataset satisfies `predicate` without revealing
/// the facts.
pub fn prove(facts: &Facts, salt: &Digest, predicate: &Predicate) -> (r: Result<Proof, Error>)
    ensures
        r == Err::<Proof, Error>(feature_disabled()),
{
    backend::prove(facts, salt, predicate)
}

/// Verify a predicate proof against a public commitment.
pub fn verify(commitment: &Digest, predicate: &Predicate, proof: &Proof) -> (r: Result<bool, Error>)
    ensures
        r == Err::<bool, Error>(feature_disabled()),
{
    backend::verify(commitment, predicate, proof)
}

} // verus!
