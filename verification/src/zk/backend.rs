//! The backend of a build without the proof feature: every call is refused.

use vstd::prelude::*;

use crate::crypto::{Digest, Facts};
use crate::types::Error;
use crate::zk::{feature_disabled, Predicate, Proof};

verus! {

/// The name of the feature that enables predicate proofs.
const FLAG: &'static str = "zk-experimental";

/// Refuses: the feature is disabled.
pub fn prove(_facts: &Facts, _salt: &Digest, _p: &Predicate) -> (r: Result<Proof, Error>)
    ensures
        r == Err::<Proof, Error>(feature_disabled()),
{
    Err(Error::FeatureDisabled(FLAG))
}

/// Refuses: the feature is disabled.
pub fn verify(_commitment: &Digest, _p: &Predicate, _proof: &Proof) -> (r: Result<bool, Error>)
    ensures
        r == Err::<bool, Error>(feature_disabled()),
{
    Err(Error::FeatureDisabled(FLAG))
}

} // verus!
