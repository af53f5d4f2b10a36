//! The placeholder backend of an experimental build. Its "proof" is a
//! transcript that binds the commitment to the predicate; it is NOT a sound
//! argument, and exists so that the gateway and client plumbing can be
//! exercised end to end.

use vstd::prelude::*;

use crate::crypto::{commit, commitment, Digest, Facts};
use crate::encoding::{le_i64, le_u64, push_all, push_le, starts_with};
use crate::types::Error;
use crate::zk::{Predicate, Proof};

verus! {

/// Whether the facts satisfy the predicate.
pub open spec fn predicate_holds(facts: Facts, p: Predicate) -> bool {
    match p {
        Predicate::RowsGreaterThan(k) => facts.n_rows > k,
        Predicate::FresherThan(t) => facts.freshness > t,
    }
}

/// The bytes that name a predicate: a tag byte, then its parameter
/// little-endian.
pub open spec fn predicate_bytes(p: Predicate) -> Seq<u8> {
    match p {
        Predicate::RowsGreaterThan(k) => seq![0u8] + le_u64(k),
        Predicate::FresherThan(t) => seq![1u8] + le_i64(t),
    }
}

/// Whether a proof blob is accepted for `commitment` and `p`: it begins with
/// the commitment and its tag byte names the predicate's kind.
pub open spec fn transcript_accepted(commitment: Seq<u8>, p: Predicate, blob: Seq<u8>) -> bool {
    &&& blob.len() >= 33
    &&& blob.take(32) == commitment
    &&& match p {
        Predicate::RowsGreaterThan(_) => blob[32] == 0,
        Predicate::FresherThan(_) => blob[32] == 1,
    }
}

/// Whether the facts satisfy the predicate.
pub fn holds(facts: &Facts, p: &Predicate) -> (r: bool)
    ensures
        r == predicate_holds(*facts, *p),
{
    match *p {
        Predicate::RowsGreaterThan(k) => facts.n_rows > k,
        Predicate::FresherThan(t) => facts.freshness > t,
    }
}

/// Produce the placeholder transcript: the commitment followed by the
/// predicate's bytes. Refuses when the predicate does not hold.
pub fn prove(facts: &Facts, salt: &Digest, p: &Predicate) -> (r: Result<Proof, Error>)
    ensures
        !predicate_holds(*facts, *p) ==> r == Err::<Proof, Error>(
            Error::Malformed("predicate does not hold for witness"),
        ),
        predicate_holds(*facts, *p) ==> (r matches Ok(proof) && proof.0@ == commitment(
            *facts,
            salt@,
        ) + predicate_bytes(*p)),
{
    if !holds(facts, p) {
        return Err(Error::Malformed("predicate does not hold for witness"));
    }
    let c = commit(facts, salt);
    let mut blob: Vec<u8> = Vec::with_capacity(40);
    push_all(&mut blob, &c);
    let ghost head = blob@;
    match *p {
        Predicate::RowsGreaterThan(k) => {
            blob.push(0);
            push_le(&mut blob, k, 8);
        },
        Predicate::FresherThan(t) => {
            blob.push(1);
            push_le(&mut blob, t as u64, 8);
        },
    }
    assert(blob@ =~= head + predicate_bytes(*p));
    Ok(Proof(blob))
}

/// Check a placeholder transcript against a public commitment.
pub fn verify(commitment: &Digest, p: &Predicate, proof: &Proof) -> (r: Result<bool, Error>)
    ensures
        r == Ok::<bool, Error>(transcript_accepted(commitment@, *p, proof.0@)),
{
    let blob = proof.0.as_slice();
    if blob.len() < 33 || !starts_with(blob, commitment) {
        return Ok(false);
    }
    let tag = blob[32];
    let expected = match *p {
        Predicate::RowsGreaterThan(_) => tag == 0,
        Predicate::FresherThan(_) => tag == 1,
    };
    Ok(expected)
}

/// A transcript produced for a predicate that holds is accepted against the
/// commitment it was produced from.
pub proof fn lemma_transcript_roundtrip(facts: Facts, salt: Seq<u8>, c: Digest, p: Predicate)
    requires
        c@ == commitment(facts, salt),
    ensures
        transcript_accepted(c@, p, c@ + predicate_bytes(p)),
{
    let blob = c@ + predicate_bytes(p);
    assert(c@.len() == 32);
    assert(blob.take(32) =~= c@);
    assert(blob[32] == predicate_bytes(p)[0]);
}

/// A transcript is accepted only against the commitment it opens with, and
/// a transcript for one kind of predicate is never accepted for the other.
pub proof fn lemma_transcript_binds_commitment_and_kind(
    commitment: Seq<u8>,
    blob: Seq<u8>,
    k: u64,
    t: i64,
)
    ensures
        transcript_accepted(commitment, Predicate::RowsGreaterThan(k), blob) ==> blob.len() >= 33
            && blob.take(32) == commitment,
        !(transcript_accepted(commitment, Predicate::RowsGreaterThan(k), blob)
            && transcript_accepted(commitment, Predicate::FresherThan(t), blob)),
        commitment.len() != 32 ==> !transcript_accepted(commitment, Predicate::RowsGreaterThan(k), blob),
{
}

} // verus!
