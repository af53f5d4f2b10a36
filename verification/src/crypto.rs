//! Cryptographic primitives: the predicate commitment and the signature check
//! used for capabilities.
//!
//! The commitment is BLAKE3 over a fixed little-endian layout of the committed
//! facts followed by a per-listing salt; signatures are Ed25519.

use vstd::prelude::*;

use ed25519_dalek::{Signature, Verifier, VerifyingKey};

use crate::encoding::{
    lemma_le_bytes_len, lemma_le_i64_injective, lemma_le_u64_injective, le_i64, le_u64, push_all,
    push_le,
};
use crate::types::Error;

verus! {

/// A 32-byte commitment or digest.
pub type Digest = [u8; 32];

/// The facts a listing commits to.
#[derive(Clone, Debug, PartialEq, Eq)]
pub struct Facts {
    pub n_rows: u64,
    pub schema_hash: Digest,
    pub freshness: i64,
    pub field_presence: u64,
}

/// The bytes hashed into a commitment:
/// `n_rows || schema_hash || freshness || field_presence || salt`, integers
/// little-endian.
pub open spec fn commit_preimage(facts: Facts, salt: Seq<u8>) -> Seq<u8> {
    le_u64(facts.n_rows) + facts.schema_hash@ + le_i64(facts.freshness) + le_u64(
        facts.field_presence,
    ) + salt
}

/// The BLAKE3 digest of a byte string.
pub uninterp spec fn blake3_digest(input: Seq<u8>) -> Seq<u8>;

/// The predicate commitment to `facts` under `salt`.
pub open spec fn commitment(facts: Facts, salt: Seq<u8>) -> Seq<u8> {
    blake3_digest(commit_preimage(facts, salt))
}

/// Calls `blake3::hash`, the one-shot BLAKE3 hash with 32-byte output; the
/// contract names its result and claims nothing else of it.
#[verifier::external_body]
fn blake3_hash(input: &[u8]) -> (d: Digest)
    ensures
        d@ == blake3_digest(input@),
{
    *blake3::hash(input).as_bytes()
}

/// The commitment preimage, as bytes.
pub fn commit_bytes(facts: &Facts, salt: &Digest) -> (out: Vec<u8>)
    ensures
        out@ == commit_preimage(*facts, salt@),
{
    let mut out: Vec<u8> = Vec::with_capacity(88);
    push_le(&mut out, facts.n_rows, 8);
    push_all(&mut out, &facts.schema_hash);
    push_le(&mut out, facts.freshness as u64, 8);
    push_le(&mut out, facts.field_presence, 8);
    push_all(&mut out, salt);
    out
}

/// `PredicateCommitment = H(n_rows || schema_hash || freshness || field_presence || salt)`.
///
/// `salt` is a per-listing random value kept by the owner, so the commitment
/// is hiding.
pub fn commit(facts: &Facts, salt: &Digest) -> (d: Digest)
    ensures
        d@ == commitment(*facts, salt@),
{
    let preimage = commit_bytes(facts, salt);
    blake3_hash(preimage.as_slice())
}

/// Distinct facts or salts give distinct preimages, so the commitment binds
/// every fact and the salt as far as BLAKE3 is collision resistant.
pub proof fn lemma_commit_preimage_injective(f1: Facts, s1: Seq<u8>, f2: Facts, s2: Seq<u8>)
    requires
        s1.len() == 32,
        s2.len() == 32,
        commit_preimage(f1, s1) == commit_preimage(f2, s2),
    ensures
        f1 == f2,
        s1 == s2,
{
    let p = commit_preimage(f1, s1);
    let q = commit_preimage(f2, s2);
    lemma_le_bytes_len(f1.n_rows as nat, 8);
    lemma_le_bytes_len(f2.n_rows as nat, 8);
    lemma_le_bytes_len((f1.freshness as u64) as nat, 8);
    lemma_le_bytes_len((f2.freshness as u64) as nat, 8);
    lemma_le_bytes_len(f1.field_presence as nat, 8);
    lemma_le_bytes_len(f2.field_presence as nat, 8);
    assert(f1.schema_hash@.len() == 32);
    assert(f2.schema_hash@.len() == 32);
    assert(p.subrange(0, 8) =~= le_u64(f1.n_rows));
    assert(q.subrange(0, 8) =~= le_u64(f2.n_rows));
    assert(p.subrange(8, 40) =~= f1.schema_hash@);
    assert(q.subrange(8, 40) =~= f2.schema_hash@);
    assert(p.subrange(40, 48) =~= le_i64(f1.freshness));
    assert(q.subrange(40, 48) =~= le_i64(f2.freshness));
    assert(p.subrange(48, 56) =~= le_u64(f1.field_presence));
    assert(q.subrange(48, 56) =~= le_u64(f2.field_presence));
    assert(p.subrange(56, 88) =~= s1);
    assert(q.subrange(56, 88) =~= s2);
    lemma_le_u64_injective(f1.n_rows, f2.n_rows);
    lemma_le_i64_injective(f1.freshness, f2.freshness);
    lemma_le_u64_injective(f1.field_presence, f2.field_presence);
    assert(f1.schema_hash =~= f2.schema_hash);
}

/// Equality of digests that inspects every byte, without an early exit.
pub fn digest_eq(a: &Digest, b: &Digest) -> (r: bool)
    ensures
        r == (a@ == b@),
{
    let mut acc: u8 = 0;
    let mut i: usize = 0;
    while i < 32
        invariant
            i <= 32,
            (acc == 0) == (forall|j: int| 0 <= j < i ==> a@[j] == b@[j]),
        decreases 32 - i,
    {
        let x = a[i];
        let y = b[i];
        assert((acc | (x ^ y)) == 0 <==> (acc == 0 && x == y)) by (bit_vector);
        acc = acc | (x ^ y);
        i = i + 1;
    }
    assert((acc == 0) ==> a@ =~= b@);
    acc == 0
}

/// What an Ed25519 check reports.
#[derive(Clone, Copy, Debug, PartialEq, Eq, Structural)]
pub enum SigCheck {
    /// The key decodes and the signature verifies.
    Valid,
    /// The 32 key bytes do not decode to a curve point.
    BadKey,
    /// The key decodes but the signature does not verify.
    BadSignature,
}

/// Whether 32 bytes decode to an Ed25519 verifying key.
pub uninterp spec fn ed25519_key_decodes(pubkey: Seq<u8>) -> bool;

/// Whether a decoded Ed25519 key accepts `sig` over `msg`.
pub uninterp spec fn ed25519_accepts(pubkey: Seq<u8>, msg: Seq<u8>, sig: Seq<u8>) -> bool;

/// The outcome of checking `sig` over `msg` against `pubkey`.
pub open spec fn sig_check_outcome(pubkey: Seq<u8>, msg: Seq<u8>, sig: Seq<u8>) -> SigCheck {
    if !ed25519_key_decodes(pubkey) {
        SigCheck::BadKey
    } else if ed25519_accepts(pubkey, msg, sig) {
        SigCheck::Valid
    } else {
        SigCheck::BadSignature
    }
}

/// Calls `ed25519_dalek::VerifyingKey::from_bytes` on the key bytes and, when
/// they decode, `Verifier::verify` with `Signature::from_bytes` of the
/// signature bytes. The contract names both outcomes as functions of the
/// bytes; it says nothing of which keys decode or which signatures verify.
#[verifier::external_body]
fn ed25519_check(pubkey: &[u8; 32], msg: &[u8], sig: &[u8; 64]) -> (r: SigCheck)
    ensures
        (r == SigCheck::BadKey) == !ed25519_key_decodes(pubkey@),
        (r == SigCheck::Valid) == (ed25519_key_decodes(pubkey@) && ed25519_accepts(
            pubkey@,
            msg@,
            sig@,
        )),
{
    match VerifyingKey::from_bytes(pubkey) {
        Err(_) => SigCheck::BadKey,
        Ok(vk) => match vk.verify(msg, &Signature::from_bytes(sig)) {
            Ok(()) => SigCheck::Valid,
            Err(_) => SigCheck::BadSignature,
        },
    }
}

/// The error, if any, that a signature check outcome turns into.
pub open spec fn sig_check_result(c: SigCheck) -> Result<(), Error> {
    match c {
        SigCheck::Valid => Ok(()),
        SigCheck::BadKey => Err(Error::Malformed("verifying key")),
        SigCheck::BadSignature => Err(Error::CapabilityRejected("signature")),
    }
}

/// Turns the outcome of an Ed25519 check into the crate's result.
pub fn signature_verdict(check: SigCheck) -> (r: Result<(), Error>)
    ensures
        r == sig_check_result(check),
{
    match check {
        SigCheck::Valid => Ok(()),
        SigCheck::BadKey => Err(Error::Malformed("verifying key")),
        SigCheck::BadSignature => Err(Error::CapabilityRejected("signature")),
    }
}

/// Verify an Ed25519 signature over `msg` against `pubkey`.
pub fn verify_sig(pubkey: &[u8; 32], msg: &[u8], sig: &[u8; 64]) -> (r: Result<(), Error>)
    ensures
        r == sig_check_result(sig_check_outcome(pubkey@, msg@, sig@)),
{
    signature_verdict(ed25519_check(pubkey, msg, sig))
}

} // verus!
