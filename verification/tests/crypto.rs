use ed25519_dalek::{Signer, SigningKey, VerifyingKey};
use horus::crypto::{commit, commit_bytes, digest_eq, verify_sig, Facts};
use horus::types::Error;

fn facts() -> Facts {
    Facts {
        n_rows: 12_345,
        schema_hash: [7u8; 32],
        freshness: 1_730_000_000,
        field_presence: 0b1011,
    }
}

#[test]
fn commitment_is_deterministic() {
    let salt = [9u8; 32];
    assert_eq!(commit(&facts(), &salt), commit(&facts(), &salt));
}

#[test]
fn commitment_is_hiding_in_salt() {
    let a = commit(&facts(), &[1u8; 32]);
    let b = commit(&facts(), &[2u8; 32]);
    assert_ne!(a, b, "different salt must yield different commitment");
}

#[test]
fn commitment_binds_each_fact() {
    let salt = [0u8; 32];
    let base = commit(&facts(), &salt);
    let mut f = facts();
    f.n_rows += 1;
    assert_ne!(commit(&f, &salt), base);
}

#[test]
fn digest_eq_matches() {
    assert!(digest_eq(&[3u8; 32], &[3u8; 32]));
    let mut other = [3u8; 32];
    other[31] = 4;
    assert!(!digest_eq(&[3u8; 32], &other));
}

#[test]
fn digest_eq_sees_first_byte() {
    let mut other = [3u8; 32];
    other[0] = 0;
    assert!(!digest_eq(&[3u8; 32], &other));
}

#[test]
fn commitment_preimage_layout_is_little_endian() {
    let f = Facts { n_rows: 0x0102, schema_hash: [0xEE; 32], freshness: -1, field_presence: 5 };
    let salt = [0x55u8; 32];
    let bytes = commit_bytes(&f, &salt);
    let mut expected = Vec::new();
    expected.extend_from_slice(&0x0102u64.to_le_bytes());
    expected.extend_from_slice(&[0xEE; 32]);
    expected.extend_from_slice(&(-1i64).to_le_bytes());
    expected.extend_from_slice(&5u64.to_le_bytes());
    expected.extend_from_slice(&salt);
    assert_eq!(bytes, expected);
    assert_eq!(bytes.len(), 88);
}

#[test]
fn commitment_is_blake3_of_preimage() {
    let salt = [0x42u8; 32];
    let mut h = blake3::Hasher::new();
    h.update(&facts().n_rows.to_le_bytes());
    h.update(&facts().schema_hash);
    h.update(&facts().freshness.to_le_bytes());
    h.update(&facts().field_presence.to_le_bytes());
    h.update(&salt);
    assert_eq!(commit(&facts(), &salt), *h.finalize().as_bytes());
}

#[test]
fn commitment_binds_freshness_and_presence() {
    let salt = [0u8; 32];
    let base = commit(&facts(), &salt);
    let mut f = facts();
    f.freshness -= 1;
    assert_ne!(commit(&f, &salt), base);
    let mut g = facts();
    g.field_presence ^= 1;
    assert_ne!(commit(&g, &salt), base);
    let mut h = facts();
    h.schema_hash[0] = 0;
    assert_ne!(commit(&h, &salt), base);
}

#[test]
fn signature_over_message_verifies() {
    let sk = SigningKey::from_bytes(&[0x42; 32]);
    let pk = sk.verifying_key().to_bytes();
    let sig = sk.sign(b"hello").to_bytes();
    assert_eq!(verify_sig(&pk, b"hello", &sig), Ok(()));
}

#[test]
fn signature_over_other_message_is_rejected() {
    let sk = SigningKey::from_bytes(&[0x42; 32]);
    let pk = sk.verifying_key().to_bytes();
    let sig = sk.sign(b"hello").to_bytes();
    assert_eq!(
        verify_sig(&pk, b"hellp", &sig),
        Err(Error::CapabilityRejected("signature"))
    );
}

#[test]
fn undecodable_key_is_malformed() {
    let bad = (0u8..=255)
        .map(|b| [b; 32])
        .find(|k| VerifyingKey::from_bytes(k).is_err())
        .expect("some constant byte string is not a curve point");
    assert_eq!(
        verify_sig(&bad, b"hello", &[0u8; 64]),
        Err(Error::Malformed("verifying key"))
    );
}
