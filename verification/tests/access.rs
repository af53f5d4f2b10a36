use ed25519_dalek::{Signer, SigningKey};
use horus::access::{Capability, RevocationSet, VerifyContext, CAPABILITY_VERSION};
use horus::types::{Error, Pubkey, Scope};

const HOLDER: Pubkey = Pubkey([0x11; 32]);
const LISTING: Pubkey = Pubkey([0x22; 32]);

fn issuer() -> SigningKey {
    SigningKey::from_bytes(&[0x42; 32])
}

fn signed_cap(scope: Scope, not_before: i64, not_after: i64, max_queries: u32) -> Capability {
    let sk = issuer();
    let mut cap = Capability {
        version: CAPABILITY_VERSION,
        listing: LISTING,
        holder: HOLDER,
        scope,
        max_queries,
        not_before,
        not_after,
        nonce: [0xAB; 16],
        issuer_sig: [0u8; 64],
    };
    let sig = sk.sign(&cap.signing_bytes());
    cap.issuer_sig = sig.to_bytes();
    cap
}

fn ctx<'a>(now: i64, revoked: &'a RevocationSet) -> VerifyContext<'a> {
    VerifyContext {
        issuer_key: issuer().verifying_key().to_bytes(),
        query_signer: HOLDER,
        now,
        revoked,
    }
}

#[test]
fn issue_then_verify_happy_path() {
    let cap = signed_cap(Scope::Count, 1000, 2000, 5);
    let rev = RevocationSet::default();
    assert!(cap.verify(&ctx(1500, &rev), 0).is_ok());
}

#[test]
fn expired_is_rejected() {
    let cap = signed_cap(Scope::Count, 1000, 2000, 5);
    let rev = RevocationSet::default();
    // now >= not_after
    assert_eq!(
        cap.verify(&ctx(2000, &rev), 0),
        Err(Error::CapabilityRejected("outside validity window"))
    );
}

#[test]
fn not_yet_valid_is_rejected() {
    let cap = signed_cap(Scope::Count, 1000, 2000, 5);
    let rev = RevocationSet::default();
    assert!(cap.verify(&ctx(999, &rev), 0).is_err());
}

#[test]
fn quota_exhaustion_is_rejected() {
    let cap = signed_cap(Scope::Count, 1000, 2000, 5);
    let rev = RevocationSet::default();
    // answered == max_queries → exhausted (the classic off-by-one boundary).
    assert_eq!(
        cap.verify(&ctx(1500, &rev), 5),
        Err(Error::CapabilityRejected("quota exhausted"))
    );
    // one below the cap still passes.
    assert!(cap.verify(&ctx(1500, &rev), 4).is_ok());
}

#[test]
fn scope_escalation_is_rejected() {
    let cap = signed_cap(Scope::Count, 1000, 2000, 5);
    assert!(!cap.permits_scope(&Scope::Row { max_rows: 10 }));
    assert!(cap.permits_scope(&Scope::Count));
}

#[test]
fn revoked_nonce_is_rejected() {
    let cap = signed_cap(Scope::Count, 1000, 2000, 5);
    let mut rev = RevocationSet::default();
    rev.revoke(LISTING, [0xAB; 16]);
    assert_eq!(
        cap.verify(&ctx(1500, &rev), 0),
        Err(Error::CapabilityRejected("revoked"))
    );
}

#[test]
fn forged_signature_is_rejected() {
    let mut cap = signed_cap(Scope::Count, 1000, 2000, 5);
    cap.max_queries = 9999; // tamper after signing
    let rev = RevocationSet::default();
    assert_eq!(
        cap.verify(&ctx(1500, &rev), 0),
        Err(Error::CapabilityRejected("signature"))
    );
}

#[test]
fn wrong_holder_is_rejected() {
    let cap = signed_cap(Scope::Count, 1000, 2000, 5);
    let rev = RevocationSet::default();
    let mut c = ctx(1500, &rev);
    c.query_signer = Pubkey([0x99; 32]);
    assert_eq!(
        cap.verify(&c, 0),
        Err(Error::CapabilityRejected("holder mismatch"))
    );
}

#[test]
fn wrong_version_is_rejected_first() {
    let mut cap = signed_cap(Scope::Count, 1000, 2000, 5);
    cap.version = 2;
    let rev = RevocationSet::default();
    // Version is checked before anything else, even an expired window.
    assert_eq!(
        cap.verify(&ctx(5000, &rev), 99),
        Err(Error::CapabilityRejected("version"))
    );
}

#[test]
fn signature_is_checked_before_window() {
    let mut cap = signed_cap(Scope::Count, 1000, 2000, 5);
    cap.not_after = 3000; // tamper after signing
    let rev = RevocationSet::default();
    assert_eq!(
        cap.verify(&ctx(2500, &rev), 0),
        Err(Error::CapabilityRejected("signature"))
    );
}

#[test]
fn not_before_is_inclusive() {
    let cap = signed_cap(Scope::Aggregate, 1000, 2000, 5);
    let rev = RevocationSet::default();
    assert!(cap.verify(&ctx(1000, &rev), 0).is_ok());
    assert!(cap.verify(&ctx(1999, &rev), 0).is_ok());
}

#[test]
fn quota_is_checked_before_revocation() {
    let cap = signed_cap(Scope::Count, 1000, 2000, 5);
    let mut rev = RevocationSet::default();
    rev.revoke(LISTING, [0xAB; 16]);
    assert_eq!(
        cap.verify(&ctx(1500, &rev), 5),
        Err(Error::CapabilityRejected("quota exhausted"))
    );
}

#[test]
fn signing_bytes_layout() {
    let cap = signed_cap(Scope::Count, 1000, 2000, 5);
    let bytes = cap.signing_bytes();
    assert_eq!(bytes.len(), 102);
    assert_eq!(bytes[0], CAPABILITY_VERSION);
    assert_eq!(&bytes[1..33], &[0x22; 32]);
    assert_eq!(&bytes[33..65], &[0x11; 32]);
    assert_eq!(bytes[65], 0);
    assert_eq!(&bytes[66..70], &5u32.to_le_bytes());
    assert_eq!(&bytes[70..78], &1000i64.to_le_bytes());
    assert_eq!(&bytes[78..86], &2000i64.to_le_bytes());
    assert_eq!(&bytes[86..102], &[0xAB; 16]);

    let row = signed_cap(Scope::Row { max_rows: 0x01020304 }, -1, 2000, 5);
    let rb = row.signing_bytes();
    assert_eq!(rb.len(), 106);
    assert_eq!(rb[65], 2);
    assert_eq!(&rb[66..70], &[4, 3, 2, 1]);
    assert_eq!(&rb[74..82], &[0xff; 8]);
}

#[test]
fn signing_bytes_ignore_signature_and_differ_per_field() {
    let a = signed_cap(Scope::Aggregate, 1000, 2000, 5);
    let mut b = a.clone();
    b.issuer_sig = [1; 64];
    assert_eq!(a.signing_bytes(), b.signing_bytes());
    let mut c = a.clone();
    c.scope = Scope::Count;
    assert_ne!(a.signing_bytes(), c.signing_bytes());
    let mut d = a.clone();
    d.nonce[15] = 0;
    assert_ne!(a.signing_bytes(), d.signing_bytes());
}

#[test]
fn revocation_set_contains_only_revoked_pairs() {
    let mut rev = RevocationSet::default();
    assert!(!rev.contains(&LISTING, &[0xAB; 16]));
    rev.revoke(LISTING, [0xAB; 16]);
    rev.revoke(LISTING, [0xAB; 16]);
    assert!(rev.contains(&LISTING, &[0xAB; 16]));
    assert!(!rev.contains(&LISTING, &[0xAC; 16]));
    assert!(!rev.contains(&HOLDER, &[0xAB; 16]));
}
