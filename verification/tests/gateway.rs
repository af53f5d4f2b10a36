use ed25519_dalek::{Signer, SigningKey};
use horus::access::{Capability, RevocationSet, VerifyContext, CAPABILITY_VERSION};
use horus::gateway::{empty_revocation_set, handle_query, Query, UsageMeter};
use horus::types::{Error, Pubkey, Scope};

const HOLDER: Pubkey = Pubkey([0x11; 32]);

fn signed_cap() -> Capability {
    let sk = SigningKey::from_bytes(&[0x42; 32]);
    let mut cap = Capability {
        version: CAPABILITY_VERSION,
        listing: Pubkey([0x22; 32]),
        holder: HOLDER,
        scope: Scope::Aggregate,
        max_queries: 2,
        not_before: 0,
        not_after: 10_000,
        nonce: [0xAB; 16],
        issuer_sig: [0; 64],
    };
    cap.issuer_sig = sk.sign(&cap.signing_bytes()).to_bytes();
    cap
}

fn ctx<'a>(rev: &'a RevocationSet) -> VerifyContext<'a> {
    VerifyContext {
        issuer_key: SigningKey::from_bytes(&[0x42; 32]).verifying_key().to_bytes(),
        query_signer: HOLDER,
        now: 500,
        revoked: rev,
    }
}

#[test]
fn successful_query_consumes_one_quota() {
    let cap = signed_cap();
    let rev = empty_revocation_set();
    let mut meter = UsageMeter::default();
    let q = Query { signer: HOLDER, class: Scope::Count, body: b"count *" };
    let out = handle_query(&cap, &ctx(&rev), &mut meter, &q, |_| Ok(b"42".to_vec())).unwrap();
    assert_eq!(out.answered_count, 1);
    assert_eq!(meter.answered(), 1);
}

#[test]
fn failed_answer_does_not_consume_quota() {
    let cap = signed_cap();
    let rev = empty_revocation_set();
    let mut meter = UsageMeter::default();
    let q = Query { signer: HOLDER, class: Scope::Count, body: b"bad" };
    let res = handle_query(&cap, &ctx(&rev), &mut meter, &q, |_| {
        Err(Error::Malformed("query"))
    });
    assert!(res.is_err());
    assert_eq!(meter.answered(), 0, "failed query must not consume quota");
}

#[test]
fn scope_escalation_blocked_before_answering() {
    let cap = signed_cap(); // Aggregate
    let rev = empty_revocation_set();
    let mut meter = UsageMeter::default();
    let q = Query { signer: HOLDER, class: Scope::Row { max_rows: 5 }, body: b"" };
    let res = handle_query(&cap, &ctx(&rev), &mut meter, &q, |_| Ok(vec![]));
    assert_eq!(res.err().unwrap(), Error::CapabilityRejected("scope escalation"));
    assert_eq!(meter.answered(), 0);
}

#[test]
fn quota_stops_answers_at_max_queries() {
    let cap = signed_cap(); // max_queries = 2
    let rev = empty_revocation_set();
    let mut meter = UsageMeter::default();
    let q = Query { signer: HOLDER, class: Scope::Aggregate, body: b"avg(x)" };
    for expected in 1..=2u32 {
        let out = handle_query(&cap, &ctx(&rev), &mut meter, &q, |b| Ok(b.to_vec())).unwrap();
        assert_eq!(out.answered_count, expected);
        assert_eq!(out.bytes, b"avg(x)".to_vec());
    }
    let mut called = false;
    let res = handle_query(&cap, &ctx(&rev), &mut meter, &q, |_| {
        called = true;
        Ok(vec![])
    });
    assert_eq!(res.err().unwrap(), Error::CapabilityRejected("quota exhausted"));
    assert!(!called, "no answer is computed once the quota is spent");
    assert_eq!(meter.answered(), 2);
}

#[test]
fn answer_error_is_passed_through() {
    let cap = signed_cap();
    let rev = empty_revocation_set();
    let mut meter = UsageMeter::default();
    let q = Query { signer: HOLDER, class: Scope::Count, body: b"x" };
    let res = handle_query(&cap, &ctx(&rev), &mut meter, &q, |_| Err(Error::Malformed("query")));
    assert_eq!(res.err().unwrap(), Error::Malformed("query"));
}

#[test]
fn query_signed_by_other_key_is_rejected() {
    let cap = signed_cap();
    let rev = empty_revocation_set();
    let mut meter = UsageMeter::default();
    let q = Query { signer: Pubkey([0x99; 32]), class: Scope::Count, body: b"count *" };
    let mut called = false;
    let res = handle_query(&cap, &ctx(&rev), &mut meter, &q, |_| {
        called = true;
        Ok(b"42".to_vec())
    });
    assert_eq!(res.err().unwrap(), Error::CapabilityRejected("holder mismatch"));
    assert!(!called, "no answer is computed for a query the holder did not sign");
    assert_eq!(meter.answered(), 0);
}

#[test]
fn holder_is_checked_before_scope() {
    let cap = signed_cap(); // Aggregate
    let rev = empty_revocation_set();
    let mut meter = UsageMeter::default();
    let q = Query { signer: Pubkey([0x99; 32]), class: Scope::Row { max_rows: 5 }, body: b"" };
    let res = handle_query(&cap, &ctx(&rev), &mut meter, &q, |_| Ok(vec![]));
    assert_eq!(res.err().unwrap(), Error::CapabilityRejected("holder mismatch"));
}

#[test]
fn usage_over_a_run_stays_within_quota() {
    let cap = signed_cap(); // max_queries = 2
    let rev = empty_revocation_set();
    let mut meter = UsageMeter::default();
    let good = Query { signer: HOLDER, class: Scope::Count, body: b"q" };
    let mut answered = 0u32;
    for i in 0..6u32 {
        let before = meter.answered();
        let res = handle_query(&cap, &ctx(&rev), &mut meter, &good, |_| {
            if i % 2 == 0 { Err(Error::Malformed("query")) } else { Ok(vec![1]) }
        });
        if res.is_ok() {
            answered += 1;
            assert_eq!(meter.answered(), before + 1);
        } else {
            assert_eq!(meter.answered(), before);
        }
        assert!(meter.answered() <= cap.max_queries);
    }
    assert_eq!(answered, 2);
    assert_eq!(meter.answered(), 2);
}
