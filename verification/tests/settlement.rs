use horus::settlement::{fee, Escrow, PriceSchedule, Settlement};
use horus::types::{Error, Lamports, Pubkey, Scope};

fn prices() -> PriceSchedule {
    PriceSchedule {
        p_count: 1_000,
        p_agg: 5_000,
        p_row_base: 2_000,
        p_row_unit: 10,
    }
}

fn escrow(budget: Lamports) -> Escrow {
    Escrow {
        buyer: Pubkey([1; 32]),
        listing: Pubkey([2; 32]),
        owner: Pubkey([3; 32]),
        budget,
        spent: 0,
        fee_bps: 250, // 2.5%
        not_after: 10_000,
        closed: false,
    }
}

#[test]
fn double_claim_same_answered_is_rejected() {
    let mut e = escrow(1_000_000);
    let err = e.claim(5, 5, &[], &prices(), 0).unwrap_err();
    assert_eq!(err, Error::SettlementRejected("non-monotonic answered count"));
}

#[test]
fn happy_claim_splits_fee() {
    let mut e = escrow(1_000_000);
    // two count queries: owed = 2_000, fee = 2.5% = 50.
    let s = e.claim(0, 2, &[Scope::Count, Scope::Count], &prices(), 100).unwrap();
    assert_eq!(s.to_treasury, 50);
    assert_eq!(s.to_owner, 1_950);
    assert!(!s.exhausted);
    assert_eq!(e.spent, 2_000);
}

#[test]
fn claim_exceeding_budget_is_clamped() {
    let mut e = escrow(1_500);
    // one aggregate query owes 5_000 but only 1_500 remains.
    let s = e.claim(0, 1, &[Scope::Aggregate], &prices(), 100).unwrap();
    assert!(s.exhausted);
    assert_eq!(s.to_owner + s.to_treasury, 1_500);
    assert_eq!(e.spent, 1_500);
}

#[test]
fn fee_floors_at_one_on_subunit_prices() {
    // owed * 250 / 10000 rounds to 0 for owed < 40; floor must lift it to 1.
    assert_eq!(fee(39, 250), 1);
    assert_eq!(fee(40, 250), 1);
    assert_eq!(fee(0, 250), 0);
}

#[test]
fn refund_before_not_after_is_rejected() {
    let mut e = escrow(1_000);
    assert_eq!(
        e.refund(9_999).unwrap_err(),
        Error::SettlementRejected("refund before not_after")
    );
}

#[test]
fn refund_after_not_after_returns_remainder() {
    let mut e = escrow(10_000);
    e.claim(0, 1, &[Scope::Count], &prices(), 100).unwrap(); // spends 1_000
    let back = e.refund(10_000).unwrap();
    assert_eq!(back, 9_000);
    assert!(e.closed);
    // idempotent
    assert_eq!(e.refund(10_001).unwrap(), 0);
}

#[test]
fn claim_on_closed_escrow_is_rejected() {
    let mut e = escrow(10_000);
    e.refund(10_000).unwrap();
    assert_eq!(
        e.claim(0, 1, &[Scope::Count], &prices(), 100).unwrap_err(),
        Error::SettlementRejected("escrow closed")
    );
}

#[test]
fn row_price_scales_with_rows() {
    let p = prices();
    assert_eq!(p.price(&Scope::Row { max_rows: 100 }), 2_000 + 100 * 10);
}

#[test]
fn scope_count_mismatch_is_rejected() {
    let mut e = escrow(1_000_000);
    assert_eq!(
        e.claim(0, 2, &[Scope::Count], &prices(), 0).unwrap_err(),
        Error::SettlementRejected("scope count mismatch")
    );
    assert_eq!(e.spent, 0);
}

#[test]
fn fee_is_proportional_above_the_floor() {
    assert_eq!(fee(2_000, 250), 50);
    assert_eq!(fee(10_000, 10_000), 10_000);
    assert_eq!(fee(1, 0), 1);
    assert_eq!(fee(u64::MAX, 10_000), u64::MAX / 10_000);
}

#[test]
fn row_price_saturates() {
    let p = PriceSchedule { p_count: 0, p_agg: 0, p_row_base: 5, p_row_unit: u64::MAX };
    assert_eq!(p.price(&Scope::Row { max_rows: 2 }), u64::MAX);
    assert_eq!(p.price(&Scope::Row { max_rows: 0 }), 5);
    assert!(prices().price(&Scope::Row { max_rows: 3 }) <= prices().price(&Scope::Row { max_rows: 4 }));
}

#[test]
fn mixed_claim_sums_prices() {
    let mut e = escrow(1_000_000);
    let s = e
        .claim(3, 6, &[Scope::Count, Scope::Aggregate, Scope::Row { max_rows: 7 }], &prices(), 0)
        .unwrap();
    // owed = 1_000 + 5_000 + 2_070 = 8_070; fee = 8_070 * 250 / 10_000 = 201.
    assert_eq!(s, Settlement { to_owner: 7_869, to_treasury: 201, exhausted: false });
    assert_eq!(e.spent, 8_070);
}

#[test]
fn claim_then_refund_accounts_for_whole_budget() {
    let mut e = escrow(7_777);
    let s = e.claim(0, 2, &[Scope::Aggregate, Scope::Count], &prices(), 0).unwrap();
    let back = e.refund(10_000).unwrap();
    assert_eq!(s.to_owner + s.to_treasury + back, 7_777);
    let mut f = escrow(3_000);
    let t = f.claim(0, 1, &[Scope::Aggregate], &prices(), 0).unwrap();
    assert!(t.exhausted);
    assert_eq!(f.refund(10_000).unwrap(), 0);
    assert_eq!(t.to_owner + t.to_treasury, 3_000);
}

#[test]
fn exhausted_escrow_settles_nothing_more() {
    let mut e = escrow(1_000);
    e.claim(0, 1, &[Scope::Count], &prices(), 0).unwrap();
    let s = e.claim(1, 2, &[Scope::Count], &prices(), 0).unwrap();
    assert_eq!(s, Settlement { to_owner: 0, to_treasury: 0, exhausted: true });
    assert_eq!(e.spent, 1_000);
}
