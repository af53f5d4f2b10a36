//! Escrow and per-query settlement.
//!
//! Funds sit in an escrow and are released to the owner per answered query,
//! minus a protocol fee. The price is read from the listing's schedule at
//! claim time, never taken from the claim.

use vstd::prelude::*;

use crate::types::{Error, Lamports, Pubkey, Scope};

verus! {

/// `a + b`, or `u64::MAX` when the sum does not fit.
pub open spec fn sat_add(a: u64, b: u64) -> u64 {
    if a + b > u64::MAX {
        u64::MAX
    } else {
        (a + b) as u64
    }
}

/// `a * b`, or `u64::MAX` when the product does not fit.
pub open spec fn sat_mul(a: u64, b: u64) -> u64 {
    if a * b > u64::MAX {
        u64::MAX
    } else {
        (a * b) as u64
    }
}

/// `a - b`, or `0` when `b > a`.
pub open spec fn sat_sub(a: u64, b: u64) -> u64 {
    if a < b {
        0
    } else {
        (a - b) as u64
    }
}

/// Multiplication that saturates at `u64::MAX`.
pub(crate) fn saturating_mul_u64(a: u64, b: u64) -> (r: u64)
    ensures
        r == sat_mul(a, b),
{
    match a.checked_mul(b) {
        Some(v) => v,
        None => u64::MAX,
    }
}

/// Per-query price schedule.
#[derive(Clone, Debug)]
pub struct PriceSchedule {
    pub p_count: Lamports,
    pub p_agg: Lamports,
    pub p_row_base: Lamports,
    pub p_row_unit: Lamports,
}

/// `price(Count) = p_count`, `price(Aggregate) = p_agg`,
/// `price(Row{n}) = p_row_base + n * p_row_unit`, saturating.
pub open spec fn price_of(p: PriceSchedule, s: Scope) -> u64 {
    match s {
        Scope::Count => p.p_count,
        Scope::Aggregate => p.p_agg,
        Scope::Row { max_rows } => sat_add(p.p_row_base, sat_mul(max_rows as u64, p.p_row_unit)),
    }
}

impl PriceSchedule {
    /// The price of one query of class `scope`.
    pub fn price(&self, scope: &Scope) -> (r: Lamports)
        ensures
            r == price_of(*self, *scope),
    {
        match scope {
            Scope::Count => self.p_count,
            Scope::Aggregate => self.p_agg,
            Scope::Row { max_rows } => self.p_row_base.saturating_add(
                saturating_mul_u64(*max_rows as u64, self.p_row_unit),
            ),
        }
    }
}

/// An escrow account.
#[derive(Clone, Debug)]
pub struct Escrow {
    pub buyer: Pubkey,
    pub listing: Pubkey,
    pub owner: Pubkey,
    pub budget: Lamports,
    pub spent: Lamports,
    pub fee_bps: u16,
    pub not_after: i64,
    pub closed: bool,
}

/// Where lamports go when a claim settles.
#[derive(Clone, Debug, PartialEq, Eq, Structural)]
pub struct Settlement {
    pub to_owner: Lamports,
    pub to_treasury: Lamports,
    pub exhausted: bool,
}

/// The protocol fee on `owed`: `owed * fee_bps / 10_000` rounded down, but at
/// least one lamport on a non-zero amount.
pub open spec fn fee_of(owed: u64, fee_bps: u16) -> u64 {
    if owed == 0 {
        0
    } else {
        let raw = sat_mul(owed, fee_bps as u64) / 10_000;
        if raw < 1 {
            1
        } else {
            raw
        }
    }
}

/// Protocol fee on `owed`, with a one-lamport floor on non-zero amounts.
pub fn fee(owed: Lamports, fee_bps: u16) -> (f: Lamports)
    ensures
        f == fee_of(owed, fee_bps),
{
    if owed == 0 {
        return 0;
    }
    let raw = saturating_mul_u64(owed, fee_bps as u64) / 10_000;
    if raw < 1 {
        1
    } else {
        raw
    }
}

/// The amount owed for a run of answered queries: the saturating sum of
/// their prices, left to right.
pub open spec fn owed_for(p: PriceSchedule, scopes: Seq<Scope>) -> u64
    decreases scopes.len(),
{
    if scopes.len() == 0 {
        0
    } else {
        sat_add(owed_for(p, scopes.drop_last()), price_of(p, scopes.last()))
    }
}

/// Why a claim is refused, if it is: the escrow is closed, the answered count
/// does not grow, or the scopes do not match the newly answered queries.
pub open spec fn claim_rejection(e: Escrow, recorded_count: u32, new_count: u32, n_scopes: int) -> Option<
    Error,
> {
    if e.closed {
        Some(Error::SettlementRejected("escrow closed"))
    } else if new_count <= recorded_count {
        Some(Error::SettlementRejected("non-monotonic answered count"))
    } else if n_scopes != new_count - recorded_count {
        Some(Error::SettlementRejected("scope count mismatch"))
    } else {
        None
    }
}

/// What is left of the budget.
pub open spec fn remaining_of(e: Escrow) -> u64 {
    sat_sub(e.budget, e.spent)
}

/// The amount a claim releases: what is owed, clamped to what remains.
pub open spec fn settled_of(e: Escrow, owed: u64) -> u64 {
    if owed > remaining_of(e) {
        remaining_of(e)
    } else {
        owed
    }
}

/// The split of a claim of `owed` lamports.
pub open spec fn settlement_of(e: Escrow, owed: u64) -> Settlement {
    let settled = settled_of(e, owed);
    let f = fee_of(settled, e.fee_bps);
    Settlement { to_owner: (settled - f) as u64, to_treasury: f, exhausted: owed > remaining_of(e) }
}

/// The escrow after a claim of `owed` lamports is accepted.
pub open spec fn escrow_after_claim(e: Escrow, owed: u64) -> Escrow {
    Escrow { spent: sat_add(e.spent, settled_of(e, owed)), ..e }
}

/// A claim that would be accepted splits off no more fee than it releases.
/// The computation `settled - fee` has no other meaning.
pub open spec fn claim_fee_fits(
    e: Escrow,
    recorded_count: u32,
    new_count: u32,
    scopes: Seq<Scope>,
    prices: PriceSchedule,
) -> bool {
    claim_rejection(e, recorded_count, new_count, scopes.len() as int) is None ==> fee_of(
        settled_of(e, owed_for(prices, scopes)),
        e.fee_bps,
    ) <= settled_of(e, owed_for(prices, scopes))
}

/// The outcome of refunding at time `now`.
pub open spec fn refund_outcome(e: Escrow, now: i64) -> Result<u64, Error> {
    if now < e.not_after {
        Err(Error::SettlementRejected("refund before not_after"))
    } else if e.closed {
        Ok(0)
    } else {
        Ok(remaining_of(e))
    }
}

/// The escrow after refunding at time `now`.
pub open spec fn escrow_after_refund(e: Escrow, now: i64) -> Escrow {
    if now < e.not_after || e.closed {
        e
    } else {
        Escrow { closed: true, ..e }
    }
}

impl Escrow {
    /// Process a claim for `new_count - recorded_count` newly answered
    /// queries, one scope each, priced by `prices`.
    ///
    /// 1. the answered count must grow (no replay or double claim);
    /// 2. `owed` is the sum of the prices;
    /// 3. if `spent + owed > budget`, the claim is clamped to what remains and
    ///    marked exhausted;
    /// 4. the fee is split off;
    /// 5. `spent` grows by what was released.
    pub fn claim(
        &mut self,
        recorded_count: u32,
        new_count: u32,
        scopes: &[Scope],
        prices: &PriceSchedule,
        now: i64,
    ) -> (r: Result<Settlement, Error>)
        requires
            claim_fee_fits(*old(self), recorded_count, new_count, scopes@, *prices),
        ensures
            match claim_rejection(*old(self), recorded_count, new_count, scopes@.len() as int) {
                Some(err) => r == Err::<Settlement, Error>(err) && *final(self) == *old(self),
                None => {
                    &&& r == Ok::<Settlement, Error>(
                        settlement_of(*old(self), owed_for(*prices, scopes@)),
                    )
                    &&& *final(self) == escrow_after_claim(*old(self), owed_for(*prices, scopes@))
                },
            },
    {
        if self.closed {
            return Err(Error::SettlementRejected("escrow closed"));
        }
        if new_count <= recorded_count {
            return Err(Error::SettlementRejected("non-monotonic answered count"));
        }
        let delta = (new_count - recorded_count) as usize;
        if scopes.len() != delta {
            return Err(Error::SettlementRejected("scope count mismatch"));
        }
        let _ = now;

        let mut owed: Lamports = 0;
        let mut i: usize = 0;
        while i < scopes.len()
            invariant
                i <= scopes@.len(),
                owed == owed_for(*prices, scopes@.take(i as int)),
            decreases scopes@.len() - i,
        {
            assert(scopes@.take(i + 1).drop_last() =~= scopes@.take(i as int));
            owed = owed.saturating_add(prices.price(&scopes[i]));
            i = i + 1;
        }
        assert(scopes@.take(scopes@.len() as int) =~= scopes@);

        let remaining = self.budget.saturating_sub(self.spent);
        let (settled, exhausted) = if owed > remaining {
            (remaining, true)
        } else {
            (owed, false)
        };

        let f = fee(settled, self.fee_bps);
        let to_owner = settled - f;
        self.spent = self.spent.saturating_add(settled);

        Ok(Settlement { to_owner, to_treasury: f, exhausted })
    }

    /// The buyer reclaims `budget - spent` once `not_after` has passed.
    /// Refunding closes the escrow; refunding a closed escrow returns zero.
    pub fn refund(&mut self, now: i64) -> (r: Result<Lamports, Error>)
        ensures
            r == refund_outcome(*old(self), now),
            *final(self) == escrow_after_refund(*old(self), now),
    {
        if now < self.not_after {
            return Err(Error::SettlementRejected("refund before not_after"));
        }
        if self.closed {
            return Ok(0);
        }
        let refundable = self.budget.saturating_sub(self.spent);
        self.closed = true;
        Ok(refundable)
    }
}

/// The fee is zero on nothing, at least one lamport on anything else, and,
/// at a rate of at most 100%, never more than the amount it is taken from.
pub proof fn lemma_fee_bounds(owed: u64, fee_bps: u16)
    ensures
        owed == 0 ==> fee_of(owed, fee_bps) == 0,
        owed > 0 ==> fee_of(owed, fee_bps) >= 1,
        fee_bps <= 10_000 ==> fee_of(owed, fee_bps) <= owed,
{
    if owed > 0 && fee_bps <= 10_000 {
        let b = fee_bps as u64;
        if owed * b > u64::MAX {
            assert(u64::MAX / 10_000 <= owed) by (nonlinear_arith)
                requires
                    owed * b > u64::MAX,
                    b <= 10_000,
            ;
        } else {
            assert((owed * b) / 10_000 <= owed) by (nonlinear_arith)
                requires
                    b <= 10_000,
            ;
        }
    }
}

/// At a fee rate of at most 100%, every claim meets the precondition of
/// `Escrow::claim`.
pub proof fn lemma_standard_fee_fits(
    e: Escrow,
    recorded_count: u32,
    new_count: u32,
    scopes: Seq<Scope>,
    prices: PriceSchedule,
)
    requires
        e.fee_bps <= 10_000,
    ensures
        claim_fee_fits(e, recorded_count, new_count, scopes, prices),
{
    lemma_fee_bounds(settled_of(e, owed_for(prices, scopes)), e.fee_bps);
}

/// A claim is accepted only on an open escrow, only when the answered count
/// grows, and only with one scope per newly answered query.
pub proof fn lemma_accepted_claim_advances(e: Escrow, recorded_count: u32, new_count: u32, n_scopes: int)
    requires
        claim_rejection(e, recorded_count, new_count, n_scopes) is None,
    ensures
        !e.closed,
        new_count > recorded_count,
        n_scopes == new_count - recorded_count,
{
}

/// On an escrow that has not overspent, an accepted claim pays out exactly
/// what it debits, never lets `spent` pass the budget, releases all that is
/// owed when it is not exhausted, and drains the budget when it is.
pub proof fn lemma_claim_conserves_budget(e: Escrow, owed: u64)
    requires
        e.spent <= e.budget,
        fee_of(settled_of(e, owed), e.fee_bps) <= settled_of(e, owed),
    ensures
        ({
            let s = settlement_of(e, owed);
            let after = escrow_after_claim(e, owed);
            &&& s.to_owner + s.to_treasury == after.spent - e.spent
            &&& after.spent <= after.budget
            &&& !s.exhausted ==> s.to_owner + s.to_treasury == owed
            &&& s.exhausted <==> owed > e.budget - e.spent
            &&& s.exhausted ==> after.spent == after.budget
            &&& after.budget == e.budget && after.fee_bps == e.fee_bps && after.closed == e.closed
        }),
{
}

/// Refunding is idempotent: once a refund has gone through, every later
/// refund returns zero and leaves the escrow as it is.
pub proof fn lemma_refund_idempotent(e: Escrow, now: i64, later: i64)
    requires
        refund_outcome(e, now) is Ok,
        later >= e.not_after,
    ensures
        refund_outcome(escrow_after_refund(e, now), later) == Ok::<u64, Error>(0),
        escrow_after_refund(escrow_after_refund(e, now), later) == escrow_after_refund(e, now),
{
}

/// After a refund has gone through, the escrow refuses every claim.
pub proof fn lemma_refunded_escrow_refuses_claims(
    e: Escrow,
    now: i64,
    recorded_count: u32,
    new_count: u32,
    n_scopes: int,
)
    requires
        refund_outcome(e, now) is Ok,
    ensures
        claim_rejection(escrow_after_refund(e, now), recorded_count, new_count, n_scopes) == Some(
            Error::SettlementRejected("escrow closed"),
        ),
{
}

/// The buyer's deposit is accounted for: on an open escrow that has not
/// overspent, what one claim pays the owner and the treasury plus what the
/// refund returns equals what was left of the budget.
pub proof fn lemma_claim_then_refund_conserves(e: Escrow, owed: u64, now: i64)
    requires
        e.spent <= e.budget,
        !e.closed,
        now >= e.not_after,
        fee_of(settled_of(e, owed), e.fee_bps) <= settled_of(e, owed),
    ensures
        ({
            let s = settlement_of(e, owed);
            let back = refund_outcome(escrow_after_claim(e, owed), now);
            &&& back is Ok
            &&& s.to_owner + s.to_treasury + back->Ok_0 == e.budget - e.spent
        }),
{
}

/// A row query never costs less than one that asks for fewer rows.
pub proof fn lemma_row_price_monotone(p: PriceSchedule, m: u32, n: u32)
    requires
        m <= n,
    ensures
        price_of(p, Scope::Row { max_rows: m }) <= price_of(p, Scope::Row { max_rows: n }),
{
    let u = p.p_row_unit;
    assert((m as u64) * u <= (n as u64) * u) by (nonlinear_arith)
        requires
            m <= n,
    ;
}

/// The fee is `owed * fee_bps / 10_000`, rounded down and computed with the
/// product saturating at `u64::MAX`, but at least one lamport on any
/// non-zero amount and nothing on zero.
pub proof fn lemma_fee_formula(owed: u64, fee_bps: u16)
    ensures
        owed == 0 ==> fee_of(owed, fee_bps) == 0,
        owed > 0 && owed * fee_bps <= u64::MAX && owed * fee_bps >= 10_000 ==> fee_of(owed, fee_bps)
            == (owed * fee_bps) / 10_000,
        owed > 0 && owed * fee_bps < 10_000 ==> fee_of(owed, fee_bps) == 1,
        owed * fee_bps > u64::MAX ==> fee_of(owed, fee_bps) == u64::MAX / 10_000,
{
    if owed > 0 && owed * fee_bps >= 10_000 && owed * fee_bps <= u64::MAX {
        let m = owed * fee_bps;
        assert(m / 10_000 >= 1) by (nonlinear_arith)
            requires
                m >= 10_000,
        ;
    }
}

/// What a claim of `owed` lamports does to an escrow that has not overspent:
/// it releases `min(owed, budget - spent)`, advances `spent` by exactly that,
/// is exhausted exactly when `owed` exceeds what remained, and takes the fee
/// on the released amount alone (never on the unclamped `owed`): the
/// treasury gets `max(1, released * fee_bps / 10_000)` of a non-zero release,
/// the owner the rest.
pub proof fn lemma_claim_settles_released_amount(e: Escrow, owed: u64)
    requires
        e.spent <= e.budget,
        fee_of(settled_of(e, owed), e.fee_bps) <= settled_of(e, owed),
    ensures
        ({
            let s = settlement_of(e, owed);
            let after = escrow_after_claim(e, owed);
            let left = e.budget - e.spent;
            let released: int = if owed > left {
                left
            } else {
                owed as int
            };
            &&& s.to_owner + s.to_treasury == released
            &&& after.spent == e.spent + released
            &&& s.exhausted == (owed > left)
            &&& released == 0 ==> s.to_treasury == 0
            &&& released > 0 && released * e.fee_bps < 10_000 ==> s.to_treasury == 1
            &&& released * e.fee_bps >= 10_000 && released * e.fee_bps <= u64::MAX ==> s.to_treasury
                == (released * e.fee_bps) / 10_000
            &&& released * e.fee_bps > u64::MAX ==> s.to_treasury == u64::MAX / 10_000
            &&& after.budget == e.budget && after.closed == e.closed && after.fee_bps == e.fee_bps
            &&& after.buyer == e.buyer && after.owner == e.owner && after.listing == e.listing
            &&& after.not_after == e.not_after
        }),
{
    lemma_fee_formula(settled_of(e, owed), e.fee_bps);
}

/// The amount owed for a run of queries grows, query by query, by each
/// query's price, saturating at `u64::MAX`; nothing is owed for no queries.
pub proof fn lemma_owed_is_sum_of_prices(p: PriceSchedule, scopes: Seq<Scope>, next: Scope)
    ensures
        owed_for(p, Seq::<Scope>::empty()) == 0,
        owed_for(p, scopes.push(next)) == if owed_for(p, scopes) + price_of(p, next) > u64::MAX {
            u64::MAX as int
        } else {
            owed_for(p, scopes) + price_of(p, next)
        },
{
    assert(scopes.push(next).drop_last() =~= scopes);
}

/// Prices by class: a count query costs `p_count`, an aggregate `p_agg`, and a
/// row query `p_row_base + n * p_row_unit` for its `n` rows, capped at
/// `u64::MAX`; so, short of the cap, every extra row costs exactly one unit.
pub proof fn lemma_price_formula(p: PriceSchedule, n: u32)
    ensures
        price_of(p, Scope::Count) == p.p_count,
        price_of(p, Scope::Aggregate) == p.p_agg,
        price_of(p, Scope::Row { max_rows: n }) == if p.p_row_base + n * p.p_row_unit > u64::MAX {
            u64::MAX as int
        } else {
            p.p_row_base + n * p.p_row_unit
        },
        n < u32::MAX && p.p_row_base + (n + 1) * p.p_row_unit <= u64::MAX ==> price_of(
            p,
            Scope::Row { max_rows: (n + 1) as u32 },
        ) == price_of(p, Scope::Row { max_rows: n }) + p.p_row_unit,
{
    let u = p.p_row_unit as int;
    assert((n + 1) * u == n * u + u) by (nonlinear_arith);
    assert(0 <= n * u) by (nonlinear_arith)
        requires
            0 <= n,
            0 <= u,
    ;
    if n < u32::MAX {
        assert(0 <= (n + 1) * u) by (nonlinear_arith)
            requires
                0 <= n,
                0 <= u,
        ;
    }
}

/// A refund is refused exactly before `not_after`; from `not_after` on, it
/// returns what is left of the budget (`budget - spent`, or nothing if
/// `spent` has reached it) and closes the escrow, and on an escrow already
/// closed it returns nothing and changes nothing. No other field moves.
pub proof fn lemma_refund_formula(e: Escrow, now: i64)
    ensures
        refund_outcome(e, now) is Err <==> now < e.not_after,
        now >= e.not_after && !e.closed && e.spent <= e.budget ==> refund_outcome(e, now)
            == Ok::<u64, Error>((e.budget - e.spent) as u64),
        now >= e.not_after && !e.closed && e.spent > e.budget ==> refund_outcome(e, now) == Ok::<
            u64,
            Error,
        >(0),
        now >= e.not_after && e.closed ==> refund_outcome(e, now) == Ok::<u64, Error>(0),
        now >= e.not_after ==> escrow_after_refund(e, now).closed,
        ({
            let after = escrow_after_refund(e, now);
            &&& after.budget == e.budget && after.spent == e.spent && after.fee_bps == e.fee_bps
            &&& after.buyer == e.buyer && after.owner == e.owner && after.listing == e.listing
            &&& after.not_after == e.not_after
            &&& now < e.not_after ==> after.closed == e.closed
        }),
{
}

/// A saturating product, as budget estimates and row prices use it, is the
/// exact product when it fits and `u64::MAX` otherwise.
pub proof fn lemma_saturating_product(a: u64, b: u64)
    ensures
        a * b <= u64::MAX ==> sat_mul(a, b) == a * b,
        a * b > u64::MAX ==> sat_mul(a, b) == u64::MAX,
{
}

} // verus!
