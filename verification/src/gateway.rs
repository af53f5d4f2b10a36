//! Gateway runtime: checks the capability, answers the query, and accrues the
//! usage that is later proven at claim time.

use vstd::prelude::*;

use crate::access::{
    capability_verdict, issuer_signature_result, Capability, RevocationSet, VerifyContext,
};
use crate::types::{scope_permits, Error, Pubkey, Scope};

verus! {

/// Per-capability usage the gateway tracks off-chain.
#[derive(Debug)]
pub struct UsageMeter {
    answered: u32,
}

impl View for UsageMeter {
    type V = u32;

    /// The number of successfully answered queries.
    closed spec fn view(&self) -> u32 {
        self.answered
    }
}

impl Default for UsageMeter {
    fn default() -> (m: UsageMeter)
        ensures
            m@ == 0,
    {
        UsageMeter { answered: 0 }
    }
}

impl UsageMeter {
    /// The number of successfully answered queries.
    pub fn answered(&self) -> (n: u32)
        ensures
            n == self@,
    {
        self.answered
    }

    /// Record a successful answer. A failed answer must not call this, so a
    /// malformed query never consumes quota.
    fn record_success(&mut self)
        requires
            old(self)@ < u32::MAX,
        ensures
            final(self)@ == old(self)@ + 1,
    {
        self.answered = self.answered + 1;
    }
}

/// A query the buyer submits.
pub struct Query<'a> {
    pub signer: Pubkey,
    pub class: Scope,
    pub body: &'a [u8],
}

/// The gateway's answer and the usage count to carry into settlement.
pub struct Answered {
    pub bytes: Vec<u8>,
    pub answered_count: u32,
}

/// What verifying `cap` in `ctx` at usage `answered` gives.
pub open spec fn gate_verdict(cap: Capability, ctx: VerifyContext<'_>, answered: u32) -> Result<
    (),
    Error,
> {
    capability_verdict(
        cap,
        issuer_signature_result(cap, ctx.issuer_key@),
        ctx.query_signer@,
        ctx.now,
        ctx.revoked@,
        answered,
    )
}

/// How one call of `handle_query` moves the usage meter: an answered query
/// is charged only while usage is below the quota and raises it by one; any
/// other outcome leaves it as it was.
pub open spec fn usage_step(max_queries: u32, before: u32, after: u32, answered: bool) -> bool {
    if answered {
        before < max_queries && after == before + 1
    } else {
        after == before
    }
}

/// Process one query end to end: verify the capability, then check that the
/// query's own signer is the holder, then check the query's class against the
/// granted scope, then answer. The meter is bumped only after `answer_fn`
/// succeeds.
pub fn handle_query<F>(
    cap: &Capability,
    ctx: &VerifyContext<'_>,
    meter: &mut UsageMeter,
    query: &Query<'_>,
    answer_fn: F,
) -> (r: Result<Answered, Error>) where F: FnOnce(&[u8]) -> Result<Vec<u8>, Error>
    requires
        call_requires(answer_fn, (query.body,)),
    ensures
        gate_verdict(*cap, *ctx, old(meter)@) is Err ==> {
            &&& r == Err::<Answered, Error>(gate_verdict(*cap, *ctx, old(meter)@)->Err_0)
            &&& final(meter)@ == old(meter)@
        },
        gate_verdict(*cap, *ctx, old(meter)@) is Ok && query.signer@ != cap.holder@ ==> {
            &&& r == Err::<Answered, Error>(Error::CapabilityRejected("holder mismatch"))
            &&& final(meter)@ == old(meter)@
        },
        gate_verdict(*cap, *ctx, old(meter)@) is Ok && query.signer@ == cap.holder@
            && !scope_permits(cap.scope, query.class) ==> {
            &&& r == Err::<Answered, Error>(Error::CapabilityRejected("scope escalation"))
            &&& final(meter)@ == old(meter)@
        },
        gate_verdict(*cap, *ctx, old(meter)@) is Ok && query.signer@ == cap.holder@
            && scope_permits(cap.scope, query.class) ==> {
            exists|out: Result<Vec<u8>, Error>|
                {
                    &&& #[trigger] call_ensures(answer_fn, (query.body,), out)
                    &&& match out {
                        Ok(bytes) => {
                            &&& r matches Ok(a)
                            &&& a.bytes == bytes
                            &&& a.answered_count == old(meter)@ + 1
                            &&& final(meter)@ == old(meter)@ + 1
                        },
                        Err(e) => {
                            &&& r == Err::<Answered, Error>(e)
                            &&& final(meter)@ == old(meter)@
                        },
                    }
                }
        },
        r matches Ok(a) ==> a.answered_count <= cap.max_queries,
        usage_step(cap.max_queries, old(meter)@, final(meter)@, r is Ok),
{
    match cap.verify(ctx, meter.answered()) {
        Err(e) => {
            return Err(e);
        },
        Ok(()) => {},
    }
    if query.signer != cap.holder {
        return Err(Error::CapabilityRejected("holder mismatch"));
    }
    if !cap.permits_scope(&query.class) {
        return Err(Error::CapabilityRejected("scope escalation"));
    }
    let out = answer_fn(query.body);
    match out {
        Err(e) => Err(e),
        Ok(bytes) => {
            meter.record_success();
            Ok(Answered { bytes, answered_count: meter.answered() })
        },
    }
}

/// An empty revocation set, for a gateway that builds its own.
pub fn empty_revocation_set() -> (s: RevocationSet)
    ensures
        s@ == Set::<(Seq<u8>, Seq<u8>)>::empty(),
{
    RevocationSet::default()
}

/// How many calls in a run answered.
pub open spec fn count_answered(outcomes: Seq<bool>) -> nat
    decreases outcomes.len(),
{
    if outcomes.len() == 0 {
        0
    } else {
        count_answered(outcomes.drop_last()) + if outcomes.last() {
            1nat
        } else {
            0nat
        }
    }
}

/// Over any run of calls against one capability and one meter, where
/// `meters[i]` is the usage before call `i` and `outcomes[i]` whether it
/// answered: usage never decreases, never exceeds the quota, grows by exactly
/// the number of answered calls, and so at most `max_queries` minus the
/// starting usage calls answer.
pub proof fn lemma_usage_within_quota(max_queries: u32, meters: Seq<u32>, outcomes: Seq<bool>)
    requires
        meters.len() == outcomes.len() + 1,
        meters[0] <= max_queries,
        forall|i: int|
            0 <= i < outcomes.len() ==> usage_step(
                max_queries,
                #[trigger] meters[i],
                meters[i + 1],
                outcomes[i],
            ),
    ensures
        forall|i: int| 0 <= i < meters.len() ==> #[trigger] meters[i] <= max_queries,
        forall|i: int, j: int| 0 <= i <= j < meters.len() ==> meters[i] <= meters[j],
        meters.last() == meters[0] + count_answered(outcomes),
        count_answered(outcomes) <= max_queries - meters[0],
    decreases outcomes.len(),
{
    if outcomes.len() > 0 {
        let n = outcomes.len() as int;
        let ms = meters.drop_last();
        let os = outcomes.drop_last();
        assert forall|i: int| 0 <= i < os.len() implies usage_step(
            max_queries,
            #[trigger] ms[i],
            ms[i + 1],
            os[i],
        ) by {
            assert(usage_step(max_queries, meters[i], meters[i + 1], outcomes[i]));
        }
        lemma_usage_within_quota(max_queries, ms, os);
        assert(usage_step(max_queries, meters[n - 1], meters[n], outcomes[n - 1]));
        assert(ms[n - 1] == meters[n - 1]);
        assert forall|i: int| 0 <= i < meters.len() implies #[trigger] meters[i] <= max_queries by {
            if i < n {
                assert(ms[i] == meters[i]);
            }
        }
        assert forall|i: int, j: int| 0 <= i <= j < meters.len() implies meters[i] <= meters[j] by {
            if j < n {
                assert(ms[i] == meters[i] && ms[j] == meters[j]);
            } else if i < n {
                assert(ms[i] == meters[i]);
                assert(ms[i] <= ms[n - 1]);
            }
        }
    }
}

} // verus!
