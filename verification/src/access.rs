//! Capability-based access grants.
//!
//! A capability is a bearer token that a buyer presents to the gateway. The
//! gateway checks the issuer signature and a handful of local rules offline;
//! usage is tracked off-chain and proven at claim time.

use vstd::prelude::*;

use crate::crypto::{sig_check_outcome, sig_check_result, verify_sig, SigCheck};
use crate::encoding::{
    bytes_equal, lemma_le_bytes_len, lemma_le_i64_injective, lemma_le_u32_injective, le_i64,
    le_u32, push_all, push_le,
};
use crate::types::{scope_permits, Error, Pubkey, Scope};

verus! {

/// The only capability version this gateway accepts.
pub const CAPABILITY_VERSION: u8 = 1;

/// A signed access grant. The signature covers every field except
/// `issuer_sig`, serialized in declaration order.
#[derive(Clone, Debug)]
pub struct Capability {
    pub version: u8,
    pub listing: Pubkey,
    pub holder: Pubkey,
    pub scope: Scope,
    pub max_queries: u32,
    pub not_before: i64,
    pub not_after: i64,
    pub nonce: [u8; 16],
    pub issuer_sig: [u8; 64],
}

/// The revocation set a gateway syncs lazily: `(listing, nonce)` pairs.
#[derive(Debug)]
pub struct RevocationSet {
    revoked: Vec<(Pubkey, [u8; 16])>,
}

impl RevocationSet {
    /// No pair is stored twice.
    #[verifier::type_invariant]
    spec fn no_duplicates(self) -> bool {
        forall|i: int, j: int|
            0 <= i < j < self.revoked@.len() ==> !(#[trigger] self.revoked@[i].0@
                == #[trigger] self.revoked@[j].0@ && self.revoked@[i].1@ == self.revoked@[j].1@)
    }

    /// Whether some stored entry is the pair `(listing, nonce)`.
    spec fn holds(self, listing: Seq<u8>, nonce: Seq<u8>) -> bool {
        exists|i: int| self.entry_is(i, listing, nonce)
    }

    /// Whether the stored entry at `i` is the pair `(listing, nonce)`.
    spec fn entry_is(self, i: int, listing: Seq<u8>, nonce: Seq<u8>) -> bool {
        &&& 0 <= i < self.revoked@.len()
        &&& self.revoked@[i].0@ == listing
        &&& self.revoked@[i].1@ == nonce
    }
}

impl View for RevocationSet {
    type V = Set<(Seq<u8>, Seq<u8>)>;

    /// The revoked `(listing, nonce)` pairs, by their bytes.
    closed spec fn view(&self) -> Set<(Seq<u8>, Seq<u8>)> {
        Set::new(|p: (Seq<u8>, Seq<u8>)| self.holds(p.0, p.1))
    }
}

impl Default for RevocationSet {
    fn default() -> (r: RevocationSet)
        ensures
            r@ == Set::<(Seq<u8>, Seq<u8>)>::empty(),
    {
        let r = RevocationSet { revoked: Vec::new() };
        assert(r@ =~= Set::<(Seq<u8>, Seq<u8>)>::empty());
        r
    }
}

impl RevocationSet {
    /// Revoke `(listing, nonce)`. Revoking a pair twice has no further effect.
    pub fn revoke(&mut self, listing: Pubkey, nonce: [u8; 16])
        ensures
            final(self)@ == old(self)@.insert((listing@, nonce@)),
            old(self)@.contains((listing@, nonce@)) ==> *final(self) == *old(self),
    {
        if !self.contains(&listing, &nonce) {
            proof {
                use_type_invariant(&*self);
            }
            let ghost before = self.revoked@;
            let mut entries: Vec<(Pubkey, [u8; 16])> = Vec::new();
            std::mem::swap(&mut entries, &mut self.revoked);
            entries.push((listing, nonce));
            proof {
                assert forall|i: int, j: int|
                    0 <= i < j < entries@.len() implies !(#[trigger] entries@[i].0@
                        == #[trigger] entries@[j].0@ && entries@[i].1@ == entries@[j].1@) by {
                    if j == before.len() {
                        assert(!old(self)@.contains((listing@, nonce@)));
                        assert(!old(self).entry_is(i, listing@, nonce@));
                    }
                }
            }
            self.revoked = entries;
            proof {
                assert(self.revoked@.len() == before.len() + 1);
                assert forall|p: (Seq<u8>, Seq<u8>)|
                    #![auto]
                    self@.contains(p) == old(self)@.insert((listing@, nonce@)).contains(p) by {
                    if old(self)@.contains(p) {
                        let i = choose|i: int| old(self).entry_is(i, p.0, p.1);
                        assert(self.entry_is(i, p.0, p.1));
                    }
                    if self@.contains(p) {
                        let i = choose|i: int| self.entry_is(i, p.0, p.1);
                        if i < before.len() {
                            assert(old(self).entry_is(i, p.0, p.1));
                        }
                    }
                    if p == (listing@, nonce@) {
                        assert(self.entry_is(before.len() as int, p.0, p.1));
                    }
                }
                assert(self@ =~= old(self)@.insert((listing@, nonce@)));
            }
        } else {
            assert(old(self)@.insert((listing@, nonce@)) =~= old(self)@);
        }
    }

    /// Whether `(listing, nonce)` has been revoked.
    pub fn contains(&self, listing: &Pubkey, nonce: &[u8; 16]) -> (r: bool)
        ensures
            r == self@.contains((listing@, nonce@)),
    {
        let n = self.revoked.len();
        let mut i: usize = 0;
        while i < n
            invariant
                n == self.revoked@.len(),
                i <= n,
                forall|j: int| 0 <= j < i ==> !self.entry_is(j, listing@, nonce@),
            decreases n - i,
        {
            let entry = &self.revoked[i];
            if entry.0 == *listing && bytes_equal(&entry.1, nonce) {
                assert(self.entry_is(i as int, listing@, nonce@));
                assert(self.holds(listing@, nonce@));
                assert(self@.contains((listing@, nonce@)));
                return true;
            }
            i = i + 1;
        }
        assert(!self@.contains((listing@, nonce@)));
        false
    }
}

/// The byte that tags a scope, followed by its row cap for `Row`.
pub open spec fn scope_bytes(s: Scope) -> Seq<u8> {
    match s {
        Scope::Count => seq![0u8],
        Scope::Aggregate => seq![1u8],
        Scope::Row { max_rows } => seq![2u8] + le_u32(max_rows),
    }
}

/// The canonical bytes an issuer signs: every field but the signature, in
/// declaration order, integers little-endian.
pub open spec fn signed_bytes(c: Capability) -> Seq<u8> {
    seq![c.version] + c.listing@ + c.holder@ + scope_bytes(c.scope) + le_u32(c.max_queries) + le_i64(
        c.not_before,
    ) + le_i64(c.not_after) + c.nonce@
}

/// Everything but the signature agrees between two capabilities.
pub open spec fn same_signed_fields(a: Capability, b: Capability) -> bool {
    &&& a.version == b.version
    &&& a.listing@ == b.listing@
    &&& a.holder@ == b.holder@
    &&& a.scope == b.scope
    &&& a.max_queries == b.max_queries
    &&& a.not_before == b.not_before
    &&& a.not_after == b.not_after
    &&& a.nonce@ == b.nonce@
}

/// The outcome of rules 3 to 6 of verification, given the gateway's view.
pub open spec fn usage_rules_verdict(
    cap: Capability,
    query_signer: Seq<u8>,
    now: i64,
    revoked: Set<(Seq<u8>, Seq<u8>)>,
    answered: u32,
) -> Result<(), Error> {
    if now < cap.not_before || now >= cap.not_after {
        Err(Error::CapabilityRejected("outside validity window"))
    } else if cap.holder@ != query_signer {
        Err(Error::CapabilityRejected("holder mismatch"))
    } else if answered >= cap.max_queries {
        Err(Error::CapabilityRejected("quota exhausted"))
    } else if revoked.contains((cap.listing@, cap.nonce@)) {
        Err(Error::CapabilityRejected("revoked"))
    } else {
        Ok(())
    }
}

/// The outcome of all six verification rules, evaluated in order, where
/// `signature` is what the issuer-signature check returned.
pub open spec fn capability_verdict(
    cap: Capability,
    signature: Result<(), Error>,
    query_signer: Seq<u8>,
    now: i64,
    revoked: Set<(Seq<u8>, Seq<u8>)>,
    answered: u32,
) -> Result<(), Error> {
    if cap.version != CAPABILITY_VERSION {
        Err(Error::CapabilityRejected("version"))
    } else if signature is Err {
        signature
    } else {
        usage_rules_verdict(cap, query_signer, now, revoked, answered)
    }
}

/// What the issuer-signature check on `cap` returns under `issuer_key`.
pub open spec fn issuer_signature_result(cap: Capability, issuer_key: Seq<u8>) -> Result<(), Error> {
    sig_check_result(sig_check_outcome(issuer_key, signed_bytes(cap), cap.issuer_sig@))
}

/// Everything the gateway needs that is not on the capability itself.
pub struct VerifyContext<'a> {
    pub issuer_key: [u8; 32],
    pub query_signer: Pubkey,
    pub now: i64,
    pub revoked: &'a RevocationSet,
}

impl Capability {
    /// Canonical bytes the issuer signs over.
    pub fn signing_bytes(&self) -> (out: Vec<u8>)
        ensures
            out@ == signed_bytes(*self),
    {
        let mut out: Vec<u8> = Vec::with_capacity(128);
        out.push(self.version);
        push_all(&mut out, &self.listing.0);
        push_all(&mut out, &self.holder.0);
        let ghost before_scope = out@;
        match self.scope {
            Scope::Count => out.push(0),
            Scope::Aggregate => out.push(1),
            Scope::Row { max_rows } => {
                out.push(2);
                push_le(&mut out, max_rows as u64, 4);
            },
        }
        assert(out@ =~= before_scope + scope_bytes(self.scope));
        push_le(&mut out, self.max_queries as u64, 4);
        push_le(&mut out, self.not_before as u64, 8);
        push_le(&mut out, self.not_after as u64, 8);
        push_all(&mut out, &self.nonce);
        assert(out@ =~= signed_bytes(*self));
        out
    }

    /// Rules 3 to 6: validity window (`not_before` inclusive, `not_after`
    /// exclusive), holder binding, quota (checked before answering, so
    /// `answered == max_queries` is exhausted), and revocation.
    pub fn check_usage_rules(&self, ctx: &VerifyContext<'_>, answered: u32) -> (r: Result<(), Error>)
        ensures
            r == usage_rules_verdict(*self, ctx.query_signer@, ctx.now, ctx.revoked@, answered),
    {
        if ctx.now < self.not_before || ctx.now >= self.not_after {
            return Err(Error::CapabilityRejected("outside validity window"));
        }
        if self.holder != ctx.query_signer {
            return Err(Error::CapabilityRejected("holder mismatch"));
        }
        if answered >= self.max_queries {
            return Err(Error::CapabilityRejected("quota exhausted"));
        }
        if ctx.revoked.contains(&self.listing, &self.nonce) {
            return Err(Error::CapabilityRejected("revoked"));
        }
        Ok(())
    }

    /// Verify the capability against the gateway's local view. The rules are
    /// evaluated in order and the first that fails decides the error:
    /// version, issuer signature, validity window, holder, quota, revocation.
    /// `answered` is the gateway's usage counter for this capability.
    pub fn verify(&self, ctx: &VerifyContext<'_>, answered: u32) -> (r: Result<(), Error>)
        ensures
            r == capability_verdict(
                *self,
                issuer_signature_result(*self, ctx.issuer_key@),
                ctx.query_signer@,
                ctx.now,
                ctx.revoked@,
                answered,
            ),
    {
        if self.version != CAPABILITY_VERSION {
            return Err(Error::CapabilityRejected("version"));
        }
        let message = self.signing_bytes();
        match verify_sig(&ctx.issuer_key, message.as_slice(), &self.issuer_sig) {
            Err(e) => {
                return Err(e);
            },
            Ok(()) => {},
        }
        self.check_usage_rules(ctx, answered)
    }

    /// Whether this capability permits a query of the given class.
    pub fn permits_scope(&self, requested: &Scope) -> (r: bool)
        ensures
            r == scope_permits(self.scope, *requested),
    {
        self.scope.permits(requested)
    }
}

/// The signed bytes determine every signed field: a capability whose fields
/// were altered after signing presents different bytes to the signature check.
pub proof fn lemma_signed_bytes_injective(a: Capability, b: Capability)
    requires
        signed_bytes(a) == signed_bytes(b),
    ensures
        same_signed_fields(a, b),
{
    let p = signed_bytes(a);
    let q = signed_bytes(b);
    lemma_le_bytes_len(a.max_queries as nat, 4);
    lemma_le_bytes_len(b.max_queries as nat, 4);
    lemma_le_bytes_len((a.not_before as u64) as nat, 8);
    lemma_le_bytes_len((b.not_before as u64) as nat, 8);
    lemma_le_bytes_len((a.not_after as u64) as nat, 8);
    lemma_le_bytes_len((b.not_after as u64) as nat, 8);
    assert(a.listing@.len() == 32 && b.listing@.len() == 32);
    assert(a.holder@.len() == 32 && b.holder@.len() == 32);
    assert(a.nonce@.len() == 16 && b.nonce@.len() == 16);
    let sa = scope_bytes(a.scope);
    let sb = scope_bytes(b.scope);
    if let Scope::Row { max_rows } = a.scope {
        lemma_le_bytes_len(max_rows as nat, 4);
    }
    if let Scope::Row { max_rows } = b.scope {
        lemma_le_bytes_len(max_rows as nat, 4);
    }
    let ka = sa.len() as int;
    let kb = sb.len() as int;
    assert(p.len() == 101 + ka);
    assert(q.len() == 101 + kb);
    assert(ka == kb);
    let k = ka;
    assert(p[0] == a.version);
    assert(q[0] == b.version);
    assert(p.subrange(1, 33) =~= a.listing@);
    assert(q.subrange(1, 33) =~= b.listing@);
    assert(p.subrange(33, 65) =~= a.holder@);
    assert(q.subrange(33, 65) =~= b.holder@);
    assert(p.subrange(65, 65 + k) =~= sa);
    assert(q.subrange(65, 65 + k) =~= sb);
    assert(sa == sb);
    assert(sa[0] == sb[0]);
    if let Scope::Row { max_rows: ra } = a.scope {
        if let Scope::Row { max_rows: rb } = b.scope {
            assert(sa.subrange(1, 5) =~= le_u32(ra));
            assert(sb.subrange(1, 5) =~= le_u32(rb));
            lemma_le_u32_injective(ra, rb);
        }
    }
    let o = 65 + k;
    assert(p.subrange(o, o + 4) =~= le_u32(a.max_queries));
    assert(q.subrange(o, o + 4) =~= le_u32(b.max_queries));
    assert(p.subrange(o + 4, o + 12) =~= le_i64(a.not_before));
    assert(q.subrange(o + 4, o + 12) =~= le_i64(b.not_before));
    assert(p.subrange(o + 12, o + 20) =~= le_i64(a.not_after));
    assert(q.subrange(o + 12, o + 20) =~= le_i64(b.not_after));
    assert(p.subrange(o + 20, o + 36) =~= a.nonce@);
    assert(q.subrange(o + 20, o + 36) =~= b.nonce@);
    lemma_le_u32_injective(a.max_queries, b.max_queries);
    lemma_le_i64_injective(a.not_before, b.not_before);
    lemma_le_i64_injective(a.not_after, b.not_after);
}

/// The signature is not part of what is signed.
pub proof fn lemma_signed_bytes_ignore_signature(a: Capability, b: Capability)
    requires
        same_signed_fields(a, b),
    ensures
        signed_bytes(a) == signed_bytes(b),
{
}

/// A capability that passes verification satisfies all six rules: the
/// version is current, the issuer signature verifies, `now` lies in
/// `[not_before, not_after)`, the query signer is the holder, usage is below
/// the quota, and the `(listing, nonce)` pair is not revoked.
pub proof fn lemma_accepted_capability_meets_rules(
    cap: Capability,
    issuer_key: Seq<u8>,
    query_signer: Seq<u8>,
    now: i64,
    revoked: Set<(Seq<u8>, Seq<u8>)>,
    answered: u32,
)
    requires
        capability_verdict(
            cap,
            issuer_signature_result(cap, issuer_key),
            query_signer,
            now,
            revoked,
            answered,
        ) is Ok,
    ensures
        cap.version == CAPABILITY_VERSION,
        sig_check_outcome(issuer_key, signed_bytes(cap), cap.issuer_sig@) == SigCheck::Valid,
        cap.not_before <= now < cap.not_after,
        cap.holder@ == query_signer,
        answered < cap.max_queries,
        !revoked.contains((cap.listing@, cap.nonce@)),
{
}

/// After `(listing, nonce)` is revoked, the set reports it as revoked, and
/// revoking it again changes nothing.
pub proof fn lemma_revoke_then_contains(s: Set<(Seq<u8>, Seq<u8>)>, listing: Seq<u8>, nonce: Seq<u8>)
    ensures
        s.insert((listing, nonce)).contains((listing, nonce)),
        s.insert((listing, nonce)).insert((listing, nonce)) == s.insert((listing, nonce)),
{
    assert(s.insert((listing, nonce)).insert((listing, nonce)) =~= s.insert((listing, nonce)));
}

/// Revocation is per `(listing, nonce)` pair: a capability that is current,
/// presented by its holder and within quota is accepted exactly when its own
/// pair is not revoked, whatever other nonces of the same listing (or the
/// same nonce under other listings) are revoked; when its own pair is
/// revoked, the refusal says so.
pub proof fn lemma_revocation_is_per_pair(
    cap: Capability,
    query_signer: Seq<u8>,
    now: i64,
    revoked: Set<(Seq<u8>, Seq<u8>)>,
    answered: u32,
)
    requires
        cap.not_before <= now < cap.not_after,
        cap.holder@ == query_signer,
        answered < cap.max_queries,
    ensures
        !revoked.contains((cap.listing@, cap.nonce@)) ==> usage_rules_verdict(
            cap,
            query_signer,
            now,
            revoked,
            answered,
        ) == Ok::<(), Error>(()),
        revoked.contains((cap.listing@, cap.nonce@)) ==> usage_rules_verdict(
            cap,
            query_signer,
            now,
            revoked,
            answered,
        ) == Err::<(), Error>(Error::CapabilityRejected("revoked")),
        forall|other: Seq<u8>|
            other != cap.nonce@ ==> usage_rules_verdict(
                cap,
                query_signer,
                now,
                revoked.remove((cap.listing@, cap.nonce@)).insert((cap.listing@, other)),
                answered,
            ) == Ok::<(), Error>(()),
{
}

/// Verification accepts exactly the capabilities that meet all six rules: the
/// version is current, the issuer signature verifies, `now` lies in
/// `[not_before, not_after)`, the query signer is the holder, usage is below
/// the quota, and the capability's own `(listing, nonce)` pair is not
/// revoked.
pub proof fn lemma_verification_accepts_exactly(
    cap: Capability,
    issuer_key: Seq<u8>,
    query_signer: Seq<u8>,
    now: i64,
    revoked: Set<(Seq<u8>, Seq<u8>)>,
    answered: u32,
)
    ensures
        capability_verdict(
            cap,
            issuer_signature_result(cap, issuer_key),
            query_signer,
            now,
            revoked,
            answered,
        ) is Ok <==> {
            &&& cap.version == 1
            &&& sig_check_outcome(issuer_key, signed_bytes(cap), cap.issuer_sig@) == SigCheck::Valid
            &&& cap.not_before <= now < cap.not_after
            &&& cap.holder@ == query_signer
            &&& answered < cap.max_queries
            &&& !revoked.contains((cap.listing@, cap.nonce@))
        },
{
}

/// The first rule that fails names the refusal, in the order version,
/// signature, validity window, holder, quota, revocation.
pub proof fn lemma_first_failing_rule_decides(
    cap: Capability,
    issuer_key: Seq<u8>,
    query_signer: Seq<u8>,
    now: i64,
    revoked: Set<(Seq<u8>, Seq<u8>)>,
    answered: u32,
)
    ensures
        ({
            let v = capability_verdict(
                cap,
                issuer_signature_result(cap, issuer_key),
                query_signer,
                now,
                revoked,
                answered,
            );
            let sig = sig_check_outcome(issuer_key, signed_bytes(cap), cap.issuer_sig@);
            let window = cap.not_before <= now < cap.not_after;
            let holder = cap.holder@ == query_signer;
            let quota = answered < cap.max_queries;
            &&& cap.version != 1 ==> v == Err::<(), Error>(Error::CapabilityRejected("version"))
            &&& cap.version == 1 && sig == SigCheck::BadKey ==> v == Err::<(), Error>(
                Error::Malformed("verifying key"),
            )
            &&& cap.version == 1 && sig == SigCheck::BadSignature ==> v == Err::<(), Error>(
                Error::CapabilityRejected("signature"),
            )
            &&& cap.version == 1 && sig == SigCheck::Valid && !window ==> v == Err::<(), Error>(
                Error::CapabilityRejected("outside validity window"),
            )
            &&& cap.version == 1 && sig == SigCheck::Valid && window && !holder ==> v == Err::<
                (),
                Error,
            >(Error::CapabilityRejected("holder mismatch"))
            &&& cap.version == 1 && sig == SigCheck::Valid && window && holder && !quota ==> v
                == Err::<(), Error>(Error::CapabilityRejected("quota exhausted"))
            &&& cap.version == 1 && sig == SigCheck::Valid && window && holder && quota
                && revoked.contains((cap.listing@, cap.nonce@)) ==> v == Err::<(), Error>(
                Error::CapabilityRejected("revoked"),
            )
        }),
{
}

} // verus!
