//! Core types shared by every layer of the protocol.

use vstd::prelude::*;

use crate::encoding::bytes_equal;

verus! {

/// A 32-byte Ed25519 public key.
#[derive(Clone, Copy, Eq, Hash, Debug)]
pub struct Pubkey(pub [u8; 32]);

impl View for Pubkey {
    type V = Seq<u8>;

    open spec fn view(&self) -> Seq<u8> {
        self.0@
    }
}

impl PartialEq for Pubkey {
    fn eq(&self, other: &Pubkey) -> (r: bool) {
        bytes_equal(&self.0, &other.0)
    }
}

impl vstd::std_specs::cmp::PartialEqSpecImpl for Pubkey {
    open spec fn obeys_eq_spec() -> bool {
        true
    }

    open spec fn eq_spec(&self, other: &Pubkey) -> bool {
        self@ == other@
    }
}

/// The class of query a capability authorizes.
///
/// `Row` is the widest class and subsumes `Aggregate` and `Count`;
/// `Aggregate` subsumes `Count`.
#[derive(Clone, Copy, PartialEq, Eq, Debug, Structural)]
pub enum Scope {
    /// Count-only queries.
    Count,
    /// Aggregate queries.
    Aggregate,
    /// Row-returning queries, capped at `max_rows`.
    Row { max_rows: u32 },
}

/// Whether a grant of class `granted` permits a query of class `requested`.
pub open spec fn scope_permits(granted: Scope, requested: Scope) -> bool {
    match (granted, requested) {
        (Scope::Count, Scope::Count) => true,
        (Scope::Count, _) => false,
        (Scope::Aggregate, Scope::Row { .. }) => false,
        (Scope::Aggregate, _) => true,
        (Scope::Row { max_rows: g }, Scope::Row { max_rows: r }) => r <= g,
        (Scope::Row { .. }, _) => true,
    }
}

impl Scope {
    /// True if `self` permits a query of class `requested`.
    pub fn permits(&self, requested: &Scope) -> (r: bool)
        ensures
            r == scope_permits(*self, *requested),
    {
        match (self, requested) {
            (Scope::Count, Scope::Count) => true,
            (Scope::Aggregate, Scope::Count) => true,
            (Scope::Aggregate, Scope::Aggregate) => true,
            (Scope::Row { .. }, Scope::Count) => true,
            (Scope::Row { .. }, Scope::Aggregate) => true,
            (Scope::Row { max_rows: g }, Scope::Row { max_rows: r }) => *r <= *g,
            _ => false,
        }
    }
}

/// Every class permits itself.
pub proof fn lemma_permits_reflexive(s: Scope)
    ensures
        scope_permits(s, s),
{
}

/// Permission composes: a grant that permits an intermediate class permits
/// everything that class permits.
pub proof fn lemma_permits_transitive(a: Scope, b: Scope, c: Scope)
    requires
        scope_permits(a, b),
        scope_permits(b, c),
    ensures
        scope_permits(a, c),
{
}

/// Two classes that permit each other are the same class: a narrower grant
/// never permits a wider query.
pub proof fn lemma_permits_antisymmetric(a: Scope, b: Scope)
    requires
        scope_permits(a, b),
        scope_permits(b, a),
    ensures
        a == b,
{
}

/// `Count` is the narrowest class: every grant permits it, and it permits
/// nothing else.
pub proof fn lemma_count_is_narrowest(s: Scope)
    ensures
        scope_permits(s, Scope::Count),
        scope_permits(Scope::Count, s) <==> s == Scope::Count,
{
}

/// `Row` is the widest class: it permits `Count`, `Aggregate`, and any row
/// query asking for no more rows than the grant.
pub proof fn lemma_row_is_widest(g: u32, requested: Scope)
    ensures
        scope_permits(Scope::Row { max_rows: g }, requested) <==> match requested {
            Scope::Row { max_rows: r } => r <= g,
            _ => true,
        },
{
}

} // verus!

verus! {

/// Lamports, the indivisible unit of value used in settlement.
pub type Lamports = u64;

/// Errors that cross a layer boundary.
#[derive(Debug, PartialEq, Eq)]
pub enum Error {
    /// A capability failed one of the verification rules.
    CapabilityRejected(&'static str),
    /// The escrow refused a claim or a refund.
    SettlementRejected(&'static str),
    /// The registry refused a listing operation.
    Registry(&'static str),
    /// The entry point belongs to a feature this build leaves out.
    FeatureDisabled(&'static str),
    /// An input could not be decoded.
    Malformed(&'static str),
}

/// The text prefixed to an error's reason in its message.
pub open spec fn error_prefix(e: Error) -> Seq<char> {
    match e {
        Error::CapabilityRejected(_) => "capability rejected: "@,
        Error::SettlementRejected(_) => "settlement rejected: "@,
        Error::Registry(_) => "registry error: "@,
        Error::FeatureDisabled(_) => "feature disabled: "@,
        Error::Malformed(_) => "malformed input: "@,
    }
}

/// The reason an error carries.
pub open spec fn error_reason(e: Error) -> Seq<char> {
    match e {
        Error::CapabilityRejected(r) => r@,
        Error::SettlementRejected(r) => r@,
        Error::Registry(r) => r@,
        Error::FeatureDisabled(r) => r@,
        Error::Malformed(r) => r@,
    }
}

impl Error {
    /// The human-readable message: the error's kind, a colon, and its reason.
    pub fn message(&self) -> (s: String)
        ensures
            s@ == error_prefix(*self) + error_reason(*self),
    {
        let (prefix, reason): (&str, &str) = match self {
            Error::CapabilityRejected(r) => ("capability rejected: ", *r),
            Error::SettlementRejected(r) => ("settlement rejected: ", *r),
            Error::Registry(r) => ("registry error: ", *r),
            Error::FeatureDisabled(r) => ("feature disabled: ", *r),
            Error::Malformed(r) => ("malformed input: ", *r),
        };
        let mut s = String::from_str(prefix);
        s.append(reason);
        s
    }
}

/// The lowercase hexadecimal digit for a value below sixteen.
pub open spec fn hex_digit(n: int) -> char {
    if n < 10 {
        (48 + n) as char
    } else {
        (87 + n) as char
    }
}

/// Lowercase hexadecimal text of a byte string: two digits per byte, high
/// nibble first.
pub open spec fn hex_lower(data: Seq<u8>) -> Seq<char>
    decreases data.len(),
{
    if data.len() == 0 {
        Seq::empty()
    } else {
        seq![hex_digit(data[0] as int / 16), hex_digit(data[0] as int % 16)] + hex_lower(data.drop_first())
    }
}

/// Calls `hex::encode`, which the crate documents as the lowercase hex text of
/// the input, two digits per byte; the contract restates that.
#[verifier::external_body]
fn hex_encode(data: &[u8]) -> (s: String)
    ensures
        s@ == hex_lower(data@),
{
    hex::encode(data)
}

/// The short text form of a key: its first four bytes in hex.
pub open spec fn pubkey_short_text(k: Pubkey) -> Seq<char> {
    "Pubkey("@ + hex_lower(k@.take(4)) + "\u{2026})"@
}

impl Pubkey {
    /// Short form for logs: the first four bytes in hex, enough to tell keys
    /// apart.
    pub fn debug_string(&self) -> (s: String)
        ensures
            s@ == pubkey_short_text(*self),
    {
        let head: [u8; 4] = [self.0[0], self.0[1], self.0[2], self.0[3]];
        assert(head@ =~= self@.take(4));
        let mut s = String::from_str("Pubkey(");
        let digits = hex_encode(&head);
        s.append(digits.as_str());
        s.append("\u{2026})");
        s
    }
}

} // verus!
