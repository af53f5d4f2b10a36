//! Dataset registry: listings and their predicate commitments.
//!
//! A listing binds an encrypted blob pointer to a predicate commitment. An
//! update must carry a fresh commitment; a gateway presenting a stale one
//! fails the match at claim time.

use vstd::prelude::*;

use crate::crypto::{digest_eq, Digest};
use crate::encoding::bytes_equal;
use crate::types::{Error, Pubkey};

verus! {

/// Lifecycle state of a listing.
#[derive(Clone, Copy, Debug, PartialEq, Eq, Structural)]
pub enum State {
    Active,
    Delisted,
}

/// A listing record.
#[derive(Clone, Debug)]
pub struct Listing {
    pub id: Pubkey,
    pub owner: Pubkey,
    pub blob_ptr: String,
    pub schema_hash: Digest,
    pub commitment: Digest,
    pub created_at: i64,
    pub state: State,
    pub revoked: Vec<[u8; 16]>,
}

/// The outcome of `update` by `caller` with commitment `new_commitment`.
pub open spec fn update_outcome(l: Listing, caller: Seq<u8>, new_commitment: Seq<u8>) -> Result<
    (),
    Error,
> {
    if caller != l.owner@ {
        Err(Error::Registry("only owner may update"))
    } else if l.state != State::Active {
        Err(Error::Registry("listing not active"))
    } else if new_commitment == l.commitment@ {
        Err(Error::Registry("update must carry a fresh commitment"))
    } else {
        Ok(())
    }
}

/// The listing after an accepted update.
pub open spec fn listing_after_update(
    l: Listing,
    new_commitment: Digest,
    new_blob_ptr: Option<String>,
) -> Listing {
    Listing {
        commitment: new_commitment,
        blob_ptr: match new_blob_ptr {
            Some(p) => p,
            None => l.blob_ptr,
        },
        ..l
    }
}

/// The outcome of `delist` by `caller`.
pub open spec fn delist_outcome(l: Listing, caller: Seq<u8>) -> Result<(), Error> {
    if caller != l.owner@ {
        Err(Error::Registry("only owner may delist"))
    } else {
        Ok(())
    }
}

impl Listing {
    /// A fresh, active listing with no revoked nonces.
    pub fn new(
        id: Pubkey,
        owner: Pubkey,
        blob_ptr: &str,
        schema_hash: Digest,
        commitment: Digest,
        created_at: i64,
    ) -> (l: Listing)
        ensures
            l.id == id,
            l.owner == owner,
            l.blob_ptr@ == blob_ptr@,
            l.schema_hash == schema_hash,
            l.commitment == commitment,
            l.created_at == created_at,
            l.state == State::Active,
            l.revoked@ == Seq::<[u8; 16]>::empty(),
    {
        Listing {
            id,
            owner,
            blob_ptr: String::from_str(blob_ptr),
            schema_hash,
            commitment,
            created_at,
            state: State::Active,
            revoked: Vec::new(),
        }
    }

    /// Replace the commitment, and the blob pointer when one is given. Only the
    /// owner may update, only an active listing, and only with a commitment
    /// that differs from the current one, so that a no-op update cannot mask a
    /// stale dataset.
    pub fn update(
        &mut self,
        caller: &Pubkey,
        new_commitment: Digest,
        new_blob_ptr: Option<String>,
    ) -> (r: Result<(), Error>)
        ensures
            r == update_outcome(*old(self), caller@, new_commitment@),
            r is Ok ==> *final(self) == listing_after_update(*old(self), new_commitment, new_blob_ptr),
            r is Err ==> *final(self) == *old(self),
    {
        if *caller != self.owner {
            return Err(Error::Registry("only owner may update"));
        }
        if self.state != State::Active {
            return Err(Error::Registry("listing not active"));
        }
        if bytes_equal(&new_commitment, &self.commitment) {
            return Err(Error::Registry("update must carry a fresh commitment"));
        }
        self.commitment = new_commitment;
        if let Some(ptr) = new_blob_ptr {
            self.blob_ptr = ptr;
        }
        Ok(())
    }

    /// Take the listing off the market. Only the owner may delist.
    pub fn delist(&mut self, caller: &Pubkey) -> (r: Result<(), Error>)
        ensures
            r == delist_outcome(*old(self), caller@),
            r is Ok ==> *final(self) == (Listing { state: State::Delisted, ..*old(self) }),
            r is Err ==> *final(self) == *old(self),
    {
        if *caller != self.owner {
            return Err(Error::Registry("only owner may delist"));
        }
        self.state = State::Delisted;
        Ok(())
    }

    /// Whether a presented commitment is the registry's current value.
    pub fn commitment_matches(&self, presented: &Digest) -> (r: bool)
        ensures
            r == (self.commitment@ == presented@),
    {
        digest_eq(&self.commitment, presented)
    }
}

/// An accepted update supersedes the previous commitment: the new one matches
/// and the old one no longer does.
pub proof fn lemma_update_supersedes(
    l: Listing,
    caller: Seq<u8>,
    new_commitment: Digest,
    new_blob_ptr: Option<String>,
)
    requires
        update_outcome(l, caller, new_commitment@) is Ok,
    ensures
        listing_after_update(l, new_commitment, new_blob_ptr).commitment@ == new_commitment@,
        listing_after_update(l, new_commitment, new_blob_ptr).commitment@ != l.commitment@,
        listing_after_update(l, new_commitment, new_blob_ptr).state == State::Active,
        listing_after_update(l, new_commitment, new_blob_ptr).owner == l.owner,
{
}

/// Delisting is final: a delisted listing refuses every update, and no
/// operation makes it active again.
pub proof fn lemma_delisted_is_final(
    l: Listing,
    caller: Seq<u8>,
    new_commitment: Digest,
    new_blob_ptr: Option<String>,
)
    requires
        l.state == State::Delisted,
    ensures
        update_outcome(l, caller, new_commitment@) is Err,
        delist_outcome(l, caller) is Ok ==> (Listing { state: State::Delisted, ..l }) == l,
{
}

/// An update goes through exactly when the owner asks, the listing is active
/// and the new commitment differs from the current one in any byte; it then
/// installs the new commitment, replaces the blob pointer only when one is
/// given, and leaves every other field as it was.
pub proof fn lemma_update_accepts_exactly(
    l: Listing,
    caller: Seq<u8>,
    new_commitment: Digest,
    new_blob_ptr: Option<String>,
)
    ensures
        update_outcome(l, caller, new_commitment@) is Ok <==> (caller == l.owner@ && l.state
            == State::Active && new_commitment@ != l.commitment@),
        caller != l.owner@ ==> update_outcome(l, caller, new_commitment@) == Err::<(), Error>(
            Error::Registry("only owner may update"),
        ),
        caller == l.owner@ && l.state != State::Active ==> update_outcome(
            l,
            caller,
            new_commitment@,
        ) == Err::<(), Error>(Error::Registry("listing not active")),
        caller == l.owner@ && l.state == State::Active && new_commitment@ == l.commitment@
            ==> update_outcome(l, caller, new_commitment@) == Err::<(), Error>(
            Error::Registry("update must carry a fresh commitment"),
        ),
        ({
            let after = listing_after_update(l, new_commitment, new_blob_ptr);
            &&& after.commitment == new_commitment
            &&& new_blob_ptr matches Some(ptr) ==> after.blob_ptr == ptr
            &&& new_blob_ptr is None ==> after.blob_ptr == l.blob_ptr
            &&& after.id == l.id && after.owner == l.owner && after.schema_hash == l.schema_hash
            &&& after.created_at == l.created_at && after.state == l.state && after.revoked
                == l.revoked
        }),
{
}

/// Only the owner may delist, and delisting changes nothing but the state,
/// which becomes `Delisted`.
pub proof fn lemma_delist_by_owner_only(l: Listing, caller: Seq<u8>)
    ensures
        delist_outcome(l, caller) is Ok <==> caller == l.owner@,
        caller != l.owner@ ==> delist_outcome(l, caller) == Err::<(), Error>(
            Error::Registry("only owner may delist"),
        ),
{
}

} // verus!
