//! Properties that relate several operations of the engine.

use vstd::prelude::*;

use crate::address::Address;
use crate::claims::{revoke_outcome, Claim};
use crate::error::ERC3643Error;
use crate::identity::{
    add_issuer_check, issuer_position, is_first_issuer_index, lemma_first_issuer_index,
    lists_issuer, IdentityRegistry, TrustedIssuer,
};
use crate::identity_ops::{claim_added, claim_removed};

verus! {

/// Revocation is idempotent: after a claim has been revoked once, revoking
/// it again fails with `ClaimRevoked` and leaves the claim revoked and
/// exactly as it was.
pub proof fn lemma_revoke_twice(
    claim: Claim,
    first_by: Address,
    first_at: i64,
    second_by: Address,
    second_at: i64,
)
    ensures
        ({
            let (_, once) = revoke_outcome(claim, first_by, first_at);
            let (again, twice) = revoke_outcome(once, second_by, second_at);
            &&& once.is_revoked
            &&& again == Err::<(), ERC3643Error>(ERC3643Error::ClaimRevoked)
            &&& twice == once
        }),
{
}

/// Adding an issuer and then removing it gives back the directory as it was:
/// same size, same entries, in the same order.
pub proof fn lemma_add_remove_issuer_round_trip(
    issuers: Seq<TrustedIssuer>,
    issuer: Address,
    claim_topics: Vec<u64>,
    now: i64,
)
    requires
        add_issuer_check(issuers, issuer, claim_topics@) is Ok,
    ensures
        ({
            let added = issuers.push(
                TrustedIssuer { issuer, claim_topics, added_at: now, is_active: true },
            );
            &&& lists_issuer(added, issuer@)
            &&& added.remove(issuer_position(added, issuer@)) == issuers
        }),
{
    let added = issuers.push(TrustedIssuer { issuer, claim_topics, added_at: now, is_active: true });
    let n = issuers.len() as int;
    assert forall|j: int| 0 <= j < n implies (#[trigger] added[j]).issuer@ != issuer@ by {
        assert(added[j] == issuers[j]);
    }
    assert(is_first_issuer_index(added, issuer@, n));
    lemma_first_issuer_index(added, issuer@, n);
    assert(added.remove(n) =~= issuers);
}

/// A change to an identity's claims.
#[derive(Clone, Copy, Debug, PartialEq, Eq, Structural)]
pub enum ClaimEvent {
    /// A claim about `topic` was issued at `at`.
    Issued { topic: u64, at: i64 },
    /// A claim was removed at `at`.
    Removed { at: i64 },
}

/// The record after `events`, applied in order to `rec`.
pub open spec fn apply_claim_events(
    rec: IdentityRegistry,
    events: Seq<ClaimEvent>,
    required: Seq<u64>,
) -> IdentityRegistry
    decreases events.len(),
{
    if events.len() == 0 {
        rec
    } else {
        let before = apply_claim_events(rec, events.drop_last(), required);
        match events.last() {
            ClaimEvent::Issued { topic, at } => claim_added(before, topic, required, at),
            ClaimEvent::Removed { at } => claim_removed(before, at),
        }
    }
}

/// The number of issuances among `events`.
pub open spec fn issued_count(events: Seq<ClaimEvent>) -> nat
    decreases events.len(),
{
    if events.len() == 0 {
        0
    } else {
        issued_count(events.drop_last()) + if events.last() is Issued {
            1nat
        } else {
            0nat
        }
    }
}

/// The number of removals among `events`.
pub open spec fn removed_count(events: Seq<ClaimEvent>) -> nat
    decreases events.len(),
{
    if events.len() == 0 {
        0
    } else {
        removed_count(events.drop_last()) + if events.last() is Removed {
            1nat
        } else {
            0nat
        }
    }
}

/// Claims accounting: after N issuances and M removals, each removal taking
/// away a claim that is there, the claim count has grown by exactly N - M;
/// and at every point the record is verified only while its required claims
/// are met.
pub proof fn lemma_claims_accounting(
    rec: IdentityRegistry,
    events: Seq<ClaimEvent>,
    required: Seq<u64>,
)
    requires
        rec.wf(),
        rec.claims_count + issued_count(events) <= u32::MAX,
        forall|k: int|
            0 <= k <= events.len() ==> removed_count(#[trigger] events.subrange(0, k))
                <= rec.claims_count + issued_count(events.subrange(0, k)),
    ensures
        apply_claim_events(rec, events, required).claims_count == rec.claims_count + issued_count(
            events,
        ) - removed_count(events),
        apply_claim_events(rec, events, required).wf(),
    decreases events.len(),
{
    if events.len() > 0 {
        let init = events.drop_last();
        assert forall|k: int|
            0 <= k <= init.len() implies removed_count(#[trigger] init.subrange(0, k))
            <= rec.claims_count + issued_count(init.subrange(0, k)) by {
            assert(init.subrange(0, k) =~= events.subrange(0, k));
        }
        lemma_claims_accounting(rec, init, required);
        assert(events.subrange(0, events.len() as int) =~= events);
    }
}

} // verus!
