//! Identity registration, claim issuance and removal, and verification passes.

use vstd::prelude::*;

use crate::address::{zero_bytes, Address};
use crate::claims::{
    all_topics_met, new_claim_check, scheme_of_code, topics_missing, Claim, ClaimScheme,
    ClaimVerificationResult, IdentityVerificationResult,
};
use crate::config::TokenConfig;
use crate::error::ERC3643Error;
use crate::identity::{trusted_for, ClaimTopicsRegistry, IdentityRegistry, TrustedIssuer,
    TrustedIssuersRegistry};
use crate::utils::{
    claim_id_preimage, contains_topic, sha256_of, valid_country, validate_country_code,
    validate_pubkey,
};

verus! {

/// The record of a newly registered party.
pub open spec fn fresh_identity(user: Address, country: u16, agent: Address, now: i64) -> IdentityRegistry {
    IdentityRegistry {
        user,
        is_verified: false,
        country,
        onchain_id: None,
        claims_count: 0,
        required_claims_met: false,
        registered_at: now,
        last_verified_at: 0,
        updated_at: now,
        registered_by: agent,
    }
}

/// Why registering `user` is rejected, if it is.
pub open spec fn register_check(config: TokenConfig, agent: Address, user: Address, country: u16) -> Result<
    (),
    ERC3643Error,
> {
    if !config.has_role(agent) {
        Err(ERC3643Error::AgentRoleRequired)
    } else if user@ == zero_bytes() {
        Err(ERC3643Error::ZeroAddressNotAllowed)
    } else if !valid_country(country) {
        Err(ERC3643Error::InvalidCountryCode)
    } else {
        Ok(())
    }
}

/// Registers `user` in `country`, unverified, on behalf of `agent` (the owner
/// or an agent of the token).
pub fn register_identity(config: &TokenConfig, agent: Address, user: Address, country: u16, now: i64) -> (r:
    Result<IdentityRegistry, ERC3643Error>)
    ensures
        r is Ok <==> register_check(*config, agent, user, country) is Ok,
        r matches Err(e) ==> register_check(*config, agent, user, country) == Err::<
            (),
            ERC3643Error,
        >(e),
        r matches Ok(rec) ==> rec == fresh_identity(user, country, agent, now) && rec.wf(),
{
    if !config.has_agent_or_owner_role(&agent) {
        return Err(ERC3643Error::AgentRoleRequired);
    }
    validate_pubkey(&user)?;
    validate_country_code(country)?;
    Ok(IdentityRegistry {
        user,
        is_verified: false,
        country,
        onchain_id: None,
        claims_count: 0,
        required_claims_met: false,
        registered_at: now,
        last_verified_at: 0,
        updated_at: now,
        registered_by: agent,
    })
}

/// The effect on an identity record of a claim about `topic` being added:
/// one more claim, and, when no topic is mandatory or `topic` is, the record
/// becomes verified at `now`.
pub open spec fn claim_added(rec: IdentityRegistry, topic: u64, required: Seq<u64>, now: i64) -> IdentityRegistry {
    let met = required.len() == 0 || required.contains(topic);
    IdentityRegistry {
        claims_count: (rec.claims_count + 1) as u32,
        required_claims_met: if met {
            true
        } else {
            rec.required_claims_met
        },
        is_verified: if met {
            true
        } else {
            rec.is_verified
        },
        last_verified_at: if met {
            now
        } else {
            rec.last_verified_at
        },
        updated_at: now,
        ..rec
    }
}

/// The effect on an identity record of one of its claims being removed: one
/// claim fewer, and verification withdrawn until the next verification pass.
pub open spec fn claim_removed(rec: IdentityRegistry, now: i64) -> IdentityRegistry {
    IdentityRegistry {
        claims_count: (rec.claims_count - 1) as u32,
        is_verified: false,
        required_claims_met: false,
        updated_at: now,
        ..rec
    }
}

/// Why issuing a claim is rejected, if it is.
pub open spec fn add_claim_check(
    rec: IdentityRegistry,
    issuers: Seq<TrustedIssuer>,
    issuer: Address,
    topic: u64,
    scheme: u64,
    data: Seq<u8>,
    signature: Seq<u8>,
    uri: Seq<char>,
    expires_at: Option<i64>,
    now: i64,
) -> Result<(), ERC3643Error> {
    if !trusted_for(issuers, issuer@, topic) {
        Err(ERC3643Error::IssuerRoleRequired)
    } else if scheme_of_code(scheme) is None {
        Err(ERC3643Error::InvalidArgument)
    } else if new_claim_check(data, signature, uri, expires_at, now) is Err {
        new_claim_check(data, signature, uri, expires_at, now)
    } else if rec.claims_count == u32::MAX {
        Err(ERC3643Error::ArithmeticOverflow)
    } else {
        Ok(())
    }
}

/// Issues a claim about `topic` by `issuer` for the party of `identity`.
///
/// The issuer must be active in the directory and trusted for the topic
/// (`IssuerRoleRequired`); the scheme must be 1, 2 or 3 (`InvalidArgument`);
/// the claim must pass `Claim::new`'s checks; the claim count must not
/// overflow. On success the record takes the effect `claim_added`; on failure
/// it is unchanged.
pub fn add_claim(
    identity: &mut IdentityRegistry,
    trusted_issuers: &TrustedIssuersRegistry,
    claim_topics: &ClaimTopicsRegistry,
    issuer: Address,
    topic: u64,
    scheme: u64,
    data: Vec<u8>,
    signature: Vec<u8>,
    uri: String,
    expires_at: Option<i64>,
    now: i64,
) -> (r: Result<Claim, ERC3643Error>)
    ensures
        ({
            let check = add_claim_check(
                *old(identity),
                trusted_issuers.issuers@,
                issuer,
                topic,
                scheme,
                data@,
                signature@,
                uri@,
                expires_at,
                now,
            );
            &&& r is Ok <==> check is Ok
            &&& r matches Err(e) ==> check == Err::<(), ERC3643Error>(e) && *final(identity) == *old(
                identity,
            )
        }),
        r matches Ok(c) ==> c.is_fresh(
            old(identity).user,
            issuer,
            topic,
            scheme_of_code(scheme)->0,
            data@,
            signature@,
            uri@,
            expires_at,
            now,
        ) && *final(identity) == claim_added(
            *old(identity),
            topic,
            claim_topics.required_topics@,
            now,
        ),
        old(identity).wf() ==> final(identity).wf(),
{
    if !trusted_issuers.is_trusted_for_topic(&issuer, topic) {
        return Err(ERC3643Error::IssuerRoleRequired);
    }
    let claim_scheme = match ClaimScheme::from_code(scheme) {
        Some(s) => s,
        None => {
            return Err(ERC3643Error::InvalidArgument);
        },
    };
    let claim = Claim::new(
        identity.user,
        issuer,
        topic,
        claim_scheme,
        data,
        signature,
        uri,
        expires_at,
        now,
    )?;
    let claims_count = match identity.claims_count.checked_add(1) {
        Some(c) => c,
        None => {
            return Err(ERC3643Error::ArithmeticOverflow);
        },
    };
    let required_topics = claim_topics.get_required_topics();
    let met = required_topics.len() == 0 || contains_topic(required_topics, topic);
    identity.claims_count = claims_count;
    if met {
        identity.required_claims_met = true;
        identity.is_verified = true;
        identity.last_verified_at = now;
    }
    identity.updated_at = now;
    Ok(claim)
}

/// Why removing `claim` on behalf of `authority` is rejected, if it is.
pub open spec fn remove_claim_check(rec: IdentityRegistry, claim: Claim, authority: Address) -> Result<
    (),
    ERC3643Error,
> {
    if claim.identity@ != rec.user@ {
        Err(ERC3643Error::InvalidArgument)
    } else if authority@ != claim.issuer@ && authority@ != rec.user@ {
        Err(ERC3643Error::Unauthorized)
    } else if rec.claims_count == 0 {
        Err(ERC3643Error::ArithmeticUnderflow)
    } else {
        Ok(())
    }
}

/// Removes `claim` from the party of `identity`, on behalf of its issuer or of
/// the party itself. The claim must belong to the party (`InvalidArgument`),
/// the authority must be one of the two (`Unauthorized`), and the count must
/// not underflow (`ArithmeticUnderflow`). On success the record takes the
/// effect `claim_removed`; on failure it is unchanged.
pub fn remove_claim(identity: &mut IdentityRegistry, claim: &Claim, authority: Address, now: i64) -> (r:
    Result<(), ERC3643Error>)
    ensures
        r == remove_claim_check(*old(identity), *claim, authority),
        r is Err ==> *final(identity) == *old(identity),
        r is Ok ==> *final(identity) == claim_removed(*old(identity), now),
        old(identity).wf() ==> final(identity).wf(),
{
    if !claim.identity.same_as(&identity.user) {
        return Err(ERC3643Error::InvalidArgument);
    }
    if !claim.issuer.same_as(&authority) && !identity.user.same_as(&authority) {
        return Err(ERC3643Error::Unauthorized);
    }
    let claims_count = match identity.claims_count.checked_sub(1) {
        Some(c) => c,
        None => {
            return Err(ERC3643Error::ArithmeticUnderflow);
        },
    };
    identity.claims_count = claims_count;
    identity.is_verified = false;
    identity.required_claims_met = false;
    identity.updated_at = now;
    Ok(())
}

/// Moves the party of `identity` to `country`, on behalf of the owner or an
/// agent (`AgentRoleRequired`); an invalid code fails with
/// `InvalidCountryCode`. On failure nothing changes.
pub fn update_country(
    config: &TokenConfig,
    agent: Address,
    identity: &mut IdentityRegistry,
    country: u16,
    now: i64,
) -> (r: Result<(), ERC3643Error>)
    ensures
        !config.has_role(agent) ==> r == Err::<(), ERC3643Error>(ERC3643Error::AgentRoleRequired),
        config.has_role(agent) && !valid_country(country) ==> r == Err::<(), ERC3643Error>(
            ERC3643Error::InvalidCountryCode,
        ),
        r is Ok <==> config.has_role(agent) && valid_country(country),
        r is Err ==> *final(identity) == *old(identity),
        r is Ok ==> *final(identity) == (IdentityRegistry {
            country,
            updated_at: now,
            ..*old(identity)
        }),
        old(identity).wf() ==> final(identity).wf(),
{
    if !config.has_agent_or_owner_role(&agent) {
        return Err(ERC3643Error::AgentRoleRequired);
    }
    identity.update_country(country, now)
}

/// Authorizes deleting the record of a party, on behalf of the owner or an
/// agent (`AgentRoleRequired`), and returns the party whose record goes.
pub fn delete_identity(config: &TokenConfig, agent: Address, identity: &IdentityRegistry) -> (r:
    Result<Address, ERC3643Error>)
    ensures
        config.has_role(agent) ==> r == Ok::<Address, ERC3643Error>(identity.user),
        !config.has_role(agent) ==> r == Err::<Address, ERC3643Error>(
            ERC3643Error::AgentRoleRequired,
        ),
{
    if !config.has_agent_or_owner_role(&agent) {
        return Err(ERC3643Error::AgentRoleRequired);
    }
    Ok(identity.user)
}

/// Checks one claim at `now` against the directory, given the external
/// signature verifier's verdict.
pub fn validate_claim(
    claim: &Claim,
    trusted_issuers: &TrustedIssuersRegistry,
    verifier_accepts: bool,
    now: i64,
) -> (r: Result<ClaimVerificationResult, ERC3643Error>)
    ensures
        r matches Err(e) ==> claim.validate_signature_outcome(verifier_accepts) == Err::<
            bool,
            ERC3643Error,
        >(e),
        r is Ok <==> claim.validate_signature_outcome(verifier_accepts) is Ok,
        r matches Ok(v) ==> v.issuer_trusted == trusted_for(
            trusted_issuers.issuers@,
            claim.issuer@,
            claim.topic,
        ) && v.is_valid == (claim.live_at(now) && v.issuer_trusted && verifier_accepts)
            && v.is_revoked == claim.is_revoked && v.signature_valid == verifier_accepts
            && v.claim_id@ == sha256_of(claim_id_preimage(claim.issuer, claim.topic))
            && v.is_expired == (claim.expires_at matches Some(expiry) && now > expiry),
{
    let issuer_trusted = trusted_issuers.is_trusted_for_topic(&claim.issuer, claim.topic);
    ClaimVerificationResult::new(claim, issuer_trusted, verifier_accepts, now)
}

/// Whether a claim counts towards `user`'s verification at `now`: it belongs
/// to `user`, is live, and its issuer is trusted for its topic.
pub open spec fn claim_counts(claim: Claim, user: Address, issuers: Seq<TrustedIssuer>, now: i64) -> bool {
    &&& claim.identity@ == user@
    &&& claim.live_at(now)
    &&& trusted_for(issuers, claim.issuer@, claim.topic)
}

/// The topics of the claims that count, each once, in order of first
/// appearance.
pub open spec fn covered_topics(
    claims: Seq<Claim>,
    user: Address,
    issuers: Seq<TrustedIssuer>,
    now: i64,
) -> Seq<u64>
    decreases claims.len(),
{
    if claims.len() == 0 {
        seq![]
    } else {
        let rest = covered_topics(claims.drop_last(), user, issuers, now);
        let c = claims.last();
        if claim_counts(c, user, issuers, now) && !rest.contains(c.topic) {
            rest.push(c.topic)
        } else {
            rest
        }
    }
}

/// The number of claims that count.
pub open spec fn counted_claims(
    claims: Seq<Claim>,
    user: Address,
    issuers: Seq<TrustedIssuer>,
    now: i64,
) -> nat
    decreases claims.len(),
{
    if claims.len() == 0 {
        0
    } else {
        counted_claims(claims.drop_last(), user, issuers, now) + if claim_counts(
            claims.last(),
            user,
            issuers,
            now,
        ) {
            1nat
        } else {
            0nat
        }
    }
}

/// The topics covered at `now` by the claims of `user` that count, each once,
/// in order of first appearance.
pub fn covered_topics_of(
    claims: &Vec<Claim>,
    user: &Address,
    trusted_issuers: &TrustedIssuersRegistry,
    now: i64,
) -> (r: Vec<u64>)
    ensures
        r@ == covered_topics(claims@, *user, trusted_issuers.issuers@, now),
{
    let mut covered: Vec<u64> = Vec::new();
    let mut i: usize = 0;
    while i < claims.len()
        invariant
            0 <= i <= claims@.len(),
            covered@ == covered_topics(
                claims@.subrange(0, i as int),
                *user,
                trusted_issuers.issuers@,
                now,
            ),
        decreases claims@.len() - i,
    {
        let ghost next = claims@.subrange(0, i + 1);
        assert(next.drop_last() =~= claims@.subrange(0, i as int));
        let claim = &claims[i];
        if claim.identity.same_as(user) && claim.is_currently_valid(now)
            && trusted_issuers.is_trusted_for_topic(&claim.issuer, claim.topic) && !contains_topic(
            &covered,
            claim.topic,
        ) {
            covered.push(claim.topic);
        }
        i = i + 1;
    }
    assert(claims@.subrange(0, claims@.len() as int) =~= claims@);
    covered
}

/// Runs a full verification pass over the party's current claims: counts the
/// claims checked and those that count, collects the topics they cover and
/// the mandatory topics they miss, and marks the record verified (with its
/// required claims met) exactly when no mandatory topic is missing.
pub fn verify_identity(
    identity: &mut IdentityRegistry,
    claims: &Vec<Claim>,
    claim_topics: &ClaimTopicsRegistry,
    trusted_issuers: &TrustedIssuersRegistry,
    now: i64,
) -> (r: IdentityVerificationResult)
    requires
        claims@.len() <= u32::MAX,
    ensures
        ({
            let covered = covered_topics(
                claims@,
                old(identity).user,
                trusted_issuers.issuers@,
                now,
            );
            let verified = all_topics_met(claim_topics.required_topics@, covered);
            &&& r.identity == old(identity).user
            &&& r.claims_checked == claims@.len()
            &&& r.valid_claims == counted_claims(
                claims@,
                old(identity).user,
                trusted_issuers.issuers@,
                now,
            )
            &&& r.required_topics_met@ == covered
            &&& r.missing_topics@ == topics_missing(claim_topics.required_topics@, covered)
            &&& r.is_verified == verified
            &&& r.verification_timestamp == now
            &&& *final(identity) == (IdentityRegistry {
                is_verified: verified,
                required_claims_met: verified,
                last_verified_at: if verified {
                    now
                } else {
                    old(identity).last_verified_at
                },
                updated_at: now,
                ..*old(identity)
            })
        }),
        final(identity).is_verified ==> final(identity).required_claims_met,
        old(identity).wf() ==> final(identity).wf(),
{
    let mut result = IdentityVerificationResult::new(identity.user, now);
    let mut i: usize = 0;
    while i < claims.len()
        invariant
            0 <= i <= claims@.len(),
            claims@.len() <= u32::MAX,
            result.identity == identity.user,
            result.is_verified == false,
            result.claims_checked == 0,
            result.verification_timestamp == now,
            result.missing_topics@ == Seq::<u64>::empty(),
            result.valid_claims <= i,
            result.valid_claims == counted_claims(
                claims@.subrange(0, i as int),
                identity.user,
                trusted_issuers.issuers@,
                now,
            ),
            result.required_topics_met@ == covered_topics(
                claims@.subrange(0, i as int),
                identity.user,
                trusted_issuers.issuers@,
                now,
            ),
        decreases claims@.len() - i,
    {
        let ghost next = claims@.subrange(0, i + 1);
        assert(next.drop_last() =~= claims@.subrange(0, i as int));
        let claim = &claims[i];
        if claim.identity.same_as(&identity.user) && claim.is_currently_valid(now)
            && trusted_issuers.is_trusted_for_topic(&claim.issuer, claim.topic) {
            result.add_valid_claim(claim.topic);
        }
        i = i + 1;
    }
    assert(claims@.subrange(0, claims@.len() as int) =~= claims@);
    result.claims_checked = claims.len() as u32;
    result.finalize(claim_topics.get_required_topics());
    let verified = result.is_verified;
    identity.update_verification(verified, now);
    identity.update_required_claims_status(verified, now);
    result
}

} // verus!
