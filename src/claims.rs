//! Claims: attestations by an issuer that an identity satisfies a topic.

use vstd::prelude::*;

use crate::address::Address;
use crate::error::ERC3643Error;
use crate::utils::{
    claim_data_check, claim_id_preimage, contains_topic, generate_claim_id, sha256_of,
    validate_claim_data, validate_data_size, MAX_CLAIM_DATA_SIZE, MAX_CLAIM_SIGNATURE_SIZE,
};

verus! {

/// Know Your Customer.
pub const KYC: u64 = 1;

/// Anti-Money Laundering.
pub const AML: u64 = 2;

/// Accredited investor.
pub const ACCREDITED_INVESTOR: u64 = 3;

/// Country of residence verified.
pub const COUNTRY_VERIFICATION: u64 = 4;

/// Sanctions screening passed.
pub const SANCTIONS_SCREENING: u64 = 5;

/// Professional investor.
pub const PROFESSIONAL_INVESTOR: u64 = 6;

/// Retail investor.
pub const RETAIL_INVESTOR: u64 = 7;

/// Institutional investor.
pub const INSTITUTIONAL_INVESTOR: u64 = 8;

/// Tax residency established.
pub const TAX_RESIDENCY: u64 = 9;

/// Identity verified.
pub const IDENTITY_VERIFICATION: u64 = 10;

/// How a claim is attested.
#[derive(Clone, Copy, Debug, PartialEq, Eq, Structural)]
pub enum ClaimScheme {
    /// Signature-based.
    ECDSA,
    /// Certificate-based.
    RSA,
    /// Attested by a contract.
    Contract,
}

/// The numeric encoding of a scheme.
pub open spec fn scheme_code(scheme: ClaimScheme) -> u64 {
    match scheme {
        ClaimScheme::ECDSA => 1,
        ClaimScheme::RSA => 2,
        ClaimScheme::Contract => 3,
    }
}

/// The scheme that a number encodes, if any.
pub open spec fn scheme_of_code(code: u64) -> Option<ClaimScheme> {
    if code == 1 {
        Some(ClaimScheme::ECDSA)
    } else if code == 2 {
        Some(ClaimScheme::RSA)
    } else if code == 3 {
        Some(ClaimScheme::Contract)
    } else {
        None
    }
}

impl ClaimScheme {
    /// The scheme that `code` encodes: 1, 2 and 3 in declaration order.
    pub fn from_code(code: u64) -> (r: Option<ClaimScheme>)
        ensures
            r == scheme_of_code(code),
    {
        match code {
            1 => Some(ClaimScheme::ECDSA),
            2 => Some(ClaimScheme::RSA),
            3 => Some(ClaimScheme::Contract),
            _ => None,
        }
    }

    /// The numeric encoding of this scheme.
    pub fn code(&self) -> (r: u64)
        ensures
            r == scheme_code(*self),
            scheme_of_code(r) == Some(*self),
    {
        match self {
            ClaimScheme::ECDSA => 1,
            ClaimScheme::RSA => 2,
            ClaimScheme::Contract => 3,
        }
    }
}

/// An attestation tying one identity, one issuer and one topic to signed data.
///
/// A revoked claim stays revoked.
#[derive(Clone, Debug)]
pub struct Claim {
    pub identity: Address,
    pub issuer: Address,
    pub topic: u64,
    pub scheme: ClaimScheme,
    pub data: Vec<u8>,
    pub signature: Vec<u8>,
    pub uri: String,
    pub is_valid: bool,
    pub is_revoked: bool,
    pub issued_at: i64,
    pub expires_at: Option<i64>,
    pub revoked_at: Option<i64>,
    pub revoked_by: Option<Address>,
}

/// What revoking `claim` on behalf of `revoked_by` at `now` returns, and the
/// claim afterwards: an already revoked claim is refused and left as it is.
pub open spec fn revoke_outcome(claim: Claim, revoked_by: Address, now: i64) -> (
    Result<(), ERC3643Error>,
    Claim,
) {
    if claim.is_revoked {
        (Err(ERC3643Error::ClaimRevoked), claim)
    } else {
        (
            Ok(()),
            Claim { is_revoked: true, revoked_at: Some(now), revoked_by: Some(revoked_by), ..claim },
        )
    }
}

/// Why a claim with these inputs cannot be created at `now`, if it can't.
pub open spec fn new_claim_check(
    data: Seq<u8>,
    signature: Seq<u8>,
    uri: Seq<char>,
    expires_at: Option<i64>,
    now: i64,
) -> Result<(), ERC3643Error> {
    match claim_data_check(data, signature, uri) {
        Err(e) => Err(e),
        Ok(_) => if expires_at matches Some(expiry) && expiry <= now {
            Err(ERC3643Error::InvalidArgument)
        } else {
            Ok(())
        },
    }
}

impl Claim {
    /// Whether this is the valid, unrevoked claim created at `now` from these
    /// inputs.
    pub open spec fn is_fresh(
        &self,
        identity: Address,
        issuer: Address,
        topic: u64,
        scheme: ClaimScheme,
        data: Seq<u8>,
        signature: Seq<u8>,
        uri: Seq<char>,
        expires_at: Option<i64>,
        now: i64,
    ) -> bool {
        &&& self.identity == identity
        &&& self.issuer == issuer
        &&& self.topic == topic
        &&& self.scheme == scheme
        &&& self.data@ == data
        &&& self.signature@ == signature
        &&& self.uri@ == uri
        &&& self.is_valid
        &&& !self.is_revoked
        &&& self.issued_at == now
        &&& self.expires_at == expires_at
        &&& self.revoked_at is None
        &&& self.revoked_by is None
    }

    /// Whether the claim counts at `now`: valid, not revoked and not expired.
    pub open spec fn live_at(&self, now: i64) -> bool {
        &&& self.is_valid
        &&& !self.is_revoked
        &&& (self.expires_at matches Some(expiry) ==> now <= expiry)
    }

    /// Creates a claim issued at `now`. Rejects data over 1024 bytes or a
    /// signature over 64 bytes (`DataTooLarge`), a URI over 200 bytes
    /// (`InvalidURIFormat`), an empty URI, and an expiry that is not after `now`
    /// (`InvalidArgument`).
    pub fn new(
        identity: Address,
        issuer: Address,
        topic: u64,
        scheme: ClaimScheme,
        data: Vec<u8>,
        signature: Vec<u8>,
        uri: String,
        expires_at: Option<i64>,
        now: i64,
    ) -> (r: Result<Claim, ERC3643Error>)
        ensures
            r is Ok <==> new_claim_check(data@, signature@, uri@, expires_at, now) is Ok,
            r matches Err(e) ==> new_claim_check(data@, signature@, uri@, expires_at, now)
                == Err::<(), ERC3643Error>(e),
            r matches Ok(c) ==> c.is_fresh(
                identity,
                issuer,
                topic,
                scheme,
                data@,
                signature@,
                uri@,
                expires_at,
                now,
            ),
    {
        validate_claim_data(data.as_slice(), signature.as_slice(), uri.as_str())?;
        if let Some(expiry) = expires_at {
            if expiry <= now {
                return Err(ERC3643Error::InvalidArgument);
            }
        }
        Ok(Claim {
            identity,
            issuer,
            topic,
            scheme,
            data,
            signature,
            uri,
            is_valid: true,
            is_revoked: false,
            issued_at: now,
            expires_at,
            revoked_at: None,
            revoked_by: None,
        })
    }

    /// Whether the claim counts at `now`: valid, not revoked, and `now` not
    /// past its expiry.
    pub fn is_currently_valid(&self, now: i64) -> (r: bool)
        ensures
            r == self.live_at(now),
    {
        if !self.is_valid || self.is_revoked {
            return false;
        }
        if let Some(expiry) = self.expires_at {
            if now > expiry {
                return false;
            }
        }
        true
    }

    /// Revokes the claim on behalf of `revoked_by` at `now`. Revoking a claim
    /// that is already revoked fails with `ClaimRevoked` and changes nothing.
    pub fn revoke(&mut self, revoked_by: Address, now: i64) -> (r: Result<(), ERC3643Error>)
        ensures
            (r, *final(self)) == revoke_outcome(*old(self), revoked_by, now),
    {
        if self.is_revoked {
            return Err(ERC3643Error::ClaimRevoked);
        }
        self.is_revoked = true;
        self.revoked_at = Some(now);
        self.revoked_by = Some(revoked_by);
        Ok(())
    }

    /// Replaces the claim's data and signature. Fails with `ClaimRevoked` on a
    /// revoked claim and with `DataTooLarge` on oversized blobs; on failure
    /// nothing changes.
    pub fn update_data(&mut self, data: Vec<u8>, signature: Vec<u8>) -> (r: Result<
        (),
        ERC3643Error,
    >)
        ensures
            old(self).is_revoked ==> r == Err::<(), ERC3643Error>(ERC3643Error::ClaimRevoked),
            !old(self).is_revoked && (data@.len() > MAX_CLAIM_DATA_SIZE || signature@.len()
                > MAX_CLAIM_SIGNATURE_SIZE) ==> r == Err::<(), ERC3643Error>(
                ERC3643Error::DataTooLarge,
            ),
            r is Err ==> *final(self) == *old(self),
            r is Ok ==> {
                &&& !old(self).is_revoked
                &&& final(self).data@ == data@
                &&& final(self).signature@ == signature@
                &&& final(self).identity == old(self).identity
                &&& final(self).issuer == old(self).issuer
                &&& final(self).topic == old(self).topic
                &&& final(self).scheme == old(self).scheme
                &&& final(self).uri == old(self).uri
                &&& final(self).is_valid == old(self).is_valid
                &&& final(self).is_revoked == old(self).is_revoked
                &&& final(self).issued_at == old(self).issued_at
                &&& final(self).expires_at == old(self).expires_at
                &&& final(self).revoked_at == old(self).revoked_at
                &&& final(self).revoked_by == old(self).revoked_by
            },
    {
        if self.is_revoked {
            return Err(ERC3643Error::ClaimRevoked);
        }
        validate_data_size(data.as_slice(), MAX_CLAIM_DATA_SIZE)?;
        validate_data_size(signature.as_slice(), MAX_CLAIM_SIGNATURE_SIZE)?;
        self.data = data;
        self.signature = signature;
        Ok(())
    }

    /// The claim's identifier, derived from its issuer and topic.
    pub fn generate_id(&self) -> (r: [u8; 32])
        ensures
            r@ == sha256_of(claim_id_preimage(self.issuer, self.topic)),
    {
        generate_claim_id(&self.issuer, self.topic)
    }

    /// Checks the claim's signature. An empty signature fails with
    /// `InvalidClaimSignature`, empty data with `InvalidArgument`; otherwise
    /// the verdict of the external signature verifier, `verifier_accepts`,
    /// is returned.
    pub fn validate_signature(&self, verifier_accepts: bool) -> (r: Result<bool, ERC3643Error>)
        ensures
            r == self.validate_signature_outcome(verifier_accepts),
    {
        if self.signature.len() == 0 {
            return Err(ERC3643Error::InvalidClaimSignature);
        }
        if self.data.len() == 0 {
            return Err(ERC3643Error::InvalidArgument);
        }
        Ok(verifier_accepts)
    }

    /// Whether the claim is about `topic` and was issued by `issuer`.
    pub fn matches(&self, topic: u64, issuer: &Address) -> (r: bool)
        ensures
            r == (self.topic == topic && self.issuer@ == issuer@),
    {
        self.topic == topic && self.issuer.same_as(issuer)
    }

    /// Seconds since the claim was issued.
    pub fn get_age(&self, now: i64) -> (r: i64)
        requires
            i64::MIN <= now - self.issued_at <= i64::MAX,
        ensures
            r == now - self.issued_at,
    {
        now - self.issued_at
    }

    /// Seconds left until the claim expires, if it has an expiry.
    pub fn time_until_expiry(&self, now: i64) -> (r: Option<i64>)
        requires
            self.expires_at matches Some(expiry) ==> i64::MIN <= expiry - now <= i64::MAX,
        ensures
            r == match self.expires_at {
                Some(expiry) => Some((expiry - now) as i64),
                None => None::<i64>,
            },
    {
        match self.expires_at {
            Some(expiry) => Some(expiry - now),
            None => None,
        }
    }

    /// Whether the claim expires within `threshold_seconds` but has not
    /// expired yet.
    pub fn is_expiring_soon(&self, threshold_seconds: i64, now: i64) -> (r: bool)
        ensures
            r == (self.expires_at matches Some(expiry) && 0 < expiry - now <= threshold_seconds),
    {
        match self.expires_at {
            Some(expiry) => {
                let time_left: i128 = expiry as i128 - now as i128;
                time_left <= threshold_seconds as i128 && time_left > 0
            },
            None => false,
        }
    }
}

/// The outcome of checking one claim.
#[derive(Clone, Copy, Debug)]
pub struct ClaimVerificationResult {
    pub claim_id: [u8; 32],
    pub is_valid: bool,
    pub is_expired: bool,
    pub is_revoked: bool,
    pub issuer_trusted: bool,
    pub signature_valid: bool,
}

impl ClaimVerificationResult {
    /// Checks `claim` at `now`, given whether its issuer is trusted for its
    /// topic and the external signature verifier's verdict. Fails as
    /// `Claim::validate_signature` does.
    pub fn new(claim: &Claim, issuer_trusted: bool, verifier_accepts: bool, now: i64) -> (r: Result<
        ClaimVerificationResult,
        ERC3643Error,
    >)
        ensures
            match r {
                Err(e) => claim.validate_signature_outcome(verifier_accepts) == Err::<
                    bool,
                    ERC3643Error,
                >(e),
                Ok(v) => {
                    &&& claim.validate_signature_outcome(verifier_accepts) == Ok::<
                        bool,
                        ERC3643Error,
                    >(verifier_accepts)
                    &&& v.claim_id@ == sha256_of(claim_id_preimage(claim.issuer, claim.topic))
                    &&& v.is_valid == (claim.live_at(now) && issuer_trusted && verifier_accepts)
                    &&& v.is_expired == (claim.expires_at matches Some(expiry) && now > expiry)
                    &&& v.is_revoked == claim.is_revoked
                    &&& v.issuer_trusted == issuer_trusted
                    &&& v.signature_valid == verifier_accepts
                },
            },
    {
        let is_expired = match claim.expires_at {
            Some(expiry) => now > expiry,
            None => false,
        };
        let signature_valid = claim.validate_signature(verifier_accepts)?;
        Ok(ClaimVerificationResult {
            claim_id: claim.generate_id(),
            is_valid: claim.is_currently_valid(now) && issuer_trusted && signature_valid,
            is_expired,
            is_revoked: claim.is_revoked,
            issuer_trusted,
            signature_valid,
        })
    }
}

impl Claim {
    /// What `validate_signature` returns for the verifier's verdict.
    pub open spec fn validate_signature_outcome(&self, verifier_accepts: bool) -> Result<
        bool,
        ERC3643Error,
    > {
        if self.signature@.len() == 0 {
            Err(ERC3643Error::InvalidClaimSignature)
        } else if self.data@.len() == 0 {
            Err(ERC3643Error::InvalidArgument)
        } else {
            Ok(verifier_accepts)
        }
    }
}

/// The coverage of the mandatory topics by an identity's claims.
#[derive(Clone, Debug)]
pub struct IdentityVerificationResult {
    pub identity: Address,
    pub is_verified: bool,
    pub claims_checked: u32,
    pub valid_claims: u32,
    /// Topics covered by at least one valid claim, each once.
    pub required_topics_met: Vec<u64>,
    /// Mandatory topics not covered.
    pub missing_topics: Vec<u64>,
    pub verification_timestamp: i64,
}

/// The topics of `required`, in order, that `met` does not hold.
pub open spec fn topics_missing(required: Seq<u64>, met: Seq<u64>) -> Seq<u64>
    decreases required.len(),
{
    if required.len() == 0 {
        seq![]
    } else {
        let rest = topics_missing(required.drop_last(), met);
        if met.contains(required.last()) {
            rest
        } else {
            rest.push(required.last())
        }
    }
}

/// Whether every topic of `required` is in `met`.
pub open spec fn all_topics_met(required: Seq<u64>, met: Seq<u64>) -> bool {
    forall|i: int| 0 <= i < required.len() ==> met.contains(#[trigger] required[i])
}

impl IdentityVerificationResult {
    /// An empty result for `identity`, stamped with `now`.
    pub fn new(identity: Address, now: i64) -> (r: IdentityVerificationResult)
        ensures
            r.identity == identity,
            !r.is_verified,
            r.claims_checked == 0,
            r.valid_claims == 0,
            r.required_topics_met@ == Seq::<u64>::empty(),
            r.missing_topics@ == Seq::<u64>::empty(),
            r.verification_timestamp == now,
    {
        IdentityVerificationResult {
            identity,
            is_verified: false,
            claims_checked: 0,
            valid_claims: 0,
            required_topics_met: Vec::new(),
            missing_topics: Vec::new(),
            verification_timestamp: now,
        }
    }

    /// Counts one more valid claim, about `topic`.
    pub fn add_valid_claim(&mut self, topic: u64)
        requires
            old(self).valid_claims < u32::MAX,
        ensures
            final(self).valid_claims == old(self).valid_claims + 1,
            final(self).required_topics_met@ == if old(self).required_topics_met@.contains(topic) {
                old(self).required_topics_met@
            } else {
                old(self).required_topics_met@.push(topic)
            },
            final(self).identity == old(self).identity,
            final(self).is_verified == old(self).is_verified,
            final(self).claims_checked == old(self).claims_checked,
            final(self).missing_topics@ == old(self).missing_topics@,
            final(self).verification_timestamp == old(self).verification_timestamp,
    {
        self.valid_claims = self.valid_claims + 1;
        if !contains_topic(&self.required_topics_met, topic) {
            self.required_topics_met.push(topic);
        }
    }

    /// Records `topic` as missing, once.
    pub fn add_missing_topic(&mut self, topic: u64)
        ensures
            final(self).missing_topics@ == if old(self).missing_topics@.contains(topic) {
                old(self).missing_topics@
            } else {
                old(self).missing_topics@.push(topic)
            },
            final(self).identity == old(self).identity,
            final(self).is_verified == old(self).is_verified,
            final(self).claims_checked == old(self).claims_checked,
            final(self).valid_claims == old(self).valid_claims,
            final(self).required_topics_met@ == old(self).required_topics_met@,
            final(self).verification_timestamp == old(self).verification_timestamp,
    {
        if !contains_topic(&self.missing_topics, topic) {
            self.missing_topics.push(topic);
        }
    }

    /// Decides the result against the mandatory topics: verified exactly when
    /// every one of them was met; the missing list becomes those that were
    /// not.
    pub fn finalize(&mut self, required_topics: &Vec<u64>)
        ensures
            final(self).is_verified == all_topics_met(required_topics@, old(self).required_topics_met@),
            final(self).missing_topics@ == topics_missing(required_topics@, old(self).required_topics_met@),
            final(self).identity == old(self).identity,
            final(self).claims_checked == old(self).claims_checked,
            final(self).valid_claims == old(self).valid_claims,
            final(self).required_topics_met@ == old(self).required_topics_met@,
            final(self).verification_timestamp == old(self).verification_timestamp,
    {
        let ghost met = self.required_topics_met@;
        let mut all_met = true;
        let mut missing: Vec<u64> = Vec::new();
        let mut i: usize = 0;
        while i < required_topics.len()
            invariant
                0 <= i <= required_topics@.len(),
                met == self.required_topics_met@,
                all_met == all_topics_met(required_topics@.subrange(0, i as int), met),
                missing@ == topics_missing(required_topics@.subrange(0, i as int), met),
            decreases required_topics@.len() - i,
        {
            let topic = required_topics[i];
            let found = contains_topic(&self.required_topics_met, topic);
            let ghost prefix = required_topics@.subrange(0, i as int);
            let ghost next = required_topics@.subrange(0, i + 1);
            assert(next.drop_last() =~= prefix);
            assert(next.last() == topic);
            if !found {
                all_met = false;
                missing.push(topic);
            }
            assert(all_met == all_topics_met(next, met)) by {
                if all_met {
                    assert forall|j: int| 0 <= j < next.len() implies met.contains(#[trigger] next[j]) by {
                        if j < i {
                            assert(next[j] == prefix[j]);
                        }
                    }
                } else if found {
                    let j = choose|j: int| 0 <= j < prefix.len() && !met.contains(#[trigger] prefix[j]);
                    assert(next[j] == prefix[j]);
                } else {
                    assert(!met.contains(next[i as int]));
                }
            }
            i = i + 1;
        }
        assert(required_topics@.subrange(0, required_topics@.len() as int) =~= required_topics@);
        self.is_verified = all_met;
        self.missing_topics = missing;
    }
}

} // verus!
