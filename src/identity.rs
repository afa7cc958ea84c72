//! Identity records, the trusted-issuer directory and the mandatory topic set.

use vstd::prelude::*;

use crate::address::Address;
use crate::error::ERC3643Error;
use crate::utils::{contains_topic, valid_country, validate_country_code};

verus! {

/// Largest number of issuers in the directory.
pub const MAX_TRUSTED_ISSUERS: usize = 50;

/// Largest number of topics in the mandatory set, and of topics per issuer.
pub const MAX_CLAIM_TOPICS: usize = 15;

/// The verification state of one party.
#[derive(Clone, Copy, Debug)]
pub struct IdentityRegistry {
    pub user: Address,
    pub is_verified: bool,
    /// ISO 3166-1 numeric country code.
    pub country: u16,
    /// External identity reference, if any.
    pub onchain_id: Option<Address>,
    pub claims_count: u32,
    pub required_claims_met: bool,
    pub registered_at: i64,
    pub last_verified_at: i64,
    pub updated_at: i64,
    pub registered_by: Address,
}

impl IdentityRegistry {
    /// The record's invariant: a valid country, and verified only while its
    /// required claims are met.
    pub open spec fn wf(&self) -> bool {
        &&& valid_country(self.country)
        &&& self.is_verified ==> self.required_claims_met
    }

    /// Sets the verification flag at `now`; setting it stamps the time of
    /// verification too.
    pub fn update_verification(&mut self, verified: bool, now: i64)
        ensures
            *final(self) == (IdentityRegistry {
                is_verified: verified,
                last_verified_at: if verified {
                    now
                } else {
                    old(self).last_verified_at
                },
                updated_at: now,
                ..*old(self)
            }),
    {
        self.is_verified = verified;
        if verified {
            self.last_verified_at = now;
        }
        self.updated_at = now;
    }

    /// Moves the identity to another country. A code outside 1..=999 fails
    /// with `InvalidCountryCode` and changes nothing.
    pub fn update_country(&mut self, country: u16, now: i64) -> (r: Result<(), ERC3643Error>)
        ensures
            r is Ok <==> valid_country(country),
            r is Err ==> r == Err::<(), ERC3643Error>(ERC3643Error::InvalidCountryCode)
                && *final(self) == *old(self),
            r is Ok ==> *final(self) == (IdentityRegistry {
                country,
                updated_at: now,
                ..*old(self)
            }),
    {
        validate_country_code(country)?;
        self.country = country;
        self.updated_at = now;
        Ok(())
    }

    /// Sets the number of claims held.
    pub fn update_claims_count(&mut self, count: u32, now: i64)
        ensures
            *final(self) == (IdentityRegistry { claims_count: count, updated_at: now, ..*old(self) }),
    {
        self.claims_count = count;
        self.updated_at = now;
    }

    /// Sets whether the required claims are met.
    pub fn update_required_claims_status(&mut self, met: bool, now: i64)
        ensures
            *final(self) == (IdentityRegistry {
                required_claims_met: met,
                updated_at: now,
                ..*old(self)
            }),
    {
        self.required_claims_met = met;
        self.updated_at = now;
    }

    /// Whether the party may take part in transfers: verified with its
    /// required claims met.
    pub fn is_valid_for_transfer(&self) -> (r: bool)
        ensures
            r == (self.is_verified && self.required_claims_met),
    {
        self.is_verified && self.required_claims_met
    }
}

/// An issuer and the topics it may attest.
#[derive(Clone, Debug)]
pub struct TrustedIssuer {
    pub issuer: Address,
    pub claim_topics: Vec<u64>,
    pub added_at: i64,
    pub is_active: bool,
}

/// Whether `i` is the first position of `s` whose issuer is `key`.
pub open spec fn is_first_issuer_index(s: Seq<TrustedIssuer>, key: Seq<u8>, i: int) -> bool {
    &&& 0 <= i < s.len()
    &&& s[i].issuer@ == key
    &&& forall|j: int| 0 <= j < i ==> (#[trigger] s[j]).issuer@ != key
}

/// Whether some entry of `s` is for the issuer `key`.
pub open spec fn lists_issuer(s: Seq<TrustedIssuer>, key: Seq<u8>) -> bool {
    exists|i: int| 0 <= i < s.len() && (#[trigger] s[i]).issuer@ == key
}

/// The first position of `s` whose issuer is `key` (meaningful when listed).
pub open spec fn issuer_position(s: Seq<TrustedIssuer>, key: Seq<u8>) -> int {
    choose|i: int| is_first_issuer_index(s, key, i)
}

/// Whether no issuer appears twice in `s`.
pub open spec fn issuers_unique(s: Seq<TrustedIssuer>) -> bool {
    forall|i: int, j: int|
        0 <= i < s.len() && 0 <= j < s.len() && i != j ==> (#[trigger] s[i]).issuer@ != (
        #[trigger] s[j]).issuer@
}

/// Whether `issuer` is listed in `s`, active, and trusted for `topic`.
pub open spec fn trusted_for(s: Seq<TrustedIssuer>, issuer: Seq<u8>, topic: u64) -> bool {
    exists|i: int|
        0 <= i < s.len() && (#[trigger] s[i]).issuer@ == issuer && s[i].is_active
            && s[i].claim_topics@.contains(topic)
}

/// The active issuers of `s` trusted for `topic`, in directory order.
pub open spec fn issuers_for(s: Seq<TrustedIssuer>, topic: u64) -> Seq<Address>
    decreases s.len(),
{
    if s.len() == 0 {
        seq![]
    } else {
        let rest = issuers_for(s.drop_last(), topic);
        if s.last().is_active && s.last().claim_topics@.contains(topic) {
            rest.push(s.last().issuer)
        } else {
            rest
        }
    }
}

/// Why adding `issuer` with `topics` to `s` is rejected, if it is.
pub open spec fn add_issuer_check(s: Seq<TrustedIssuer>, issuer: Address, topics: Seq<u64>) -> Result<
    (),
    ERC3643Error,
> {
    if s.len() >= MAX_TRUSTED_ISSUERS {
        Err(ERC3643Error::TooManyTrustedIssuers)
    } else if topics.len() == 0 {
        Err(ERC3643Error::InvalidArgument)
    } else if topics.len() > MAX_CLAIM_TOPICS {
        Err(ERC3643Error::TooManyClaimTopics)
    } else if lists_issuer(s, issuer@) {
        Err(ERC3643Error::TrustedIssuerAlreadyExists)
    } else {
        Ok(())
    }
}

/// The first position of `s` whose issuer is `key` is the one
/// `issuer_position` names.
pub proof fn lemma_first_issuer_index(s: Seq<TrustedIssuer>, key: Seq<u8>, i: int)
    requires
        is_first_issuer_index(s, key, i),
    ensures
        issuer_position(s, key) == i,
{
    let k = issuer_position(s, key);
    assert(is_first_issuer_index(s, key, k));
    if k < i {
        assert(s[k].issuer@ != key);
    } else if i < k {
        assert(s[i].issuer@ != key);
    }
}

/// The issuers that may attest claims, and for which topics.
#[derive(Clone, Debug)]
pub struct TrustedIssuersRegistry {
    pub mint: Address,
    pub issuers: Vec<TrustedIssuer>,
    pub created_at: i64,
    pub updated_at: i64,
}

impl TrustedIssuersRegistry {
    /// The directory's invariant: at most 50 entries, one per issuer.
    pub open spec fn wf(&self) -> bool {
        &&& self.issuers@.len() <= MAX_TRUSTED_ISSUERS
        &&& issuers_unique(self.issuers@)
    }

    /// Position of the first entry for `issuer`, if any.
    fn position_of(&self, issuer: &Address) -> (r: Option<usize>)
        ensures
            r matches Some(i) ==> is_first_issuer_index(self.issuers@, issuer@, i as int),
            r is None ==> !lists_issuer(self.issuers@, issuer@),
    {
        let mut i: usize = 0;
        while i < self.issuers.len()
            invariant
                0 <= i <= self.issuers@.len(),
                forall|j: int| 0 <= j < i ==> (#[trigger] self.issuers@[j]).issuer@ != issuer@,
            decreases self.issuers@.len() - i,
        {
            if self.issuers[i].issuer.same_as(issuer) {
                return Some(i);
            }
            i = i + 1;
        }
        None
    }

    /// Adds `issuer`, trusted for `claim_topics`, active from `now`. Fails
    /// with `TooManyTrustedIssuers` when the directory is full,
    /// `InvalidArgument` on an empty topic list, `TooManyClaimTopics` on more
    /// than 15 topics, and `TrustedIssuerAlreadyExists` when the issuer is
    /// listed; on failure nothing changes.
    pub fn add_issuer(&mut self, issuer: Address, claim_topics: Vec<u64>, now: i64) -> (r: Result<
        (),
        ERC3643Error,
    >)
        ensures
            r == add_issuer_check(old(self).issuers@, issuer, claim_topics@),
            r is Err ==> *final(self) == *old(self),
            r is Ok ==> final(self).issuers@ == old(self).issuers@.push(
                TrustedIssuer { issuer, claim_topics, added_at: now, is_active: true },
            ),
            r is Ok ==> final(self).mint == old(self).mint && final(self).created_at == old(
                self,
            ).created_at && final(self).updated_at == now,
            old(self).wf() ==> final(self).wf(),
    {
        if self.issuers.len() >= MAX_TRUSTED_ISSUERS {
            return Err(ERC3643Error::TooManyTrustedIssuers);
        }
        if claim_topics.len() == 0 {
            return Err(ERC3643Error::InvalidArgument);
        }
        if claim_topics.len() > MAX_CLAIM_TOPICS {
            return Err(ERC3643Error::TooManyClaimTopics);
        }
        if let Some(i) = self.position_of(&issuer) {
            return Err(ERC3643Error::TrustedIssuerAlreadyExists);
        }
        let entry = TrustedIssuer { issuer, claim_topics, added_at: now, is_active: true };
        self.issuers.push(entry);
        self.updated_at = now;
        Ok(())
    }

    /// Removes the entry for `issuer`. Fails with `TrustedIssuerNotFound`,
    /// changing nothing, when the issuer is not listed.
    pub fn remove_issuer(&mut self, issuer: Address, now: i64) -> (r: Result<(), ERC3643Error>)
        ensures
            r is Ok <==> lists_issuer(old(self).issuers@, issuer@),
            r is Err ==> r == Err::<(), ERC3643Error>(ERC3643Error::TrustedIssuerNotFound)
                && *final(self) == *old(self),
            r is Ok ==> final(self).issuers@ == old(self).issuers@.remove(
                issuer_position(old(self).issuers@, issuer@),
            ),
            r is Ok ==> final(self).mint == old(self).mint && final(self).created_at == old(
                self,
            ).created_at && final(self).updated_at == now,
            old(self).wf() ==> final(self).wf(),
    {
        match self.position_of(&issuer) {
            Some(pos) => {
                proof {
                    lemma_first_issuer_index(self.issuers@, issuer@, pos as int);
                }
                let ghost before = self.issuers@;
                self.issuers.remove(pos);
                assert forall|i: int, j: int|
                    0 <= i < self.issuers@.len() && 0 <= j < self.issuers@.len() && i != j
                        && issuers_unique(before) implies (#[trigger] self.issuers@[i]).issuer@ != (
                #[trigger] self.issuers@[j]).issuer@ by {
                    let bi = if i < pos { i } else { i + 1 };
                    let bj = if j < pos { j } else { j + 1 };
                    assert(self.issuers@[i] == before[bi]);
                    assert(self.issuers@[j] == before[bj]);
                }
                self.updated_at = now;
                Ok(())
            },
            None => Err(ERC3643Error::TrustedIssuerNotFound),
        }
    }

    /// Replaces the topics that `issuer` may attest. Fails with
    /// `InvalidArgument` on an empty list, `TooManyClaimTopics` on more than 15
    /// topics and `TrustedIssuerNotFound` when the issuer is not listed; on
    /// failure nothing changes.
    pub fn update_issuer_topics(&mut self, issuer: Address, claim_topics: Vec<u64>, now: i64) -> (r:
        Result<(), ERC3643Error>)
        ensures
            claim_topics@.len() == 0 ==> r == Err::<(), ERC3643Error>(ERC3643Error::InvalidArgument),
            claim_topics@.len() > MAX_CLAIM_TOPICS ==> r == Err::<(), ERC3643Error>(
                ERC3643Error::TooManyClaimTopics,
            ),
            1 <= claim_topics@.len() <= MAX_CLAIM_TOPICS ==> (r is Ok <==> lists_issuer(
                old(self).issuers@,
                issuer@,
            )),
            r is Err ==> *final(self) == *old(self),
            r is Err && 1 <= claim_topics@.len() <= MAX_CLAIM_TOPICS ==> r == Err::<
                (),
                ERC3643Error,
            >(ERC3643Error::TrustedIssuerNotFound),
            r is Ok ==> {
                let p = issuer_position(old(self).issuers@, issuer@);
                final(self).issuers@ == old(self).issuers@.update(
                    p,
                    TrustedIssuer { claim_topics, ..old(self).issuers@[p] },
                )
            },
            r is Ok ==> final(self).mint == old(self).mint && final(self).created_at == old(
                self,
            ).created_at && final(self).updated_at == now,
            old(self).wf() ==> final(self).wf(),
    {
        if claim_topics.len() == 0 {
            return Err(ERC3643Error::InvalidArgument);
        }
        if claim_topics.len() > MAX_CLAIM_TOPICS {
            return Err(ERC3643Error::TooManyClaimTopics);
        }
        match self.position_of(&issuer) {
            Some(pos) => {
                proof {
                    lemma_first_issuer_index(self.issuers@, issuer@, pos as int);
                }
                let ghost before = self.issuers@;
                let mut entry = self.issuers.remove(pos);
                entry.claim_topics = claim_topics;
                self.issuers.insert(pos, entry);
                assert(self.issuers@ =~= before.update(
                    pos as int,
                    TrustedIssuer { claim_topics, ..before[pos as int] },
                ));
                self.updated_at = now;
                Ok(())
            },
            None => Err(ERC3643Error::TrustedIssuerNotFound),
        }
    }

    /// Whether `issuer` is listed, active and trusted for `topic`.
    pub fn is_trusted_for_topic(&self, issuer: &Address, topic: u64) -> (r: bool)
        ensures
            r == trusted_for(self.issuers@, issuer@, topic),
    {
        let mut i: usize = 0;
        while i < self.issuers.len()
            invariant
                0 <= i <= self.issuers@.len(),
                forall|j: int|
                    0 <= j < i ==> !((#[trigger] self.issuers@[j]).issuer@ == issuer@
                        && self.issuers@[j].is_active && self.issuers@[j].claim_topics@.contains(
                        topic,
                    )),
            decreases self.issuers@.len() - i,
        {
            if self.issuers[i].issuer.same_as(issuer) && self.issuers[i].is_active
                && contains_topic(&self.issuers[i].claim_topics, topic) {
                return true;
            }
            i = i + 1;
        }
        false
    }

    /// The active issuers trusted for `topic`, in directory order.
    pub fn get_issuers_for_topic(&self, topic: u64) -> (r: Vec<Address>)
        ensures
            r@ == issuers_for(self.issuers@, topic),
    {
        let mut out: Vec<Address> = Vec::new();
        let mut i: usize = 0;
        while i < self.issuers.len()
            invariant
                0 <= i <= self.issuers@.len(),
                out@ == issuers_for(self.issuers@.subrange(0, i as int), topic),
            decreases self.issuers@.len() - i,
        {
            let ghost next = self.issuers@.subrange(0, i + 1);
            assert(next.drop_last() =~= self.issuers@.subrange(0, i as int));
            if self.issuers[i].is_active && contains_topic(&self.issuers[i].claim_topics, topic) {
                out.push(self.issuers[i].issuer);
            }
            i = i + 1;
        }
        assert(self.issuers@.subrange(0, self.issuers@.len() as int) =~= self.issuers@);
        out
    }
}

/// Whether no topic appears twice in `s`.
pub open spec fn topics_unique(s: Seq<u64>) -> bool {
    forall|i: int, j: int| 0 <= i < s.len() && 0 <= j < s.len() && i != j ==> s[i] != s[j]
}

/// Whether `i` is the first position of `s` that holds `topic`.
pub open spec fn is_first_topic_index(s: Seq<u64>, topic: u64, i: int) -> bool {
    &&& 0 <= i < s.len()
    &&& s[i] == topic
    &&& forall|j: int| 0 <= j < i ==> s[j] != topic
}

/// The first position of `s` that holds `topic` (meaningful when present).
pub open spec fn topic_position(s: Seq<u64>, topic: u64) -> int {
    choose|i: int| is_first_topic_index(s, topic, i)
}

proof fn lemma_first_topic_index(s: Seq<u64>, topic: u64, i: int)
    requires
        is_first_topic_index(s, topic, i),
    ensures
        topic_position(s, topic) == i,
{
    let k = topic_position(s, topic);
    assert(is_first_topic_index(s, topic, k));
}

/// Why adding `topic` to the mandatory set `s` is rejected, if it is.
pub open spec fn add_topic_check(s: Seq<u64>, topic: u64) -> Result<(), ERC3643Error> {
    if s.len() >= MAX_CLAIM_TOPICS {
        Err(ERC3643Error::TooManyClaimTopics)
    } else if s.contains(topic) {
        Err(ERC3643Error::ClaimTopicAlreadyExists)
    } else {
        Ok(())
    }
}

/// The ordered set of topics that every identity must hold claims for.
#[derive(Clone, Debug)]
pub struct ClaimTopicsRegistry {
    pub mint: Address,
    pub required_topics: Vec<u64>,
    pub created_at: i64,
    pub updated_at: i64,
}

impl ClaimTopicsRegistry {
    /// The set's invariant: at most 15 topics, none twice.
    pub open spec fn wf(&self) -> bool {
        &&& self.required_topics@.len() <= MAX_CLAIM_TOPICS
        &&& topics_unique(self.required_topics@)
    }

    /// Adds a mandatory topic. Fails with `TooManyClaimTopics` when the set is
    /// full and `ClaimTopicAlreadyExists` on a duplicate; on failure nothing
    /// changes.
    pub fn add_topic(&mut self, topic: u64, now: i64) -> (r: Result<(), ERC3643Error>)
        ensures
            r == add_topic_check(old(self).required_topics@, topic),
            r is Err ==> *final(self) == *old(self),
            r is Ok ==> final(self).required_topics@ == old(self).required_topics@.push(topic),
            r is Ok ==> final(self).mint == old(self).mint && final(self).created_at == old(
                self,
            ).created_at && final(self).updated_at == now,
            old(self).wf() ==> final(self).wf(),
    {
        if self.required_topics.len() >= MAX_CLAIM_TOPICS {
            return Err(ERC3643Error::TooManyClaimTopics);
        }
        if contains_topic(&self.required_topics, topic) {
            return Err(ERC3643Error::ClaimTopicAlreadyExists);
        }
        self.required_topics.push(topic);
        self.updated_at = now;
        Ok(())
    }

    /// Removes a mandatory topic. Fails with `ClaimTopicNotFound`, changing
    /// nothing, when it is absent.
    pub fn remove_topic(&mut self, topic: u64, now: i64) -> (r: Result<(), ERC3643Error>)
        ensures
            r is Ok <==> old(self).required_topics@.contains(topic),
            r is Err ==> r == Err::<(), ERC3643Error>(ERC3643Error::ClaimTopicNotFound)
                && *final(self) == *old(self),
            r is Ok ==> final(self).required_topics@ == old(self).required_topics@.remove(
                topic_position(old(self).required_topics@, topic),
            ),
            r is Ok ==> final(self).mint == old(self).mint && final(self).created_at == old(
                self,
            ).created_at && final(self).updated_at == now,
            old(self).wf() ==> final(self).wf(),
    {
        match self.position_of(topic) {
            Some(i) => {
                proof {
                    lemma_first_topic_index(self.required_topics@, topic, i as int);
                }
                let ghost before = self.required_topics@;
                self.required_topics.remove(i);
                assert forall|a: int, b: int|
                    0 <= a < self.required_topics@.len() && 0 <= b < self.required_topics@.len()
                        && a != b && topics_unique(before) implies self.required_topics@[a]
                    != self.required_topics@[b] by {
                    let ba = if a < i { a } else { a + 1 };
                    let bb = if b < i { b } else { b + 1 };
                    assert(self.required_topics@[a] == before[ba]);
                    assert(self.required_topics@[b] == before[bb]);
                }
                self.updated_at = now;
                Ok(())
            },
            None => Err(ERC3643Error::ClaimTopicNotFound),
        }
    }

    /// Position of the first occurrence of `topic`, if any.
    fn position_of(&self, topic: u64) -> (r: Option<usize>)
        ensures
            r matches Some(i) ==> is_first_topic_index(self.required_topics@, topic, i as int),
            r is None ==> !self.required_topics@.contains(topic),
    {
        let mut i: usize = 0;
        while i < self.required_topics.len()
            invariant
                0 <= i <= self.required_topics@.len(),
                forall|j: int| 0 <= j < i ==> self.required_topics@[j] != topic,
            decreases self.required_topics@.len() - i,
        {
            if self.required_topics[i] == topic {
                return Some(i);
            }
            i = i + 1;
        }
        None
    }

    /// Whether `topic` is mandatory.
    pub fn is_topic_required(&self, topic: u64) -> (r: bool)
        ensures
            r == self.required_topics@.contains(topic),
    {
        contains_topic(&self.required_topics, topic)
    }

    /// The mandatory topics, in order.
    pub fn get_required_topics(&self) -> (r: &Vec<u64>)
        ensures
            r@ == self.required_topics@,
    {
        &self.required_topics
    }
}

} // verus!
