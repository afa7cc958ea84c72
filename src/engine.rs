//! The transfer decision engine: one allow/deny verdict per transfer request.

use vstd::prelude::*;

use crate::address::{zero_bytes, Address};
use crate::compliance::{compliance_denial, denial_module, denial_reason, ComplianceRegistry};
use crate::config::{FrozenAccount, TokenConfig};
use crate::claims::{all_topics_met, Claim};
use crate::identity::{ClaimTopicsRegistry, IdentityRegistry, TrustedIssuersRegistry};
use crate::identity_ops::{covered_topics, covered_topics_of};
use crate::utils::contains_topic;

verus! {

/// The audit record of one transfer decision.
#[derive(Clone, Debug)]
pub struct TransferValidated {
    pub from: Address,
    pub to: Address,
    pub amount: u64,
    pub allowed: bool,
    pub reason: String,
}

/// The audit record of a decision that reached the rule evaluator.
#[derive(Clone, Debug)]
pub struct ComplianceCheck {
    pub from: Address,
    pub to: Address,
    pub amount: u64,
    pub result: bool,
    /// The module responsible for the verdict.
    pub module: String,
}

/// A transfer decision with its audit records.
#[derive(Clone, Debug)]
pub struct TransferDecision {
    pub validated: TransferValidated,
    /// Present when the request passed the pause, freeze and identity gates
    /// and was handed to the rule evaluator.
    pub compliance: Option<ComplianceCheck>,
}

/// Why a request is denied before the rules are consulted, if it is.
pub open spec fn gate_denial(
    paused: bool,
    from_identity: Option<IdentityRegistry>,
    to_identity: IdentityRegistry,
    from_frozen: Option<FrozenAccount>,
    to_frozen: Option<FrozenAccount>,
    from: Address,
) -> Option<Seq<char>> {
    if paused {
        Some("token paused"@)
    } else if from_frozen matches Some(f) && f.is_frozen {
        Some("From address is frozen"@)
    } else if to_frozen matches Some(f) && f.is_frozen {
        Some("To address is frozen"@)
    } else if !to_identity.is_verified {
        Some("Recipient identity not verified"@)
    } else if from@ != zero_bytes() && from_identity is None {
        Some("Sender identity not found"@)
    } else if from@ != zero_bytes() && !from_identity->0.is_verified {
        Some("Sender identity not verified"@)
    } else {
        None
    }
}

/// The sender's country as the rules see it: 0 when no record is supplied.
pub open spec fn sender_country(from_identity: Option<IdentityRegistry>) -> u16 {
    match from_identity {
        Some(i) => i.country,
        None => 0,
    }
}

/// Whether the request is allowed: it passes the gates and every rule.
pub open spec fn transfer_allowed(
    paused: bool,
    compliance: ComplianceRegistry,
    from_identity: Option<IdentityRegistry>,
    to_identity: IdentityRegistry,
    from_frozen: Option<FrozenAccount>,
    to_frozen: Option<FrozenAccount>,
    from: Address,
    amount: u64,
    to_balance: u64,
    now: i64,
) -> bool {
    &&& gate_denial(paused, from_identity, to_identity, from_frozen, to_frozen, from) is None
    &&& compliance_denial(
        compliance,
        from@,
        amount,
        to_balance,
        sender_country(from_identity),
        to_identity.country,
        now,
    ) is None
}

/// Lifts an optional reference to an optional value.
pub open spec fn deref_opt<T>(o: Option<&T>) -> Option<T> {
    match o {
        Some(x) => Some(*x),
        None => None,
    }
}

fn country_of(from_identity: Option<&IdentityRegistry>) -> (r: u16)
    ensures
        r == sender_country(deref_opt(from_identity)),
{
    match from_identity {
        Some(i) => i.country,
        None => 0,
    }
}

fn is_frozen_opt(record: Option<&FrozenAccount>) -> (r: bool)
    ensures
        r == (deref_opt(record) matches Some(f) && f.is_frozen),
{
    match record {
        Some(f) => f.is_address_frozen(),
        None => false,
    }
}

/// Decides whether `amount` may move from `from` to `to` at `now`.
///
/// The request is denied, in this order, when the token is paused (reason
/// "token paused"), when either party is fully frozen, when the recipient is
/// not verified, and when the sender, unless it is the null sentinel of a
/// mint, has no record or is not verified. Otherwise the rule evaluator
/// decides, with the sender's country (0 without a record) and the
/// recipient's. Absent freeze records mean "never frozen".
pub fn check_transfer_allowed(
    config: &TokenConfig,
    compliance: &ComplianceRegistry,
    from_identity: Option<&IdentityRegistry>,
    to_identity: &IdentityRegistry,
    from_frozen: Option<&FrozenAccount>,
    to_frozen: Option<&FrozenAccount>,
    from: Address,
    to: Address,
    amount: u64,
    from_balance: u64,
    to_balance: u64,
    now: i64,
) -> (r: TransferDecision)
    ensures
        r.validated.from == from,
        r.validated.to == to,
        r.validated.amount == amount,
        r.validated.allowed == transfer_allowed(
            config.paused,
            *compliance,
            deref_opt(from_identity),
            *to_identity,
            deref_opt(from_frozen),
            deref_opt(to_frozen),
            from,
            amount,
            to_balance,
            now,
        ),
        config.paused ==> !r.validated.allowed && r.validated.reason@ == "token paused"@,
        (from_frozen matches Some(f) && f.is_frozen) ==> !r.validated.allowed,
        (to_frozen matches Some(f) && f.is_frozen) ==> !r.validated.allowed,
        ({
            let gate = gate_denial(
                config.paused,
                deref_opt(from_identity),
                *to_identity,
                deref_opt(from_frozen),
                deref_opt(to_frozen),
                from,
            );
            let d = compliance_denial(
                *compliance,
                from@,
                amount,
                to_balance,
                sender_country(deref_opt(from_identity)),
                to_identity.country,
                now,
            );
            match gate {
                Some(reason) => r.validated.reason@ == reason && r.compliance is None,
                None => {
                    &&& r.validated.reason@ == denial_reason(d)
                    &&& r.compliance matches Some(c) && c.from == from && c.to == to && c.amount
                        == amount && c.result == r.validated.allowed && c.module@ == denial_module(
                        d,
                    )
                },
            }
        }),
{
    let gate: Option<&str> = if config.paused {
        Some("token paused")
    } else if is_frozen_opt(from_frozen) {
        Some("From address is frozen")
    } else if is_frozen_opt(to_frozen) {
        Some("To address is frozen")
    } else if !to_identity.is_verified {
        Some("Recipient identity not verified")
    } else if !from.is_zero() {
        match from_identity {
            None => Some("Sender identity not found"),
            Some(record) => if !record.is_verified {
                Some("Sender identity not verified")
            } else {
                None
            },
        }
    } else {
        None
    };
    if let Some(reason) = gate {
        return TransferDecision {
            validated: TransferValidated {
                from,
                to,
                amount,
                allowed: false,
                reason: String::from_str(reason),
            },
            compliance: None,
        };
    }
    let from_country = country_of(from_identity);
    let result = compliance.check_transfer_compliance(
        &from,
        &to,
        amount,
        from_balance,
        to_balance,
        from_country,
        to_identity.country,
        now,
    );
    TransferDecision {
        validated: TransferValidated {
            from,
            to,
            amount,
            allowed: result.allowed,
            reason: result.reason,
        },
        compliance: Some(
            ComplianceCheck { from, to, amount, result: result.allowed, module: result.module },
        ),
    }
}

/// Whether `amount` may move from `from` to `to` at `now`: the verdict of
/// `check_transfer_allowed`, without its audit records.
pub fn validate_transfer_compliance(
    from: &Address,
    to: &Address,
    amount: u64,
    config: &TokenConfig,
    from_identity: Option<&IdentityRegistry>,
    to_identity: &IdentityRegistry,
    compliance: &ComplianceRegistry,
    from_frozen: Option<&FrozenAccount>,
    to_frozen: Option<&FrozenAccount>,
    from_balance: u64,
    to_balance: u64,
    now: i64,
) -> (r: bool)
    ensures
        r == transfer_allowed(
            config.paused,
            *compliance,
            deref_opt(from_identity),
            *to_identity,
            deref_opt(from_frozen),
            deref_opt(to_frozen),
            *from,
            amount,
            to_balance,
            now,
        ),
        config.paused ==> !r,
        (from_frozen matches Some(f) && f.is_frozen) ==> !r,
        (to_frozen matches Some(f) && f.is_frozen) ==> !r,
{
    if config.paused {
        return false;
    }
    if is_frozen_opt(from_frozen) || is_frozen_opt(to_frozen) {
        return false;
    }
    if !to_identity.is_verified {
        return false;
    }
    if !from.is_zero() {
        match from_identity {
            Some(record) => {
                if !record.is_verified {
                    return false;
                }
            },
            None => {
                return false;
            },
        }
    }
    let from_country = country_of(from_identity);
    let result = compliance.check_transfer_compliance(
        from,
        to,
        amount,
        from_balance,
        to_balance,
        from_country,
        to_identity.country,
        now,
    );
    result.allowed
}

/// Whether every mandatory topic is covered by a live claim of `identity`
/// from an issuer trusted for that topic; trivially true without mandatory
/// topics.
pub fn verify_required_claims_coverage(
    identity: &Address,
    required_topics: &Vec<u64>,
    claims: &Vec<Claim>,
    trusted_issuers: &TrustedIssuersRegistry,
    now: i64,
) -> (r: bool)
    ensures
        r == all_topics_met(
            required_topics@,
            covered_topics(claims@, *identity, trusted_issuers.issuers@, now),
        ),
{
    let covered = covered_topics_of(claims, identity, trusted_issuers, now);
    let ghost met = covered@;
    let mut i: usize = 0;
    while i < required_topics.len()
        invariant
            0 <= i <= required_topics@.len(),
            met == covered@,
            met == covered_topics(claims@, *identity, trusted_issuers.issuers@, now),
            all_topics_met(required_topics@.subrange(0, i as int), met),
        decreases required_topics@.len() - i,
    {
        let topic = required_topics[i];
        if !contains_topic(&covered, topic) {
            assert(!met.contains(required_topics@[i as int]));
            assert(!all_topics_met(required_topics@, met));
            return false;
        }
        assert(all_topics_met(required_topics@.subrange(0, i + 1), met)) by {
            let prefix = required_topics@.subrange(0, i + 1);
            assert forall|j: int| 0 <= j < prefix.len() implies met.contains(#[trigger] prefix[j]) by {
                if j < i {
                    assert(prefix[j] == required_topics@.subrange(0, i as int)[j]);
                }
            }
        }
        i = i + 1;
    }
    assert(required_topics@.subrange(0, required_topics@.len() as int) =~= required_topics@);
    true
}

/// Whether a party counts as verified at `now`: its record is verified with
/// required claims met, and every mandatory topic (if any) is covered by a
/// live claim of the party from an issuer trusted for that topic.
pub fn check_verification(
    identity: &IdentityRegistry,
    claims: &Vec<Claim>,
    claim_topics: &ClaimTopicsRegistry,
    trusted_issuers: &TrustedIssuersRegistry,
    now: i64,
) -> (r: bool)
    ensures
        r == (identity.is_verified && identity.required_claims_met && (
        claim_topics.required_topics@.len() == 0 || all_topics_met(
            claim_topics.required_topics@,
            covered_topics(claims@, identity.user, trusted_issuers.issuers@, now),
        ))),
{
    if !identity.is_valid_for_transfer() {
        return false;
    }
    let required_topics = claim_topics.get_required_topics();
    if required_topics.len() == 0 {
        return true;
    }
    verify_required_claims_coverage(&identity.user, required_topics, claims, trusted_issuers, now)
}

} // verus!
