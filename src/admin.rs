//! Administrative operations, each checked against the caller's role.

use vstd::prelude::*;

use crate::address::{zero_bytes, Address};
use crate::config::{addresses_unique, address_position, FrozenAccount, TokenConfig};
use crate::error::ERC3643Error;
use crate::identity::{
    add_issuer_check, add_topic_check, issuer_position, lists_issuer, topic_position,
    ClaimTopicsRegistry, TrustedIssuer, TrustedIssuersRegistry,
};
use crate::utils::{address_listed, validate_amount, validate_pubkey};

verus! {

/// Fails with `OwnerRoleRequired` unless `owner` is the token's owner.
fn require_owner(config: &TokenConfig, owner: &Address) -> (r: Result<(), ERC3643Error>)
    ensures
        r is Ok <==> config.owner@ == owner@,
        r is Err ==> r == Err::<(), ERC3643Error>(ERC3643Error::OwnerRoleRequired),
{
    if config.is_owner(owner) {
        Ok(())
    } else {
        Err(ERC3643Error::OwnerRoleRequired)
    }
}

/// Fails with `AgentRoleRequired` unless `agent` is the owner or an agent.
fn require_agent(config: &TokenConfig, agent: &Address) -> (r: Result<(), ERC3643Error>)
    ensures
        r is Ok <==> config.has_role(*agent),
        r is Err ==> r == Err::<(), ERC3643Error>(ERC3643Error::AgentRoleRequired),
{
    if config.has_agent_or_owner_role(agent) {
        Ok(())
    } else {
        Err(ERC3643Error::AgentRoleRequired)
    }
}

/// Adds a trusted issuer, on behalf of the owner (`OwnerRoleRequired`). The
/// issuer must not be the null sentinel (`ZeroAddressNotAllowed`) and its
/// topic list not empty (`InvalidArgument`); then
/// `TrustedIssuersRegistry::add_issuer` decides. On failure nothing changes.
pub fn add_trusted_issuer(
    config: &TokenConfig,
    owner: Address,
    trusted_issuers: &mut TrustedIssuersRegistry,
    issuer: Address,
    claim_topics: Vec<u64>,
    now: i64,
) -> (r: Result<(), ERC3643Error>)
    ensures
        config.owner@ != owner@ ==> r == Err::<(), ERC3643Error>(ERC3643Error::OwnerRoleRequired),
        config.owner@ == owner@ && issuer@ == zero_bytes() ==> r == Err::<(), ERC3643Error>(
            ERC3643Error::ZeroAddressNotAllowed,
        ),
        config.owner@ == owner@ && issuer@ != zero_bytes() && claim_topics@.len() == 0 ==> r
            == Err::<(), ERC3643Error>(ERC3643Error::InvalidArgument),
        config.owner@ == owner@ && issuer@ != zero_bytes() && claim_topics@.len() > 0 ==> r
            == add_issuer_check(
            old(trusted_issuers).issuers@,
            issuer,
            claim_topics@,
        ),
        r is Err ==> *final(trusted_issuers) == *old(trusted_issuers),
        r is Ok ==> final(trusted_issuers).issuers@ == old(trusted_issuers).issuers@.push(
            TrustedIssuer { issuer, claim_topics, added_at: now, is_active: true },
        ),
        old(trusted_issuers).wf() ==> final(trusted_issuers).wf(),
{
    require_owner(config, &owner)?;
    validate_pubkey(&issuer)?;
    if claim_topics.len() == 0 {
        return Err(ERC3643Error::InvalidArgument);
    }
    trusted_issuers.add_issuer(issuer, claim_topics, now)
}

/// Removes a trusted issuer, on behalf of the owner (`OwnerRoleRequired`).
/// The null sentinel fails with `ZeroAddressNotAllowed`, an issuer that is not
/// listed with `TrustedIssuerNotFound`. On failure nothing changes.
pub fn remove_trusted_issuer(
    config: &TokenConfig,
    owner: Address,
    trusted_issuers: &mut TrustedIssuersRegistry,
    issuer: Address,
    now: i64,
) -> (r: Result<(), ERC3643Error>)
    ensures
        config.owner@ != owner@ ==> r == Err::<(), ERC3643Error>(ERC3643Error::OwnerRoleRequired),
        config.owner@ == owner@ && issuer@ == zero_bytes() ==> r == Err::<(), ERC3643Error>(
            ERC3643Error::ZeroAddressNotAllowed,
        ),
        config.owner@ == owner@ && issuer@ != zero_bytes() && !lists_issuer(
            old(trusted_issuers).issuers@,
            issuer@,
        ) ==> r == Err::<(), ERC3643Error>(ERC3643Error::TrustedIssuerNotFound),
        r is Ok <==> config.owner@ == owner@ && issuer@ != zero_bytes() && lists_issuer(
            old(trusted_issuers).issuers@,
            issuer@,
        ),
        r is Err ==> *final(trusted_issuers) == *old(trusted_issuers),
        r is Ok ==> final(trusted_issuers).issuers@ == old(trusted_issuers).issuers@.remove(
            issuer_position(old(trusted_issuers).issuers@, issuer@),
        ),
        old(trusted_issuers).wf() ==> final(trusted_issuers).wf(),
{
    require_owner(config, &owner)?;
    validate_pubkey(&issuer)?;
    trusted_issuers.remove_issuer(issuer, now)
}

/// Gives a freeze record that was never used (its user is the null sentinel)
/// its party and token.
fn claim_record(record: &mut FrozenAccount, user: Address, mint: Address)
    ensures
        old(record).user@ == zero_bytes() ==> {
            &&& final(record).user == user
            &&& final(record).mint == mint
            &&& !final(record).is_frozen
            &&& final(record).frozen_amount == 0
            &&& final(record).frozen_at == 0
            &&& final(record).frozen_by@ == zero_bytes()
        },
        old(record).user@ != zero_bytes() ==> *final(record) == *old(record),
{
    if record.user.is_zero() {
        record.user = user;
        record.mint = mint;
        record.is_frozen = false;
        record.frozen_amount = 0;
        record.frozen_at = 0;
        record.frozen_by = Address::zero();
    }
}

/// Sets or clears the full freeze of `user`, on behalf of the owner or an
/// agent (`AgentRoleRequired`). A record never used before is first given
/// its party and token.
pub fn set_address_frozen(
    config: &TokenConfig,
    agent: Address,
    record: &mut FrozenAccount,
    mint: Address,
    user: Address,
    frozen: bool,
    now: i64,
) -> (r: Result<(), ERC3643Error>)
    ensures
        r is Ok <==> config.has_role(agent),
        r is Err ==> r == Err::<(), ERC3643Error>(ERC3643Error::AgentRoleRequired) && *final(record)
            == *old(record),
        r is Ok ==> {
            &&& final(record).is_frozen == frozen
            &&& final(record).frozen_at == now
            &&& final(record).frozen_by == agent
            &&& final(record).frozen_amount == if old(record).user@ == zero_bytes() {
                0
            } else {
                old(record).frozen_amount
            }
            &&& final(record).user == if old(record).user@ == zero_bytes() {
                user
            } else {
                old(record).user
            }
        },
{
    require_agent(config, &agent)?;
    claim_record(record, user, mint);
    record.set_frozen(frozen, agent, now);
    Ok(())
}

/// Freezes `amount` more tokens of `user`, on behalf of the owner or an agent
/// (`AgentRoleRequired`). A zero amount fails with `InvalidAmount`, a total
/// beyond the 64-bit range with `ArithmeticOverflow`. On failure nothing
/// changes.
pub fn freeze_partial_tokens(
    config: &TokenConfig,
    agent: Address,
    record: &mut FrozenAccount,
    mint: Address,
    user: Address,
    amount: u64,
    now: i64,
) -> (r: Result<(), ERC3643Error>)
    ensures
        ({
            let before = if old(record).user@ == zero_bytes() {
                0
            } else {
                old(record).frozen_amount as int
            };
            &&& !config.has_role(agent) ==> r == Err::<(), ERC3643Error>(
                ERC3643Error::AgentRoleRequired,
            )
            &&& config.has_role(agent) && amount == 0 ==> r == Err::<(), ERC3643Error>(
                ERC3643Error::InvalidAmount,
            )
            &&& config.has_role(agent) && amount > 0 && before + amount > u64::MAX ==> r == Err::<
                (),
                ERC3643Error,
            >(ERC3643Error::ArithmeticOverflow)
            &&& r is Ok <==> config.has_role(agent) && amount > 0 && before + amount <= u64::MAX
            &&& r is Err ==> *final(record) == *old(record)
            &&& r is Ok ==> final(record).frozen_amount == before + amount && final(record).frozen_at
                == now && final(record).frozen_by == agent && final(record).is_frozen == (old(
                record,
            ).user@ != zero_bytes() && old(record).is_frozen)
        }),
{
    require_agent(config, &agent)?;
    validate_amount(amount)?;
    if !record.user.is_zero() && record.frozen_amount.checked_add(amount).is_none() {
        return Err(ERC3643Error::ArithmeticOverflow);
    }
    claim_record(record, user, mint);
    record.freeze_tokens(amount, agent, now)
}

/// Unfreezes `amount` tokens of `user`, on behalf of the owner or an agent
/// (`AgentRoleRequired`). A zero amount fails with `InvalidAmount`, more than
/// is frozen with `InsufficientFrozenTokens`. On failure nothing changes.
pub fn unfreeze_partial_tokens(
    config: &TokenConfig,
    agent: Address,
    record: &mut FrozenAccount,
    user: Address,
    amount: u64,
    now: i64,
) -> (r: Result<(), ERC3643Error>)
    ensures
        !config.has_role(agent) ==> r == Err::<(), ERC3643Error>(ERC3643Error::AgentRoleRequired),
        config.has_role(agent) && amount == 0 ==> r == Err::<(), ERC3643Error>(
            ERC3643Error::InvalidAmount,
        ),
        config.has_role(agent) && amount > 0 && amount > old(record).frozen_amount ==> r == Err::<
            (),
            ERC3643Error,
        >(ERC3643Error::InsufficientFrozenTokens),
        r is Ok <==> config.has_role(agent) && 0 < amount <= old(record).frozen_amount,
        r is Err ==> *final(record) == *old(record),
        r is Ok ==> *final(record) == (FrozenAccount {
            frozen_amount: (old(record).frozen_amount - amount) as u64,
            frozen_at: now,
            frozen_by: agent,
            ..*old(record)
        }),
{
    require_agent(config, &agent)?;
    validate_amount(amount)?;
    record.unfreeze_tokens(amount, agent, now)
}

/// Pauses or unpauses the token, on behalf of the owner or an agent
/// (`AgentRoleRequired`).
pub fn set_pause_status(config: &mut TokenConfig, agent: Address, paused: bool, now: i64) -> (r:
    Result<(), ERC3643Error>)
    ensures
        r is Ok <==> old(config).has_role(agent),
        r is Err ==> r == Err::<(), ERC3643Error>(ERC3643Error::AgentRoleRequired) && *final(config)
            == *old(config),
        r is Ok ==> *final(config) == (TokenConfig { paused, updated_at: now, ..*old(config) }),
        old(config).wf() ==> final(config).wf(),
{
    require_agent(config, &agent)?;
    config.set_paused(paused, now);
    Ok(())
}

/// Adds a mandatory topic, on behalf of the owner (`OwnerRoleRequired`); then
/// `ClaimTopicsRegistry::add_topic` decides. On failure nothing changes.
pub fn add_claim_topic(
    config: &TokenConfig,
    owner: Address,
    claim_topics: &mut ClaimTopicsRegistry,
    topic: u64,
    now: i64,
) -> (r: Result<(), ERC3643Error>)
    ensures
        config.owner@ != owner@ ==> r == Err::<(), ERC3643Error>(ERC3643Error::OwnerRoleRequired),
        config.owner@ == owner@ ==> r == add_topic_check(old(claim_topics).required_topics@, topic),
        r is Err ==> *final(claim_topics) == *old(claim_topics),
        r is Ok ==> final(claim_topics).required_topics@ == old(claim_topics).required_topics@.push(
            topic,
        ),
        old(claim_topics).wf() ==> final(claim_topics).wf(),
{
    require_owner(config, &owner)?;
    claim_topics.add_topic(topic, now)
}

/// Removes a mandatory topic, on behalf of the owner (`OwnerRoleRequired`);
/// an absent topic fails with `ClaimTopicNotFound`. On failure nothing
/// changes.
pub fn remove_claim_topic(
    config: &TokenConfig,
    owner: Address,
    claim_topics: &mut ClaimTopicsRegistry,
    topic: u64,
    now: i64,
) -> (r: Result<(), ERC3643Error>)
    ensures
        config.owner@ != owner@ ==> r == Err::<(), ERC3643Error>(ERC3643Error::OwnerRoleRequired),
        config.owner@ == owner@ && !old(claim_topics).required_topics@.contains(topic) ==> r
            == Err::<(), ERC3643Error>(ERC3643Error::ClaimTopicNotFound),
        r is Ok <==> config.owner@ == owner@ && old(claim_topics).required_topics@.contains(topic),
        r is Err ==> *final(claim_topics) == *old(claim_topics),
        r is Ok ==> final(claim_topics).required_topics@ == old(
            claim_topics,
        ).required_topics@.remove(topic_position(old(claim_topics).required_topics@, topic)),
        old(claim_topics).wf() ==> final(claim_topics).wf(),
{
    require_owner(config, &owner)?;
    claim_topics.remove_topic(topic, now)
}

/// Adds an agent, on behalf of the owner (`OwnerRoleRequired`). The null
/// sentinel fails with `ZeroAddressNotAllowed`; then `TokenConfig::add_agent`
/// decides. On failure nothing changes.
pub fn add_agent(config: &mut TokenConfig, owner: Address, agent: Address, now: i64) -> (r: Result<
    (),
    ERC3643Error,
>)
    ensures
        old(config).owner@ != owner@ ==> r == Err::<(), ERC3643Error>(
            ERC3643Error::OwnerRoleRequired,
        ),
        old(config).owner@ == owner@ && agent@ == zero_bytes() ==> r == Err::<(), ERC3643Error>(
            ERC3643Error::ZeroAddressNotAllowed,
        ),
        old(config).owner@ == owner@ && agent@ != zero_bytes() && address_listed(
            old(config).agents@,
            agent,
        ) ==> r == Err::<(), ERC3643Error>(ERC3643Error::InvalidArgument),
        r is Ok <==> old(config).owner@ == owner@ && agent@ != zero_bytes() && !address_listed(
            old(config).agents@,
            agent,
        ) && old(config).agents@.len() < 10,
        r is Err ==> *final(config) == *old(config),
        r is Ok ==> final(config).agents@ == old(config).agents@.push(agent) && *final(config) == (
        TokenConfig { agents: final(config).agents, updated_at: now, ..*old(config) }),
        old(config).wf() ==> final(config).wf(),
{
    require_owner(config, &owner)?;
    validate_pubkey(&agent)?;
    config.add_agent(agent, now)
}

/// Removes an agent, on behalf of the owner (`OwnerRoleRequired`). The null
/// sentinel fails with `ZeroAddressNotAllowed`, a non-agent with
/// `InvalidArgument`. On failure nothing changes.
pub fn remove_agent(config: &mut TokenConfig, owner: Address, agent: Address, now: i64) -> (r:
    Result<(), ERC3643Error>)
    ensures
        old(config).owner@ != owner@ ==> r == Err::<(), ERC3643Error>(
            ERC3643Error::OwnerRoleRequired,
        ),
        old(config).owner@ == owner@ && agent@ == zero_bytes() ==> r == Err::<(), ERC3643Error>(
            ERC3643Error::ZeroAddressNotAllowed,
        ),
        r is Ok <==> old(config).owner@ == owner@ && agent@ != zero_bytes() && address_listed(
            old(config).agents@,
            agent,
        ),
        r is Err ==> *final(config) == *old(config),
        r is Ok ==> final(config).agents@ == old(config).agents@.remove(
            address_position(old(config).agents@, agent@),
        ) && *final(config) == (TokenConfig {
            agents: final(config).agents,
            updated_at: now,
            ..*old(config)
        }),
        old(config).wf() ==> final(config).wf(),
{
    require_owner(config, &owner)?;
    validate_pubkey(&agent)?;
    config.remove_agent(agent, now)
}

/// Hands ownership to `new_owner`, on behalf of the current owner
/// (`OwnerRoleRequired`). The null sentinel fails with
/// `ZeroAddressNotAllowed`, the current owner with `InvalidArgument`. On
/// failure nothing changes.
pub fn transfer_ownership(config: &mut TokenConfig, owner: Address, new_owner: Address, now: i64) -> (r:
    Result<(), ERC3643Error>)
    ensures
        old(config).owner@ != owner@ ==> r == Err::<(), ERC3643Error>(
            ERC3643Error::OwnerRoleRequired,
        ),
        old(config).owner@ == owner@ && new_owner@ == zero_bytes() ==> r == Err::<
            (),
            ERC3643Error,
        >(ERC3643Error::ZeroAddressNotAllowed),
        old(config).owner@ == owner@ && new_owner@ != zero_bytes() && new_owner@ == owner@ ==> r
            == Err::<(), ERC3643Error>(ERC3643Error::InvalidArgument),
        r is Ok <==> old(config).owner@ == owner@ && new_owner@ != zero_bytes() && new_owner@
            != owner@,
        r is Err ==> *final(config) == *old(config),
        r is Ok ==> *final(config) == (TokenConfig {
            owner: new_owner,
            updated_at: now,
            ..*old(config)
        }),
        old(config).wf() ==> final(config).wf(),
{
    require_owner(config, &owner)?;
    validate_pubkey(&new_owner)?;
    if new_owner.same_as(&owner) {
        return Err(ERC3643Error::InvalidArgument);
    }
    config.owner = new_owner;
    config.updated_at = now;
    Ok(())
}

} // verus!
