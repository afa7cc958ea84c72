//! Mint, burn, forced transfer and recovery: the checks and bookkeeping that
//! precede settlement on the ledger.

use vstd::prelude::*;

use crate::address::{zero_bytes, Address};
use crate::compliance::{compliance_denial, ComplianceRegistry};
use crate::config::{FrozenAccount, TokenConfig};
use crate::error::ERC3643Error;
use crate::identity::IdentityRegistry;
use crate::utils::{validate_amount, validate_pubkey};

verus! {

/// The part of `balance` not covered by `frozen`, or zero.
pub open spec fn free_balance(balance: u64, frozen: u64) -> int {
    if balance >= frozen {
        balance - frozen
    } else {
        0
    }
}

/// How much must be unfrozen before `amount` can leave `balance` of which
/// `frozen` is frozen.
pub open spec fn unfreeze_needed(balance: u64, frozen: u64, amount: u64) -> int {
    if amount > free_balance(balance, frozen) {
        amount - free_balance(balance, frozen)
    } else {
        0
    }
}

/// Unfreezes what moving `amount` out of `balance` needs, and returns it.
fn release_for_debit(record: &mut FrozenAccount, balance: u64, amount: u64, agent: Address, now: i64) -> (r: Result<u64, ERC3643Error>)
    requires
        amount <= balance,
    ensures
        r is Ok,
        r->Ok_0 == unfreeze_needed(balance, old(record).frozen_amount, amount),
        r->Ok_0 == 0 ==> *final(record) == *old(record),
        r->Ok_0 > 0 ==> *final(record) == (FrozenAccount {
            frozen_amount: (old(record).frozen_amount - r->Ok_0) as u64,
            frozen_at: now,
            frozen_by: agent,
            ..*old(record)
        }),
{
    let free: u64 = if balance >= record.frozen_amount {
        balance - record.frozen_amount
    } else {
        0
    };
    if amount > free {
        let needed: u64 = amount - free;
        record.unfreeze_tokens(needed, agent, now)?;
        Ok(needed)
    } else {
        Ok(0)
    }
}

/// Why minting `amount` to the party of `identity` is rejected, if it is.
pub open spec fn mint_check(
    config: TokenConfig,
    agent: Address,
    identity: IdentityRegistry,
    compliance: ComplianceRegistry,
    to_balance: u64,
    amount: u64,
    now: i64,
) -> Result<(), ERC3643Error> {
    if !config.has_role(agent) {
        Err(ERC3643Error::AgentRoleRequired)
    } else if !identity.is_verified {
        Err(ERC3643Error::IdentityNotVerified)
    } else if amount == 0 {
        Err(ERC3643Error::InvalidAmount)
    } else if config.paused {
        Err(ERC3643Error::TokenPaused)
    } else if compliance_denial(
        compliance,
        zero_bytes(),
        amount,
        to_balance,
        0,
        identity.country,
        now,
    ) is Some {
        Err(ERC3643Error::TransferNotCompliant)
    } else if config.total_supply + amount > u64::MAX {
        Err(ERC3643Error::ArithmeticOverflow)
    } else {
        Ok(())
    }
}

/// Authorizes minting `amount` to `to_owner`, whose identity record is
/// `identity` and whose balance is `to_balance`, and adds it to the supply.
///
/// The caller must be the owner or an agent; the recipient verified; the
/// amount non-zero; the token unpaused; the rules must allow a transfer from
/// the null sentinel (country 0, balance 0); the supply must not overflow. On
/// failure nothing changes.
pub fn mint_tokens(
    config: &mut TokenConfig,
    agent: Address,
    identity: &IdentityRegistry,
    compliance: &ComplianceRegistry,
    to_owner: Address,
    to_balance: u64,
    amount: u64,
    now: i64,
) -> (r: Result<(), ERC3643Error>)
    ensures
        r == mint_check(*old(config), agent, *identity, *compliance, to_balance, amount, now),
        r is Err ==> *final(config) == *old(config),
        r is Ok ==> *final(config) == (TokenConfig {
            total_supply: (old(config).total_supply + amount) as u64,
            updated_at: now,
            ..*old(config)
        }),
        old(config).wf() ==> final(config).wf(),
{
    if !config.has_agent_or_owner_role(&agent) {
        return Err(ERC3643Error::AgentRoleRequired);
    }
    if !identity.is_verified {
        return Err(ERC3643Error::IdentityNotVerified);
    }
    validate_amount(amount)?;
    if config.paused {
        return Err(ERC3643Error::TokenPaused);
    }
    let from = Address::zero();
    let result = compliance.check_transfer_compliance(
        &from,
        &to_owner,
        amount,
        0,
        to_balance,
        0,
        identity.country,
        now,
    );
    if !result.allowed {
        return Err(ERC3643Error::TransferNotCompliant);
    }
    let new_supply = match config.total_supply.checked_add(amount) {
        Some(s) => s,
        None => {
            return Err(ERC3643Error::ArithmeticOverflow);
        },
    };
    config.update_total_supply(new_supply, now);
    Ok(())
}

/// Why debiting `amount` from a holder is rejected, if it is.
pub open spec fn debit_check(config: TokenConfig, balance: u64, amount: u64) -> Result<(), ERC3643Error> {
    if amount == 0 {
        Err(ERC3643Error::InvalidAmount)
    } else if config.paused {
        Err(ERC3643Error::TokenPaused)
    } else if balance < amount {
        Err(ERC3643Error::InsufficientBalance)
    } else {
        Ok(())
    }
}

/// Authorizes burning `amount` of a holder's `from_balance`, on behalf of the
/// owner or an agent, and takes it off the supply. Frozen tokens that the
/// burn needs are unfrozen first; the amount unfrozen is returned.
///
/// Fails with `AgentRoleRequired`, `InvalidAmount` (zero), `TokenPaused`,
/// `InsufficientBalance`, or `ArithmeticUnderflow` (more than the supply). On
/// failure nothing changes.
pub fn burn_tokens(
    config: &mut TokenConfig,
    agent: Address,
    from_balance: u64,
    frozen: &mut FrozenAccount,
    amount: u64,
    now: i64,
) -> (r: Result<u64, ERC3643Error>)
    ensures
        !old(config).has_role(agent) ==> r == Err::<u64, ERC3643Error>(
            ERC3643Error::AgentRoleRequired,
        ),
        old(config).has_role(agent) && debit_check(*old(config), from_balance, amount) is Err ==> r
            == Err::<u64, ERC3643Error>(debit_check(*old(config), from_balance, amount)->Err_0),
        old(config).has_role(agent) && debit_check(*old(config), from_balance, amount) is Ok
            && old(config).total_supply < amount ==> r == Err::<u64, ERC3643Error>(
            ERC3643Error::ArithmeticUnderflow,
        ),
        r is Ok <==> old(config).has_role(agent) && debit_check(*old(config), from_balance, amount)
            is Ok && amount <= old(config).total_supply,
        r is Err ==> *final(config) == *old(config) && *final(frozen) == *old(frozen),
        r matches Ok(unfrozen) ==> {
            &&& unfrozen == unfreeze_needed(from_balance, old(frozen).frozen_amount, amount)
            &&& final(frozen).frozen_amount == old(frozen).frozen_amount - unfrozen
            &&& unfrozen > 0 ==> *final(frozen) == (FrozenAccount {
                frozen_amount: (old(frozen).frozen_amount - unfrozen) as u64,
                frozen_at: now,
                frozen_by: agent,
                ..*old(frozen)
            })
            &&& old(frozen).frozen_amount <= from_balance ==> free_balance(
                from_balance,
                final(frozen).frozen_amount,
            ) >= amount
            &&& unfrozen == 0 ==> *final(frozen) == *old(frozen)
            &&& *final(config) == (TokenConfig {
                total_supply: (old(config).total_supply - amount) as u64,
                updated_at: now,
                ..*old(config)
            })
        },
        old(config).wf() ==> final(config).wf(),
{
    if !config.has_agent_or_owner_role(&agent) {
        return Err(ERC3643Error::AgentRoleRequired);
    }
    validate_amount(amount)?;
    if config.paused {
        return Err(ERC3643Error::TokenPaused);
    }
    if from_balance < amount {
        return Err(ERC3643Error::InsufficientBalance);
    }
    let new_supply = match config.total_supply.checked_sub(amount) {
        Some(s) => s,
        None => {
            return Err(ERC3643Error::ArithmeticUnderflow);
        },
    };
    let unfrozen = release_for_debit(frozen, from_balance, amount, agent, now)?;
    config.update_total_supply(new_supply, now);
    Ok(unfrozen)
}

/// Why a forced transfer is rejected, if it is.
pub open spec fn forced_transfer_check(
    config: TokenConfig,
    agent: Address,
    to_identity: IdentityRegistry,
    from_balance: u64,
    amount: u64,
) -> Result<(), ERC3643Error> {
    if !config.has_role(agent) {
        Err(ERC3643Error::AgentRoleRequired)
    } else if !config.allow_forced_transfers {
        Err(ERC3643Error::Unauthorized)
    } else if !to_identity.is_verified {
        Err(ERC3643Error::IdentityNotVerified)
    } else {
        debit_check(config, from_balance, amount)
    }
}

/// Authorizes an agent's forced transfer of `amount` out of `from_balance`
/// to a verified recipient, unfreezing first what the move needs; returns
/// the amount unfrozen. On failure nothing changes.
pub fn forced_transfer(
    config: &TokenConfig,
    agent: Address,
    to_identity: &IdentityRegistry,
    from_balance: u64,
    from_frozen: &mut FrozenAccount,
    amount: u64,
    now: i64,
) -> (r: Result<u64, ERC3643Error>)
    ensures
        ({
            let check = forced_transfer_check(*config, agent, *to_identity, from_balance, amount);
            &&& r is Ok <==> check is Ok
            &&& r matches Err(e) ==> check == Err::<(), ERC3643Error>(e) && *final(from_frozen)
                == *old(from_frozen)
        }),
        r matches Ok(unfrozen) ==> {
            &&& unfrozen == unfreeze_needed(from_balance, old(from_frozen).frozen_amount, amount)
            &&& final(from_frozen).frozen_amount == old(from_frozen).frozen_amount - unfrozen
            &&& unfrozen > 0 ==> *final(from_frozen) == (FrozenAccount {
                frozen_amount: (old(from_frozen).frozen_amount - unfrozen) as u64,
                frozen_at: now,
                frozen_by: agent,
                ..*old(from_frozen)
            })
            &&& old(from_frozen).frozen_amount <= from_balance ==> free_balance(
                from_balance,
                final(from_frozen).frozen_amount,
            ) >= amount
            &&& unfrozen == 0 ==> *final(from_frozen) == *old(from_frozen)
        },
{
    if !config.has_agent_or_owner_role(&agent) {
        return Err(ERC3643Error::AgentRoleRequired);
    }
    if !config.allow_forced_transfers {
        return Err(ERC3643Error::Unauthorized);
    }
    if !to_identity.is_verified {
        return Err(ERC3643Error::IdentityNotVerified);
    }
    validate_amount(amount)?;
    if config.paused {
        return Err(ERC3643Error::TokenPaused);
    }
    if from_balance < amount {
        return Err(ERC3643Error::InsufficientBalance);
    }
    release_for_debit(from_frozen, from_balance, amount, agent, now)
}

/// Why a recovery is rejected, if it is.
pub open spec fn recovery_check(
    config: TokenConfig,
    agent: Address,
    identity: IdentityRegistry,
    lost_wallet: Address,
    new_wallet: Address,
    investor_identity: Address,
    lost_owner: Address,
    new_owner: Address,
) -> Result<(), ERC3643Error> {
    if !config.has_role(agent) {
        Err(ERC3643Error::AgentRoleRequired)
    } else if !config.enable_recovery {
        Err(ERC3643Error::RecoveryNotAllowed)
    } else if !identity.is_verified {
        Err(ERC3643Error::IdentityNotVerified)
    } else if lost_wallet@ == zero_bytes() || new_wallet@ == zero_bytes() || investor_identity@
        == zero_bytes() {
        Err(ERC3643Error::ZeroAddressNotAllowed)
    } else if lost_wallet@ == new_wallet@ {
        Err(ERC3643Error::SameWalletRecovery)
    } else if config.paused {
        Err(ERC3643Error::TokenPaused)
    } else if lost_owner@ != lost_wallet@ || new_owner@ != new_wallet@ {
        Err(ERC3643Error::InvalidArgument)
    } else {
        Ok(())
    }
}

/// Authorizes recovering the holdings of `lost_wallet` into `new_wallet` for
/// the same verified investor. Every frozen token of the lost wallet is
/// unfrozen. Returns the amount to move (`lost_balance`) and the amount
/// unfrozen. `lost_owner` and `new_owner` are the owners of the two token
/// accounts and must match the wallets. On failure nothing changes.
pub fn recovery_address(
    config: &TokenConfig,
    agent: Address,
    identity: &IdentityRegistry,
    lost_wallet: Address,
    new_wallet: Address,
    investor_identity: Address,
    lost_owner: Address,
    new_owner: Address,
    lost_balance: u64,
    lost_frozen: &mut FrozenAccount,
    now: i64,
) -> (r: Result<(u64, u64), ERC3643Error>)
    ensures
        ({
            let check = recovery_check(
                *config,
                agent,
                *identity,
                lost_wallet,
                new_wallet,
                investor_identity,
                lost_owner,
                new_owner,
            );
            &&& r is Ok <==> check is Ok
            &&& r matches Err(e) ==> check == Err::<(), ERC3643Error>(e) && *final(lost_frozen)
                == *old(lost_frozen)
        }),
        r matches Ok((amount, unfrozen)) ==> {
            &&& amount == lost_balance
            &&& unfrozen == old(lost_frozen).frozen_amount
            &&& final(lost_frozen).frozen_amount == 0
            &&& unfrozen > 0 ==> *final(lost_frozen) == (FrozenAccount {
                frozen_amount: 0,
                frozen_at: now,
                frozen_by: agent,
                ..*old(lost_frozen)
            })
            &&& unfrozen == 0 ==> *final(lost_frozen) == *old(lost_frozen)
        },
{
    if !config.has_agent_or_owner_role(&agent) {
        return Err(ERC3643Error::AgentRoleRequired);
    }
    if !config.enable_recovery {
        return Err(ERC3643Error::RecoveryNotAllowed);
    }
    if !identity.is_verified {
        return Err(ERC3643Error::IdentityNotVerified);
    }
    validate_pubkey(&lost_wallet)?;
    validate_pubkey(&new_wallet)?;
    validate_pubkey(&investor_identity)?;
    if lost_wallet.same_as(&new_wallet) {
        return Err(ERC3643Error::SameWalletRecovery);
    }
    if config.paused {
        return Err(ERC3643Error::TokenPaused);
    }
    if !lost_owner.same_as(&lost_wallet) || !new_owner.same_as(&new_wallet) {
        return Err(ERC3643Error::InvalidArgument);
    }
    let frozen_amount = lost_frozen.frozen_amount;
    if frozen_amount > 0 {
        lost_frozen.unfreeze_tokens(frozen_amount, agent, now)?;
    }
    Ok((lost_balance, frozen_amount))
}

} // verus!
