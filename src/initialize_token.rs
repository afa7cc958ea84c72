//! Token set-up and the choice of enforcement mode.

use vstd::prelude::*;

use crate::address::Address;
use crate::compliance::{ComplianceRegistry, HoldingLimits, TransferLimits};
use crate::config::{needs_hook, EnforcementMode, TokenConfig, TOKEN_VERSION};
use crate::error::ERC3643Error;
use crate::identity::{ClaimTopicsRegistry, TrustedIssuersRegistry};
use crate::utils::{
    string_length_check, validate_amount, validate_decimals, validate_string_length,
    MAX_NAME_LENGTH, MAX_SYMBOL_LENGTH,
};

verus! {

/// The records of a newly set-up token.
#[derive(Clone, Debug)]
pub struct TokenSetup {
    pub config: TokenConfig,
    pub trusted_issuers: TrustedIssuersRegistry,
    pub claim_topics: ClaimTopicsRegistry,
    pub compliance: ComplianceRegistry,
}

/// Why setting up a token is rejected, if it is.
pub open spec fn setup_check(
    name: Seq<char>,
    symbol: Seq<char>,
    decimals: u8,
    initial_supply: Option<u64>,
) -> Result<(), ERC3643Error> {
    if string_length_check(name, MAX_NAME_LENGTH, ERC3643Error::NameTooLong) is Err {
        string_length_check(name, MAX_NAME_LENGTH, ERC3643Error::NameTooLong)
    } else if string_length_check(symbol, MAX_SYMBOL_LENGTH, ERC3643Error::SymbolTooLong) is Err {
        string_length_check(symbol, MAX_SYMBOL_LENGTH, ERC3643Error::SymbolTooLong)
    } else if decimals > 18 {
        Err(ERC3643Error::InvalidDecimals)
    } else if initial_supply == Some(0u64) {
        Err(ERC3643Error::InvalidAmount)
    } else {
        Ok(())
    }
}

/// Sets up a token owned by `owner` at `now`: paused, engine-controlled,
/// without agents, issuers, mandatory topics or rules, and with
/// `initial_supply` (if any) as its supply.
///
/// A name over 32 bytes fails with `NameTooLong`, a symbol over 10 bytes with
/// `SymbolTooLong`, an empty one with `InvalidArgument`, more than 18
/// decimals with `InvalidDecimals`, a zero initial supply with
/// `InvalidAmount`.
pub fn handler(
    name: String,
    symbol: String,
    decimals: u8,
    initial_supply: Option<u64>,
    mint: Address,
    owner: Address,
    now: i64,
) -> (r: Result<TokenSetup, ERC3643Error>)
    ensures
        r is Ok <==> setup_check(name@, symbol@, decimals, initial_supply) is Ok,
        r matches Err(e) ==> setup_check(name@, symbol@, decimals, initial_supply) == Err::<
            (),
            ERC3643Error,
        >(e),
        r matches Ok(s) ==> {
            let c = s.config;
            &&& c.mint == mint && c.owner == owner && c.name@ == name@ && c.symbol@ == symbol@
            &&& c.decimals == decimals
            &&& c.version@ == TOKEN_VERSION@
            &&& c.agents@.len() == 0
            &&& c.transfer_hook_program is None
            &&& c.enforcement_mode == EnforcementMode::ProgramControlled
            &&& c.paused
            &&& c.total_supply == match initial_supply {
                Some(v) => v,
                None => 0,
            }
            &&& c.require_identity_verification && c.allow_forced_transfers && c.enable_recovery
            &&& c.max_holders is None && c.min_holding is None && c.max_holding is None
            &&& c.created_at == now && c.updated_at == now
            &&& c.wf()
            &&& s.trusted_issuers.mint == mint && s.trusted_issuers.issuers@.len() == 0
            &&& s.trusted_issuers.wf()
            &&& s.claim_topics.mint == mint && s.claim_topics.required_topics@.len() == 0
            &&& s.claim_topics.wf()
            &&& s.compliance.mint == mint
            &&& s.compliance.modules@.len() == 0
            &&& s.compliance.country_restrictions@.len() == 0
            &&& s.compliance.lock_periods@.len() == 0
            &&& s.compliance.trading_windows@.len() == 0
            &&& s.compliance.transfer_limits.min_transfer_amount is None
            &&& s.compliance.transfer_limits.max_transfer_amount is None
            &&& s.compliance.transfer_limits.reset_period == 86400
            &&& s.compliance.holding_limits.min_holding_amount is None
            &&& s.compliance.holding_limits.max_holding_amount is None
            &&& s.compliance.max_investors is None && s.compliance.current_investors == 0
            &&& s.compliance.require_kyc && s.compliance.require_aml
            &&& !s.compliance.require_whitelist && !s.compliance.enable_blacklist
        },
{
    validate_string_length(name.as_str(), MAX_NAME_LENGTH, ERC3643Error::NameTooLong)?;
    validate_string_length(symbol.as_str(), MAX_SYMBOL_LENGTH, ERC3643Error::SymbolTooLong)?;
    validate_decimals(decimals)?;
    let total_supply: u64 = match initial_supply {
        Some(supply) => {
            validate_amount(supply)?;
            supply
        },
        None => 0,
    };
    let config = TokenConfig {
        mint,
        name,
        symbol,
        decimals,
        version: String::from_str(TOKEN_VERSION),
        onchain_id: Address::zero(),
        owner,
        agents: Vec::new(),
        transfer_hook_program: None,
        enforcement_mode: EnforcementMode::ProgramControlled,
        paused: true,
        total_supply,
        require_identity_verification: true,
        allow_forced_transfers: true,
        enable_recovery: true,
        max_holders: None,
        min_holding: None,
        max_holding: None,
        created_at: now,
        updated_at: now,
    };
    let trusted_issuers = TrustedIssuersRegistry {
        mint,
        issuers: Vec::new(),
        created_at: now,
        updated_at: now,
    };
    let claim_topics = ClaimTopicsRegistry {
        mint,
        required_topics: Vec::new(),
        created_at: now,
        updated_at: now,
    };
    let compliance = ComplianceRegistry {
        mint,
        modules: Vec::new(),
        country_restrictions: Vec::new(),
        transfer_limits: TransferLimits {
            min_transfer_amount: None,
            max_transfer_amount: None,
            daily_limit: None,
            monthly_limit: None,
            reset_period: 86400,
        },
        holding_limits: HoldingLimits {
            min_holding_amount: None,
            max_holding_amount: None,
            max_holding_percentage: None,
        },
        lock_periods: Vec::new(),
        trading_windows: Vec::new(),
        max_investors: None,
        current_investors: 0,
        require_whitelist: false,
        enable_blacklist: false,
        require_kyc: true,
        require_aml: true,
        created_at: now,
        updated_at: now,
    };
    Ok(TokenSetup { config, trusted_issuers, claim_topics, compliance })
}

/// Delegates enforcement to the hook `hook_program`, on behalf of the owner
/// (`Unauthorized` otherwise).
pub fn set_transfer_hook(config: &mut TokenConfig, owner: Address, hook_program: Address, now: i64) -> (r:
    Result<(), ERC3643Error>)
    ensures
        r is Ok <==> old(config).owner@ == owner@,
        r is Err ==> r == Err::<(), ERC3643Error>(ERC3643Error::Unauthorized) && *final(config)
            == *old(config),
        r is Ok ==> *final(config) == (TokenConfig {
            transfer_hook_program: Some(hook_program),
            enforcement_mode: EnforcementMode::TransferHook,
            updated_at: now,
            ..*old(config)
        }),
        old(config).wf() ==> final(config).wf(),
{
    if !config.is_owner(&owner) {
        return Err(ERC3643Error::Unauthorized);
    }
    config.transfer_hook_program = Some(hook_program);
    config.enforcement_mode = EnforcementMode::TransferHook;
    config.updated_at = now;
    Ok(())
}

/// Chooses the enforcement mode, on behalf of the owner (`Unauthorized`
/// otherwise). Hook-delegated and hybrid modes need a configured hook
/// (`TransferHookNotConfigured`). On failure nothing changes.
pub fn set_enforcement_mode(config: &mut TokenConfig, owner: Address, mode: EnforcementMode, now: i64) -> (r:
    Result<(), ERC3643Error>)
    ensures
        old(config).owner@ != owner@ ==> r == Err::<(), ERC3643Error>(ERC3643Error::Unauthorized),
        old(config).owner@ == owner@ && needs_hook(mode) && old(config).transfer_hook_program is None
            ==> r == Err::<(), ERC3643Error>(ERC3643Error::TransferHookNotConfigured),
        r is Ok <==> old(config).owner@ == owner@ && (needs_hook(mode) ==> old(
            config,
        ).transfer_hook_program is Some),
        r is Err ==> *final(config) == *old(config),
        r is Ok ==> *final(config) == (TokenConfig {
            enforcement_mode: mode,
            updated_at: now,
            ..*old(config)
        }),
        old(config).wf() ==> final(config).wf(),
{
    if !config.is_owner(&owner) {
        return Err(ERC3643Error::Unauthorized);
    }
    match mode {
        EnforcementMode::TransferHook | EnforcementMode::Hybrid => {
            if config.transfer_hook_program.is_none() {
                return Err(ERC3643Error::TransferHookNotConfigured);
            }
        },
        EnforcementMode::ProgramControlled => {},
    }
    config.set_enforcement_mode(mode, now);
    Ok(())
}

} // verus!
