//! The per-token policy configuration and the freeze ledger.

use vstd::prelude::*;

use crate::address::{zero_bytes, Address};
use crate::error::ERC3643Error;
use crate::utils::{
    address_listed, contains_address, string_length_check, validate_decimals, validate_pubkey,
    validate_string_length, MAX_NAME_LENGTH, MAX_SYMBOL_LENGTH,
};

verus! {

/// Largest number of agents of a token.
pub const MAX_AGENTS: usize = 10;

/// Version of the configuration layout.
pub const TOKEN_VERSION: &'static str = "1.0.0";

/// Administrative roles.
#[derive(Clone, Copy, Debug, PartialEq, Eq, Structural)]
pub enum Role {
    Owner,
    Agent,
    Issuer,
    ComplianceManager,
}

/// How compliance is enforced on transfers.
#[derive(Clone, Copy, Debug, PartialEq, Eq, Structural)]
pub enum EnforcementMode {
    /// Delegated to a ledger-level transfer hook.
    TransferHook,
    /// Applied by the engine itself.
    ProgramControlled,
    /// Both.
    Hybrid,
}

/// Whether a mode needs a configured hook target.
pub open spec fn needs_hook(mode: EnforcementMode) -> bool {
    mode is TransferHook || mode is Hybrid
}

/// The configuration of one token: roles, pause flag, enforcement mode and
/// supply bookkeeping.
#[derive(Clone, Debug)]
pub struct TokenConfig {
    pub mint: Address,
    pub name: String,
    pub symbol: String,
    pub decimals: u8,
    pub version: String,
    pub onchain_id: Address,
    pub owner: Address,
    pub agents: Vec<Address>,
    pub transfer_hook_program: Option<Address>,
    pub enforcement_mode: EnforcementMode,
    pub paused: bool,
    pub total_supply: u64,
    pub require_identity_verification: bool,
    pub allow_forced_transfers: bool,
    pub enable_recovery: bool,
    pub max_holders: Option<u32>,
    pub min_holding: Option<u64>,
    pub max_holding: Option<u64>,
    pub created_at: i64,
    pub updated_at: i64,
}

/// Whether no address appears twice in `s`.
pub open spec fn addresses_unique(s: Seq<Address>) -> bool {
    forall|i: int, j: int|
        0 <= i < s.len() && 0 <= j < s.len() && i != j ==> (#[trigger] s[i])@ != (#[trigger] s[j])@
}

/// Whether `i` is the first position of `s` holding `a`.
pub open spec fn is_first_address_index(s: Seq<Address>, a: Seq<u8>, i: int) -> bool {
    &&& 0 <= i < s.len()
    &&& s[i]@ == a
    &&& forall|j: int| 0 <= j < i ==> (#[trigger] s[j])@ != a
}

/// The first position of `s` holding `a` (meaningful when listed).
pub open spec fn address_position(s: Seq<Address>, a: Seq<u8>) -> int {
    choose|i: int| is_first_address_index(s, a, i)
}

proof fn lemma_first_address_index(s: Seq<Address>, a: Seq<u8>, i: int)
    requires
        is_first_address_index(s, a, i),
    ensures
        address_position(s, a) == i,
{
    let k = address_position(s, a);
    assert(is_first_address_index(s, a, k));
    if k < i {
        assert(s[k]@ != a);
    } else if i < k {
        assert(s[i]@ != a);
    }
}

/// Why `c` is not a consistent configuration, if it is not.
pub open spec fn config_check(c: TokenConfig) -> Result<(), ERC3643Error> {
    if c.mint@ == zero_bytes() || c.owner@ == zero_bytes() {
        Err(ERC3643Error::ZeroAddressNotAllowed)
    } else if string_length_check(c.name@, MAX_NAME_LENGTH, ERC3643Error::NameTooLong) is Err {
        string_length_check(c.name@, MAX_NAME_LENGTH, ERC3643Error::NameTooLong)
    } else if string_length_check(c.symbol@, MAX_SYMBOL_LENGTH, ERC3643Error::SymbolTooLong) is Err {
        string_length_check(c.symbol@, MAX_SYMBOL_LENGTH, ERC3643Error::SymbolTooLong)
    } else if c.decimals > 18 {
        Err(ERC3643Error::InvalidDecimals)
    } else if needs_hook(c.enforcement_mode) && c.transfer_hook_program is None {
        Err(ERC3643Error::TransferHookNotConfigured)
    } else {
        Ok(())
    }
}

/// Why new metadata is rejected, if it is.
pub open spec fn metadata_check(name: Option<Seq<char>>, symbol: Option<Seq<char>>) -> Result<
    (),
    ERC3643Error,
> {
    if name matches Some(n) && string_length_check(n, MAX_NAME_LENGTH, ERC3643Error::NameTooLong) is Err {
        string_length_check(name->0, MAX_NAME_LENGTH, ERC3643Error::NameTooLong)
    } else if symbol matches Some(s) && string_length_check(
        s,
        MAX_SYMBOL_LENGTH,
        ERC3643Error::SymbolTooLong,
    ) is Err {
        string_length_check(symbol->0, MAX_SYMBOL_LENGTH, ERC3643Error::SymbolTooLong)
    } else {
        Ok(())
    }
}

impl TokenConfig {
    /// The configuration's invariant: at most 10 agents, none twice, and a
    /// hook target wherever the enforcement mode delegates to one.
    pub open spec fn wf(&self) -> bool {
        &&& self.agents@.len() <= MAX_AGENTS
        &&& addresses_unique(self.agents@)
        &&& needs_hook(self.enforcement_mode) ==> self.transfer_hook_program is Some
    }

    /// Whether `pubkey` is the owner or one of the agents.
    pub open spec fn has_role(&self, pubkey: Address) -> bool {
        self.owner@ == pubkey@ || address_listed(self.agents@, pubkey)
    }

    /// Whether `pubkey` is the owner.
    pub fn is_owner(&self, pubkey: &Address) -> (r: bool)
        ensures
            r == (self.owner@ == pubkey@),
    {
        self.owner.same_as(pubkey)
    }

    /// Whether `pubkey` is one of the agents.
    pub fn is_agent(&self, pubkey: &Address) -> (r: bool)
        ensures
            r == address_listed(self.agents@, *pubkey),
    {
        contains_address(&self.agents, pubkey)
    }

    /// Whether `pubkey` is the owner or one of the agents.
    pub fn has_agent_or_owner_role(&self, pubkey: &Address) -> (r: bool)
        ensures
            r == self.has_role(*pubkey),
    {
        self.is_owner(pubkey) || self.is_agent(pubkey)
    }

    /// Adds an agent. A duplicate fails with `InvalidArgument`, an eleventh
    /// agent with `TooManyTrustedIssuers`; on failure nothing changes.
    pub fn add_agent(&mut self, agent: Address, now: i64) -> (r: Result<(), ERC3643Error>)
        ensures
            address_listed(old(self).agents@, agent) ==> r == Err::<(), ERC3643Error>(
                ERC3643Error::InvalidArgument,
            ),
            !address_listed(old(self).agents@, agent) && old(self).agents@.len() >= MAX_AGENTS
                ==> r == Err::<(), ERC3643Error>(ERC3643Error::TooManyTrustedIssuers),
            r is Ok <==> !address_listed(old(self).agents@, agent) && old(self).agents@.len()
                < MAX_AGENTS,
            r is Err ==> *final(self) == *old(self),
            r is Ok ==> *final(self) == (TokenConfig {
                agents: final(self).agents,
                updated_at: now,
                ..*old(self)
            }) && final(self).agents@ == old(self).agents@.push(agent),
            old(self).wf() ==> final(self).wf(),
    {
        if contains_address(&self.agents, &agent) {
            return Err(ERC3643Error::InvalidArgument);
        }
        if self.agents.len() >= MAX_AGENTS {
            return Err(ERC3643Error::TooManyTrustedIssuers);
        }
        self.agents.push(agent);
        self.updated_at = now;
        Ok(())
    }

    /// Removes an agent. An address that is not an agent fails with
    /// `InvalidArgument` and changes nothing.
    pub fn remove_agent(&mut self, agent: Address, now: i64) -> (r: Result<(), ERC3643Error>)
        ensures
            r is Ok <==> address_listed(old(self).agents@, agent),
            r is Err ==> r == Err::<(), ERC3643Error>(ERC3643Error::InvalidArgument) && *final(self)
                == *old(self),
            r is Ok ==> *final(self) == (TokenConfig {
                agents: final(self).agents,
                updated_at: now,
                ..*old(self)
            }) && final(self).agents@ == old(self).agents@.remove(
                address_position(old(self).agents@, agent@),
            ),
            old(self).wf() ==> final(self).wf(),
    {
        match self.agent_position(&agent) {
            Some(pos) => {
                proof {
                    lemma_first_address_index(self.agents@, agent@, pos as int);
                }
                let ghost before = self.agents@;
                self.agents.remove(pos);
                assert forall|a: int, b: int|
                    0 <= a < self.agents@.len() && 0 <= b < self.agents@.len() && a != b
                        && addresses_unique(before) implies (#[trigger] self.agents@[a])@ != (
                #[trigger] self.agents@[b])@ by {
                    let ba = if a < pos { a } else { a + 1 };
                    let bb = if b < pos { b } else { b + 1 };
                    assert(self.agents@[a] == before[ba]);
                    assert(self.agents@[b] == before[bb]);
                }
                self.updated_at = now;
                Ok(())
            },
            None => Err(ERC3643Error::InvalidArgument),
        }
    }

    /// Position of the first agent equal to `agent`, if any.
    fn agent_position(&self, agent: &Address) -> (r: Option<usize>)
        ensures
            r matches Some(i) ==> is_first_address_index(self.agents@, agent@, i as int),
            r is None ==> !address_listed(self.agents@, *agent),
    {
        let mut i: usize = 0;
        while i < self.agents.len()
            invariant
                0 <= i <= self.agents@.len(),
                forall|j: int| 0 <= j < i ==> (#[trigger] self.agents@[j])@ != agent@,
            decreases self.agents@.len() - i,
        {
            if self.agents[i].same_as(agent) {
                return Some(i);
            }
            i = i + 1;
        }
        None
    }

    /// Renames the token and/or changes its symbol. Both are validated before
    /// either is written: a name over 32 bytes fails with `NameTooLong`, a
    /// symbol over 10 bytes with `SymbolTooLong`, an empty one with
    /// `InvalidArgument`; on failure nothing changes.
    pub fn update_metadata(&mut self, name: Option<String>, symbol: Option<String>, now: i64) -> (r:
        Result<(), ERC3643Error>)
        ensures
            r == metadata_check(
                match name {
                    Some(n) => Some(n@),
                    None => None,
                },
                match symbol {
                    Some(s) => Some(s@),
                    None => None,
                },
            ),
            r is Err ==> *final(self) == *old(self),
            r is Ok ==> *final(self) == (TokenConfig {
                name: match name {
                    Some(n) => n,
                    None => old(self).name,
                },
                symbol: match symbol {
                    Some(s) => s,
                    None => old(self).symbol,
                },
                updated_at: now,
                ..*old(self)
            }),
    {
        if let Some(new_name) = &name {
            validate_string_length(new_name.as_str(), MAX_NAME_LENGTH, ERC3643Error::NameTooLong)?;
        }
        if let Some(new_symbol) = &symbol {
            validate_string_length(
                new_symbol.as_str(),
                MAX_SYMBOL_LENGTH,
                ERC3643Error::SymbolTooLong,
            )?;
        }
        if let Some(new_name) = name {
            self.name = new_name;
        }
        if let Some(new_symbol) = symbol {
            self.symbol = new_symbol;
        }
        self.updated_at = now;
        Ok(())
    }

    /// Pauses or unpauses the token.
    pub fn set_paused(&mut self, paused: bool, now: i64)
        ensures
            *final(self) == (TokenConfig { paused, updated_at: now, ..*old(self) }),
    {
        self.paused = paused;
        self.updated_at = now;
    }

    /// Records a new total supply.
    pub fn update_total_supply(&mut self, new_supply: u64, now: i64)
        ensures
            *final(self) == (TokenConfig { total_supply: new_supply, updated_at: now, ..*old(self) }),
    {
        self.total_supply = new_supply;
        self.updated_at = now;
    }

    /// Sets the enforcement mode, without checking it against the hook target.
    pub fn set_enforcement_mode(&mut self, mode: EnforcementMode, now: i64)
        ensures
            *final(self) == (TokenConfig { enforcement_mode: mode, updated_at: now, ..*old(self) }),
    {
        self.enforcement_mode = mode;
        self.updated_at = now;
    }

    /// Sets or clears the hook target.
    pub fn set_transfer_hook_program(&mut self, program: Option<Address>, now: i64)
        ensures
            *final(self) == (TokenConfig {
                transfer_hook_program: program,
                updated_at: now,
                ..*old(self)
            }),
    {
        self.transfer_hook_program = program;
        self.updated_at = now;
    }

    /// Checks the configuration: non-null mint and owner, valid name, symbol
    /// and decimals, and a hook target wherever the mode needs one.
    pub fn validate(&self) -> (r: Result<(), ERC3643Error>)
        ensures
            r == config_check(*self),
    {
        validate_pubkey(&self.mint)?;
        validate_pubkey(&self.owner)?;
        validate_string_length(self.name.as_str(), MAX_NAME_LENGTH, ERC3643Error::NameTooLong)?;
        validate_string_length(self.symbol.as_str(), MAX_SYMBOL_LENGTH, ERC3643Error::SymbolTooLong)?;
        validate_decimals(self.decimals)?;
        match self.enforcement_mode {
            EnforcementMode::TransferHook | EnforcementMode::Hybrid => {
                if self.transfer_hook_program.is_none() {
                    return Err(ERC3643Error::TransferHookNotConfigured);
                }
            },
            EnforcementMode::ProgramControlled => {},
        }
        Ok(())
    }
}

/// The freeze state of one party for one token.
///
/// Full freeze and partial freeze are independent: an address may have frozen
/// tokens without being fully frozen.
#[derive(Clone, Copy, Debug)]
pub struct FrozenAccount {
    pub user: Address,
    pub mint: Address,
    /// Blocks every transfer of the party.
    pub is_frozen: bool,
    /// Part of the balance that may not move.
    pub frozen_amount: u64,
    pub frozen_at: i64,
    pub frozen_by: Address,
}

impl FrozenAccount {
    /// Whether the party is fully frozen.
    pub fn is_address_frozen(&self) -> (r: bool)
        ensures
            r == self.is_frozen,
    {
        self.is_frozen
    }

    /// The frozen part of the balance.
    pub fn get_frozen_amount(&self) -> (r: u64)
        ensures
            r == self.frozen_amount,
    {
        self.frozen_amount
    }

    /// Sets or clears the full freeze, stamping actor and time either way.
    pub fn set_frozen(&mut self, frozen: bool, agent: Address, now: i64)
        ensures
            *final(self) == (FrozenAccount {
                is_frozen: frozen,
                frozen_at: now,
                frozen_by: agent,
                ..*old(self)
            }),
    {
        self.is_frozen = frozen;
        self.frozen_at = now;
        self.frozen_by = agent;
    }

    /// Freezes `amount` more tokens. A total beyond the 64-bit range fails
    /// with `ArithmeticOverflow` and changes nothing.
    pub fn freeze_tokens(&mut self, amount: u64, agent: Address, now: i64) -> (r: Result<
        (),
        ERC3643Error,
    >)
        ensures
            r is Ok <==> old(self).frozen_amount + amount <= u64::MAX,
            r is Err ==> r == Err::<(), ERC3643Error>(ERC3643Error::ArithmeticOverflow)
                && *final(self) == *old(self),
            r is Ok ==> *final(self) == (FrozenAccount {
                frozen_amount: (old(self).frozen_amount + amount) as u64,
                frozen_at: now,
                frozen_by: agent,
                ..*old(self)
            }),
    {
        match self.frozen_amount.checked_add(amount) {
            Some(total) => {
                self.frozen_amount = total;
                self.frozen_at = now;
                self.frozen_by = agent;
                Ok(())
            },
            None => Err(ERC3643Error::ArithmeticOverflow),
        }
    }

    /// Unfreezes `amount` tokens. More than is frozen fails with
    /// `InsufficientFrozenTokens` and changes nothing.
    pub fn unfreeze_tokens(&mut self, amount: u64, agent: Address, now: i64) -> (r: Result<
        (),
        ERC3643Error,
    >)
        ensures
            r is Ok <==> amount <= old(self).frozen_amount,
            r is Err ==> r == Err::<(), ERC3643Error>(ERC3643Error::InsufficientFrozenTokens)
                && *final(self) == *old(self),
            r is Ok ==> *final(self) == (FrozenAccount {
                frozen_amount: (old(self).frozen_amount - amount) as u64,
                frozen_at: now,
                frozen_by: agent,
                ..*old(self)
            }),
    {
        if self.frozen_amount < amount {
            return Err(ERC3643Error::InsufficientFrozenTokens);
        }
        self.frozen_amount = self.frozen_amount - amount;
        self.frozen_at = now;
        self.frozen_by = agent;
        Ok(())
    }
}

} // verus!
