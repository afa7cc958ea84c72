//! The compliance rule set and its evaluator.

use vstd::prelude::*;

use crate::address::Address;
use crate::error::{error_message, ERC3643Error};
use crate::utils::{day_of_week, seconds_of_day, time_of_day, weekday};

verus! {

/// Largest number of compliance modules.
pub const MAX_COMPLIANCE_MODULES: usize = 10;

/// Kinds of compliance modules.
#[derive(Clone, Copy, Debug, PartialEq, Eq, Structural)]
pub enum ComplianceModuleType {
    CountryRestriction,
    TransferLimit,
    HoldingLimit,
    LockPeriod,
    TradingWindow,
    Whitelist,
    Blacklist,
    Custom,
}

/// A pluggable compliance module and its serialized parameters.
#[derive(Clone, Debug)]
pub struct ComplianceModule {
    pub id: u32,
    pub name: String,
    pub module_type: ComplianceModuleType,
    pub is_active: bool,
    pub parameters: Vec<u8>,
}

/// What a country restriction does.
#[derive(Clone, Copy, Debug, PartialEq, Eq, Structural)]
pub enum RestrictionType {
    Allowed,
    Blocked,
    RequiresApproval,
}

/// A rule on one country.
#[derive(Clone, Copy, Debug, PartialEq, Eq, Structural)]
pub struct CountryRestriction {
    pub country_code: u16,
    pub restriction_type: RestrictionType,
    pub is_active: bool,
}

impl CountryRestriction {
    /// Whether the rule is active and about `country`.
    pub fn applies_to_country(&self, country: u16) -> (r: bool)
        ensures
            r == (self.is_active && self.country_code == country),
    {
        self.is_active && self.country_code == country
    }

    /// Whether the rule blocks its country.
    pub fn is_blocked(&self) -> (r: bool)
        ensures
            r == (self.restriction_type is Blocked),
    {
        match self.restriction_type {
            RestrictionType::Blocked => true,
            _ => false,
        }
    }
}

/// Bounds on single transfers and on cumulative volume.
#[derive(Clone, Copy, Debug, PartialEq, Eq, Structural)]
pub struct TransferLimits {
    pub min_transfer_amount: Option<u64>,
    pub max_transfer_amount: Option<u64>,
    pub daily_limit: Option<u64>,
    pub monthly_limit: Option<u64>,
    /// Seconds.
    pub reset_period: u32,
}

/// Bounds on a holder's balance.
#[derive(Clone, Copy, Debug, PartialEq, Eq, Structural)]
pub struct HoldingLimits {
    pub min_holding_amount: Option<u64>,
    pub max_holding_amount: Option<u64>,
    /// Basis points: 10000 is the whole supply.
    pub max_holding_percentage: Option<u16>,
}

/// What a lock period forbids.
#[derive(Clone, Copy, Debug, PartialEq, Eq, Structural)]
pub enum LockType {
    FullLock,
    ReceiveOnly,
    SendOnly,
}

/// A period during which one address, or every address, is locked.
#[derive(Clone, Copy, Debug)]
pub struct LockPeriod {
    /// `None` locks every address.
    pub user: Option<Address>,
    pub start_time: i64,
    pub end_time: i64,
    pub lock_type: LockType,
    pub is_active: bool,
}

impl LockPeriod {
    /// Whether the lock is active and scoped to `user` or to everyone.
    pub open spec fn covers(&self, user: Seq<u8>) -> bool {
        self.is_active && match self.user {
            None => true,
            Some(u) => u@ == user,
        }
    }

    /// Whether the lock is active and `now` lies in its window.
    pub open spec fn in_force(&self, now: i64) -> bool {
        self.is_active && self.start_time <= now <= self.end_time
    }

    /// Whether the lock is active and scoped to `user` or to everyone.
    pub fn applies_to_user(&self, user: &Address) -> (r: bool)
        ensures
            r == self.covers(user@),
    {
        if !self.is_active {
            return false;
        }
        match &self.user {
            None => true,
            Some(u) => u.same_as(user),
        }
    }

    /// Whether the lock is active and `current_time` lies in its window.
    pub fn is_active(&self, current_time: i64) -> (r: bool)
        ensures
            r == self.in_force(current_time),
    {
        self.is_active && current_time >= self.start_time && current_time <= self.end_time
    }
}

/// A recurring period in which trading is allowed.
#[derive(Clone, Copy, Debug, PartialEq, Eq, Structural)]
pub struct TradingWindow {
    /// Seconds since midnight UTC.
    pub start_time: u32,
    /// Seconds since midnight UTC.
    pub end_time: u32,
    /// Bit 0 is Sunday, bit 1 Monday, and so on.
    pub days_of_week: u8,
    pub is_active: bool,
}

/// Whether the bit of day `day` is set in `mask`.
pub open spec fn day_allowed(mask: u8, day: int) -> bool {
    mask & (1u8 << (day as u8)) != 0
}

impl TradingWindow {
    /// Whether the window is open at `timestamp`: active, on an allowed day,
    /// and within its time range, which runs over midnight when it starts
    /// after it ends.
    pub open spec fn open_at(&self, timestamp: i64) -> bool {
        let t = time_of_day(timestamp);
        &&& self.is_active
        &&& day_allowed(self.days_of_week, day_of_week(timestamp))
        &&& if self.start_time <= self.end_time {
            self.start_time <= t <= self.end_time
        } else {
            t >= self.start_time || t <= self.end_time
        }
    }

    /// Whether the window is open at `timestamp`.
    pub fn is_trading_allowed(&self, timestamp: i64) -> (r: bool)
        ensures
            r == self.open_at(timestamp),
    {
        if !self.is_active {
            return false;
        }
        let day: u8 = weekday(timestamp);
        let time: u32 = seconds_of_day(timestamp);
        let day_bit: u8 = 1u8 << day;
        if (self.days_of_week & day_bit) == 0 {
            return false;
        }
        if self.start_time <= self.end_time {
            time >= self.start_time && time <= self.end_time
        } else {
            time >= self.start_time || time <= self.end_time
        }
    }
}

/// The checks of the evaluator, in the order in which they run.
#[derive(Clone, Copy, Debug, PartialEq, Eq, Structural)]
pub enum ComplianceRule {
    CountryRestriction,
    TransferLimit,
    HoldingLimit,
    InvestorLimit,
    LockPeriod,
    TradingWindow,
}

/// Whether an active "blocked" rule names either country.
pub open spec fn country_blocked(rules: Seq<CountryRestriction>, from_country: u16, to_country: u16) -> bool {
    exists|i: int|
        0 <= i < rules.len() && (#[trigger] rules[i]).is_active && rules[i].restriction_type
            is Blocked && (rules[i].country_code == from_country || rules[i].country_code
            == to_country)
}

/// The transfer-limit check on `amount`.
pub open spec fn transfer_limit_check(limits: TransferLimits, amount: u64) -> Result<(), ERC3643Error> {
    if limits.max_transfer_amount matches Some(max) && amount > max {
        Err(ERC3643Error::TransferLimitExceeded)
    } else if limits.min_transfer_amount matches Some(min) && amount < min {
        Err(ERC3643Error::InvalidAmount)
    } else {
        Ok(())
    }
}

/// The holding-limit check on a resulting balance.
pub open spec fn holding_limit_check(limits: HoldingLimits, new_balance: int) -> Result<
    (),
    ERC3643Error,
> {
    if limits.max_holding_amount matches Some(max) && new_balance > max {
        Err(ERC3643Error::MaximumHoldingExceeded)
    } else if limits.min_holding_amount matches Some(min) && new_balance < min {
        Err(ERC3643Error::MinimumHoldingNotMet)
    } else {
        Ok(())
    }
}

/// Whether an active lock scoped to `user` or to everyone is in force at `now`.
pub open spec fn locked(locks: Seq<LockPeriod>, user: Seq<u8>, now: i64) -> bool {
    exists|i: int| 0 <= i < locks.len() && (#[trigger] locks[i]).covers(user) && locks[i].in_force(now)
}

/// Whether trading is open at `now`: no windows, or one of them open.
pub open spec fn trading_open(windows: Seq<TradingWindow>, now: i64) -> bool {
    windows.len() == 0 || exists|i: int| 0 <= i < windows.len() && (#[trigger] windows[i]).open_at(now)
}

/// Whether the investor cap turns away a recipient that holds `to_balance`:
/// a cap is set, the recipient would be a new holder, and the cap is reached.
pub open spec fn investor_cap_reached(max_investors: Option<u32>, current_investors: u32, to_balance: u64) -> bool {
    to_balance == 0 && (max_investors matches Some(m) && current_investors >= m)
}

/// The first failing check of a transfer, with its error, if any fails.
pub open spec fn compliance_denial(
    reg: ComplianceRegistry,
    from: Seq<u8>,
    amount: u64,
    to_balance: u64,
    from_country: u16,
    to_country: u16,
    now: i64,
) -> Option<(ComplianceRule, ERC3643Error)> {
    if country_blocked(reg.country_restrictions@, from_country, to_country) {
        Some((ComplianceRule::CountryRestriction, ERC3643Error::CountryNotAllowed))
    } else if transfer_limit_check(reg.transfer_limits, amount) is Err {
        Some((ComplianceRule::TransferLimit, transfer_limit_check(reg.transfer_limits, amount)->Err_0))
    } else if to_balance + amount > u64::MAX {
        Some((ComplianceRule::HoldingLimit, ERC3643Error::ArithmeticOverflow))
    } else if holding_limit_check(reg.holding_limits, to_balance + amount) is Err {
        Some(
            (
                ComplianceRule::HoldingLimit,
                holding_limit_check(reg.holding_limits, to_balance + amount)->Err_0,
            ),
        )
    } else if investor_cap_reached(reg.max_investors, reg.current_investors, to_balance) {
        Some((ComplianceRule::InvestorLimit, ERC3643Error::InvestorLimitReached))
    } else if locked(reg.lock_periods@, from, now) {
        Some((ComplianceRule::LockPeriod, ERC3643Error::LockPeriodActive))
    } else if !trading_open(reg.trading_windows@, now) {
        Some((ComplianceRule::TradingWindow, ERC3643Error::TransferNotCompliant))
    } else {
        None
    }
}

/// The reason text of an evaluation's outcome; empty when allowed.
pub open spec fn denial_reason(denial: Option<(ComplianceRule, ERC3643Error)>) -> Seq<char> {
    match denial {
        None => Seq::empty(),
        Some((rule, e)) => match rule {
            ComplianceRule::CountryRestriction => "Country restriction: "@ + error_message(e),
            ComplianceRule::TransferLimit => "Transfer limit: "@ + error_message(e),
            ComplianceRule::HoldingLimit => "Holding limit: "@ + error_message(e),
            ComplianceRule::InvestorLimit => "Maximum investors reached"@,
            ComplianceRule::LockPeriod => "Lock period: "@ + error_message(e),
            ComplianceRule::TradingWindow => "Trading window: "@ + error_message(e),
        },
    }
}

/// The name of the module responsible for an evaluation's outcome.
pub open spec fn denial_module(denial: Option<(ComplianceRule, ERC3643Error)>) -> Seq<char> {
    match denial {
        None => "base"@,
        Some((rule, _)) => rule_name(rule),
    }
}

/// The module name of a check.
pub open spec fn rule_name(rule: ComplianceRule) -> Seq<char> {
    match rule {
        ComplianceRule::CountryRestriction => "country_restriction"@,
        ComplianceRule::TransferLimit => "transfer_limit"@,
        ComplianceRule::HoldingLimit => "holding_limit"@,
        ComplianceRule::InvestorLimit => "investor_limit"@,
        ComplianceRule::LockPeriod => "lock_period"@,
        ComplianceRule::TradingWindow => "trading_window"@,
    }
}

impl ComplianceRule {
    /// The module name of this check.
    pub fn name(&self) -> (r: String)
        ensures
            r@ == rule_name(*self),
    {
        let text: &str = match self {
            ComplianceRule::CountryRestriction => "country_restriction",
            ComplianceRule::TransferLimit => "transfer_limit",
            ComplianceRule::HoldingLimit => "holding_limit",
            ComplianceRule::InvestorLimit => "investor_limit",
            ComplianceRule::LockPeriod => "lock_period",
            ComplianceRule::TradingWindow => "trading_window",
        };
        String::from_str(text)
    }
}

/// The verdict of the rule evaluator.
#[derive(Clone, Debug)]
pub struct ComplianceResult {
    pub allowed: bool,
    pub reason: String,
    /// The module that decided: the failing check, or `base` when allowed.
    pub module: String,
}

/// `prefix` followed by the text of `e`.
fn prefixed_reason(prefix: &str, e: ERC3643Error) -> (r: String)
    ensures
        r@ == prefix@ + error_message(e),
{
    let mut reason = String::from_str(prefix);
    let text = e.message();
    reason.append(text.as_str());
    reason
}

/// A denial by `rule` with the given reason.
fn denied(rule: ComplianceRule, reason: String) -> (r: ComplianceResult)
    ensures
        !r.allowed,
        r.reason@ == reason@,
        r.module@ == rule_name(rule),
{
    ComplianceResult { allowed: false, reason, module: rule.name() }
}

/// The jurisdictional and behavioural rules of one token.
#[derive(Clone, Debug)]
pub struct ComplianceRegistry {
    pub mint: Address,
    pub modules: Vec<ComplianceModule>,
    pub country_restrictions: Vec<CountryRestriction>,
    pub transfer_limits: TransferLimits,
    pub holding_limits: HoldingLimits,
    pub lock_periods: Vec<LockPeriod>,
    pub trading_windows: Vec<TradingWindow>,
    /// Largest number of distinct non-zero holders, if capped.
    pub max_investors: Option<u32>,
    pub current_investors: u32,
    pub require_whitelist: bool,
    pub enable_blacklist: bool,
    pub require_kyc: bool,
    pub require_aml: bool,
    pub created_at: i64,
    pub updated_at: i64,
}

impl ComplianceRegistry {
    /// Evaluates a transfer of `amount` from `from` to `to` at `now`. The
    /// checks run in a fixed order and the first that fails decides: country
    /// restrictions, transfer limits, holding limits on the recipient's
    /// resulting balance (a balance beyond the 64-bit range is refused with
    /// `ArithmeticOverflow`), the investor cap, if one is set, for a recipient
    /// holding nothing,
    /// lock periods of the sender, trading windows. When all pass the
    /// transfer is allowed by module `base`.
    pub fn check_transfer_compliance(
        &self,
        from: &Address,
        to: &Address,
        amount: u64,
        from_balance: u64,
        to_balance: u64,
        from_country: u16,
        to_country: u16,
        now: i64,
    ) -> (r: ComplianceResult)
        ensures
            ({
                let d = compliance_denial(
                    *self,
                    from@,
                    amount,
                    to_balance,
                    from_country,
                    to_country,
                    now,
                );
                &&& r.allowed == d is None
                &&& r.reason@ == denial_reason(d)
                &&& r.module@ == denial_module(d)
            }),
    {
        if let Err(e) = self.check_country_restrictions(from_country, to_country) {
            return denied(
                ComplianceRule::CountryRestriction,
                prefixed_reason("Country restriction: ", e),
            );
        }
        if let Err(e) = self.check_transfer_limits(amount) {
            return denied(ComplianceRule::TransferLimit, prefixed_reason("Transfer limit: ", e));
        }
        let holding = match to_balance.checked_add(amount) {
            Some(new_balance) => self.check_holding_limits(new_balance),
            None => Err(ERC3643Error::ArithmeticOverflow),
        };
        if let Err(e) = holding {
            return denied(ComplianceRule::HoldingLimit, prefixed_reason("Holding limit: ", e));
        }
        let cap_reached = match self.max_investors {
            Some(m) => self.current_investors >= m,
            None => false,
        };
        if to_balance == 0 && cap_reached {
            return denied(
                ComplianceRule::InvestorLimit,
                String::from_str("Maximum investors reached"),
            );
        }
        if let Err(e) = self.check_lock_periods(from, now) {
            return denied(ComplianceRule::LockPeriod, prefixed_reason("Lock period: ", e));
        }
        if let Err(e) = self.check_trading_windows(now) {
            return denied(ComplianceRule::TradingWindow, prefixed_reason("Trading window: ", e));
        }
        ComplianceResult { allowed: true, reason: String::new(), module: String::from_str("base") }
    }

    /// Fails with `CountryNotAllowed` when an active blocking rule names
    /// either country.
    pub fn check_country_restrictions(&self, from_country: u16, to_country: u16) -> (r: Result<
        (),
        ERC3643Error,
    >)
        ensures
            r is Err <==> country_blocked(self.country_restrictions@, from_country, to_country),
            r is Err ==> r == Err::<(), ERC3643Error>(ERC3643Error::CountryNotAllowed),
    {
        let mut i: usize = 0;
        while i < self.country_restrictions.len()
            invariant
                0 <= i <= self.country_restrictions@.len(),
                forall|j: int|
                    0 <= j < i ==> !((#[trigger] self.country_restrictions@[j]).is_active
                        && self.country_restrictions@[j].restriction_type is Blocked && (
                    self.country_restrictions@[j].country_code == from_country
                        || self.country_restrictions@[j].country_code == to_country)),
            decreases self.country_restrictions@.len() - i,
        {
            let restriction = self.country_restrictions[i];
            if restriction.applies_to_country(from_country) || restriction.applies_to_country(
                to_country,
            ) {
                if restriction.is_blocked() {
                    return Err(ERC3643Error::CountryNotAllowed);
                }
            }
            i = i + 1;
        }
        Ok(())
    }

    /// Fails with `TransferLimitExceeded` above the maximum, then with
    /// `InvalidAmount` below the minimum.
    pub fn check_transfer_limits(&self, amount: u64) -> (r: Result<(), ERC3643Error>)
        ensures
            r == transfer_limit_check(self.transfer_limits, amount),
    {
        if let Some(max_transfer) = self.transfer_limits.max_transfer_amount {
            if amount > max_transfer {
                return Err(ERC3643Error::TransferLimitExceeded);
            }
        }
        if let Some(min_transfer) = self.transfer_limits.min_transfer_amount {
            if amount < min_transfer {
                return Err(ERC3643Error::InvalidAmount);
            }
        }
        Ok(())
    }

    /// Fails with `MaximumHoldingExceeded` above the maximum, then with
    /// `MinimumHoldingNotMet` below the minimum.
    pub fn check_holding_limits(&self, new_balance: u64) -> (r: Result<(), ERC3643Error>)
        ensures
            r == holding_limit_check(self.holding_limits, new_balance as int),
    {
        if let Some(max_holding) = self.holding_limits.max_holding_amount {
            if new_balance > max_holding {
                return Err(ERC3643Error::MaximumHoldingExceeded);
            }
        }
        if let Some(min_holding) = self.holding_limits.min_holding_amount {
            if new_balance < min_holding {
                return Err(ERC3643Error::MinimumHoldingNotMet);
            }
        }
        Ok(())
    }

    /// Fails with `LockPeriodActive` when an active lock scoped to `user` or
    /// to everyone is in force at `now`, whatever its lock type.
    pub fn check_lock_periods(&self, user: &Address, now: i64) -> (r: Result<(), ERC3643Error>)
        ensures
            r is Err <==> locked(self.lock_periods@, user@, now),
            r is Err ==> r == Err::<(), ERC3643Error>(ERC3643Error::LockPeriodActive),
    {
        let mut i: usize = 0;
        while i < self.lock_periods.len()
            invariant
                0 <= i <= self.lock_periods@.len(),
                forall|j: int|
                    0 <= j < i ==> !((#[trigger] self.lock_periods@[j]).covers(user@)
                        && self.lock_periods@[j].in_force(now)),
            decreases self.lock_periods@.len() - i,
        {
            let lock_period = self.lock_periods[i];
            if lock_period.applies_to_user(user) && lock_period.is_active(now) {
                return Err(ERC3643Error::LockPeriodActive);
            }
            i = i + 1;
        }
        Ok(())
    }

    /// Fails with `TransferNotCompliant` when windows are configured and none
    /// is open at `now`.
    pub fn check_trading_windows(&self, now: i64) -> (r: Result<(), ERC3643Error>)
        ensures
            r is Ok <==> trading_open(self.trading_windows@, now),
            r is Err ==> r == Err::<(), ERC3643Error>(ERC3643Error::TransferNotCompliant),
    {
        if self.trading_windows.len() == 0 {
            return Ok(());
        }
        let mut i: usize = 0;
        while i < self.trading_windows.len()
            invariant
                0 <= i <= self.trading_windows@.len(),
                forall|j: int| 0 <= j < i ==> !(#[trigger] self.trading_windows@[j]).open_at(now),
            decreases self.trading_windows@.len() - i,
        {
            if self.trading_windows[i].is_trading_allowed(now) {
                return Ok(());
            }
            i = i + 1;
        }
        Err(ERC3643Error::TransferNotCompliant)
    }

    /// Adds a module at `now`. An eleventh module fails with
    /// `TooManyTrustedIssuers` and changes nothing.
    pub fn add_module(&mut self, module: ComplianceModule, now: i64) -> (r: Result<
        (),
        ERC3643Error,
    >)
        ensures
            r is Ok <==> old(self).modules@.len() < MAX_COMPLIANCE_MODULES,
            r is Err ==> r == Err::<(), ERC3643Error>(ERC3643Error::TooManyTrustedIssuers)
                && *final(self) == *old(self),
            r is Ok ==> final(self).modules@ == old(self).modules@.push(module) && *final(self)
                == (ComplianceRegistry {
                modules: final(self).modules,
                updated_at: now,
                ..*old(self)
            }),
    {
        if self.modules.len() >= MAX_COMPLIANCE_MODULES {
            return Err(ERC3643Error::TooManyTrustedIssuers);
        }
        self.modules.push(module);
        self.updated_at = now;
        Ok(())
    }

    /// Removes the first module with id `module_id`. An unknown id fails with
    /// `ComplianceModuleNotFound` and changes nothing.
    pub fn remove_module(&mut self, module_id: u32, now: i64) -> (r: Result<(), ERC3643Error>)
        ensures
            r is Ok <==> exists|i: int|
                0 <= i < old(self).modules@.len() && (#[trigger] old(self).modules@[i]).id
                    == module_id,
            r is Err ==> r == Err::<(), ERC3643Error>(ERC3643Error::ComplianceModuleNotFound)
                && *final(self) == *old(self),
            r is Ok ==> (exists|i: int|
                0 <= i < old(self).modules@.len() && (#[trigger] old(self).modules@[i]).id
                    == module_id && (forall|j: int|
                    0 <= j < i ==> (#[trigger] old(self).modules@[j]).id != module_id)
                    && final(self).modules@ == old(self).modules@.remove(i)) && *final(self) == (
            ComplianceRegistry { modules: final(self).modules, updated_at: now, ..*old(self) }),
    {
        match self.module_position(module_id) {
            Some(pos) => {
                self.modules.remove(pos);
                self.updated_at = now;
                Ok(())
            },
            None => Err(ERC3643Error::ComplianceModuleNotFound),
        }
    }

    /// Position of the first module with id `module_id`, if any.
    fn module_position(&self, module_id: u32) -> (r: Option<usize>)
        ensures
            r matches Some(i) ==> i < self.modules@.len() && self.modules@[i as int].id == module_id
                && forall|j: int| 0 <= j < i ==> (#[trigger] self.modules@[j]).id != module_id,
            r is None ==> forall|j: int|
                0 <= j < self.modules@.len() ==> (#[trigger] self.modules@[j]).id != module_id,
    {
        let mut i: usize = 0;
        while i < self.modules.len()
            invariant
                0 <= i <= self.modules@.len(),
                forall|j: int| 0 <= j < i ==> (#[trigger] self.modules@[j]).id != module_id,
            decreases self.modules@.len() - i,
        {
            if self.modules[i].id == module_id {
                return Some(i);
            }
            i = i + 1;
        }
        None
    }
}

} // verus!
