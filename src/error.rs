//! The error kinds that the engine's operations reject with.

use vstd::prelude::*;

verus! {

/// Every way in which an operation of this library can be rejected.
///
/// A denied transfer is not an error: it is a successful evaluation whose
/// verdict is false.
#[derive(Clone, Copy, Debug, PartialEq, Eq, Structural)]
pub enum ERC3643Error {
    TokenPaused,
    AddressFrozen,
    InsufficientBalance,
    IdentityNotVerified,
    TransferNotCompliant,
    Unauthorized,
    InvalidArgument,
    IdentityAlreadyRegistered,
    IdentityNotFound,
    ClaimNotFound,
    ClaimAlreadyExists,
    InvalidClaimSignature,
    ClaimExpired,
    ClaimRevoked,
    TrustedIssuerNotFound,
    TrustedIssuerAlreadyExists,
    TooManyTrustedIssuers,
    TooManyClaimTopics,
    ClaimTopicNotFound,
    ClaimTopicAlreadyExists,
    InvalidCountryCode,
    InsufficientFrozenTokens,
    CannotFreezeMoreThanBalance,
    AgentRoleRequired,
    OwnerRoleRequired,
    IssuerRoleRequired,
    InvalidMintAuthority,
    InvalidFreezeAuthority,
    TransferHookNotConfigured,
    FallbackModeNotEnabled,
    AccountSizeMismatch,
    InvalidPDADerivation,
    ArithmeticOverflow,
    ArithmeticUnderflow,
    InvalidTokenProgram,
    InvalidAssociatedTokenAccount,
    RecoveryNotAllowed,
    InvalidRecoveryIdentity,
    SameWalletRecovery,
    BatchOperationLimitExceeded,
    InvalidURIFormat,
    DataTooLarge,
    SignatureTooLarge,
    NameTooLong,
    SymbolTooLong,
    InvalidDecimals,
    ZeroAddressNotAllowed,
    SelfTransferNotAllowed,
    InvalidAmount,
    TokenAlreadyInitialized,
    ComplianceModuleNotFound,
    InvalidComplianceConfiguration,
    TransferLimitExceeded,
    DailyLimitExceeded,
    MonthlyLimitExceeded,
    CountryNotAllowed,
    InvestorLimitReached,
    MinimumHoldingNotMet,
    MaximumHoldingExceeded,
    LockPeriodActive,
    WhitelistRequired,
    BlacklistViolation,
}

/// The human-readable text of an error kind.
pub open spec fn error_message(e: ERC3643Error) -> Seq<char> {
    match e {
        ERC3643Error::TokenPaused => "Token is paused"@,
        ERC3643Error::AddressFrozen => "Address is frozen"@,
        ERC3643Error::InsufficientBalance => "Insufficient balance"@,
        ERC3643Error::IdentityNotVerified => "Identity not verified"@,
        ERC3643Error::TransferNotCompliant => "Transfer not compliant"@,
        ERC3643Error::Unauthorized => "Unauthorized access"@,
        ERC3643Error::InvalidArgument => "Invalid argument"@,
        ERC3643Error::IdentityAlreadyRegistered => "Identity already registered"@,
        ERC3643Error::IdentityNotFound => "Identity not found"@,
        ERC3643Error::ClaimNotFound => "Claim not found"@,
        ERC3643Error::ClaimAlreadyExists => "Claim already exists"@,
        ERC3643Error::InvalidClaimSignature => "Invalid claim signature"@,
        ERC3643Error::ClaimExpired => "Claim expired"@,
        ERC3643Error::ClaimRevoked => "Claim revoked"@,
        ERC3643Error::TrustedIssuerNotFound => "Trusted issuer not found"@,
        ERC3643Error::TrustedIssuerAlreadyExists => "Trusted issuer already exists"@,
        ERC3643Error::TooManyTrustedIssuers => "Too many trusted issuers"@,
        ERC3643Error::TooManyClaimTopics => "Too many claim topics"@,
        ERC3643Error::ClaimTopicNotFound => "Claim topic not found"@,
        ERC3643Error::ClaimTopicAlreadyExists => "Claim topic already exists"@,
        ERC3643Error::InvalidCountryCode => "Invalid country code"@,
        ERC3643Error::InsufficientFrozenTokens => "Insufficient frozen tokens"@,
        ERC3643Error::CannotFreezeMoreThanBalance => "Cannot freeze more than balance"@,
        ERC3643Error::AgentRoleRequired => "Agent role required"@,
        ERC3643Error::OwnerRoleRequired => "Owner role required"@,
        ERC3643Error::IssuerRoleRequired => "Issuer role required"@,
        ERC3643Error::InvalidMintAuthority => "Invalid mint authority"@,
        ERC3643Error::InvalidFreezeAuthority => "Invalid freeze authority"@,
        ERC3643Error::TransferHookNotConfigured => "Transfer hook not configured"@,
        ERC3643Error::FallbackModeNotEnabled => "Fallback mode not enabled"@,
        ERC3643Error::AccountSizeMismatch => "Account size mismatch"@,
        ERC3643Error::InvalidPDADerivation => "Invalid PDA derivation"@,
        ERC3643Error::ArithmeticOverflow => "Arithmetic overflow"@,
        ERC3643Error::ArithmeticUnderflow => "Arithmetic underflow"@,
        ERC3643Error::InvalidTokenProgram => "Invalid token program"@,
        ERC3643Error::InvalidAssociatedTokenAccount => "Invalid associated token account"@,
        ERC3643Error::RecoveryNotAllowed => "Recovery not allowed"@,
        ERC3643Error::InvalidRecoveryIdentity => "Invalid recovery identity"@,
        ERC3643Error::SameWalletRecovery => "Same wallet recovery"@,
        ERC3643Error::BatchOperationLimitExceeded => "Batch operation limit exceeded"@,
        ERC3643Error::InvalidURIFormat => "Invalid URI format"@,
        ERC3643Error::DataTooLarge => "Data too large"@,
        ERC3643Error::SignatureTooLarge => "Signature too large"@,
        ERC3643Error::NameTooLong => "Name too long"@,
        ERC3643Error::SymbolTooLong => "Symbol too long"@,
        ERC3643Error::InvalidDecimals => "Invalid decimals"@,
        ERC3643Error::ZeroAddressNotAllowed => "Zero address not allowed"@,
        ERC3643Error::SelfTransferNotAllowed => "Self transfer not allowed"@,
        ERC3643Error::InvalidAmount => "Invalid amount"@,
        ERC3643Error::TokenAlreadyInitialized => "Token already initialized"@,
        ERC3643Error::ComplianceModuleNotFound => "Compliance module not found"@,
        ERC3643Error::InvalidComplianceConfiguration => "Invalid compliance configuration"@,
        ERC3643Error::TransferLimitExceeded => "Transfer limit exceeded"@,
        ERC3643Error::DailyLimitExceeded => "Daily limit exceeded"@,
        ERC3643Error::MonthlyLimitExceeded => "Monthly limit exceeded"@,
        ERC3643Error::CountryNotAllowed => "Country not allowed"@,
        ERC3643Error::InvestorLimitReached => "Investor limit reached"@,
        ERC3643Error::MinimumHoldingNotMet => "Minimum holding not met"@,
        ERC3643Error::MaximumHoldingExceeded => "Maximum holding exceeded"@,
        ERC3643Error::LockPeriodActive => "Lock period active"@,
        ERC3643Error::WhitelistRequired => "Whitelist required"@,
        ERC3643Error::BlacklistViolation => "Blacklist violation"@,
    }
}

impl ERC3643Error {
    /// The human-readable text of this error kind.
    pub fn message(&self) -> (r: String)
        ensures
            r@ == error_message(*self),
    {
        let text: &str = match self {
            ERC3643Error::TokenPaused => "Token is paused",
            ERC3643Error::AddressFrozen => "Address is frozen",
            ERC3643Error::InsufficientBalance => "Insufficient balance",
            ERC3643Error::IdentityNotVerified => "Identity not verified",
            ERC3643Error::TransferNotCompliant => "Transfer not compliant",
            ERC3643Error::Unauthorized => "Unauthorized access",
            ERC3643Error::InvalidArgument => "Invalid argument",
            ERC3643Error::IdentityAlreadyRegistered => "Identity already registered",
            ERC3643Error::IdentityNotFound => "Identity not found",
            ERC3643Error::ClaimNotFound => "Claim not found",
            ERC3643Error::ClaimAlreadyExists => "Claim already exists",
            ERC3643Error::InvalidClaimSignature => "Invalid claim signature",
            ERC3643Error::ClaimExpired => "Claim expired",
            ERC3643Error::ClaimRevoked => "Claim revoked",
            ERC3643Error::TrustedIssuerNotFound => "Trusted issuer not found",
            ERC3643Error::TrustedIssuerAlreadyExists => "Trusted issuer already exists",
            ERC3643Error::TooManyTrustedIssuers => "Too many trusted issuers",
            ERC3643Error::TooManyClaimTopics => "Too many claim topics",
            ERC3643Error::ClaimTopicNotFound => "Claim topic not found",
            ERC3643Error::ClaimTopicAlreadyExists => "Claim topic already exists",
            ERC3643Error::InvalidCountryCode => "Invalid country code",
            ERC3643Error::InsufficientFrozenTokens => "Insufficient frozen tokens",
            ERC3643Error::CannotFreezeMoreThanBalance => "Cannot freeze more than balance",
            ERC3643Error::AgentRoleRequired => "Agent role required",
            ERC3643Error::OwnerRoleRequired => "Owner role required",
            ERC3643Error::IssuerRoleRequired => "Issuer role required",
            ERC3643Error::InvalidMintAuthority => "Invalid mint authority",
            ERC3643Error::InvalidFreezeAuthority => "Invalid freeze authority",
            ERC3643Error::TransferHookNotConfigured => "Transfer hook not configured",
            ERC3643Error::FallbackModeNotEnabled => "Fallback mode not enabled",
            ERC3643Error::AccountSizeMismatch => "Account size mismatch",
            ERC3643Error::InvalidPDADerivation => "Invalid PDA derivation",
            ERC3643Error::ArithmeticOverflow => "Arithmetic overflow",
            ERC3643Error::ArithmeticUnderflow => "Arithmetic underflow",
            ERC3643Error::InvalidTokenProgram => "Invalid token program",
            ERC3643Error::InvalidAssociatedTokenAccount => "Invalid associated token account",
            ERC3643Error::RecoveryNotAllowed => "Recovery not allowed",
            ERC3643Error::InvalidRecoveryIdentity => "Invalid recovery identity",
            ERC3643Error::SameWalletRecovery => "Same wallet recovery",
            ERC3643Error::BatchOperationLimitExceeded => "Batch operation limit exceeded",
            ERC3643Error::InvalidURIFormat => "Invalid URI format",
            ERC3643Error::DataTooLarge => "Data too large",
            ERC3643Error::SignatureTooLarge => "Signature too large",
            ERC3643Error::NameTooLong => "Name too long",
            ERC3643Error::SymbolTooLong => "Symbol too long",
            ERC3643Error::InvalidDecimals => "Invalid decimals",
            ERC3643Error::ZeroAddressNotAllowed => "Zero address not allowed",
            ERC3643Error::SelfTransferNotAllowed => "Self transfer not allowed",
            ERC3643Error::InvalidAmount => "Invalid amount",
            ERC3643Error::TokenAlreadyInitialized => "Token already initialized",
            ERC3643Error::ComplianceModuleNotFound => "Compliance module not found",
            ERC3643Error::InvalidComplianceConfiguration => "Invalid compliance configuration",
            ERC3643Error::TransferLimitExceeded => "Transfer limit exceeded",
            ERC3643Error::DailyLimitExceeded => "Daily limit exceeded",
            ERC3643Error::MonthlyLimitExceeded => "Monthly limit exceeded",
            ERC3643Error::CountryNotAllowed => "Country not allowed",
            ERC3643Error::InvestorLimitReached => "Investor limit reached",
            ERC3643Error::MinimumHoldingNotMet => "Minimum holding not met",
            ERC3643Error::MaximumHoldingExceeded => "Maximum holding exceeded",
            ERC3643Error::LockPeriodActive => "Lock period active",
            ERC3643Error::WhitelistRequired => "Whitelist required",
            ERC3643Error::BlacklistViolation => "Blacklist violation",
        };
        String::from_str(text)
    }
}

} // verus!
