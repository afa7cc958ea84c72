use erc3643::address::Address;
use erc3643::compliance::ComplianceModule;
use erc3643::compliance::ComplianceModuleType;
use erc3643::config::{EnforcementMode, FrozenAccount};
use erc3643::admin::{
    add_agent, add_claim_topic, add_trusted_issuer, freeze_partial_tokens, remove_agent,
    remove_claim_topic, remove_trusted_issuer, set_address_frozen, set_pause_status,
    transfer_ownership, unfreeze_partial_tokens,
};
use erc3643::error::ERC3643Error;
use erc3643::identity_ops::register_identity;
use erc3643::initialize_token::{handler, set_enforcement_mode, set_transfer_hook, TokenSetup};
use erc3643::token_ops::{burn_tokens, forced_transfer, mint_tokens, recovery_address};

const NOW: i64 = 1_704_708_000;

fn addr(b: u8) -> Address {
    Address::new([b; 32])
}

fn setup() -> TokenSetup {
    handler("Token".to_string(), "TKN".to_string(), 6, None, addr(9), addr(1), NOW).unwrap()
}

fn blank_record() -> FrozenAccount {
    FrozenAccount {
        user: Address::zero(),
        mint: Address::zero(),
        is_frozen: false,
        frozen_amount: 0,
        frozen_at: 0,
        frozen_by: Address::zero(),
    }
}

#[test]
fn initialization_defaults_and_errors() {
    let s = setup();
    assert!(s.config.paused);
    assert_eq!(s.config.enforcement_mode, EnforcementMode::ProgramControlled);
    assert_eq!(s.config.version, "1.0.0");
    assert_eq!(s.compliance.transfer_limits.reset_period, 86400);
    assert!(s.config.validate().is_ok());
    let e = handler("x".repeat(33), "TKN".to_string(), 6, None, addr(9), addr(1), NOW).unwrap_err();
    assert_eq!(e, ERC3643Error::NameTooLong);
    let e = handler("Token".to_string(), "x".repeat(11), 6, None, addr(9), addr(1), NOW).unwrap_err();
    assert_eq!(e, ERC3643Error::SymbolTooLong);
    let e = handler(String::new(), "TKN".to_string(), 6, None, addr(9), addr(1), NOW).unwrap_err();
    assert_eq!(e, ERC3643Error::InvalidArgument);
    let e = handler("Token".to_string(), "TKN".to_string(), 19, None, addr(9), addr(1), NOW).unwrap_err();
    assert_eq!(e, ERC3643Error::InvalidDecimals);
    let e = handler("Token".to_string(), "TKN".to_string(), 18, Some(0), addr(9), addr(1), NOW).unwrap_err();
    assert_eq!(e, ERC3643Error::InvalidAmount);
    let s = handler("Token".to_string(), "TKN".to_string(), 18, Some(500), addr(9), addr(1), NOW).unwrap();
    assert_eq!(s.config.total_supply, 500);
}

#[test]
fn issuer_add_then_remove_restores_directory() {
    let mut s = setup();
    add_trusted_issuer(&s.config, addr(1), &mut s.trusted_issuers, addr(5), vec![1, 2], NOW).unwrap();
    let before: Vec<[u8; 32]> = s.trusted_issuers.issuers.iter().map(|i| i.issuer.bytes).collect();
    add_trusted_issuer(&s.config, addr(1), &mut s.trusted_issuers, addr(6), vec![3], NOW).unwrap();
    assert_eq!(s.trusted_issuers.issuers.len(), 2);
    remove_trusted_issuer(&s.config, addr(1), &mut s.trusted_issuers, addr(6), NOW).unwrap();
    let after: Vec<[u8; 32]> = s.trusted_issuers.issuers.iter().map(|i| i.issuer.bytes).collect();
    assert_eq!(before, after);
    let e = remove_trusted_issuer(&s.config, addr(1), &mut s.trusted_issuers, addr(6), NOW).unwrap_err();
    assert_eq!(e, ERC3643Error::TrustedIssuerNotFound);
    assert_eq!(s.trusted_issuers.issuers.len(), 1);
}

#[test]
fn issuer_directory_errors() {
    let mut s = setup();
    let d = &mut s.trusted_issuers;
    assert_eq!(add_trusted_issuer(&s.config, addr(2), d, addr(5), vec![1], NOW).unwrap_err(), ERC3643Error::OwnerRoleRequired);
    assert_eq!(add_trusted_issuer(&s.config, addr(1), d, Address::zero(), vec![1], NOW).unwrap_err(), ERC3643Error::ZeroAddressNotAllowed);
    assert_eq!(add_trusted_issuer(&s.config, addr(1), d, addr(5), vec![], NOW).unwrap_err(), ERC3643Error::InvalidArgument);
    assert_eq!(add_trusted_issuer(&s.config, addr(1), d, addr(5), (0..16).collect(), NOW).unwrap_err(), ERC3643Error::TooManyClaimTopics);
    add_trusted_issuer(&s.config, addr(1), d, addr(5), (0..15).collect(), NOW).unwrap();
    assert_eq!(add_trusted_issuer(&s.config, addr(1), d, addr(5), vec![1], NOW).unwrap_err(), ERC3643Error::TrustedIssuerAlreadyExists);
    for b in 10..59u8 {
        d.add_issuer(addr(b), vec![1], NOW).unwrap();
    }
    assert_eq!(d.issuers.len(), 50);
    assert_eq!(d.add_issuer(addr(100), vec![1], NOW).unwrap_err(), ERC3643Error::TooManyTrustedIssuers);
    assert!(d.is_trusted_for_topic(&addr(5), 14));
    assert!(!d.is_trusted_for_topic(&addr(5), 15));
    d.update_issuer_topics(addr(5), vec![15], NOW).unwrap();
    assert!(d.is_trusted_for_topic(&addr(5), 15));
    assert_eq!(d.update_issuer_topics(addr(99), vec![1], NOW).unwrap_err(), ERC3643Error::TrustedIssuerNotFound);
    assert_eq!(d.update_issuer_topics(addr(5), vec![], NOW).unwrap_err(), ERC3643Error::InvalidArgument);
    let for_one: Vec<[u8; 32]> = d.get_issuers_for_topic(1).iter().map(|a| a.bytes).collect();
    assert_eq!(for_one.len(), 49);
    assert_eq!(for_one[0], addr(10).bytes);
}

#[test]
fn topic_set_add_remove() {
    let mut s = setup();
    assert_eq!(add_claim_topic(&s.config, addr(2), &mut s.claim_topics, 1, NOW).unwrap_err(), ERC3643Error::OwnerRoleRequired);
    add_claim_topic(&s.config, addr(1), &mut s.claim_topics, 1, NOW).unwrap();
    assert_eq!(add_claim_topic(&s.config, addr(1), &mut s.claim_topics, 1, NOW).unwrap_err(), ERC3643Error::ClaimTopicAlreadyExists);
    for t in 2..16u64 {
        s.claim_topics.add_topic(t, NOW).unwrap();
    }
    assert_eq!(s.claim_topics.add_topic(99, NOW).unwrap_err(), ERC3643Error::TooManyClaimTopics);
    remove_claim_topic(&s.config, addr(1), &mut s.claim_topics, 7, NOW).unwrap();
    assert!(!s.claim_topics.is_topic_required(7));
    assert_eq!(s.claim_topics.get_required_topics().len(), 14);
    assert_eq!(remove_claim_topic(&s.config, addr(1), &mut s.claim_topics, 7, NOW).unwrap_err(), ERC3643Error::ClaimTopicNotFound);
}

#[test]
fn agents_and_ownership() {
    let mut s = setup();
    assert_eq!(add_agent(&mut s.config, addr(2), addr(3), NOW).unwrap_err(), ERC3643Error::OwnerRoleRequired);
    assert_eq!(add_agent(&mut s.config, addr(1), Address::zero(), NOW).unwrap_err(), ERC3643Error::ZeroAddressNotAllowed);
    add_agent(&mut s.config, addr(1), addr(3), NOW).unwrap();
    assert!(s.config.is_agent(&addr(3)));
    assert!(s.config.has_agent_or_owner_role(&addr(3)));
    assert_eq!(add_agent(&mut s.config, addr(1), addr(3), NOW).unwrap_err(), ERC3643Error::InvalidArgument);
    for b in 10..19u8 {
        add_agent(&mut s.config, addr(1), addr(b), NOW).unwrap();
    }
    assert_eq!(add_agent(&mut s.config, addr(1), addr(50), NOW).unwrap_err(), ERC3643Error::TooManyTrustedIssuers);
    remove_agent(&mut s.config, addr(1), addr(3), NOW).unwrap();
    assert!(!s.config.is_agent(&addr(3)));
    assert_eq!(remove_agent(&mut s.config, addr(1), addr(3), NOW).unwrap_err(), ERC3643Error::InvalidArgument);
    assert_eq!(transfer_ownership(&mut s.config, addr(1), addr(1), NOW).unwrap_err(), ERC3643Error::InvalidArgument);
    assert_eq!(transfer_ownership(&mut s.config, addr(1), Address::zero(), NOW).unwrap_err(), ERC3643Error::ZeroAddressNotAllowed);
    transfer_ownership(&mut s.config, addr(1), addr(4), NOW).unwrap();
    assert!(s.config.is_owner(&addr(4)));
    assert_eq!(transfer_ownership(&mut s.config, addr(1), addr(5), NOW).unwrap_err(), ERC3643Error::OwnerRoleRequired);
}

#[test]
fn pause_and_enforcement_mode() {
    let mut s = setup();
    assert_eq!(set_pause_status(&mut s.config, addr(7), false, NOW).unwrap_err(), ERC3643Error::AgentRoleRequired);
    set_pause_status(&mut s.config, addr(1), false, NOW + 1).unwrap();
    assert!(!s.config.paused);
    assert_eq!(s.config.updated_at, NOW + 1);
    assert_eq!(set_enforcement_mode(&mut s.config, addr(1), EnforcementMode::Hybrid, NOW).unwrap_err(), ERC3643Error::TransferHookNotConfigured);
    assert_eq!(set_enforcement_mode(&mut s.config, addr(2), EnforcementMode::ProgramControlled, NOW).unwrap_err(), ERC3643Error::Unauthorized);
    assert_eq!(set_transfer_hook(&mut s.config, addr(2), addr(8), NOW).unwrap_err(), ERC3643Error::Unauthorized);
    set_transfer_hook(&mut s.config, addr(1), addr(8), NOW).unwrap();
    assert_eq!(s.config.enforcement_mode, EnforcementMode::TransferHook);
    set_enforcement_mode(&mut s.config, addr(1), EnforcementMode::Hybrid, NOW).unwrap();
    assert_eq!(s.config.enforcement_mode, EnforcementMode::Hybrid);
    s.config.set_transfer_hook_program(None, NOW);
    assert_eq!(s.config.validate().unwrap_err(), ERC3643Error::TransferHookNotConfigured);
}

#[test]
fn metadata_update_is_atomic() {
    let mut s = setup();
    let e = s.config.update_metadata(Some("New".to_string()), Some("x".repeat(11)), NOW).unwrap_err();
    assert_eq!(e, ERC3643Error::SymbolTooLong);
    assert_eq!(s.config.name, "Token");
    s.config.update_metadata(Some("New".to_string()), None, NOW).unwrap();
    assert_eq!(s.config.name, "New");
    assert_eq!(s.config.symbol, "TKN");
}

#[test]
fn full_and_partial_freezes() {
    let s = setup();
    let mut rec = blank_record();
    assert_eq!(set_address_frozen(&s.config, addr(7), &mut rec, addr(9), addr(2), true, NOW).unwrap_err(), ERC3643Error::AgentRoleRequired);
    set_address_frozen(&s.config, addr(1), &mut rec, addr(9), addr(2), true, NOW).unwrap();
    assert!(rec.is_address_frozen());
    assert_eq!(rec.user.bytes, addr(2).bytes);
    set_address_frozen(&s.config, addr(1), &mut rec, addr(9), addr(2), true, NOW + 1).unwrap();
    assert!(rec.is_frozen);
    assert_eq!(rec.frozen_at, NOW + 1);
    assert_eq!(freeze_partial_tokens(&s.config, addr(1), &mut rec, addr(9), addr(2), 0, NOW).unwrap_err(), ERC3643Error::InvalidAmount);
    freeze_partial_tokens(&s.config, addr(1), &mut rec, addr(9), addr(2), 30, NOW).unwrap();
    freeze_partial_tokens(&s.config, addr(1), &mut rec, addr(9), addr(2), 5, NOW).unwrap();
    assert_eq!(rec.get_frozen_amount(), 35);
    assert_eq!(freeze_partial_tokens(&s.config, addr(1), &mut rec, addr(9), addr(2), u64::MAX, NOW).unwrap_err(), ERC3643Error::ArithmeticOverflow);
    assert_eq!(unfreeze_partial_tokens(&s.config, addr(1), &mut rec, addr(2), 36, NOW).unwrap_err(), ERC3643Error::InsufficientFrozenTokens);
    assert_eq!(rec.frozen_amount, 35);
    unfreeze_partial_tokens(&s.config, addr(1), &mut rec, addr(2), 35, NOW).unwrap();
    assert_eq!(rec.frozen_amount, 0);
    assert!(rec.is_frozen);
    set_address_frozen(&s.config, addr(1), &mut rec, addr(9), addr(2), false, NOW).unwrap();
    assert!(!rec.is_frozen);
}

#[test]
fn forced_move_unfreezes_the_shortfall() {
    let mut s = setup();
    s.config.paused = false;
    let mut to = register_identity(&s.config, addr(1), addr(3), 840, NOW).unwrap();
    to.update_verification(true, NOW);
    let mut rec = blank_record();
    freeze_partial_tokens(&s.config, addr(1), &mut rec, addr(9), addr(2), 30, NOW).unwrap();
    let unfrozen = forced_transfer(&s.config, addr(1), &to, 100, &mut rec, 90, NOW).unwrap();
    assert_eq!(unfrozen, 20);
    assert_eq!(rec.frozen_amount, 10);
    let unfrozen = forced_transfer(&s.config, addr(1), &to, 100, &mut rec, 50, NOW).unwrap();
    assert_eq!(unfrozen, 0);
    assert_eq!(rec.frozen_amount, 10);
    assert_eq!(forced_transfer(&s.config, addr(1), &to, 100, &mut rec, 101, NOW).unwrap_err(), ERC3643Error::InsufficientBalance);
    assert_eq!(forced_transfer(&s.config, addr(7), &to, 100, &mut rec, 1, NOW).unwrap_err(), ERC3643Error::AgentRoleRequired);
    s.config.allow_forced_transfers = false;
    assert_eq!(forced_transfer(&s.config, addr(1), &to, 100, &mut rec, 1, NOW).unwrap_err(), ERC3643Error::Unauthorized);
}

#[test]
fn mint_and_burn_track_supply() {
    let mut s = setup();
    let mut to = register_identity(&s.config, addr(1), addr(3), 840, NOW).unwrap();
    assert_eq!(mint_tokens(&mut s.config, addr(1), &to, &s.compliance, addr(3), 0, 100, NOW).unwrap_err(), ERC3643Error::IdentityNotVerified);
    to.update_verification(true, NOW);
    assert_eq!(mint_tokens(&mut s.config, addr(1), &to, &s.compliance, addr(3), 0, 100, NOW).unwrap_err(), ERC3643Error::TokenPaused);
    s.config.paused = false;
    assert_eq!(mint_tokens(&mut s.config, addr(1), &to, &s.compliance, addr(3), 0, 0, NOW).unwrap_err(), ERC3643Error::InvalidAmount);
    mint_tokens(&mut s.config, addr(1), &to, &s.compliance, addr(3), 0, 100, NOW).unwrap();
    assert_eq!(s.config.total_supply, 100);
    s.compliance.transfer_limits.max_transfer_amount = Some(10);
    assert_eq!(mint_tokens(&mut s.config, addr(1), &to, &s.compliance, addr(3), 0, 11, NOW).unwrap_err(), ERC3643Error::TransferNotCompliant);
    s.compliance.transfer_limits.max_transfer_amount = None;
    assert_eq!(mint_tokens(&mut s.config, addr(1), &to, &s.compliance, addr(3), 0, u64::MAX, NOW).unwrap_err(), ERC3643Error::ArithmeticOverflow);
    let mut rec = blank_record();
    rec.frozen_amount = 30;
    let unfrozen = burn_tokens(&mut s.config, addr(1), 100, &mut rec, 90, NOW).unwrap();
    assert_eq!(unfrozen, 20);
    assert_eq!(rec.frozen_amount, 10);
    assert_eq!(s.config.total_supply, 10);
    assert_eq!(burn_tokens(&mut s.config, addr(1), 100, &mut rec, 11, NOW).unwrap_err(), ERC3643Error::ArithmeticUnderflow);
    assert_eq!(burn_tokens(&mut s.config, addr(1), 5, &mut rec, 6, NOW).unwrap_err(), ERC3643Error::InsufficientBalance);
    assert_eq!(rec.frozen_amount, 10);
}

#[test]
fn recovery_unfreezes_everything() {
    let mut s = setup();
    s.config.paused = false;
    let mut investor = register_identity(&s.config, addr(1), addr(2), 840, NOW).unwrap();
    investor.update_verification(true, NOW);
    let mut rec = blank_record();
    rec.frozen_amount = 40;
    let e = recovery_address(&s.config, addr(1), &investor, addr(2), addr(2), addr(4), addr(2), addr(2), 100, &mut rec, NOW).unwrap_err();
    assert_eq!(e, ERC3643Error::SameWalletRecovery);
    let e = recovery_address(&s.config, addr(1), &investor, addr(2), addr(3), addr(4), addr(2), addr(5), 100, &mut rec, NOW).unwrap_err();
    assert_eq!(e, ERC3643Error::InvalidArgument);
    let e = recovery_address(&s.config, addr(1), &investor, Address::zero(), addr(3), addr(4), addr(2), addr(3), 100, &mut rec, NOW).unwrap_err();
    assert_eq!(e, ERC3643Error::ZeroAddressNotAllowed);
    assert_eq!(rec.frozen_amount, 40);
    let (amount, unfrozen) = recovery_address(&s.config, addr(1), &investor, addr(2), addr(3), addr(4), addr(2), addr(3), 100, &mut rec, NOW).unwrap();
    assert_eq!((amount, unfrozen), (100, 40));
    assert_eq!(rec.frozen_amount, 0);
    s.config.enable_recovery = false;
    let e = recovery_address(&s.config, addr(1), &investor, addr(2), addr(3), addr(4), addr(2), addr(3), 100, &mut rec, NOW).unwrap_err();
    assert_eq!(e, ERC3643Error::RecoveryNotAllowed);
}

#[test]
fn compliance_modules_add_and_remove() {
    let mut s = setup();
    for id in 0..10u32 {
        let m = ComplianceModule { id, name: "m".to_string(), module_type: ComplianceModuleType::Custom, is_active: true, parameters: vec![] };
        s.compliance.add_module(m, NOW).unwrap();
    }
    let m = ComplianceModule { id: 10, name: "m".to_string(), module_type: ComplianceModuleType::Whitelist, is_active: true, parameters: vec![] };
    assert_eq!(s.compliance.add_module(m, NOW).unwrap_err(), ERC3643Error::TooManyTrustedIssuers);
    s.compliance.remove_module(4, NOW).unwrap();
    assert_eq!(s.compliance.modules.len(), 9);
    assert_eq!(s.compliance.remove_module(4, NOW).unwrap_err(), ERC3643Error::ComplianceModuleNotFound);
}
