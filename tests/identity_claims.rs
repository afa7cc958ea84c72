use erc3643::address::Address;
use erc3643::claims::{Claim, ClaimScheme, ClaimVerificationResult, IdentityVerificationResult, KYC, AML};
use erc3643::engine::{check_verification, verify_required_claims_coverage};
use erc3643::error::ERC3643Error;
use erc3643::identity_ops::{
    add_claim, delete_identity, register_identity, remove_claim, update_country, validate_claim,
    verify_identity,
};
use erc3643::initialize_token::{handler, TokenSetup};

const NOW: i64 = 1_704_708_000;

fn addr(b: u8) -> Address {
    Address::new([b; 32])
}

fn setup() -> TokenSetup {
    handler("Token".to_string(), "TKN".to_string(), 6, None, addr(9), addr(1), NOW).unwrap()
}

fn claim_for(identity: Address, issuer: Address, topic: u64) -> Claim {
    Claim::new(identity, issuer, topic, ClaimScheme::ECDSA, vec![1, 2], vec![3], "ipfs://c".to_string(), None, NOW)
        .unwrap()
}

#[test]
fn registration_rejects_bad_input() {
    let s = setup();
    assert_eq!(register_identity(&s.config, addr(7), addr(2), 840, NOW).unwrap_err(), ERC3643Error::AgentRoleRequired);
    assert_eq!(register_identity(&s.config, addr(1), Address::zero(), 840, NOW).unwrap_err(), ERC3643Error::ZeroAddressNotAllowed);
    assert_eq!(register_identity(&s.config, addr(1), addr(2), 0, NOW).unwrap_err(), ERC3643Error::InvalidCountryCode);
    assert_eq!(register_identity(&s.config, addr(1), addr(2), 1000, NOW).unwrap_err(), ERC3643Error::InvalidCountryCode);
    let rec = register_identity(&s.config, addr(1), addr(2), 999, NOW).unwrap();
    assert!(!rec.is_verified);
    assert_eq!(rec.claims_count, 0);
    assert_eq!(rec.registered_by.bytes, addr(1).bytes);
}

#[test]
fn kyc_claim_from_trusted_issuer_verifies() {
    let mut s = setup();
    s.claim_topics.add_topic(KYC, NOW).unwrap();
    s.trusted_issuers.add_issuer(addr(5), vec![KYC], NOW).unwrap();
    let mut rec = register_identity(&s.config, addr(1), addr(2), 840, NOW).unwrap();
    assert!(!check_verification(&rec, &vec![], &s.claim_topics, &s.trusted_issuers, NOW));
    let claim = add_claim(&mut rec, &s.trusted_issuers, &s.claim_topics, addr(5), KYC, 1, vec![1], vec![2], "uri".to_string(), None, NOW).unwrap();
    assert_eq!(claim.topic, KYC);
    let claims = vec![claim];
    assert!(check_verification(&rec, &claims, &s.claim_topics, &s.trusted_issuers, NOW));
    assert!(!check_verification(&rec, &vec![], &s.claim_topics, &s.trusted_issuers, NOW));
    assert_eq!(rec.claims_count, 1);
    assert_eq!(rec.last_verified_at, NOW);
}

#[test]
fn claim_on_non_required_topic_does_not_verify() {
    let mut s = setup();
    s.claim_topics.add_topic(KYC, NOW).unwrap();
    s.trusted_issuers.add_issuer(addr(5), vec![KYC, AML], NOW).unwrap();
    let mut rec = register_identity(&s.config, addr(1), addr(2), 840, NOW).unwrap();
    add_claim(&mut rec, &s.trusted_issuers, &s.claim_topics, addr(5), AML, 2, vec![1], vec![2], "uri".to_string(), None, NOW).unwrap();
    assert!(!rec.is_verified);
    assert_eq!(rec.claims_count, 1);
}

#[test]
fn add_claim_errors_leave_record_unchanged() {
    let mut s = setup();
    s.trusted_issuers.add_issuer(addr(5), vec![KYC], NOW).unwrap();
    let mut rec = register_identity(&s.config, addr(1), addr(2), 840, NOW).unwrap();
    let before = rec;
    let e = add_claim(&mut rec, &s.trusted_issuers, &s.claim_topics, addr(6), KYC, 1, vec![1], vec![2], "u".to_string(), None, NOW).unwrap_err();
    assert_eq!(e, ERC3643Error::IssuerRoleRequired);
    let e = add_claim(&mut rec, &s.trusted_issuers, &s.claim_topics, addr(5), KYC, 4, vec![1], vec![2], "u".to_string(), None, NOW).unwrap_err();
    assert_eq!(e, ERC3643Error::InvalidArgument);
    let e = add_claim(&mut rec, &s.trusted_issuers, &s.claim_topics, addr(5), KYC, 1, vec![0; 1025], vec![2], "u".to_string(), None, NOW).unwrap_err();
    assert_eq!(e, ERC3643Error::DataTooLarge);
    let e = add_claim(&mut rec, &s.trusted_issuers, &s.claim_topics, addr(5), KYC, 1, vec![1], vec![2; 65], "u".to_string(), None, NOW).unwrap_err();
    assert_eq!(e, ERC3643Error::DataTooLarge);
    let e = add_claim(&mut rec, &s.trusted_issuers, &s.claim_topics, addr(5), KYC, 1, vec![1], vec![2], String::new(), None, NOW).unwrap_err();
    assert_eq!(e, ERC3643Error::InvalidArgument);
    let e = add_claim(&mut rec, &s.trusted_issuers, &s.claim_topics, addr(5), KYC, 1, vec![1], vec![2], "x".repeat(201), None, NOW).unwrap_err();
    assert_eq!(e, ERC3643Error::InvalidURIFormat);
    let e = add_claim(&mut rec, &s.trusted_issuers, &s.claim_topics, addr(5), KYC, 1, vec![1], vec![2], "u".to_string(), Some(NOW), NOW).unwrap_err();
    assert_eq!(e, ERC3643Error::InvalidArgument);
    rec.claims_count = u32::MAX;
    let e = add_claim(&mut rec, &s.trusted_issuers, &s.claim_topics, addr(5), KYC, 1, vec![1], vec![2], "u".to_string(), None, NOW).unwrap_err();
    assert_eq!(e, ERC3643Error::ArithmeticOverflow);
    assert_eq!(rec.claims_count, u32::MAX);
    assert_eq!(before.updated_at, rec.updated_at);
    assert!(!rec.is_verified);
}

#[test]
fn claims_count_after_issues_and_removals() {
    let mut s = setup();
    s.trusted_issuers.add_issuer(addr(5), vec![KYC, AML], NOW).unwrap();
    let mut rec = register_identity(&s.config, addr(1), addr(2), 840, NOW).unwrap();
    let mut claims = Vec::new();
    for i in 0..5u64 {
        let topic = if i % 2 == 0 { KYC } else { AML };
        claims.push(add_claim(&mut rec, &s.trusted_issuers, &s.claim_topics, addr(5), topic, 1, vec![1], vec![2], "u".to_string(), None, NOW + i as i64).unwrap());
    }
    assert_eq!(rec.claims_count, 5);
    assert!(rec.is_verified && rec.required_claims_met);
    for claim in claims.iter().take(3) {
        remove_claim(&mut rec, claim, addr(2), NOW).unwrap();
        assert!(!rec.is_verified);
        assert!(!rec.required_claims_met);
    }
    assert_eq!(rec.claims_count, 2);
}

#[test]
fn remove_claim_errors() {
    let mut s = setup();
    s.trusted_issuers.add_issuer(addr(5), vec![KYC], NOW).unwrap();
    let mut rec = register_identity(&s.config, addr(1), addr(2), 840, NOW).unwrap();
    let claim = claim_for(addr(2), addr(5), KYC);
    assert_eq!(remove_claim(&mut rec, &claim, addr(5), NOW).unwrap_err(), ERC3643Error::ArithmeticUnderflow);
    let claim = add_claim(&mut rec, &s.trusted_issuers, &s.claim_topics, addr(5), KYC, 1, vec![1], vec![2], "u".to_string(), None, NOW).unwrap();
    assert_eq!(remove_claim(&mut rec, &claim, addr(8), NOW).unwrap_err(), ERC3643Error::Unauthorized);
    let other = claim_for(addr(3), addr(5), KYC);
    assert_eq!(remove_claim(&mut rec, &other, addr(5), NOW).unwrap_err(), ERC3643Error::InvalidArgument);
    assert_eq!(rec.claims_count, 1);
    remove_claim(&mut rec, &claim, addr(5), NOW + 1).unwrap();
    assert_eq!(rec.claims_count, 0);
    assert_eq!(rec.updated_at, NOW + 1);
}

#[test]
fn revoking_twice_fails_and_keeps_state() {
    let mut claim = claim_for(addr(2), addr(5), KYC);
    claim.revoke(addr(5), NOW + 1).unwrap();
    assert!(claim.is_revoked);
    assert_eq!(claim.revoked_at, Some(NOW + 1));
    let e = claim.revoke(addr(6), NOW + 2).unwrap_err();
    assert_eq!(e, ERC3643Error::ClaimRevoked);
    assert!(claim.is_revoked);
    assert_eq!(claim.revoked_at, Some(NOW + 1));
    assert_eq!(claim.revoked_by.unwrap().bytes, addr(5).bytes);
    assert!(!claim.is_currently_valid(NOW + 3));
    assert_eq!(claim.update_data(vec![1], vec![1]).unwrap_err(), ERC3643Error::ClaimRevoked);
}

#[test]
fn claim_expiry_and_age() {
    let claim = Claim::new(addr(2), addr(5), KYC, ClaimScheme::RSA, vec![1], vec![2], "u".to_string(), Some(NOW + 100), NOW).unwrap();
    assert!(claim.is_currently_valid(NOW + 100));
    assert!(!claim.is_currently_valid(NOW + 101));
    assert_eq!(claim.get_age(NOW + 30), 30);
    assert_eq!(claim.time_until_expiry(NOW + 30), Some(70));
    assert!(claim.is_expiring_soon(70, NOW + 30));
    assert!(!claim.is_expiring_soon(69, NOW + 30));
    assert!(!claim.is_expiring_soon(1000, NOW + 100));
    assert!(claim.matches(KYC, &addr(5)));
    assert!(!claim.matches(AML, &addr(5)));
}

#[test]
fn claim_update_data_checks_sizes() {
    let mut claim = claim_for(addr(2), addr(5), KYC);
    assert_eq!(claim.update_data(vec![0; 1025], vec![1]).unwrap_err(), ERC3643Error::DataTooLarge);
    assert_eq!(claim.data, vec![1, 2]);
    claim.update_data(vec![9; 1024], vec![8; 64]).unwrap();
    assert_eq!(claim.data.len(), 1024);
    assert_eq!(claim.signature, vec![8; 64]);
}

#[test]
fn claim_id_is_sha256_of_issuer_and_topic() {
    let claim = claim_for(addr(2), addr(7), 1);
    let expected: [u8; 32] = [
        174, 198, 196, 211, 244, 94, 217, 251, 82, 91, 188, 166, 200, 221, 16, 187, 66, 62, 119,
        163, 196, 240, 80, 22, 10, 208, 202, 52, 154, 76, 126, 80,
    ];
    assert_eq!(claim.generate_id(), expected);
    assert_eq!(erc3643::utils::generate_claim_id(&addr(7), 1), expected);
    assert_ne!(erc3643::utils::generate_claim_id(&addr(7), 2), expected);
}

#[test]
fn signature_validation_defers_to_verifier() {
    let claim = claim_for(addr(2), addr(5), KYC);
    assert_eq!(claim.validate_signature(true), Ok(true));
    assert_eq!(claim.validate_signature(false), Ok(false));
    let no_sig = Claim { signature: vec![], ..claim.clone() };
    assert_eq!(no_sig.validate_signature(true), Err(ERC3643Error::InvalidClaimSignature));
    let no_data = Claim { data: vec![], ..claim.clone() };
    assert_eq!(no_data.validate_signature(true), Err(ERC3643Error::InvalidArgument));
}

#[test]
fn claim_validation_result() {
    let mut s = setup();
    s.trusted_issuers.add_issuer(addr(5), vec![KYC], NOW).unwrap();
    let claim = claim_for(addr(2), addr(5), KYC);
    let v = validate_claim(&claim, &s.trusted_issuers, true, NOW).unwrap();
    assert!(v.is_valid && v.issuer_trusted && v.signature_valid && !v.is_expired && !v.is_revoked);
    let v = validate_claim(&claim, &s.trusted_issuers, false, NOW).unwrap();
    assert!(!v.is_valid);
    let untrusted = claim_for(addr(2), addr(6), KYC);
    let v: ClaimVerificationResult = validate_claim(&untrusted, &s.trusted_issuers, true, NOW).unwrap();
    assert!(!v.is_valid && !v.issuer_trusted);
}

#[test]
fn full_verification_pass() {
    let mut s = setup();
    s.claim_topics.add_topic(KYC, NOW).unwrap();
    s.claim_topics.add_topic(AML, NOW).unwrap();
    s.trusted_issuers.add_issuer(addr(5), vec![KYC, AML], NOW).unwrap();
    let mut rec = register_identity(&s.config, addr(1), addr(2), 840, NOW).unwrap();
    let claims = vec![claim_for(addr(2), addr(5), KYC), claim_for(addr(2), addr(6), AML), claim_for(addr(2), addr(5), KYC)];
    let r = verify_identity(&mut rec, &claims, &s.claim_topics, &s.trusted_issuers, NOW);
    assert_eq!(r.claims_checked, 3);
    assert_eq!(r.valid_claims, 2);
    assert_eq!(r.required_topics_met, vec![KYC]);
    assert_eq!(r.missing_topics, vec![AML]);
    assert!(!r.is_verified && !rec.is_verified);
    let claims = vec![claim_for(addr(2), addr(5), AML), claim_for(addr(2), addr(5), KYC)];
    let r = verify_identity(&mut rec, &claims, &s.claim_topics, &s.trusted_issuers, NOW + 5);
    assert!(r.is_verified && rec.is_verified && rec.required_claims_met);
    assert!(r.missing_topics.is_empty());
    assert_eq!(rec.last_verified_at, NOW + 5);
}

#[test]
fn verification_result_bookkeeping() {
    let mut r = IdentityVerificationResult::new(addr(2), NOW);
    r.add_valid_claim(KYC);
    r.add_valid_claim(KYC);
    assert_eq!(r.valid_claims, 2);
    assert_eq!(r.required_topics_met, vec![KYC]);
    r.add_missing_topic(AML);
    r.add_missing_topic(AML);
    assert_eq!(r.missing_topics, vec![AML]);
    r.finalize(&vec![KYC, AML, 3]);
    assert!(!r.is_verified);
    assert_eq!(r.missing_topics, vec![AML, 3]);
    r.finalize(&vec![KYC]);
    assert!(r.is_verified);
}

#[test]
fn coverage_needs_a_live_trusted_claim_per_topic() {
    let mut s = setup();
    let claims = vec![claim_for(addr(2), addr(5), KYC), claim_for(addr(3), addr(5), AML)];
    assert!(verify_required_claims_coverage(&addr(2), &vec![], &claims, &s.trusted_issuers, NOW));
    assert!(!verify_required_claims_coverage(&addr(2), &vec![KYC], &claims, &s.trusted_issuers, NOW));
    s.trusted_issuers.add_issuer(addr(5), vec![KYC, AML], NOW).unwrap();
    assert!(verify_required_claims_coverage(&addr(2), &vec![KYC], &claims, &s.trusted_issuers, NOW));
    // The AML claim belongs to another party.
    assert!(!verify_required_claims_coverage(&addr(2), &vec![KYC, AML], &claims, &s.trusted_issuers, NOW));
    let mut revoked = claims.clone();
    revoked[0].revoke(addr(5), NOW).unwrap();
    assert!(!verify_required_claims_coverage(&addr(2), &vec![KYC], &revoked, &s.trusted_issuers, NOW));
    s.trusted_issuers.issuers[0].is_active = false;
    assert!(!verify_required_claims_coverage(&addr(2), &vec![KYC], &claims, &s.trusted_issuers, NOW));
}

#[test]
fn country_update_and_deletion() {
    let s = setup();
    let mut rec = register_identity(&s.config, addr(1), addr(2), 840, NOW).unwrap();
    assert_eq!(update_country(&s.config, addr(1), &mut rec, 1000, NOW).unwrap_err(), ERC3643Error::InvalidCountryCode);
    assert_eq!(update_country(&s.config, addr(8), &mut rec, 250, NOW).unwrap_err(), ERC3643Error::AgentRoleRequired);
    assert_eq!(rec.country, 840);
    update_country(&s.config, addr(1), &mut rec, 250, NOW + 1).unwrap();
    assert_eq!(rec.country, 250);
    assert_eq!(delete_identity(&s.config, addr(1), &rec).unwrap().bytes, addr(2).bytes);
    assert_eq!(delete_identity(&s.config, addr(8), &rec).unwrap_err(), ERC3643Error::AgentRoleRequired);
}

#[test]
fn incremental_rule_verifies_on_any_one_required_topic() {
    // Issuing a claim on one mandatory topic verifies the record even while
    // another mandatory topic has no claim; a full verification pass then
    // withdraws it.
    let mut s = setup();
    s.claim_topics.add_topic(KYC, NOW).unwrap();
    s.claim_topics.add_topic(AML, NOW).unwrap();
    s.trusted_issuers.add_issuer(addr(5), vec![KYC, AML], NOW).unwrap();
    let mut rec = register_identity(&s.config, addr(1), addr(2), 840, NOW).unwrap();
    let claim = add_claim(&mut rec, &s.trusted_issuers, &s.claim_topics, addr(5), KYC, 1, vec![1], vec![2], "u".to_string(), None, NOW).unwrap();
    assert!(rec.is_verified && rec.required_claims_met);
    let r = verify_identity(&mut rec, &vec![claim], &s.claim_topics, &s.trusted_issuers, NOW + 1);
    assert_eq!(r.missing_topics, vec![AML]);
    assert!(!rec.is_verified && !rec.required_claims_met);
}
