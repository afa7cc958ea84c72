use erc3643::address::Address;
use erc3643::claims::ClaimScheme;
use erc3643::error::ERC3643Error;
use erc3643::utils::{
    days_to_seconds, hours_to_seconds, is_business_hours, is_claim_valid_time, is_expired,
    is_timestamp_valid, safe_cast_u32_to_u16, safe_cast_u64_to_u32, safe_token_math,
    seconds_of_day, truncate_string, validate_amount, validate_batch_size, validate_claim_data,
    validate_country_code, validate_data_size, validate_decimals, validate_pubkey,
    validate_string_length, weekday, TokenMathOperation,
};

#[test]
fn validators() {
    assert_eq!(validate_pubkey(&Address::zero()), Err(ERC3643Error::ZeroAddressNotAllowed));
    assert_eq!(validate_pubkey(&Address::new([0; 32]).clone()), Err(ERC3643Error::ZeroAddressNotAllowed));
    let mut b = [0u8; 32];
    b[31] = 1;
    assert_eq!(validate_pubkey(&Address::new(b)), Ok(()));
    assert_eq!(validate_amount(0), Err(ERC3643Error::InvalidAmount));
    assert_eq!(validate_amount(1), Ok(()));
    assert_eq!(validate_country_code(0), Err(ERC3643Error::InvalidCountryCode));
    assert_eq!(validate_country_code(1), Ok(()));
    assert_eq!(validate_country_code(999), Ok(()));
    assert_eq!(validate_country_code(1000), Err(ERC3643Error::InvalidCountryCode));
    assert_eq!(validate_decimals(18), Ok(()));
    assert_eq!(validate_decimals(19), Err(ERC3643Error::InvalidDecimals));
    assert_eq!(validate_string_length("abc", 3, ERC3643Error::NameTooLong), Ok(()));
    assert_eq!(validate_string_length("abcd", 3, ERC3643Error::NameTooLong), Err(ERC3643Error::NameTooLong));
    assert_eq!(validate_string_length("", 3, ERC3643Error::NameTooLong), Err(ERC3643Error::InvalidArgument));
    assert_eq!(validate_string_length("éé", 3, ERC3643Error::NameTooLong), Err(ERC3643Error::NameTooLong));
    assert_eq!(validate_data_size(&[1, 2], 2), Ok(()));
    assert_eq!(validate_data_size(&[1, 2, 3], 2), Err(ERC3643Error::DataTooLarge));
    assert_eq!(validate_claim_data(&[1], &[2], "u"), Ok(()));
    assert_eq!(validate_claim_data(&[1], &[2], ""), Err(ERC3643Error::InvalidArgument));
    assert_eq!(validate_batch_size(5, 5), Ok(()));
    assert_eq!(validate_batch_size(6, 5), Err(ERC3643Error::BatchOperationLimitExceeded));
}

#[test]
fn token_math() {
    assert_eq!(safe_token_math(TokenMathOperation::Add, 2, 3), Ok(5));
    assert_eq!(safe_token_math(TokenMathOperation::Add, u64::MAX, 1), Err(ERC3643Error::ArithmeticOverflow));
    assert_eq!(safe_token_math(TokenMathOperation::Subtract, 3, 2), Ok(1));
    assert_eq!(safe_token_math(TokenMathOperation::Subtract, 2, 3), Err(ERC3643Error::ArithmeticUnderflow));
    assert_eq!(safe_token_math(TokenMathOperation::Multiply, 4, 5), Ok(20));
    assert_eq!(safe_token_math(TokenMathOperation::Multiply, u64::MAX, 2), Err(ERC3643Error::ArithmeticOverflow));
    assert_eq!(safe_token_math(TokenMathOperation::Divide, 7, 2), Ok(3));
    assert_eq!(safe_token_math(TokenMathOperation::Divide, 7, 0), Err(ERC3643Error::InvalidArgument));
    assert_eq!(safe_cast_u64_to_u32(u32::MAX as u64), Ok(u32::MAX));
    assert_eq!(safe_cast_u64_to_u32(u32::MAX as u64 + 1), Err(ERC3643Error::ArithmeticOverflow));
    assert_eq!(safe_cast_u32_to_u16(65535), Ok(65535));
    assert_eq!(safe_cast_u32_to_u16(65536), Err(ERC3643Error::ArithmeticOverflow));
}

#[test]
fn time_helpers() {
    assert_eq!(days_to_seconds(2), 172_800);
    assert_eq!(hours_to_seconds(3), 10_800);
    assert_eq!(weekday(0), 4);
    assert_eq!(weekday(1_704_542_400), 6);
    assert_eq!(weekday(1_704_708_000), 1);
    assert_eq!(weekday(-1), 3);
    assert_eq!(seconds_of_day(-1), 86_399);
    assert_eq!(seconds_of_day(1_704_708_000), 36_000);
    assert!(is_business_hours(9, 17, 1_704_708_000));
    assert!(!is_business_hours(9, 10, 1_704_708_000));
    assert!(is_business_hours(22, 11, 1_704_708_000));
    assert!(is_claim_valid_time(10, Some(20), 20));
    assert!(!is_claim_valid_time(10, Some(20), 21));
    assert!(!is_claim_valid_time(10, None, 9));
    assert!(is_timestamp_valid(90, 10, 100));
    assert!(!is_timestamp_valid(89, 10, 100));
    assert!(!is_timestamp_valid(101, 10, 100));
    assert!(is_timestamp_valid(i64::MIN, i64::MAX, -1));
    assert!(is_expired(0, Some(5), 6));
    assert!(!is_expired(0, Some(5), 5));
    assert!(!is_expired(0, None, 6));
}

#[test]
fn scheme_codes_and_error_text() {
    assert_eq!(ClaimScheme::from_code(1), Some(ClaimScheme::ECDSA));
    assert_eq!(ClaimScheme::from_code(3), Some(ClaimScheme::Contract));
    assert_eq!(ClaimScheme::from_code(0), None);
    assert_eq!(ClaimScheme::RSA.code(), 2);
    assert_eq!(ERC3643Error::TokenPaused.message(), "Token is paused");
    assert_eq!(ERC3643Error::BlacklistViolation.message(), "Blacklist violation");
}

#[test]
fn address_comparisons() {
    let a = Address::new([3; 32]);
    let mut other = [3u8; 32];
    other[0] = 4;
    assert!(a.same_as(&Address::new([3; 32])));
    assert!(!a.same_as(&Address::new(other)));
    assert!(Address::zero().is_zero());
    assert!(!a.is_zero());
}

#[test]
fn truncation() {
    assert_eq!(truncate_string("hello", 5), "hello");
    assert_eq!(truncate_string("hello world", 8), "hello...");
    assert_eq!(truncate_string("hello", 2), "...");
    assert_eq!(truncate_string("", 0), "");
}
