//! Input validation, checked arithmetic, time arithmetic and claim identifiers.

use vstd::prelude::*;
use vstd::string::StringSliceAdditionalSpecFns;
use vstd::utf8::is_char_boundary;
use vstd::utf8::encode_utf8;

use crate::address::{zero_bytes, Address};
use crate::error::ERC3643Error;

verus! {

/// Largest size of a claim's data blob, in bytes.
pub const MAX_CLAIM_DATA_SIZE: usize = 1024;

/// Largest size of a claim's signature blob, in bytes.
pub const MAX_CLAIM_SIGNATURE_SIZE: usize = 64;

/// Largest length of a claim URI, in bytes.
pub const MAX_URI_LENGTH: usize = 200;

/// Largest length of a token name, in bytes.
pub const MAX_NAME_LENGTH: usize = 32;

/// Largest length of a token symbol, in bytes.
pub const MAX_SYMBOL_LENGTH: usize = 10;

/// Largest number of decimals a token may have.
pub const MAX_DECIMALS: u8 = 18;

/// Largest valid ISO 3166-1 numeric country code.
pub const MAX_COUNTRY_CODE: u16 = 999;

pub const SECONDS_PER_DAY: i64 = 86400;
pub const SECONDS_PER_HOUR: i64 = 3600;
pub const SECONDS_PER_MINUTE: i64 = 60;

/// Rejects the null sentinel address.
pub fn validate_pubkey(pubkey: &Address) -> (r: Result<(), ERC3643Error>)
    ensures
        r is Ok <==> pubkey@ != zero_bytes(),
        r is Err ==> r == Err::<(), ERC3643Error>(ERC3643Error::ZeroAddressNotAllowed),
{
    if pubkey.is_zero() {
        Err(ERC3643Error::ZeroAddressNotAllowed)
    } else {
        Ok(())
    }
}

/// Rejects a zero amount.
pub fn validate_amount(amount: u64) -> (r: Result<(), ERC3643Error>)
    ensures
        r is Ok <==> amount > 0,
        r is Err ==> r == Err::<(), ERC3643Error>(ERC3643Error::InvalidAmount),
{
    if amount > 0 {
        Ok(())
    } else {
        Err(ERC3643Error::InvalidAmount)
    }
}

/// The outcome of checking a string against a byte-length bound: `error` when
/// it is longer than `max_length` bytes, `InvalidArgument` when it is empty.
pub open spec fn string_length_check(
    text: Seq<char>,
    max_length: usize,
    error: ERC3643Error,
) -> Result<(), ERC3643Error> {
    if encode_utf8(text).len() > max_length {
        Err(error)
    } else if text.len() == 0 {
        Err(ERC3643Error::InvalidArgument)
    } else {
        Ok(())
    }
}

/// Rejects a string that is too long (with `error`) or empty.
pub fn validate_string_length(s: &str, max_length: usize, error: ERC3643Error) -> (r: Result<
    (),
    ERC3643Error,
>)
    ensures
        r == string_length_check(s@, max_length, error),
{
    if s.as_bytes().len() > max_length {
        return Err(error);
    }
    if s.is_empty() {
        return Err(ERC3643Error::InvalidArgument);
    }
    Ok(())
}

/// Rejects a blob longer than `max_size` bytes.
pub fn validate_data_size(data: &[u8], max_size: usize) -> (r: Result<(), ERC3643Error>)
    ensures
        r is Ok <==> data@.len() <= max_size,
        r is Err ==> r == Err::<(), ERC3643Error>(ERC3643Error::DataTooLarge),
{
    if data.len() <= max_size {
        Ok(())
    } else {
        Err(ERC3643Error::DataTooLarge)
    }
}

/// Whether a country code is a valid ISO 3166-1 numeric code.
pub open spec fn valid_country(country: u16) -> bool {
    1 <= country <= 999
}

/// Rejects a country code outside 1..=999.
pub fn validate_country_code(country: u16) -> (r: Result<(), ERC3643Error>)
    ensures
        r is Ok <==> valid_country(country),
        r is Err ==> r == Err::<(), ERC3643Error>(ERC3643Error::InvalidCountryCode),
{
    if country > 0 && country <= MAX_COUNTRY_CODE {
        Ok(())
    } else {
        Err(ERC3643Error::InvalidCountryCode)
    }
}

/// Rejects more than 18 decimals.
pub fn validate_decimals(decimals: u8) -> (r: Result<(), ERC3643Error>)
    ensures
        r is Ok <==> decimals <= 18,
        r is Err ==> r == Err::<(), ERC3643Error>(ERC3643Error::InvalidDecimals),
{
    if decimals <= MAX_DECIMALS {
        Ok(())
    } else {
        Err(ERC3643Error::InvalidDecimals)
    }
}

/// The outcome of checking a claim's data, signature and URI sizes.
pub open spec fn claim_data_check(data: Seq<u8>, signature: Seq<u8>, uri: Seq<char>) -> Result<
    (),
    ERC3643Error,
> {
    if data.len() > MAX_CLAIM_DATA_SIZE {
        Err(ERC3643Error::DataTooLarge)
    } else if signature.len() > MAX_CLAIM_SIGNATURE_SIZE {
        Err(ERC3643Error::DataTooLarge)
    } else {
        string_length_check(uri, MAX_URI_LENGTH, ERC3643Error::InvalidURIFormat)
    }
}

/// Checks a claim's data, signature and URI against their size bounds.
pub fn validate_claim_data(data: &[u8], signature: &[u8], uri: &str) -> (r: Result<
    (),
    ERC3643Error,
>)
    ensures
        r == claim_data_check(data@, signature@, uri@),
{
    validate_data_size(data, MAX_CLAIM_DATA_SIZE)?;
    validate_data_size(signature, MAX_CLAIM_SIGNATURE_SIZE)?;
    validate_string_length(uri, MAX_URI_LENGTH, ERC3643Error::InvalidURIFormat)?;
    Ok(())
}

/// Rejects a batch larger than `max_size`.
pub fn validate_batch_size(size: usize, max_size: usize) -> (r: Result<(), ERC3643Error>)
    ensures
        r is Ok <==> size <= max_size,
        r is Err ==> r == Err::<(), ERC3643Error>(ERC3643Error::BatchOperationLimitExceeded),
{
    if size <= max_size {
        Ok(())
    } else {
        Err(ERC3643Error::BatchOperationLimitExceeded)
    }
}

/// The SHA-256 digest of a byte sequence.
pub uninterp spec fn sha256_of(data: Seq<u8>) -> Seq<u8>;

/// Relies on solana_program::hash::hash, which returns the SHA-256 digest of
/// its input as 32 bytes.
#[verifier::external_body]
fn sha256(data: &Vec<u8>) -> (r: [u8; 32])
    ensures
        r@ == sha256_of(data@),
{
    solana_program::hash::hash(data.as_slice()).to_bytes()
}

/// The little-endian encoding of a 64-bit integer.
pub open spec fn le_bytes(x: u64) -> Seq<u8> {
    Seq::new(8, |k: int| ((x >> ((8 * k) as u64)) & 0xffu64) as u8)
}

/// The bytes that identify a claim: the issuer's address followed by the topic
/// in little-endian order.
pub open spec fn claim_id_preimage(issuer: Address, topic: u64) -> Seq<u8> {
    issuer@ + le_bytes(topic)
}

/// The claim identifier of an (issuer, topic) pair: a SHA-256 digest, stable
/// for the same pair.
pub fn generate_claim_id(issuer: &Address, topic: u64) -> (r: [u8; 32])
    ensures
        r@ == sha256_of(claim_id_preimage(*issuer, topic)),
{
    let mut data: Vec<u8> = Vec::new();
    let mut i: usize = 0;
    while i < 32
        invariant
            0 <= i <= 32,
            issuer@.len() == 32,
            data@ =~= issuer@.subrange(0, i as int),
        decreases 32 - i,
    {
        data.push(issuer.bytes[i]);
        i = i + 1;
    }
    let mut k: u64 = 0;
    while k < 8
        invariant
            0 <= k <= 8,
            issuer@.len() == 32,
            data@ =~= issuer@ + le_bytes(topic).subrange(0, k as int),
        decreases 8 - k,
    {
        let b: u8 = ((topic >> (8 * k)) & 0xff) as u8;
        data.push(b);
        k = k + 1;
    }
    assert(le_bytes(topic).subrange(0, 8) =~= le_bytes(topic));
    sha256(&data)
}

/// Whether `now` lies within a claim's validity period.
pub open spec fn within_validity(issued_at: i64, expires_at: Option<i64>, now: i64) -> bool {
    &&& now >= issued_at
    &&& (expires_at matches Some(expiry) ==> now <= expiry)
}

/// Whether `now` lies within the validity period that starts at `issued_at`
/// and ends at `expires_at`, if any.
pub fn is_claim_valid_time(issued_at: i64, expires_at: Option<i64>, now: i64) -> (r: bool)
    ensures
        r == within_validity(issued_at, expires_at, now),
{
    match expires_at {
        Some(expiry) => now >= issued_at && now <= expiry,
        None => now >= issued_at,
    }
}

/// Whether `timestamp` is at most `max_age_seconds` old and not in the future.
pub fn is_timestamp_valid(timestamp: i64, max_age_seconds: i64, now: i64) -> (r: bool)
    ensures
        r == (0 <= now - timestamp <= max_age_seconds),
{
    let age: i128 = now as i128 - timestamp as i128;
    age >= 0 && age <= max_age_seconds as i128
}

/// Whether `now` is past `expiry`; no expiry never passes.
pub fn is_expired(timestamp: i64, expiry: Option<i64>, now: i64) -> (r: bool)
    ensures
        r == (expiry matches Some(exp) && now > exp),
{
    match expiry {
        Some(exp) => now > exp,
        None => false,
    }
}

/// An arithmetic operation on token amounts.
#[derive(Clone, Copy, Debug, PartialEq, Eq, Structural)]
pub enum TokenMathOperation {
    Add,
    Subtract,
    Multiply,
    Divide,
}

/// The result of a token-amount operation: the exact value when it fits in 64
/// bits, else the overflow or underflow error; division by zero is rejected.
pub open spec fn token_math(operation: TokenMathOperation, a: u64, b: u64) -> Result<
    u64,
    ERC3643Error,
> {
    match operation {
        TokenMathOperation::Add => if a + b <= u64::MAX {
            Ok((a + b) as u64)
        } else {
            Err(ERC3643Error::ArithmeticOverflow)
        },
        TokenMathOperation::Subtract => if a >= b {
            Ok((a - b) as u64)
        } else {
            Err(ERC3643Error::ArithmeticUnderflow)
        },
        TokenMathOperation::Multiply => if a * b <= u64::MAX {
            Ok((a * b) as u64)
        } else {
            Err(ERC3643Error::ArithmeticOverflow)
        },
        TokenMathOperation::Divide => if b == 0 {
            Err(ERC3643Error::InvalidArgument)
        } else {
            Ok((a / b) as u64)
        },
    }
}

/// Adds, subtracts, multiplies or divides two amounts without wrapping.
pub fn safe_token_math(operation: TokenMathOperation, a: u64, b: u64) -> (r: Result<
    u64,
    ERC3643Error,
>)
    ensures
        r == token_math(operation, a, b),
{
    match operation {
        TokenMathOperation::Add => match a.checked_add(b) {
            Some(v) => Ok(v),
            None => Err(ERC3643Error::ArithmeticOverflow),
        },
        TokenMathOperation::Subtract => match a.checked_sub(b) {
            Some(v) => Ok(v),
            None => Err(ERC3643Error::ArithmeticUnderflow),
        },
        TokenMathOperation::Multiply => match a.checked_mul(b) {
            Some(v) => Ok(v),
            None => Err(ERC3643Error::ArithmeticOverflow),
        },
        TokenMathOperation::Divide => {
            if b == 0 {
                return Err(ERC3643Error::InvalidArgument);
            }
            Ok(a / b)
        },
    }
}

/// Narrows a 64-bit value to 32 bits, rejecting one that does not fit.
pub fn safe_cast_u64_to_u32(value: u64) -> (r: Result<u32, ERC3643Error>)
    ensures
        value <= u32::MAX ==> r == Ok::<u32, ERC3643Error>(value as u32),
        value > u32::MAX ==> r == Err::<u32, ERC3643Error>(ERC3643Error::ArithmeticOverflow),
{
    if value <= u32::MAX as u64 {
        Ok(value as u32)
    } else {
        Err(ERC3643Error::ArithmeticOverflow)
    }
}

/// Narrows a 32-bit value to 16 bits, rejecting one that does not fit.
pub fn safe_cast_u32_to_u16(value: u32) -> (r: Result<u16, ERC3643Error>)
    ensures
        value <= u16::MAX ==> r == Ok::<u16, ERC3643Error>(value as u16),
        value > u16::MAX ==> r == Err::<u16, ERC3643Error>(ERC3643Error::ArithmeticOverflow),
{
    if value <= u16::MAX as u32 {
        Ok(value as u16)
    } else {
        Err(ERC3643Error::ArithmeticOverflow)
    }
}

/// A number of days in seconds.
pub fn days_to_seconds(days: u32) -> (r: i64)
    ensures
        r == days * 86400,
{
    (days as i64) * SECONDS_PER_DAY
}

/// A number of hours in seconds.
pub fn hours_to_seconds(hours: u32) -> (r: i64)
    ensures
        r == hours * 3600,
{
    (hours as i64) * SECONDS_PER_HOUR
}

/// Seconds since midnight UTC of a Unix timestamp.
pub open spec fn time_of_day(timestamp: i64) -> int {
    (timestamp as int) % 86400
}

/// Day of the week of a Unix timestamp, 0 for Sunday to 6 for Saturday
/// (1 January 1970 was a Thursday).
pub open spec fn day_of_week(timestamp: i64) -> int {
    ((timestamp as int) / 86400 + 4) % 7
}

/// Seconds since midnight UTC of a Unix timestamp.
pub fn seconds_of_day(timestamp: i64) -> (r: u32)
    ensures
        r == time_of_day(timestamp),
        r < 86400,
{
    match timestamp.checked_rem_euclid(SECONDS_PER_DAY) {
        Some(t) => t as u32,
        None => 0,
    }
}

/// Day of the week of a Unix timestamp, 0 for Sunday to 6 for Saturday.
pub fn weekday(timestamp: i64) -> (r: u8)
    ensures
        r == day_of_week(timestamp),
        r < 7,
{
    let days: i64 = match timestamp.checked_div_euclid(SECONDS_PER_DAY) {
        Some(d) => d,
        None => 0,
    };
    assert(days == (timestamp as int) / 86400);
    assert(-106751991167301 <= days <= 106751991167300) by (nonlinear_arith)
        requires
            days == (timestamp as int) / 86400,
            i64::MIN <= timestamp <= i64::MAX,
    ;
    match (days + 4).checked_rem_euclid(7) {
        Some(d) => d as u8,
        None => 0,
    }
}

/// Whether the hour of the day of `now` (UTC) lies in `[start_hour, end_hour)`;
/// when `start_hour > end_hour` the period runs over midnight.
pub fn is_business_hours(start_hour: u8, end_hour: u8, now: i64) -> (r: bool)
    ensures
        ({
            let hour = time_of_day(now) / 3600;
            r == if start_hour <= end_hour {
                start_hour <= hour < end_hour
            } else {
                hour >= start_hour || hour < end_hour
            }
        }),
{
    let seconds_today: u32 = seconds_of_day(now);
    let current_hour: u32 = seconds_today / 3600;
    if start_hour <= end_hour {
        current_hour >= start_hour as u32 && current_hour < end_hour as u32
    } else {
        current_hour >= start_hour as u32 || current_hour < end_hour as u32
    }
}

/// Whether a list of topics holds `topic`.
pub fn contains_topic(topics: &Vec<u64>, topic: u64) -> (r: bool)
    ensures
        r == topics@.contains(topic),
{
    let mut i: usize = 0;
    while i < topics.len()
        invariant
            0 <= i <= topics@.len(),
            forall|j: int| 0 <= j < i ==> topics@[j] != topic,
        decreases topics@.len() - i,
    {
        if topics[i] == topic {
            assert(topics@[i as int] == topic);
            return true;
        }
        i = i + 1;
    }
    false
}

/// Whether some address of a list holds the same bytes as `address`.
pub open spec fn address_listed(list: Seq<Address>, address: Address) -> bool {
    exists|i: int| 0 <= i < list.len() && (#[trigger] list[i])@ == address@
}

/// Whether some address of a list holds the same bytes as `address`.
pub fn contains_address(list: &Vec<Address>, address: &Address) -> (r: bool)
    ensures
        r == address_listed(list@, *address),
{
    let mut i: usize = 0;
    while i < list.len()
        invariant
            0 <= i <= list@.len(),
            forall|j: int| 0 <= j < i ==> (#[trigger] list@[j])@ != address@,
        decreases list@.len() - i,
    {
        if list[i].same_as(address) {
            return true;
        }
        i = i + 1;
    }
    false
}

/// The byte offset at which `truncate_string` cuts a string for `max_len`.
pub open spec fn truncation_point(max_len: usize) -> int {
    if max_len >= 3 {
        max_len - 3
    } else {
        0
    }
}

/// `s` itself when it fits in `max_len` bytes; otherwise its first
/// `max_len - 3` bytes (none when `max_len < 3`) followed by "...". The cut
/// must fall on a character boundary.
pub fn truncate_string(s: &str, max_len: usize) -> (r: String)
    requires
        s.len() > max_len ==> is_char_boundary(s.spec_bytes(), truncation_point(max_len)),
    ensures
        s.len() <= max_len ==> r@ == s@,
        s.len() > max_len ==> exists|head: Seq<char>|
            r@ == head + "..."@ && encode_utf8(head) == s.spec_bytes().subrange(
                0,
                truncation_point(max_len),
            ),
{
    if s.len() <= max_len {
        s.to_owned()
    } else {
        let cut: usize = max_len.saturating_sub(3);
        let (head, _rest) = s.split_at(cut);
        let mut r = head.to_owned();
        r.append("...");
        assert(r@ == head@ + "..."@);
        assert(encode_utf8(head@) == head.spec_bytes());
        r
    }
}

} // verus!
