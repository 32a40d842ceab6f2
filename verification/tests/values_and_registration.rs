//! Tests for the value types and the registration heartbeat policy.

use ln_gateway::registration::{
    registration_sleep_secs, retry_decision, RetryDecision, GW_ANNOUNCEMENT_TTL_SECS,
    REGISTRATION_MAX_ATTEMPTS, REGISTRATION_RETRY_DELAY_MS,
};
use ln_gateway::values::{copy_bytes, ContractId, PaymentHash, Preimage};

#[test]
fn payment_hash_parses_exactly_32_bytes() {
    let bytes: Vec<u8> = (0..32).collect();
    let hash = PaymentHash::parse(&bytes).expect("32 bytes must parse");
    assert_eq!(hash.bytes, bytes);

    assert!(PaymentHash::parse(&Vec::new()).is_none());
    assert!(PaymentHash::parse(&vec![0u8; 10]).is_none());
    assert!(PaymentHash::parse(&vec![0u8; 31]).is_none());
    assert!(PaymentHash::parse(&vec![0u8; 33]).is_none());
}

#[test]
fn preimage_parses_exactly_32_bytes() {
    let bytes = vec![0x5au8; 32];
    let preimage = Preimage::parse(&bytes).expect("32 bytes must parse");
    assert_eq!(preimage.bytes, bytes);

    assert!(Preimage::parse(&vec![0u8; 31]).is_none());
    assert!(Preimage::parse(&vec![0u8; 33]).is_none());
}

#[test]
fn copies_preserve_the_bytes() {
    let bytes = vec![1u8, 2, 3, 4];
    assert_eq!(copy_bytes(&bytes), bytes);

    let id = ContractId { bytes: vec![9u8; 32] };
    assert_eq!(id.duplicate(), id);

    let hash = PaymentHash { bytes: vec![8u8; 32] };
    assert_eq!(hash.duplicate(), hash);
}

#[test]
fn retry_stops_on_success() {
    assert_eq!(retry_decision(true, 1, 5, 1000), RetryDecision::Succeeded);
    assert_eq!(retry_decision(true, 5, 5, 1000), RetryDecision::Succeeded);
}

#[test]
fn retry_backs_off_while_attempts_remain() {
    for attempts_made in 1..5 {
        assert_eq!(
            retry_decision(false, attempts_made, 5, 1000),
            RetryDecision::Again { delay_ms: 1000 }
        );
    }
}

#[test]
fn retry_gives_up_after_the_last_attempt() {
    assert_eq!(retry_decision(false, 5, 5, 1000), RetryDecision::GaveUp);
    assert_eq!(retry_decision(false, 6, 5, 1000), RetryDecision::GaveUp);
}

#[test]
fn registration_policy_matches_the_announcement_ttl() {
    assert_eq!(GW_ANNOUNCEMENT_TTL_SECS, 600);
    assert_eq!(REGISTRATION_MAX_ATTEMPTS, 5);
    assert_eq!(REGISTRATION_RETRY_DELAY_MS, 1000);

    // Renew with margin after a successful cycle, retry sooner after a
    // failed one.
    assert_eq!(registration_sleep_secs(true), 300);
    assert_eq!(registration_sleep_secs(false), 150);
}
