use elite_presence::digits::decimal_string;
use elite_presence::discord::rpc::utils::{get_nonce, nonce_from_nanos};

#[test]
fn decimal_of_small_numbers() {
    assert_eq!(decimal_string(0), "0");
    assert_eq!(decimal_string(7), "7");
    assert_eq!(decimal_string(10), "10");
    assert_eq!(decimal_string(305), "305");
}

#[test]
fn decimal_of_largest_number() {
    assert_eq!(decimal_string(u128::MAX), u128::MAX.to_string());
}

#[test]
fn nonce_is_the_nanoseconds_in_decimal() {
    assert_eq!(nonce_from_nanos(1_700_000_000_123_456_789), "1700000000123456789");
}

#[test]
fn distinct_times_give_distinct_nonces() {
    assert_ne!(nonce_from_nanos(100), nonce_from_nanos(10));
    assert_ne!(nonce_from_nanos(1), nonce_from_nanos(11));
}

#[test]
fn nonce_now_is_a_recent_time_in_decimal() {
    let nonce = get_nonce().expect("the clock reads after the epoch");
    assert!(!nonce.is_empty());
    assert!(nonce.chars().all(|c| c.is_ascii_digit()));
    assert!(!nonce.starts_with('0'));
    let nanos: u128 = nonce.parse().unwrap();
    // after 2020-01-01
    assert!(nanos > 1_577_836_800_000_000_000);
}
