use finance_manager::auth::{AuthDecision, FailedLogins, MAX_FAILURES, TIMEOUT};

fn token(s: &str) -> String {
    s.to_string()
}

#[test]
fn right_token_is_served() {
    let mut logins = FailedLogins::new();
    assert_eq!(logins.check_request(1, &token("secret"), &token("secret"), 100), AuthDecision::Authorized);
    assert_eq!(logins.failures_of(1), None);
}

#[test]
fn five_wrong_tokens_within_a_minute_lock_out() {
    let mut logins = FailedLogins::new();
    for i in 0..MAX_FAILURES as u64 {
        assert_eq!(logins.check_request(7, &token("guess"), &token("secret"), 1000 + i), AuthDecision::Unauthorized);
    }
    assert_eq!(logins.failures_of(7), Some(vec![1000, 1001, 1002, 1003, 1004]));
    assert!(logins.is_timeouted(7, 1010));
    assert_eq!(logins.check_request(7, &token("secret"), &token("secret"), 1010), AuthDecision::TooManyRequests);
    // other addresses are not affected
    assert_eq!(logins.check_request(8, &token("secret"), &token("secret"), 1010), AuthDecision::Authorized);
}

#[test]
fn lock_out_ends_a_minute_after_the_last_failure() {
    let mut logins = FailedLogins::new();
    for i in 0..5u64 {
        logins.timeout(3, 500 + i);
    }
    assert!(logins.is_timeouted(3, 504 + TIMEOUT));
    assert!(!logins.is_timeouted(3, 505 + TIMEOUT));
    assert_eq!(logins.check_request(3, &token("t"), &token("t"), 505 + TIMEOUT), AuthDecision::Authorized);
}

#[test]
fn slow_failures_do_not_lock_out() {
    let mut logins = FailedLogins::new();
    for i in 0..5u64 {
        logins.timeout(4, 1000 + 15 * i);
    }
    assert!(!logins.is_timeouted(4, 1061));
    // only the last five failures are remembered
    logins.timeout(4, 1070);
    assert_eq!(logins.failures_of(4), Some(vec![1015, 1030, 1045, 1060, 1070]));
    assert!(logins.is_timeouted(4, 1071));
}

#[test]
fn four_failures_are_not_enough() {
    let mut logins = FailedLogins::new();
    for i in 0..4u64 {
        logins.timeout(9, 10 + i);
    }
    assert!(!logins.is_timeouted(9, 14));
}

#[test]
fn failures_are_recorded_whatever_the_clock() {
    let mut logins = FailedLogins::new();
    logins.timeout(5, 100);
    logins.timeout(5, 40);
    assert_eq!(logins.failures_of(5), Some(vec![100, 40]));
    // a request at 30 would subtract below zero
    assert!(!logins.can_decide(5, 30));
    assert!(logins.can_decide(5, 90));
    assert!(logins.can_decide(6, 0));
    for t in [41, 42, 43] {
        logins.timeout(5, t);
    }
    assert_eq!(logins.failures_of(5), Some(vec![100, 40, 41, 42, 43]));
    // five recent failures out of order
    assert!(!logins.can_decide(5, 50));
    // long enough after the last one, the order does not matter
    assert!(logins.can_decide(5, 200));
}
