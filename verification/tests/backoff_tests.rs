use immich_background::backoff::backoff_delay;

#[test]
fn first_attempt_waits_two_seconds() {
    assert_eq!(backoff_delay(1), 2000);
}

#[test]
fn delay_is_linear_in_the_attempt() {
    assert_eq!(backoff_delay(2), 4000);
    assert_eq!(backoff_delay(3), 6000);
    assert_eq!(backoff_delay(4), 8000);
    assert_eq!(backoff_delay(5), 10000);
}

#[test]
fn delay_is_monotonically_non_decreasing() {
    let mut previous: u64 = 0;
    for attempt in 1..=100u64 {
        let d = backoff_delay(attempt);
        assert!(d >= previous);
        previous = d;
    }
}

#[test]
fn delay_is_at_least_one_millisecond() {
    assert_eq!(backoff_delay(0), 1);
}
