use goose::throttle::{GooseThrottle, GooseThrottleAnswer};

#[test]
fn a_full_bucket_grants_its_capacity_then_makes_users_wait() {
    let mut throttle = GooseThrottle::new(3);
    assert_eq!(throttle.acquire(), GooseThrottleAnswer::Granted);
    assert_eq!(throttle.acquire(), GooseThrottleAnswer::Granted);
    assert_eq!(throttle.acquire(), GooseThrottleAnswer::Granted);
    assert_eq!(throttle.acquire(), GooseThrottleAnswer::Wait);
    throttle.refill();
    assert_eq!(throttle.acquire(), GooseThrottleAnswer::Granted);
    assert_eq!(throttle.acquire(), GooseThrottleAnswer::Wait);
}

#[test]
fn tokens_never_pile_up_beyond_the_capacity() {
    let mut throttle = GooseThrottle::new(2);
    for _ in 0..10 {
        throttle.refill();
    }
    assert_eq!(throttle.tokens, 2);
}

#[test]
fn a_throttle_without_limit_always_grants() {
    let mut throttle = GooseThrottle::new(0);
    assert_eq!(throttle.tick_interval(), None);
    for _ in 0..100 {
        assert_eq!(throttle.acquire(), GooseThrottleAnswer::Granted);
    }
}

#[test]
fn the_clock_ticks_as_often_as_requests_are_allowed() {
    assert_eq!(GooseThrottle::new(10).tick_interval(), Some(100_000_000));
    assert_eq!(GooseThrottle::new(3).tick_interval(), Some(333_333_333));
    assert_eq!(GooseThrottle::new(1).tick_interval(), Some(1_000_000_000));
}

#[test]
fn cancelling_stops_every_user_at_once() {
    let mut throttle = GooseThrottle::new(5);
    throttle.cancel();
    assert_eq!(throttle.acquire(), GooseThrottleAnswer::Cancelled);
    assert_eq!(throttle.tokens, 5);
    let mut unlimited = GooseThrottle::new(0);
    unlimited.cancel();
    assert_eq!(unlimited.acquire(), GooseThrottleAnswer::Cancelled);
}

#[test]
fn three_seconds_at_ten_a_second_grant_no_more_than_forty() {
    // Users ask as fast as they can; the clock ticks ten times a second.
    let mut throttle = GooseThrottle::new(10);
    let mut granted = 0;
    for _tick in 0..30 {
        for _user in 0..3 {
            for _ in 0..20 {
                if throttle.acquire() == GooseThrottleAnswer::Granted {
                    granted += 1;
                }
            }
        }
        throttle.refill();
    }
    assert!(granted <= (3 + 1) * 10);
    assert_eq!(granted, 10 + 29);
}
