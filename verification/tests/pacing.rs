use loadgen::category::CategoryStats;
use loadgen::continuous::Fraction;
use loadgen::pacing::{Permission, RateLimiter};

#[test]
fn limiter_grants_the_first_request_at_once() {
    let mut limiter = RateLimiter::new(2_000_000_000);
    assert_eq!(Permission::Granted, limiter.request(0));
}

#[test]
fn limiter_spaces_permissions_by_the_interval() {
    let mut limiter = RateLimiter::new(100);
    let mut granted = Vec::new();
    let mut now = 40;
    while granted.len() < 5 {
        match limiter.request(now) {
            Permission::Granted => granted.push(now),
            Permission::Wait { nanos } => now += nanos,
        }
    }
    assert_eq!(vec![40, 140, 240, 340, 440], granted);
}

#[test]
fn limiter_tells_how_long_to_wait() {
    let mut limiter = RateLimiter::new(100);
    assert_eq!(Permission::Granted, limiter.request(1_000));
    assert_eq!(Permission::Wait { nanos: 100 }, limiter.request(1_000));
    assert_eq!(Permission::Wait { nanos: 70 }, limiter.request(1_030));
    assert_eq!(Permission::Wait { nanos: 1 }, limiter.request(1_099));
    assert_eq!(Permission::Wait { nanos: 100 }, limiter.request(999));
    assert_eq!(Permission::Granted, limiter.request(1_100));
    assert_eq!(Permission::Wait { nanos: 100 }, limiter.request(1_100));
}

#[test]
fn limiter_with_no_interval_always_grants() {
    let mut limiter = RateLimiter::new(0);
    assert_eq!(Permission::Granted, limiter.request(5));
    assert_eq!(Permission::Granted, limiter.request(5));
}

#[test]
fn limiter_at_the_end_of_the_clock() {
    let mut limiter = RateLimiter::new(u64::MAX);
    assert_eq!(Permission::Granted, limiter.request(0));
    assert_eq!(Permission::Wait { nanos: 1 }, limiter.request(u64::MAX - 1));
    assert_eq!(Permission::Granted, limiter.request(u64::MAX));
}

#[test]
fn fraction_needs_a_denominator() {
    assert_eq!(None, Fraction::new(1, 0));
    let half = Fraction::new(1, 2).unwrap();
    assert_eq!((1, 2, 0), (half.numerator(), half.denominator(), half.floor()));
}

#[test]
fn default_histogram_is_empty() {
    let stats = CategoryStats::default();
    assert_eq!(0, stats.distinct());
    assert_eq!(Vec::<(u64, usize)>::new(), stats.entries());
    let counted = CategoryStats::new(vec![7, 7, 9]);
    assert_eq!(vec![(7, 2), (9, 1)], counted.entries());
}
