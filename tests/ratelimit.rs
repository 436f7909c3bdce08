use gestetner::ratelimit::{normalise_ip_addr, ClientAddr, ClientRateLimiter, RateLimited};

#[test]
fn truncates_ipv6() {
    // 2001:470:6bd2::41:1
    let ip = ClientAddr::V6(0x2001_0470_6bd2_0000_0000_0000_0041_0001);
    let truncated = normalise_ip_addr(&ip);
    // 2001:470:6bd2::
    assert_eq!(truncated, ClientAddr::V6(0x2001_0470_6bd2_0000_0000_0000_0000_0000));
}

#[test]
fn keeps_ipv4() {
    let ip = ClientAddr::V4(0xc0a8_0001);
    assert_eq!(normalise_ip_addr(&ip), ClientAddr::V4(0xc0a8_0001));
}

#[test]
fn same_prefix_same_key() {
    let a = ClientAddr::V6(0x2001_0db8_0000_0001_0000_0000_0000_0001);
    let b = ClientAddr::V6(0x2001_0db8_0000_0001_ffff_1234_5678_9abc);
    let c = ClientAddr::V6(0x2001_0db8_0000_0002_0000_0000_0000_0001);
    assert_eq!(normalise_ip_addr(&a), normalise_ip_addr(&b));
    assert_ne!(normalise_ip_addr(&a), normalise_ip_addr(&c));
}

#[test]
fn families_never_share_a_key() {
    let v4 = ClientAddr::V4(0);
    let v6 = ClientAddr::V6(0);
    assert_ne!(normalise_ip_addr(&v4), normalise_ip_addr(&v6));
}

#[test]
fn denies_beyond_quota() {
    let limiter = ClientRateLimiter::new(2);
    let ip = ClientAddr::V4(0x0a00_0001);
    assert_eq!(limiter.check_key(&ip), Ok(()));
    assert_eq!(limiter.check_key(&ip), Ok(()));
    assert_eq!(limiter.check_key(&ip), Err(RateLimited));
}

#[test]
fn quota_is_per_key() {
    let limiter = ClientRateLimiter::new(1);
    let a = ClientAddr::V4(0x0a00_0001);
    let b = ClientAddr::V4(0x0a00_0002);
    assert_eq!(limiter.check_key(&a), Ok(()));
    assert_eq!(limiter.check_key(&a), Err(RateLimited));
    assert_eq!(limiter.check_key(&b), Ok(()));
}

#[test]
fn ipv6_subnet_shares_a_bucket() {
    let limiter = ClientRateLimiter::new(1);
    let a = ClientAddr::V6(0x2001_0db8_0000_0001_0000_0000_0000_0001);
    let b = ClientAddr::V6(0x2001_0db8_0000_0001_0000_0000_0000_0002);
    assert_eq!(limiter.check_key(&a), Ok(()));
    assert_eq!(limiter.check_key(&b), Err(RateLimited));
}

#[test]
fn admits_again_after_refill() {
    // sixty a minute: one cell comes back each second
    let limiter = ClientRateLimiter::new(60);
    let ip = ClientAddr::V4(0x0a00_0003);
    for _ in 0..60 {
        assert_eq!(limiter.check_key(&ip), Ok(()));
    }
    assert_eq!(limiter.check_key(&ip), Err(RateLimited));
    let start = std::time::Instant::now();
    while start.elapsed() < std::time::Duration::from_millis(1_100) {
        std::hint::spin_loop();
    }
    assert_eq!(limiter.check_key(&ip), Ok(()));
}
