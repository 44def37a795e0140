use bitswap_net::timeout::send_timeout;

#[test]
fn timeout_floor_at_zero() {
    assert_eq!(send_timeout(0), 2_000);
}

#[test]
fn timeout_floor_for_small_messages() {
    // Under one second of transfer time the floor still wins.
    assert_eq!(send_timeout(12_499), 2_000);
    // Exactly one second of transfer time reaches the floor from below.
    assert_eq!(send_timeout(12_500), 2_000);
}

#[test]
fn timeout_ceiling_for_huge_messages() {
    assert_eq!(send_timeout(usize::MAX), 60_000);
    // 59 whole seconds of transfer time plus the base second hit the ceiling.
    assert_eq!(send_timeout(59 * 12_500), 60_000);
}

#[test]
fn timeout_unclamped_region_is_exact() {
    // 125 000 bytes: ten seconds of transfer plus one second of latency.
    assert_eq!(send_timeout(125_000), 11_000);
    // 25 000 bytes: two seconds of transfer plus one second of latency.
    assert_eq!(send_timeout(25_000), 3_000);
}

#[test]
fn timeout_monotone_samples() {
    let mut last = 0;
    for size in [0usize, 1, 12_500, 25_000, 125_000, 700_000, 800_000, usize::MAX] {
        let t = send_timeout(size);
        assert!(t >= last, "timeout decreased at size {}", size);
        last = t;
    }
}
