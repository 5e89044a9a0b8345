use stg_mamba::indicators::fibonacci::fibonacci_time_zones;

#[test]
fn test_fibonacci_time_zones() {
    let zones = fibonacci_time_zones(150);

    // Should start with 1, 2, 3, 5, 8, 13, 21, 34, 55, 89, 144
    assert_eq!(zones[0], 1);
    assert_eq!(zones[1], 2);
    assert_eq!(zones[2], 3);
    assert_eq!(zones[3], 5);
    assert_eq!(zones[4], 8);
    assert_eq!(zones[10], 144);
}

#[test]
fn fibonacci_time_zones_exact() {
    assert_eq!(fibonacci_time_zones(150), vec![1, 2, 3, 5, 8, 13, 21, 34, 55, 89, 144]);
    assert_eq!(fibonacci_time_zones(0), vec![1, 2]);
    assert_eq!(fibonacci_time_zones(2), vec![1, 2]);
    // The number of zones is capped by max_index too.
    assert_eq!(fibonacci_time_zones(3), vec![1, 2, 3]);
    assert_eq!(fibonacci_time_zones(4), vec![1, 2, 3]);
    assert_eq!(fibonacci_time_zones(5), vec![1, 2, 3, 5]);
    for w in fibonacci_time_zones(10_000).windows(3) {
        assert_eq!(w[2], w[0] + w[1]);
    }
}

#[test]
fn fibonacci_time_zones_near_usize_max() {
    let zones = fibonacci_time_zones(usize::MAX);
    assert!(zones.len() > 80);
    assert!(zones.windows(2).all(|w| w[0] < w[1]));
    let n = zones.len();
    assert!(zones[n - 1].checked_add(zones[n - 2]).is_none());
}
