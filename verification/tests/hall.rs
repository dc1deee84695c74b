use voiturerc::hall::Hall;

#[test]
fn rising_edge_computes_speed() {
    // a 0.6 m driven wheel with 100 ms between rising edges:
    // 2 pi / 0.1 s = 62.83 rad/s, times 0.3 m and 3.6 gives 67.86 km/h
    let mut h = Hall::new();
    let rising = h.update_edge(true, 100_000);
    assert!(rising);
    assert_eq!(h.get_speed(), 67_858_398);
}

#[test]
fn angular_velocity_intermediate() {
    // the same edge timing, checked at the angular-velocity stage:
    // 6_283_185_000_000 / 100_000 = 62_831_850 micro-rad/s
    let mut h = Hall::new();
    h.update_edge(true, 100_000);
    // speed = ((62_831_850 * 300) / 1000) * 36 / 10
    assert_eq!(h.get_speed(), ((62_831_850u64 * 300) / 1000) * 36 / 10);
}

#[test]
fn no_edge_keeps_the_speed() {
    let mut h = Hall::new();
    h.update_edge(true, 100_000);
    let v = h.get_speed();
    // still high: not a rising edge
    assert!(!h.update_edge(true, 50_000));
    assert_eq!(h.get_speed(), v);
    // low: no edge either, but the state re-arms
    assert!(!h.update_edge(false, 1));
    assert_eq!(h.get_speed(), v);
    // high again: a new edge, timed at 200 ms
    assert!(h.update_edge(true, 200_000));
    assert_eq!(h.get_speed(), 33_929_197);
}

#[test]
fn zero_gap_counts_as_one_microsecond() {
    let mut h = Hall::new();
    h.update_edge(true, 0);
    assert_eq!(h.get_speed(), ((6_283_185_000_000u64 * 300) / 1000) * 36 / 10);
}

#[test]
fn fresh_sensor_reads_zero() {
    let h = Hall::new();
    assert_eq!(h.get_speed(), 0);
}
