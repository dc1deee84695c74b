use voiturerc::steering::{Steering, STEER_LEFT, STEER_MID, STEER_RIGHT};

#[test]
fn steer_map_is_piecewise_linear() {
    let mut s = Steering::new();
    assert_eq!(s.set_steer(0), STEER_MID);
    assert_eq!(s.set_steer(-1_000_000), STEER_LEFT);
    assert_eq!(s.set_steer(1_000_000), STEER_RIGHT);
    assert_eq!(s.set_steer(-500_000), 82_000);
    assert_eq!(s.set_steer(500_000), 70_000);
}

#[test]
fn out_of_range_steer_centers_the_wheels() {
    let mut s = Steering::new();
    assert_eq!(s.set_steer(1_000_001), STEER_MID);
    assert_eq!(s.set_steer(-1_000_001), STEER_MID);
    assert_eq!(s.set_steer(i64::MIN), STEER_MID);
}

#[test]
fn steering_latch_is_permanent() {
    let mut s = Steering::new();
    s.set_steer(-250_000);
    s.safe_stop();
    assert_eq!(s.duty, 0);
    assert_eq!(s.set_steer(500_000), 0);
    assert_eq!(s.duty, 0);
    assert_eq!(s.set_steer(-500_000), 0);
    assert_eq!(s.duty, 0);
}
