use voiturerc::config::Config;
use voiturerc::mag::{MAG, TOUR_DEGRES};

fn identity_mag() -> MAG {
    let mut m = MAG::new(&Config::new());
    m.hard_cal = [0, 0, 0];
    m.soft_cal = [[1_000_000, 0, 0], [0, 1_000_000, 0], [0, 0, 1_000_000]];
    m.mag_decl = 0;
    m
}

#[test]
fn identity_correction_scales_raw_counts() {
    let mut m = identity_mag();
    let c = m.update_from_raw([2, 3, -4]);
    assert_eq!(c, [2_000_000, 3_000_000, -4_000_000]);
    assert_eq!(m.raw, [2, 3, -4]);
}

#[test]
fn hard_iron_offset_is_subtracted() {
    let mut m = identity_mag();
    m.hard_cal = [1_000_000, -500_000, 0];
    let c = m.update_from_raw([2, 3, 4]);
    assert_eq!(c, [1_000_000, 3_500_000, 4_000_000]);
}

#[test]
fn soft_iron_matrix_mixes_the_axes() {
    let mut m = identity_mag();
    // second column leans on X and Y
    m.soft_cal = [[1_000_000, 500_000, 0], [0, 1_000_000, 0], [0, 0, 1_000_000]];
    let c = m.update_from_raw([2, 4, 6]);
    assert_eq!(c[0], 2_000_000);
    assert_eq!(c[1], 2 * 500_000 + 4_000_000);
    assert_eq!(c[2], 6_000_000);
}

#[test]
fn heading_folds_in_the_declination() {
    let mut m = MAG::new(&Config::new());
    // the default declination is 2.44 degrees
    m.set_heading_angle(45_000_000);
    assert_eq!(m.heading, TOUR_DEGRES - 47_440_000);
}

#[test]
fn heading_is_always_in_range() {
    let mut m = identity_mag();
    let angles = [
        0i64,
        45_000_000,
        -45_000_000,
        180_000_000,
        -180_000_000,
        359_999_999,
        -359_999_999,
        1_000_000_000_000,
        -1_000_000_000_000,
    ];
    for &a in angles.iter() {
        m.set_heading_angle(a);
        assert!(m.heading >= 0);
        assert!(m.heading < TOUR_DEGRES);
    }
}

#[test]
fn heading_values_are_exact() {
    let mut m = identity_mag();
    m.set_heading_angle(-90_000_000);
    assert_eq!(m.heading, 90_000_000);
    m.set_heading_angle(90_000_000);
    assert_eq!(m.heading, 270_000_000);
    m.set_heading_angle(0);
    assert_eq!(m.heading, 0);
    m.set_heading_angle(-720_000_000);
    assert_eq!(m.heading, 0);
}

#[test]
fn gps_feedback_applies_only_nonzero_declination() {
    let mut m = MAG::new(&Config::new());
    let configured = m.mag_decl;
    m.feedback_from_gps(0);
    assert_eq!(m.mag_decl, configured);
    m.feedback_from_gps(3_100_000);
    assert_eq!(m.mag_decl, 3_100_000);
}

#[test]
fn snapshot_data_mirrors_the_estimator() {
    let mut m = identity_mag();
    m.update_from_raw([7, -8, 9]);
    m.set_heading_angle(-10_000_000);
    let d = m.to_data();
    assert_eq!(d.raw_x, 7);
    assert_eq!(d.raw_y, -8);
    assert_eq!(d.raw_z, 9);
    assert_eq!(d.heading, 10_000_000);
    let empty = MAG::empty();
    assert_eq!(empty.status, 0xFF);
    assert_eq!(empty.heading, 0);
}
