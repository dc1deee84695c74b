use voiturerc::analog::scale_battery;
use voiturerc::config::Config;

#[test]
fn battery_scaling_is_exact() {
    // 32768 counts at 125 uV/count through the 5x divider: 20.48 V
    assert_eq!(scale_battery(32_768, 125_000_000), 20_480_000);
    // 100 counts is the lowest trusted reading
    assert_eq!(scale_battery(100, 125_000_000), 62_500);
}

#[test]
fn rail_adjacent_counts_read_as_zero() {
    assert_eq!(scale_battery(99, 125_000_000), 0);
    assert_eq!(scale_battery(0, 125_000_000), 0);
    assert_eq!(scale_battery(65_501, 125_000_000), 0);
    assert_eq!(scale_battery(65_535, 125_000_000), 0);
    // the boundary values themselves are trusted
    assert_eq!(scale_battery(65_500, 125_000_000), 40_937_500);
}

#[test]
fn finer_gains_scale_down_the_step() {
    assert_eq!(scale_battery(1_000, 187_500_000), 937_500);
    assert_eq!(scale_battery(1_000, 7_812_500), 39_062);
}

#[test]
fn default_configuration_values() {
    let c = Config::new();
    assert_eq!(c.kp, 1_000_000);
    assert_eq!(c.ki, 1_000_000);
    assert_eq!(c.kd, 1_000_000);
    assert_eq!(c.mag_decl, 2_440_000);
    assert_eq!(c.hard_cal, [569_684_235, 246_047_980, -166_976_610]);
    assert_eq!(c.soft_cal[0], [1_084_803, -44_089, 60_704]);
    assert_eq!(c.soft_cal[1], [-44_089, 1_036_047, 93_545]);
    assert_eq!(c.soft_cal[2], [60_704, 93_545, 996_344]);
}
