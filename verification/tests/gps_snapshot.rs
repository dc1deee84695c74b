use voiturerc::gps::{split_frame, GPSData};
use voiturerc::imu::IMUData;
use voiturerc::lte::LTEData;
use voiturerc::mag::MAG;
use voiturerc::snapshot::{AnalogData, SensorsData};

#[test]
fn split_frame_takes_the_first_line() {
    let buffer: Vec<u8> = b"abc\ndef".to_vec();
    let (frame, rest) = split_frame(&buffer).unwrap();
    assert_eq!(frame, b"abc\n".to_vec());
    assert_eq!(rest, b"def".to_vec());
}

#[test]
fn split_frame_without_newline_waits() {
    let buffer: Vec<u8> = b"abc".to_vec();
    assert!(split_frame(&buffer).is_none());
    assert!(split_frame(&Vec::new()).is_none());
}

#[test]
fn split_frame_edge_shapes() {
    let (frame, rest) = split_frame(&b"\nxy".to_vec()).unwrap();
    assert_eq!(frame, b"\n".to_vec());
    assert_eq!(rest, b"xy".to_vec());

    let (frame, rest) = split_frame(&b"ab\n".to_vec()).unwrap();
    assert_eq!(frame, b"ab\n".to_vec());
    assert!(rest.is_empty());

    // only the first newline ends the frame
    let (frame, rest) = split_frame(&b"a\nb\n".to_vec()).unwrap();
    assert_eq!(frame, b"a\n".to_vec());
    assert_eq!(rest, b"b\n".to_vec());
}

#[test]
fn gga_records_update_the_position_only() {
    let mut d = GPSData::empty();
    d.apply_vtg(Some(12_000_000), Some(90_000_000));
    d.apply_gga(Some(48_856_600), Some(2_352_200), Some(7), true);
    assert_eq!(d.latitude, 48_856_600);
    assert_eq!(d.longitude, 2_352_200);
    assert_eq!(d.satellites, 7);
    assert!(d.fix);
    assert_eq!(d.speed_kmh, 12_000_000);
    assert_eq!(d.heading, 90_000_000);
}

#[test]
fn absent_fields_read_as_zero() {
    let mut d = GPSData::empty();
    d.apply_gga(Some(1), Some(2), Some(3), true);
    d.apply_gga(None, None, None, false);
    assert_eq!(d.latitude, 0);
    assert_eq!(d.longitude, 0);
    assert_eq!(d.satellites, 0);
    assert!(!d.fix);
    d.apply_vtg(Some(5), Some(6));
    d.apply_vtg(None, None);
    assert_eq!(d.speed_kmh, 0);
    assert_eq!(d.heading, 0);
}

#[test]
fn merge_keeps_last_known_values_on_failure() {
    let mut snapshot = SensorsData::empty();
    let imu = IMUData { status: 0, ax: 1, ay: 2, az: 3, temp: 25_000 };
    let analog = AnalogData { battery: 12_600_000 };
    snapshot.merge(Some(imu), None, None, Some(analog), 100);
    assert_eq!(snapshot.imu, imu);
    assert_eq!(snapshot.analog, analog);
    assert_eq!(snapshot.time, 100);
    // the magnetometer never reported: still the empty reading
    assert_eq!(snapshot.mag.status, 0xFF);

    // next cycle the IMU fails: its field stays at the last known value
    let mag = MAG::empty();
    snapshot.merge(None, None, Some(mag), None, 101);
    assert_eq!(snapshot.imu, imu);
    assert_eq!(snapshot.analog, analog);
    assert_eq!(snapshot.mag, mag);
    assert_eq!(snapshot.time, 101);
}

#[test]
fn absent_modem_reading() {
    let d = LTEData::empty();
    assert_eq!(d.status, 0xFF);
    assert_eq!(d.power, 999);
}
