//! Sensor-fusion and fail-safe actuator control for a remotely operated
//! vehicle.
//!
//! All quantities are carried as fixed-point integers: one unit is
//! `fixed::SCALE` micro-units. Angles are micro-degrees, speeds micro-km/h,
//! duty cycles micro-fractions of a PWM period.

pub mod actuator;
pub mod analog;
pub mod bits;
pub mod bus;
pub mod clock;
pub mod config;
pub mod fixed;
pub mod gps;
pub mod hall;
pub mod imu;
pub mod lte;
pub mod mag;
pub mod motor;
pub mod snapshot;
pub mod steering;
