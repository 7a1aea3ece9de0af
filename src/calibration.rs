//! Calibration data and colors read from the controller's SPI flash, and the
//! argument blocks of SPI flash reads.
pub mod imu;
pub mod spi;
pub mod stick;
