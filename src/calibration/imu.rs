use vstd::prelude::*;

use crate::bytes::{all_bytes_equal, all_equal, copy_range, i16_from_le, i16_le};
use crate::calibration::spi::{spi_reply_matches, spi_reply_matches_spec, SPI_DATA_OFFSET};

verus! {

/// Address and length of the factory 6-axis calibration.
pub const FACTORY_CALIBRATION_ADDRESS: u16 = 0x6020;
pub const FACTORY_CALIBRATION_LENGTH: u8 = 24;

/// Address and length of the user 6-axis calibration.
pub const USER_CALIBRATION_ADDRESS: u16 = 0x8028;
pub const USER_CALIBRATION_LENGTH: u8 = 24;

/// Address and length of the 6-axis horizontal offsets.
pub const OFFSETS_ADDRESS: u16 = 0x6080;
pub const OFFSETS_LENGTH: u8 = 6;

/// A value for each of the three axes.
#[derive(Debug, Clone, Copy, Hash, Eq, PartialEq, Structural)]
pub struct XYZ<T> {
    pub x: T,
    pub y: T,
    pub z: T,
}

/// Three 16-bit values, low byte first, from `start` on.
pub open spec fn xyz_spec(s: Seq<u8>, start: int) -> XYZ<i16> {
    XYZ {
        x: i16_le(s[start], s[start + 1]),
        y: i16_le(s[start + 2], s[start + 3]),
        z: i16_le(s[start + 4], s[start + 5]),
    }
}

fn xyz_at(s: &[u8], start: usize) -> (r: XYZ<i16>)
    requires
        start + 6 <= s@.len(),
    ensures
        r == xyz_spec(s@, start as int),
{
    XYZ {
        x: i16_from_le(s[start], s[start + 1]),
        y: i16_from_le(s[start + 2], s[start + 3]),
        z: i16_from_le(s[start + 4], s[start + 5]),
    }
}

/// Calibration of the 6-axis sensor, if the controller has one.
#[derive(Debug, Clone, Copy, Hash, Eq, PartialEq, Structural)]
pub enum IMUCalibration {
    Available {
        /// Accelerometer origin when the controller lies flat, stick up
        acc_origin_position: XYZ<i16>,
        /// Accelerometer sensitivity coefficient, for the default ±8G
        acc_sensitivity_special_coeff: XYZ<i16>,
        /// Gyroscope origin when still
        gyro_origin_position: XYZ<i16>,
        /// Gyroscope sensitivity coefficient, for the default ±2000dps
        gyro_sensitivity_special_coeff: XYZ<i16>,
    },
    Unavailable,
}

/// A block of all `0xFF` holds no calibration; otherwise four triples of
/// 16-bit values follow one another.
pub open spec fn imu_calibration_spec(value: Seq<u8>) -> IMUCalibration {
    if all_equal(value, 0xFF) {
        IMUCalibration::Unavailable
    } else {
        IMUCalibration::Available {
            acc_origin_position: xyz_spec(value, 0),
            acc_sensitivity_special_coeff: xyz_spec(value, 6),
            gyro_origin_position: xyz_spec(value, 12),
            gyro_sensitivity_special_coeff: xyz_spec(value, 18),
        }
    }
}

impl IMUCalibration {
    pub fn from(value: [u8; 24]) -> (r: IMUCalibration)
        ensures
            r == imu_calibration_spec(value@),
    {
        if all_bytes_equal(&value, 0xFF) {
            return IMUCalibration::Unavailable;
        }
        IMUCalibration::Available {
            acc_origin_position: xyz_at(&value, 0),
            acc_sensitivity_special_coeff: xyz_at(&value, 6),
            gyro_origin_position: xyz_at(&value, 12),
            gyro_sensitivity_special_coeff: xyz_at(&value, 18),
        }
    }

    pub fn acc_origin_position(&self) -> (r: Option<XYZ<i16>>)
        ensures
            r == match *self {
                IMUCalibration::Available { acc_origin_position, .. } => Some(acc_origin_position),
                IMUCalibration::Unavailable => None,
            },
    {
        match self {
            IMUCalibration::Available { acc_origin_position, .. } => Some(*acc_origin_position),
            IMUCalibration::Unavailable => None,
        }
    }

    pub fn acc_sensitivity_special_coeff(&self) -> (r: Option<XYZ<i16>>)
        ensures
            r == match *self {
                IMUCalibration::Available { acc_sensitivity_special_coeff, .. } => Some(
                    acc_sensitivity_special_coeff,
                ),
                IMUCalibration::Unavailable => None,
            },
    {
        match self {
            IMUCalibration::Available { acc_sensitivity_special_coeff, .. } => Some(
                *acc_sensitivity_special_coeff,
            ),
            IMUCalibration::Unavailable => None,
        }
    }

    pub fn gyro_origin_position(&self) -> (r: Option<XYZ<i16>>)
        ensures
            r == match *self {
                IMUCalibration::Available { gyro_origin_position, .. } => Some(gyro_origin_position),
                IMUCalibration::Unavailable => None,
            },
    {
        match self {
            IMUCalibration::Available { gyro_origin_position, .. } => Some(*gyro_origin_position),
            IMUCalibration::Unavailable => None,
        }
    }

    pub fn gyro_sensitivity_special_coeff(&self) -> (r: Option<XYZ<i16>>)
        ensures
            r == match *self {
                IMUCalibration::Available { gyro_sensitivity_special_coeff, .. } => Some(
                    gyro_sensitivity_special_coeff,
                ),
                IMUCalibration::Unavailable => None,
            },
    {
        match self {
            IMUCalibration::Available { gyro_sensitivity_special_coeff, .. } => Some(
                *gyro_sensitivity_special_coeff,
            ),
            IMUCalibration::Unavailable => None,
        }
    }
}

/// Offsets of the 6-axis sensor when held flat.
#[derive(Debug, Clone, Copy, Hash, Eq, PartialEq, Structural)]
pub struct IMUOffsets {
    pub x: i16,
    pub y: i16,
    pub z: i16,
}

impl IMUOffsets {
    pub fn from(array: [u8; 6]) -> (r: IMUOffsets)
        ensures
            r.x == i16_le(array[0], array[1]),
            r.y == i16_le(array[2], array[3]),
            r.z == i16_le(array[4], array[5]),
    {
        IMUOffsets {
            x: i16_from_le(array[0], array[1]),
            y: i16_from_le(array[2], array[3]),
            z: i16_from_le(array[4], array[5]),
        }
    }
}

/// The factory calibration in a reply to its SPI flash read, if the reply
/// answers that read.
pub fn get_factory_calibration(reply: &[u8; 64]) -> (r: Option<IMUCalibration>)
    ensures
        spi_reply_matches_spec(reply@, FACTORY_CALIBRATION_ADDRESS, FACTORY_CALIBRATION_LENGTH)
            ==> r == Some(imu_calibration_spec(reply@.subrange(20, 44))),
        !spi_reply_matches_spec(reply@, FACTORY_CALIBRATION_ADDRESS, FACTORY_CALIBRATION_LENGTH)
            ==> r is None,
{
    if !spi_reply_matches(reply, FACTORY_CALIBRATION_ADDRESS, FACTORY_CALIBRATION_LENGTH) {
        return None;
    }
    let block: [u8; 24] = copy_range(reply, SPI_DATA_OFFSET);
    Some(IMUCalibration::from(block))
}

/// The user calibration in a reply to its SPI flash read, if the reply
/// answers that read.
pub fn get_user_calibration(reply: &[u8; 64]) -> (r: Option<IMUCalibration>)
    ensures
        spi_reply_matches_spec(reply@, USER_CALIBRATION_ADDRESS, USER_CALIBRATION_LENGTH) ==> r
            == Some(imu_calibration_spec(reply@.subrange(20, 44))),
        !spi_reply_matches_spec(reply@, USER_CALIBRATION_ADDRESS, USER_CALIBRATION_LENGTH) ==> r is None,
{
    if !spi_reply_matches(reply, USER_CALIBRATION_ADDRESS, USER_CALIBRATION_LENGTH) {
        return None;
    }
    let block: [u8; 24] = copy_range(reply, SPI_DATA_OFFSET);
    Some(IMUCalibration::from(block))
}

/// The offsets in a reply to their SPI flash read, if the reply answers that
/// read.
pub fn get_offsets(reply: &[u8; 64]) -> (r: Option<IMUOffsets>)
    ensures
        spi_reply_matches_spec(reply@, OFFSETS_ADDRESS, OFFSETS_LENGTH) ==> r == Some(
            IMUOffsets {
                x: i16_le(reply[20], reply[21]),
                y: i16_le(reply[22], reply[23]),
                z: i16_le(reply[24], reply[25]),
            },
        ),
        !spi_reply_matches_spec(reply@, OFFSETS_ADDRESS, OFFSETS_LENGTH) ==> r is None,
{
    if !spi_reply_matches(reply, OFFSETS_ADDRESS, OFFSETS_LENGTH) {
        return None;
    }
    let block: [u8; 6] = copy_range(reply, SPI_DATA_OFFSET);
    Some(IMUOffsets::from(block))
}

} // verus!
