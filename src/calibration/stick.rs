use vstd::prelude::*;

use crate::bytes::{all_bytes_equal, all_equal, copy_range};
use crate::calibration::spi::{spi_reply_matches, spi_reply_matches_spec, SPI_DATA_OFFSET};

verus! {

/// Address and length of the factory stick calibration.
pub const FACTORY_CALIBRATION_ADDRESS: u16 = 0x603D;
pub const FACTORY_CALIBRATION_LENGTH: u8 = 18;

/// Address and length of the user stick calibration.
pub const USER_CALIBRATION_ADDRESS: u16 = 0x8012;
pub const USER_CALIBRATION_LENGTH: u8 = 20;

/// Address and length of the stick parameters.
pub const PARAMETERS_ADDRESS: u16 = 0x6086;
pub const PARAMETERS_LENGTH: u8 = 18;

/// The low 12-bit value of a packed pair: all of `lo`, low nibble of `hi`.
pub open spec fn low12(lo: u8, hi: u8) -> u16 {
    (lo as int + (hi as int % 16) * 256) as u16
}

/// The high 12-bit value of a packed pair: high nibble of `lo`, all of `hi`.
pub open spec fn high12(lo: u8, hi: u8) -> u16 {
    (lo as int / 16 + hi as int * 16) as u16
}

/// Value `i` of the 12-bit values packed two to three bytes in `s`.
pub open spec fn packed12(s: Seq<u8>, i: int) -> u16 {
    let base = 3 * (i / 2);
    if i % 2 == 0 {
        low12(s[base], s[base + 1])
    } else {
        high12(s[base + 1], s[base + 2])
    }
}

fn low12_of(lo: u8, hi: u8) -> (r: u16)
    ensures
        r == low12(lo, hi),
        r < 4096,
{
    let r = (((hi as u16) << 8u16) & 0xF00u16) | (lo as u16);
    assert((((hi as u16) << 8u16) & 0xF00u16) | (lo as u16) == (lo as int + (hi as int % 16)
        * 256) as u16) by (bit_vector);
    r
}

fn high12_of(lo: u8, hi: u8) -> (r: u16)
    ensures
        r == high12(lo, hi),
        r < 4096,
{
    let r = ((hi as u16) << 4u16) | ((lo as u16) >> 4u16);
    assert(((hi as u16) << 4u16) | ((lo as u16) >> 4u16) == (lo as int / 16 + hi as int * 16) as u16)
        by (bit_vector);
    r
}

/// Unpacks values `2k` and `2k + 1` from bytes `start + 3k ..`.
fn unpack(s: &[u8], start: usize, i: usize) -> (r: u16)
    requires
        i < 12,
        start + 3 * (i / 2) + 3 <= s@.len(),
    ensures
        r == packed12(s@.subrange(start as int, s@.len() as int), i as int),
        r < 4096,
{
    let len = s.len();
    assert(len == s@.len());
    let base = start + 3 * (i / 2);
    if i % 2 == 0 {
        low12_of(s[base], s[base + 1])
    } else {
        high12_of(s[base + 1], s[base + 2])
    }
}

/// Calibration of one stick axis.
#[derive(Debug, Clone, Copy, Hash, Eq, PartialEq, Structural)]
pub struct AxisCalibration {
    pub max: i16,
    pub center: i16,
    pub min: i16,
}

impl AxisCalibration {
    pub open spec fn spec_max(self) -> i16 {
        self.max
    }

    pub open spec fn spec_center(self) -> i16 {
        self.center
    }

    pub open spec fn spec_min(self) -> i16 {
        self.min
    }

    /// Highest value: center plus the offset above it.
    pub fn max(&self) -> (r: i16)
        ensures
            r == self.spec_max(),
    {
        self.max
    }

    pub fn center(&self) -> (r: i16)
        ensures
            r == self.spec_center(),
    {
        self.center
    }

    /// Lowest value: center minus the offset below it.
    pub fn min(&self) -> (r: i16)
        ensures
            r == self.spec_min(),
    {
        self.min
    }
}

/// The axis whose center is value `c`, with the offsets above and below it
/// values `above` and `below`.
pub open spec fn axis_spec(s: Seq<u8>, above: int, c: int, below: int) -> AxisCalibration {
    AxisCalibration {
        max: (packed12(s, c) + packed12(s, above)) as i16,
        center: packed12(s, c) as i16,
        min: (packed12(s, c) - packed12(s, below)) as i16,
    }
}

fn axis(s: &[u8], start: usize, above: usize, c: usize, below: usize) -> (r: AxisCalibration)
    requires
        above < 6,
        c < 6,
        below < 6,
        start + 9 <= s@.len(),
    ensures
        r == axis_spec(s@.subrange(start as int, s@.len() as int), above as int, c as int, below as int),
{
    let a = unpack(s, start, above) as i16;
    let m = unpack(s, start, c) as i16;
    let b = unpack(s, start, below) as i16;
    AxisCalibration { max: m + a, center: m, min: m - b }
}

/// Calibration of one stick, if the controller has one.
#[derive(Debug, Clone, Copy, Hash, Eq, PartialEq, Structural)]
pub enum StickCalibration {
    Available { x: AxisCalibration, y: AxisCalibration },
    Unavailable,
}

impl StickCalibration {
    pub fn x(&self) -> (r: Option<AxisCalibration>)
        ensures
            r == match *self {
                StickCalibration::Available { x, .. } => Some(x),
                StickCalibration::Unavailable => None,
            },
    {
        match self {
            StickCalibration::Available { x, .. } => Some(*x),
            StickCalibration::Unavailable => None,
        }
    }

    pub fn y(&self) -> (r: Option<AxisCalibration>)
        ensures
            r == match *self {
                StickCalibration::Available { y, .. } => Some(y),
                StickCalibration::Unavailable => None,
            },
    {
        match self {
            StickCalibration::Available { y, .. } => Some(*y),
            StickCalibration::Unavailable => None,
        }
    }
}

/// The left stick's nine bytes: X from values 2 (center), 0 (above) and 4
/// (below); Y from 3, 1 and 5.
pub open spec fn left_stick_spec(half: Seq<u8>) -> StickCalibration {
    if all_equal(half, 0xFF) {
        StickCalibration::Unavailable
    } else {
        StickCalibration::Available { x: axis_spec(half, 0, 2, 4), y: axis_spec(half, 1, 3, 5) }
    }
}

/// The right stick's nine bytes: X from values 0 (center), 4 (above) and 2
/// (below); Y from 1, 5 and 3.
pub open spec fn right_stick_spec(half: Seq<u8>) -> StickCalibration {
    if all_equal(half, 0xFF) {
        StickCalibration::Unavailable
    } else {
        StickCalibration::Available { x: axis_spec(half, 4, 0, 2), y: axis_spec(half, 5, 1, 3) }
    }
}

/// Calibration of both sticks.
#[derive(Debug, Clone, Copy, Hash, Eq, PartialEq, Structural)]
pub struct JoyConSticksCalibration {
    pub left: StickCalibration,
    pub right: StickCalibration,
}

impl JoyConSticksCalibration {
    pub open spec fn spec_left(self) -> StickCalibration {
        self.left
    }

    pub open spec fn spec_right(self) -> StickCalibration {
        self.right
    }

    pub fn left(&self) -> (r: &StickCalibration)
        ensures
            *r == self.spec_left(),
    {
        &self.left
    }

    pub fn right(&self) -> (r: &StickCalibration)
        ensures
            *r == self.spec_right(),
    {
        &self.right
    }

    /// Decodes an 18-byte block: the left stick's nine bytes, then the
    /// right's. A half of all `0xFF` has no calibration.
    pub fn from(stick_cal: [u8; 18]) -> (r: JoyConSticksCalibration)
        ensures
            r.spec_left() == left_stick_spec(stick_cal@.subrange(0, 9)),
            r.spec_right() == right_stick_spec(stick_cal@.subrange(9, 18)),
    {
        let left_half: [u8; 9] = copy_range(&stick_cal, 0);
        let right_half: [u8; 9] = copy_range(&stick_cal, 9);
        let left = if all_bytes_equal(&left_half, 0xFF) {
            StickCalibration::Unavailable
        } else {
            StickCalibration::Available {
                x: axis(&left_half, 0, 0, 2, 4),
                y: axis(&left_half, 0, 1, 3, 5),
            }
        };
        let right = if all_bytes_equal(&right_half, 0xFF) {
            StickCalibration::Unavailable
        } else {
            StickCalibration::Available {
                x: axis(&right_half, 0, 4, 0, 2),
                y: axis(&right_half, 0, 5, 1, 3),
            }
        };
        assert(left_half@.subrange(0, 9) =~= left_half@);
        assert(right_half@.subrange(0, 9) =~= right_half@);
        JoyConSticksCalibration { left, right }
    }
}

/// A half of all `0xFF` decodes to no calibration, whatever the other half.
pub proof fn lemma_blank_half_unavailable(stick_cal: Seq<u8>)
    requires
        stick_cal.len() == 18,
    ensures
        all_equal(stick_cal.subrange(0, 9), 0xFF) ==> left_stick_spec(stick_cal.subrange(0, 9))
            == StickCalibration::Unavailable,
        all_equal(stick_cal.subrange(9, 18), 0xFF) ==> right_stick_spec(stick_cal.subrange(9, 18))
            == StickCalibration::Unavailable,
        !all_equal(stick_cal.subrange(0, 9), 0xFF) ==> left_stick_spec(stick_cal.subrange(0, 9)) is Available,
        !all_equal(stick_cal.subrange(9, 18), 0xFF) ==> right_stick_spec(stick_cal.subrange(9, 18)) is Available,
{
}

/// Dead zone and range ratio of the sticks.
#[derive(Debug, Clone, Copy, Hash, Eq, PartialEq, Structural)]
pub struct StickParameters {
    pub dead_zone: u16,
    pub range_ratio: u16,
}

impl StickParameters {
    pub open spec fn spec_dead_zone(self) -> u16 {
        self.dead_zone
    }

    pub open spec fn spec_range_ratio(self) -> u16 {
        self.range_ratio
    }

    pub fn dead_zone(&self) -> (r: u16)
        ensures
            r == self.spec_dead_zone(),
    {
        self.dead_zone
    }

    pub fn range_ratio(&self) -> (r: u16)
        ensures
            r == self.spec_range_ratio(),
    {
        self.range_ratio
    }

    /// Decodes the 18-byte parameter block: the dead zone is its third
    /// packed value, the range ratio its fourth.
    pub fn from(array: [u8; 18]) -> (r: StickParameters)
        ensures
            r.spec_dead_zone() == packed12(array@, 2),
            r.spec_range_ratio() == packed12(array@, 3),
    {
        let dead_zone = unpack(&array, 0, 2);
        let range_ratio = unpack(&array, 0, 3);
        assert(array@.subrange(0, 18) =~= array@);
        StickParameters { dead_zone, range_ratio }
    }
}

/// The factory calibration in a reply to its SPI flash read, if the reply
/// answers that read.
pub fn get_factory_calibration(reply: &[u8; 64]) -> (r: Option<JoyConSticksCalibration>)
    ensures
        spi_reply_matches_spec(reply@, FACTORY_CALIBRATION_ADDRESS, FACTORY_CALIBRATION_LENGTH)
            ==> r is Some && r->Some_0.spec_left() == left_stick_spec(reply@.subrange(20, 29))
            && r->Some_0.spec_right() == right_stick_spec(reply@.subrange(29, 38)),
        !spi_reply_matches_spec(reply@, FACTORY_CALIBRATION_ADDRESS, FACTORY_CALIBRATION_LENGTH)
            ==> r is None,
{
    if !spi_reply_matches(reply, FACTORY_CALIBRATION_ADDRESS, FACTORY_CALIBRATION_LENGTH) {
        return None;
    }
    let block: [u8; 18] = copy_range(reply, SPI_DATA_OFFSET);
    assert(block@.subrange(0, 9) =~= reply@.subrange(20, 29));
    assert(block@.subrange(9, 18) =~= reply@.subrange(29, 38));
    Some(JoyConSticksCalibration::from(block))
}

/// The user calibration in a reply to its SPI flash read, if the reply
/// answers that read: the left stick's nine bytes, two bytes skipped, the
/// right stick's nine bytes.
pub fn get_user_calibration(reply: &[u8; 64]) -> (r: Option<JoyConSticksCalibration>)
    ensures
        spi_reply_matches_spec(reply@, USER_CALIBRATION_ADDRESS, USER_CALIBRATION_LENGTH)
            ==> r is Some && r->Some_0.spec_left() == left_stick_spec(reply@.subrange(20, 29))
            && r->Some_0.spec_right() == right_stick_spec(reply@.subrange(31, 40)),
        !spi_reply_matches_spec(reply@, USER_CALIBRATION_ADDRESS, USER_CALIBRATION_LENGTH)
            ==> r is None,
{
    if !spi_reply_matches(reply, USER_CALIBRATION_ADDRESS, USER_CALIBRATION_LENGTH) {
        return None;
    }
    let left: [u8; 9] = copy_range(reply, SPI_DATA_OFFSET);
    let right: [u8; 9] = copy_range(reply, 31);
    let block = [
        left[0], left[1], left[2], left[3], left[4], left[5], left[6], left[7], left[8],
        right[0], right[1], right[2], right[3], right[4], right[5], right[6], right[7], right[8],
    ];
    assert(block@.subrange(0, 9) =~= reply@.subrange(20, 29));
    assert(block@.subrange(9, 18) =~= reply@.subrange(31, 40));
    Some(JoyConSticksCalibration::from(block))
}

/// The stick parameters in a reply to their SPI flash read, if the reply
/// answers that read.
pub fn get_parameters(reply: &[u8; 64]) -> (r: Option<StickParameters>)
    ensures
        spi_reply_matches_spec(reply@, PARAMETERS_ADDRESS, PARAMETERS_LENGTH) ==> r is Some
            && r->Some_0.spec_dead_zone() == packed12(reply@.subrange(20, 38), 2)
            && r->Some_0.spec_range_ratio() == packed12(reply@.subrange(20, 38), 3),
        !spi_reply_matches_spec(reply@, PARAMETERS_ADDRESS, PARAMETERS_LENGTH) ==> r is None,
{
    if !spi_reply_matches(reply, PARAMETERS_ADDRESS, PARAMETERS_LENGTH) {
        return None;
    }
    let block: [u8; 18] = copy_range(reply, SPI_DATA_OFFSET);
    Some(StickParameters::from(block))
}

} // verus!
