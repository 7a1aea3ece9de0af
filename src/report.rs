use vstd::prelude::*;

use crate::bytes::{copy_range, i16_from_le, i16_le};
use crate::result::{
    simple_report_error, standard_report_error, InvalidSimpleHIDReport,
    InvalidStandardInputReport, JoyConError, JoyConResult,
};

verus! {

/// Length of a standard input report.
pub const STANDARD_REPORT_LEN: usize = 362;

/// Length of the common header of a standard input report.
pub const COMMON_REPORT_LEN: usize = 13;

/// Length of the mode-specific part that follows the header.
pub const EXTRA_REPORT_LEN: usize = 349;

/// Length of the reply payload of a sub-command.
pub const REPLY_LEN: usize = 35;

/// Index of the ack byte in a standard input report.
pub const ACK_BYTE_INDEX: usize = 13;

/// Buttons of Joy-Cons and Pro Controllers.
#[derive(Copy, Clone, Hash, PartialEq, Eq, Structural, Debug)]
pub enum Buttons {
    A,
    X,
    Y,
    B,
    Plus,
    RStick,
    Home,
    R,
    ZR,
    Right,
    Up,
    Left,
    Down,
    Minus,
    LStick,
    Capture,
    L,
    ZL,
    SL,
    SR,
    ChargingGrip,
}

/// Whether bit `i` of `byte` is set.
pub open spec fn bit_set(byte: u8, i: u8) -> bool {
    byte & (1u8 << i) != 0
}

/// The entries of `table` among its first `n` whose bit is set in `byte`,
/// in table order.
pub open spec fn select_flags<T>(table: Seq<T>, byte: u8, n: nat) -> Seq<T>
    decreases n,
{
    if n == 0 {
        Seq::empty()
    } else {
        let prev = select_flags(table, byte, (n - 1) as nat);
        if bit_set(byte, (n - 1) as u8) {
            prev.push(table[n - 1])
        } else {
            prev
        }
    }
}

/// The entries of `table` whose bit is set in `byte`, in table order.
pub fn select_by_bits<T: Copy>(table: &[T], byte: u8) -> (r: Vec<T>)
    requires
        table@.len() <= 8,
    ensures
        r@ == select_flags(table@, byte, table@.len() as nat),
{
    let mut out: Vec<T> = Vec::new();
    let mut i: usize = 0;
    while i < table.len()
        invariant
            i <= table@.len() <= 8,
            out@ == select_flags(table@, byte, i as nat),
        decreases table@.len() - i,
    {
        let bit: u8 = 1u8 << (i as u8);
        if byte & bit != 0 {
            out.push(table[i]);
        }
        i += 1;
    }
    out
}

/// Battery level.
#[derive(Debug, Clone, Copy, Hash, Eq, PartialEq, Structural, Ord, PartialOrd)]
pub enum BatteryLevel {
    Empty,
    Critical,
    Low,
    Medium,
    Full,
}

/// Battery state.
#[derive(Debug, Clone, Copy, Hash, Eq, PartialEq, Structural)]
pub struct Battery {
    pub level: BatteryLevel,
    pub is_charging: bool,
}

/// The level that an even battery value stands for.
pub open spec fn battery_level_of(even: u8) -> Option<BatteryLevel> {
    if even == 0 {
        Some(BatteryLevel::Empty)
    } else if even == 2 {
        Some(BatteryLevel::Critical)
    } else if even == 4 {
        Some(BatteryLevel::Low)
    } else if even == 6 {
        Some(BatteryLevel::Medium)
    } else if even == 8 {
        Some(BatteryLevel::Full)
    } else {
        None
    }
}

/// An odd value means charging, at the level of the value below it.
pub open spec fn battery_spec(value: u8) -> Result<Battery, JoyConError> {
    let is_charging = value % 2 == 1;
    let base: u8 = if is_charging { (value - 1) as u8 } else { value };
    match battery_level_of(base) {
        Some(level) => Ok(Battery { level, is_charging }),
        None => Err(
            JoyConError::JoyConReportError(
                crate::result::JoyConReportError::InvalidStandardInputReport(
                    InvalidStandardInputReport::Battery(base),
                ),
            ),
        ),
    }
}

impl Battery {
    /// Decodes the battery nibble of a standard input report.
    pub fn try_from(value: u8) -> (r: JoyConResult<Battery>)
        ensures
            r == battery_spec(value),
    {
        let is_charging = value % 2 == 1;
        let base = if is_charging { value - 1 } else { value };
        let level = if base == 0 {
            BatteryLevel::Empty
        } else if base == 2 {
            BatteryLevel::Critical
        } else if base == 4 {
            BatteryLevel::Low
        } else if base == 6 {
            BatteryLevel::Medium
        } else if base == 8 {
            BatteryLevel::Full
        } else {
            return Err(standard_report_error(InvalidStandardInputReport::Battery(base)));
        };
        Ok(Battery { level, is_charging })
    }
}

/// Every nibble from 0 to 9 decodes, odd ones as charging at the level
/// below; 10 to 15 are errors.
pub proof fn lemma_battery_table(value: u8)
    requires
        value < 16,
    ensures
        battery_spec(value) is Ok <==> value <= 9,
        value <= 9 ==> battery_spec(value)->Ok_0.is_charging == (value % 2 == 1),
        value == 8 ==> battery_spec(value) == Ok::<Battery, JoyConError>(
            Battery { level: BatteryLevel::Full, is_charging: false },
        ),
        value == 9 ==> battery_spec(value) == Ok::<Battery, JoyConError>(
            Battery { level: BatteryLevel::Full, is_charging: true },
        ),
{
}

/// Family of the device that sent a report.
#[derive(Debug, Clone, Copy, Hash, Eq, PartialEq, Structural)]
pub enum Device {
    JoyCon,
    ProConOrChargingGrip,
}

/// Connection state.
#[derive(Debug, Clone, Copy, Hash, Eq, PartialEq, Structural)]
pub struct ConnectionInfo {
    pub device: Device,
    pub is_powered: bool,
}

/// Bits 1-2 give the family (both set: Joy-Con, both clear: Pro Controller or
/// grip), bit 0 external power.
pub open spec fn connection_info_spec(value: u8) -> Result<ConnectionInfo, JoyConError> {
    let family = (value >> 1u8) & 3u8;
    let is_powered = value & 1u8 == 1u8;
    if family == 3 {
        Ok(ConnectionInfo { device: Device::JoyCon, is_powered })
    } else if family == 0 {
        Ok(ConnectionInfo { device: Device::ProConOrChargingGrip, is_powered })
    } else {
        Err(
            JoyConError::JoyConReportError(
                crate::result::JoyConReportError::InvalidStandardInputReport(
                    InvalidStandardInputReport::ConnectionInfo(value),
                ),
            ),
        )
    }
}

impl ConnectionInfo {
    /// Decodes the connection nibble of a standard input report.
    pub fn try_from(value: u8) -> (r: JoyConResult<ConnectionInfo>)
        ensures
            r == connection_info_spec(value),
    {
        let family = (value >> 1u8) & 3u8;
        let is_powered = value & 1u8 == 1u8;
        if family == 3 {
            Ok(ConnectionInfo { device: Device::JoyCon, is_powered })
        } else if family == 0 {
            Ok(ConnectionInfo { device: Device::ProConOrChargingGrip, is_powered })
        } else {
            Err(standard_report_error(InvalidStandardInputReport::ConnectionInfo(value)))
        }
    }
}

pub open spec fn right_buttons() -> Seq<Buttons> {
    seq![
        Buttons::Y,
        Buttons::X,
        Buttons::B,
        Buttons::A,
        Buttons::SR,
        Buttons::SL,
        Buttons::R,
        Buttons::ZR,
    ]
}

/// Bit 6 repeats Capture: it has no button of its own.
pub open spec fn shared_buttons() -> Seq<Buttons> {
    seq![
        Buttons::Minus,
        Buttons::Plus,
        Buttons::RStick,
        Buttons::LStick,
        Buttons::Home,
        Buttons::Capture,
        Buttons::Capture,
        Buttons::ChargingGrip,
    ]
}

pub open spec fn left_buttons() -> Seq<Buttons> {
    seq![
        Buttons::Down,
        Buttons::Up,
        Buttons::Right,
        Buttons::Left,
        Buttons::SR,
        Buttons::SL,
        Buttons::L,
        Buttons::ZL,
    ]
}

/// Buttons held down, by the report byte that carries them.
#[derive(Debug, Clone, Hash, Eq, PartialEq)]
pub struct PushedButtons {
    pub right: Vec<Buttons>,
    pub shared: Vec<Buttons>,
    pub left: Vec<Buttons>,
}

pub open spec fn vec_has(v: Seq<Buttons>, b: Buttons) -> bool {
    exists|i: int| 0 <= i < v.len() && v[i] == b
}

fn buttons_contain(v: &Vec<Buttons>, b: Buttons) -> (r: bool)
    ensures
        r == vec_has(v@, b),
{
    let mut i: usize = 0;
    while i < v.len()
        invariant
            i <= v@.len(),
            forall|j: int| 0 <= j < i ==> v@[j] != b,
        decreases v@.len() - i,
    {
        if v[i] == b {
            return true;
        }
        i += 1;
    }
    false
}

impl PushedButtons {
    /// The buttons that three report bytes (right, shared, left) show held.
    pub open spec fn decodes(self, value: Seq<u8>) -> bool {
        &&& self.right@ == select_flags(right_buttons(), value[0], 8)
        &&& self.shared@ == select_flags(shared_buttons(), value[1], 8)
        &&& self.left@ == select_flags(left_buttons(), value[2], 8)
    }

    pub fn from(value: [u8; 3]) -> (r: PushedButtons)
        ensures
            r.decodes(value@),
    {
        let right_table = [
            Buttons::Y,
            Buttons::X,
            Buttons::B,
            Buttons::A,
            Buttons::SR,
            Buttons::SL,
            Buttons::R,
            Buttons::ZR,
        ];
        let shared_table = [
            Buttons::Minus,
            Buttons::Plus,
            Buttons::RStick,
            Buttons::LStick,
            Buttons::Home,
            Buttons::Capture,
            Buttons::Capture,
            Buttons::ChargingGrip,
        ];
        let left_table = [
            Buttons::Down,
            Buttons::Up,
            Buttons::Right,
            Buttons::Left,
            Buttons::SR,
            Buttons::SL,
            Buttons::L,
            Buttons::ZL,
        ];
        assert(right_table@ =~= right_buttons());
        assert(shared_table@ =~= shared_buttons());
        assert(left_table@ =~= left_buttons());
        PushedButtons {
            right: select_by_bits(&right_table, value[0]),
            shared: select_by_bits(&shared_table, value[1]),
            left: select_by_bits(&left_table, value[2]),
        }
    }

    /// Whether `button` is held, in any of the three groups.
    pub fn contains(&self, button: Buttons) -> (r: bool)
        ensures
            r == (vec_has(self.right@, button) || vec_has(self.shared@, button) || vec_has(
                self.left@,
                button,
            )),
    {
        buttons_contain(&self.right, button) || buttons_contain(&self.shared, button)
            || buttons_contain(&self.left, button)
    }
}

/// Position of an analog stick, two 12-bit values.
#[derive(Debug, Clone, Copy, Hash, Eq, PartialEq, Structural)]
pub struct AnalogStickData {
    pub horizontal: u16,
    pub vertical: u16,
}

pub open spec fn stick_horizontal(b0: u8, b1: u8) -> u16 {
    (b0 as u16) | (((b1 as u16) & 0xFu16) << 8u16)
}

pub open spec fn stick_vertical(b1: u8, b2: u8) -> u16 {
    ((b1 as u16) >> 4u16) | ((b2 as u16) << 4u16)
}

impl AnalogStickData {
    pub fn from(value: [u8; 3]) -> (r: AnalogStickData)
        ensures
            r.horizontal == stick_horizontal(value[0], value[1]),
            r.vertical == stick_vertical(value[1], value[2]),
    {
        let horizontal = (value[0] as u16) | (((value[1] as u16) & 0xFu16) << 8u16);
        let vertical = ((value[1] as u16) >> 4u16) | ((value[2] as u16) << 4u16);
        AnalogStickData { horizontal, vertical }
    }
}

/// The 13-byte header shared by all standard input reports.
#[derive(Debug, Clone, Hash, Eq, PartialEq)]
pub struct CommonReport {
    pub input_report_id: u8,
    pub timer: u8,
    pub battery: Battery,
    pub connection_info: ConnectionInfo,
    pub pushed_buttons: PushedButtons,
    pub left_analog_stick_data: AnalogStickData,
    pub right_analog_stick_data: AnalogStickData,
    pub vibrator_input_report: u8,
}

/// The error that a 13-byte header decodes to, if any: the battery is read
/// before the connection.
pub open spec fn common_report_error(report: Seq<u8>) -> Option<JoyConError> {
    let value = report[2];
    match battery_spec(value / 16) {
        Err(e) => Some(e),
        Ok(_) => match connection_info_spec(value % 16) {
            Err(e) => Some(e),
            Ok(_) => None,
        },
    }
}

impl CommonReport {
    /// This header is what the 13 bytes `report` hold.
    pub open spec fn decodes(self, report: Seq<u8>) -> bool {
        &&& self.input_report_id == report[0]
        &&& self.timer == report[1]
        &&& Ok::<Battery, JoyConError>(self.battery) == battery_spec(report[2] / 16)
        &&& Ok::<ConnectionInfo, JoyConError>(self.connection_info) == connection_info_spec(
            report[2] % 16,
        )
        &&& self.pushed_buttons.decodes(report.subrange(3, 6))
        &&& self.left_analog_stick_data == AnalogStickData {
            horizontal: stick_horizontal(report[6], report[7]),
            vertical: stick_vertical(report[7], report[8]),
        }
        &&& self.right_analog_stick_data == AnalogStickData {
            horizontal: stick_horizontal(report[9], report[10]),
            vertical: stick_vertical(report[10], report[11]),
        }
        &&& self.vibrator_input_report == report[12]
    }

    pub fn try_from(report: [u8; 13]) -> (r: JoyConResult<CommonReport>)
        ensures
            match common_report_error(report@) {
                Some(e) => r == Err::<CommonReport, JoyConError>(e),
                None => r is Ok && r->Ok_0.decodes(report@),
            },
    {
        let value = report[2];
        let battery = Battery::try_from(value / 16)?;
        let connection_info = ConnectionInfo::try_from(value % 16)?;
        let pushed_buttons = PushedButtons::from([report[3], report[4], report[5]]);
        let left_analog_stick_data = AnalogStickData::from([report[6], report[7], report[8]]);
        let right_analog_stick_data = AnalogStickData::from([report[9], report[10], report[11]]);
        proof {
            assert([report[3], report[4], report[5]]@ =~= report@.subrange(3, 6));
        }
        Ok(
            CommonReport {
                input_report_id: report[0],
                timer: report[1],
                battery,
                connection_info,
                pushed_buttons,
                left_analog_stick_data,
                right_analog_stick_data,
                vibrator_input_report: report[12],
            },
        )
    }
}

/// A standard input report: the common header and the part that depends on
/// the input report mode.
#[derive(Debug, Clone, Hash, Eq, PartialEq)]
pub struct StandardInputReport<EX> {
    pub common: CommonReport,
    pub extra: EX,
}

/// The ack byte of a sub-command reply: high bit set for an acknowledgement,
/// whose low seven bits give the type of the data that follows.
#[derive(Debug, Clone, Copy, Hash, Eq, PartialEq, Structural)]
pub enum AckByte {
    Ack { data_type: u8 },
    Nack,
}

pub open spec fn ack_byte_spec(u: u8) -> AckByte {
    if u >> 7u8 == 1u8 {
        AckByte::Ack { data_type: u & 0x7Fu8 }
    } else {
        AckByte::Nack
    }
}

impl AckByte {
    pub fn from(u: u8) -> (r: AckByte)
        ensures
            r == ack_byte_spec(u),
    {
        if u >> 7u8 == 1u8 {
            AckByte::Ack { data_type: u & 0x7Fu8 }
        } else {
            AckByte::Nack
        }
    }

    pub fn is_ack(&self) -> (r: bool)
        ensures
            r == (*self is Ack),
    {
        match self {
            AckByte::Ack { .. } => true,
            AckByte::Nack => false,
        }
    }
}

/// An acknowledgement exactly when the high bit is set, and then the data
/// type is the low seven bits.
pub proof fn lemma_ack_byte(u: u8)
    ensures
        u >= 0x80 ==> ack_byte_spec(u) == (AckByte::Ack { data_type: (u % 128) as u8 }),
        u < 0x80 ==> ack_byte_spec(u) == AckByte::Nack,
{
    assert(u >= 0x80 ==> (u >> 7u8 == 1u8 && u & 0x7Fu8 == u % 128)) by (bit_vector);
    assert(u < 0x80 ==> u >> 7u8 == 0u8) by (bit_vector);
}

/// The reply of a sub-command: acknowledged and checked, or the first
/// report read when acknowledgements are not checked.
#[derive(Debug, Clone, PartialEq, Eq)]
pub enum SubCommandReply<T> {
    Checked(T),
    Unchecked(T),
}

/// Readings of the 6-axis sensor at one instant.
#[derive(Debug, Clone, Copy, PartialEq, Eq, Structural, Hash)]
pub struct AxisData {
    /// Acceleration along X
    pub accel_x: i16,
    /// Acceleration along Y
    pub accel_y: i16,
    /// Acceleration along Z
    pub accel_z: i16,
    /// Rotation about X
    pub gyro_1: i16,
    /// Rotation about Y
    pub gyro_2: i16,
    /// Rotation about Z
    pub gyro_3: i16,
}

/// Six little-endian 16-bit values from `start` on.
pub open spec fn axis_data_spec(value: Seq<u8>, start: int) -> AxisData {
    AxisData {
        accel_x: i16_le(value[start], value[start + 1]),
        accel_y: i16_le(value[start + 2], value[start + 3]),
        accel_z: i16_le(value[start + 4], value[start + 5]),
        gyro_1: i16_le(value[start + 6], value[start + 7]),
        gyro_2: i16_le(value[start + 8], value[start + 9]),
        gyro_3: i16_le(value[start + 10], value[start + 11]),
    }
}

impl AxisData {
    /// Reads twelve bytes of `value` from `start` on.
    pub fn from_bytes_at(value: &[u8], start: usize) -> (r: AxisData)
        requires
            start + 12 <= value@.len(),
        ensures
            r == axis_data_spec(value@, start as int),
    {
        AxisData {
            accel_x: i16_from_le(value[start], value[start + 1]),
            accel_y: i16_from_le(value[start + 2], value[start + 3]),
            accel_z: i16_from_le(value[start + 4], value[start + 5]),
            gyro_1: i16_from_le(value[start + 6], value[start + 7]),
            gyro_2: i16_from_le(value[start + 8], value[start + 9]),
            gyro_3: i16_from_le(value[start + 10], value[start + 11]),
        }
    }

    pub fn from(value: [u8; 12]) -> (r: AxisData)
        ensures
            r == axis_data_spec(value@, 0),
    {
        AxisData::from_bytes_at(&value, 0)
    }
}

/// Three frames of 6-axis data: the latest, 5 ms older, 10 ms older.
#[derive(Debug, Clone, Copy, PartialEq, Eq, Hash)]
pub struct IMUData {
    pub data: [AxisData; 3],
}

impl IMUData {
    pub open spec fn decodes(self, extra: Seq<u8>) -> bool {
        &&& self.data[0] == axis_data_spec(extra, 0)
        &&& self.data[1] == axis_data_spec(extra, 12)
        &&& self.data[2] == axis_data_spec(extra, 24)
    }

    /// Reads the part of a standard full report that follows the header.
    pub fn try_from(value: [u8; 349]) -> (r: JoyConResult<IMUData>)
        ensures
            r is Ok && r->Ok_0.decodes(value@),
    {
        let data = [
            AxisData::from_bytes_at(&value, 0),
            AxisData::from_bytes_at(&value, 12),
            AxisData::from_bytes_at(&value, 24),
        ];
        Ok(IMUData { data })
    }
}

/// Decodes a standard full report: the header, then three frames of 6-axis
/// data.
pub fn decode_standard_full_report(value: &[u8; 362]) -> (r: JoyConResult<
    StandardInputReport<IMUData>,
>)
    ensures
        match common_report_error(value@.subrange(0, 13)) {
            Some(e) => r == Err::<StandardInputReport<IMUData>, JoyConError>(e),
            None => r is Ok && r->Ok_0.common.decodes(value@.subrange(0, 13))
                && r->Ok_0.extra.decodes(value@.subrange(13, 362)),
        },
{
    let header: [u8; 13] = copy_range(value, 0);
    let common = CommonReport::try_from(header)?;
    let extra_bytes: [u8; 349] = copy_range(value, 13);
    let extra = IMUData::try_from(extra_bytes)?;
    Ok(StandardInputReport { common, extra })
}

/// Buttons of a simple HID report.
#[allow(non_camel_case_types)]
#[derive(Copy, Clone, Hash, PartialEq, Eq, Structural, Debug)]
pub enum SimpleHIDButton {
    Down,
    Right,
    Left,
    Up,
    SL,
    SR,
    Minus,
    Plus,
    LeftStick,
    RightStick,
    Home,
    Capture,
    L_R,
    ZL_ZR,
}

pub open spec fn simple_buttons_first() -> Seq<SimpleHIDButton> {
    seq![
        SimpleHIDButton::Down,
        SimpleHIDButton::Right,
        SimpleHIDButton::Left,
        SimpleHIDButton::Up,
        SimpleHIDButton::SL,
        SimpleHIDButton::SR,
    ]
}

pub open spec fn simple_buttons_second() -> Seq<SimpleHIDButton> {
    seq![
        SimpleHIDButton::Minus,
        SimpleHIDButton::Plus,
        SimpleHIDButton::LeftStick,
        SimpleHIDButton::RightStick,
        SimpleHIDButton::Home,
        SimpleHIDButton::Capture,
        SimpleHIDButton::L_R,
        SimpleHIDButton::ZL_ZR,
    ]
}

/// Direction of the stick, with the controller held sideways.
#[derive(Copy, Clone, Hash, PartialEq, Eq, Structural, Debug)]
pub enum StickDirection {
    Up,
    UpperRight,
    Right,
    BottomRight,
    Bottom,
    BottomLeft,
    Left,
    UpperLeft,
    Neutral,
}

/// The direction each of the bytes 0 to 8 names.
pub open spec fn stick_direction_of(value: u8) -> Option<StickDirection> {
    if value == 0 {
        Some(StickDirection::Up)
    } else if value == 1 {
        Some(StickDirection::UpperRight)
    } else if value == 2 {
        Some(StickDirection::Right)
    } else if value == 3 {
        Some(StickDirection::BottomRight)
    } else if value == 4 {
        Some(StickDirection::Bottom)
    } else if value == 5 {
        Some(StickDirection::BottomLeft)
    } else if value == 6 {
        Some(StickDirection::Left)
    } else if value == 7 {
        Some(StickDirection::UpperLeft)
    } else if value == 8 {
        Some(StickDirection::Neutral)
    } else {
        None
    }
}

/// The byte that names a direction.
pub open spec fn stick_direction_byte(d: StickDirection) -> u8 {
    match d {
        StickDirection::Up => 0,
        StickDirection::UpperRight => 1,
        StickDirection::Right => 2,
        StickDirection::BottomRight => 3,
        StickDirection::Bottom => 4,
        StickDirection::BottomLeft => 5,
        StickDirection::Left => 6,
        StickDirection::UpperLeft => 7,
        StickDirection::Neutral => 8,
    }
}

pub open spec fn stick_direction_error(value: u8) -> JoyConError {
    JoyConError::JoyConReportError(
        crate::result::JoyConReportError::InvalidSimpleHidReport(
            InvalidSimpleHIDReport::InvalidStickDirection(value),
        ),
    )
}

pub open spec fn stick_direction_spec(value: u8) -> Result<StickDirection, JoyConError> {
    match stick_direction_of(value) {
        Some(d) => Ok(d),
        None => Err(stick_direction_error(value)),
    }
}

impl StickDirection {
    pub fn try_from(value: u8) -> (r: JoyConResult<StickDirection>)
        ensures
            r == stick_direction_spec(value),
    {
        let d = if value == 0 {
            StickDirection::Up
        } else if value == 1 {
            StickDirection::UpperRight
        } else if value == 2 {
            StickDirection::Right
        } else if value == 3 {
            StickDirection::BottomRight
        } else if value == 4 {
            StickDirection::Bottom
        } else if value == 5 {
            StickDirection::BottomLeft
        } else if value == 6 {
            StickDirection::Left
        } else if value == 7 {
            StickDirection::UpperLeft
        } else if value == 8 {
            StickDirection::Neutral
        } else {
            return Err(simple_report_error(InvalidSimpleHIDReport::InvalidStickDirection(value)));
        };
        Ok(d)
    }
}

/// The bytes 0 to 8 name the nine directions one to one, and no other byte
/// names one.
pub proof fn lemma_stick_direction_bijective()
    ensures
        forall|v: u8| #[trigger] stick_direction_of(v) is Some <==> v <= 8,
        forall|v: u8|
            #[trigger] stick_direction_of(v) is Some ==> stick_direction_byte(
                stick_direction_of(v)->Some_0,
            ) == v,
        forall|d: StickDirection| #[trigger] stick_direction_of(stick_direction_byte(d)) == Some(d),
        forall|v: u8, w: u8|
            #[trigger] stick_direction_of(v) is Some && #[trigger] stick_direction_of(w) is Some
                && stick_direction_of(v) == stick_direction_of(w) ==> v == w,
{
    assert forall|v: u8, w: u8|
        #[trigger] stick_direction_of(v) is Some && #[trigger] stick_direction_of(w) is Some
            && stick_direction_of(v) == stick_direction_of(w) implies v == w by {
        assert(stick_direction_byte(stick_direction_of(v)->Some_0) == v);
        assert(stick_direction_byte(stick_direction_of(w)->Some_0) == w);
    }
}

/// Held buttons and stick direction, sent on every change in simple HID mode.
#[derive(Debug, Clone, PartialEq, Eq)]
pub struct SimpleHIDReport {
    pub input_report_id: u8,
    pub pushed_buttons: Vec<SimpleHIDButton>,
    pub stick_direction: StickDirection,
    pub filler_data: [u8; 8],
}

impl SimpleHIDReport {
    /// This report is what the twelve bytes `value` hold.
    pub open spec fn decodes(self, value: Seq<u8>) -> bool {
        &&& self.input_report_id == value[0]
        &&& self.pushed_buttons@ == select_flags(simple_buttons_first(), value[1], 6)
            + select_flags(simple_buttons_second(), value[2], 8)
        &&& Ok::<StickDirection, JoyConError>(self.stick_direction) == stick_direction_spec(
            value[3],
        )
        &&& self.filler_data@ == value.subrange(4, 12)
    }

    pub fn try_from(value: [u8; 12]) -> (r: JoyConResult<SimpleHIDReport>)
        ensures
            stick_direction_of(value[3]) is None ==> r == Err::<SimpleHIDReport, JoyConError>(
                stick_direction_error(value[3]),
            ),
            stick_direction_of(value[3]) is Some ==> r is Ok && r->Ok_0.decodes(value@),
    {
        let first = [
            SimpleHIDButton::Down,
            SimpleHIDButton::Right,
            SimpleHIDButton::Left,
            SimpleHIDButton::Up,
            SimpleHIDButton::SL,
            SimpleHIDButton::SR,
        ];
        let second = [
            SimpleHIDButton::Minus,
            SimpleHIDButton::Plus,
            SimpleHIDButton::LeftStick,
            SimpleHIDButton::RightStick,
            SimpleHIDButton::Home,
            SimpleHIDButton::Capture,
            SimpleHIDButton::L_R,
            SimpleHIDButton::ZL_ZR,
        ];
        assert(first@ =~= simple_buttons_first());
        assert(second@ =~= simple_buttons_second());
        let mut pushed_buttons = select_by_bits(&first, value[1]);
        let mut more = select_by_bits(&second, value[2]);
        pushed_buttons.append(&mut more);
        let stick_direction = StickDirection::try_from(value[3])?;
        let filler_data: [u8; 8] = copy_range(&value, 4);
        Ok(SimpleHIDReport { input_report_id: value[0], pushed_buttons, stick_direction, filler_data })
    }

    /// Decodes the first twelve bytes of a report read in simple HID mode.
    pub fn from_report(value: &[u8; 362]) -> (r: JoyConResult<SimpleHIDReport>)
        ensures
            stick_direction_of(value[3]) is None ==> r == Err::<SimpleHIDReport, JoyConError>(
                stick_direction_error(value[3]),
            ),
            stick_direction_of(value[3]) is Some ==> r is Ok && r->Ok_0.decodes(
                value@.subrange(0, 12),
            ),
    {
        let head: [u8; 12] = copy_range(value, 0);
        SimpleHIDReport::try_from(head)
    }
}

} // verus!
