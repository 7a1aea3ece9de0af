use vstd::prelude::*;

use crate::bytes::{all_bytes_equal, all_equal, copy_range, to_vec};
use crate::calibration::imu::{IMUCalibration, IMUOffsets};
use crate::calibration::stick::{JoyConSticksCalibration, StickParameters};
use crate::color::Color;
use crate::command::SubCommand;
use crate::result::{JoyConDeviceError, JoyConError, JoyConReportError, JoyConResult};
use crate::subcommand::SubCommandReplyData;

verus! {

/// Vendor id of every controller this library drives.
pub const VENDOR_ID: u16 = 1406;
pub const PRODUCT_ID_JOYCON_L: u16 = 8198;
pub const PRODUCT_ID_JOYCON_R: u16 = 8199;
pub const PRODUCT_ID_PROCON: u16 = 8201;

/// The kinds of controller this library drives.
#[derive(Debug, Clone, Copy, Hash, Eq, PartialEq, Structural)]
pub enum JoyConDeviceType {
    JoyConL,
    JoyConR,
    ProCon,
}

/// The type the device-info reply names by its byte.
pub open spec fn device_type_of(value: u8) -> Option<JoyConDeviceType> {
    if value == 0 {
        Some(JoyConDeviceType::JoyConL)
    } else if value == 1 {
        Some(JoyConDeviceType::JoyConR)
    } else if value == 2 {
        Some(JoyConDeviceType::ProCon)
    } else {
        None
    }
}

/// The type a vendor and product id name, or why they name none.
pub open spec fn classify_spec(vendor_id: u16, product_id: u16) -> Result<JoyConDeviceType, JoyConError> {
    if vendor_id != VENDOR_ID {
        Err(JoyConError::JoyConDeviceError(JoyConDeviceError::InvalidVendorID(vendor_id)))
    } else if product_id == PRODUCT_ID_JOYCON_L {
        Ok(JoyConDeviceType::JoyConL)
    } else if product_id == PRODUCT_ID_JOYCON_R {
        Ok(JoyConDeviceType::JoyConR)
    } else if product_id == PRODUCT_ID_PROCON {
        Ok(JoyConDeviceType::ProCon)
    } else {
        Err(JoyConError::JoyConDeviceError(JoyConDeviceError::InvalidProductID(product_id)))
    }
}

impl JoyConDeviceType {
    pub fn try_from(value: u8) -> (r: Result<JoyConDeviceType, ()>)
        ensures
            match device_type_of(value) {
                Some(t) => r == Ok::<JoyConDeviceType, ()>(t),
                None => r is Err,
            },
    {
        if value == 0 {
            Ok(JoyConDeviceType::JoyConL)
        } else if value == 1 {
            Ok(JoyConDeviceType::JoyConR)
        } else if value == 2 {
            Ok(JoyConDeviceType::ProCon)
        } else {
            Err(())
        }
    }
}

/// Bluetooth address of a controller.
#[derive(Debug, Clone, Copy, Hash, Eq, PartialEq)]
pub struct JoyConMacAddress(pub [u8; 6]);

/// What a controller tells of itself.
#[derive(Debug, Clone, Copy, Hash, Eq, PartialEq)]
pub struct JoyConDeviceInfo {
    pub firmware_version: u16,
    pub device_type: JoyConDeviceType,
    pub mac_address: JoyConMacAddress,
    pub colors_in_spi: bool,
}

impl SubCommandReplyData for JoyConDeviceInfo {
    open spec fn spec_sub_command() -> SubCommand {
        SubCommand::RequestDeviceInfo
    }

    open spec fn spec_args() -> Seq<u8> {
        Seq::empty()
    }

    /// A type byte that names no controller makes the reply an error.
    open spec fn spec_rejects(reply: Seq<u8>) -> bool {
        device_type_of(reply[2]) is None
    }

    /// The error names the device-info sub-command and carries the reply.
    open spec fn spec_error(reply: Seq<u8>, e: JoyConError) -> bool {
        e matches JoyConError::SubCommandError(id, bytes) && id
            == SubCommand::RequestDeviceInfo.spec_id() && bytes@ == reply
    }

    /// Firmware version high byte first, the type, two bytes on the
    /// address, and byte 12 equal to 1 when the colors are in SPI flash.
    open spec fn spec_decodes(self, reply: Seq<u8>) -> bool {
        &&& self.firmware_version == (reply[0] as int * 256 + reply[1] as int) as u16
        &&& Some(self.device_type) == device_type_of(reply[2])
        &&& self.mac_address.0@ == reply.subrange(4, 10)
        &&& self.colors_in_spi == (reply[12] == 1)
    }

    fn sub_command() -> (r: SubCommand) {
        SubCommand::RequestDeviceInfo
    }

    fn args() -> (r: Vec<u8>) {
        Vec::new()
    }

    fn from_reply(value: [u8; 35]) -> (r: JoyConResult<JoyConDeviceInfo>) {
        let firmware_version = (value[0] as u16) * 256 + value[1] as u16;
        let device_type = match JoyConDeviceType::try_from(value[2]) {
            Ok(t) => t,
            Err(()) => {
                return Err(JoyConError::SubCommandError(SubCommand::RequestDeviceInfo.id(), to_vec(&value)));
            },
        };
        let mac: [u8; 6] = copy_range(&value, 4);
        Ok(JoyConDeviceInfo {
            firmware_version,
            device_type,
            mac_address: JoyConMacAddress(mac),
            colors_in_spi: value[12] == 1,
        })
    }
}

impl JoyConDeviceType {
    /// The type of controller a vendor and product id name.
    pub fn check_type_of_device(vendor_id: u16, product_id: u16) -> (r: JoyConResult<JoyConDeviceType>)
        ensures
            r == classify_spec(vendor_id, product_id),
    {
        if vendor_id != VENDOR_ID {
            return Err(JoyConError::JoyConDeviceError(JoyConDeviceError::InvalidVendorID(vendor_id)));
        }
        if product_id == PRODUCT_ID_JOYCON_L {
            Ok(JoyConDeviceType::JoyConL)
        } else if product_id == PRODUCT_ID_JOYCON_R {
            Ok(JoyConDeviceType::JoyConR)
        } else if product_id == PRODUCT_ID_PROCON {
            Ok(JoyConDeviceType::ProCon)
        } else {
            Err(JoyConError::JoyConDeviceError(JoyConDeviceError::InvalidProductID(product_id)))
        }
    }
}

/// A report read back is refused when every byte of it is zero.
pub fn check_report(buf: &[u8]) -> (r: JoyConResult<()>)
    ensures
        all_equal(buf@, 0) ==> r == Err::<(), JoyConError>(
            JoyConError::JoyConReportError(JoyConReportError::EmptyReport),
        ),
        !all_equal(buf@, 0) ==> r is Ok,
{
    if all_bytes_equal(buf, 0) {
        Err(JoyConError::JoyConReportError(JoyConReportError::EmptyReport))
    } else {
        Ok(())
    }
}

/// One physical controller: its transport handle while connected, and what
/// was read from it when it was opened. The handle is dropped on
/// disconnection and replaced on reconnection; the rest stays.
#[derive(Debug)]
pub struct JoyConDevice<H> {
    hid_device: Option<H>,
    serial_number: String,
    device_type: JoyConDeviceType,
    stick_parameters: StickParameters,
    stick_factory_calibration: JoyConSticksCalibration,
    stick_user_calibration: JoyConSticksCalibration,
    imu_offsets: IMUOffsets,
    imu_factory_calibration: IMUCalibration,
    imu_user_calibration: IMUCalibration,
    color: Color,
}

impl<H> JoyConDevice<H> {
    pub closed spec fn connected(self) -> bool {
        self.hid_device is Some
    }

    pub closed spec fn handle(self) -> Option<H> {
        self.hid_device
    }

    pub closed spec fn serial(self) -> Seq<char> {
        self.serial_number@
    }

    pub closed spec fn kind(self) -> JoyConDeviceType {
        self.device_type
    }

    /// A connected device over `hid_device`.
    pub fn new(
        hid_device: H,
        serial_number: String,
        device_type: JoyConDeviceType,
        stick_parameters: StickParameters,
        stick_factory_calibration: JoyConSticksCalibration,
        stick_user_calibration: JoyConSticksCalibration,
        imu_offsets: IMUOffsets,
        imu_factory_calibration: IMUCalibration,
        imu_user_calibration: IMUCalibration,
        color: Color,
    ) -> (r: JoyConDevice<H>)
        ensures
            r.connected(),
            r.handle() == Some(hid_device),
            r.serial() == serial_number@,
            r.kind() == device_type,
            r.stick_parameters_spec() == stick_parameters,
            r.stick_factory_calibration_spec() == stick_factory_calibration,
            r.stick_user_calibration_spec() == stick_user_calibration,
            r.imu_offsets_spec() == imu_offsets,
            r.imu_factory_calibration_spec() == imu_factory_calibration,
            r.imu_user_calibration_spec() == imu_user_calibration,
            r.color_spec() == color,
    {
        JoyConDevice {
            hid_device: Some(hid_device),
            serial_number,
            device_type,
            stick_parameters,
            stick_factory_calibration,
            stick_user_calibration,
            imu_offsets,
            imu_factory_calibration,
            imu_user_calibration,
            color,
        }
    }

    pub closed spec fn stick_parameters_spec(self) -> StickParameters {
        self.stick_parameters
    }

    pub closed spec fn stick_factory_calibration_spec(self) -> JoyConSticksCalibration {
        self.stick_factory_calibration
    }

    pub closed spec fn stick_user_calibration_spec(self) -> JoyConSticksCalibration {
        self.stick_user_calibration
    }

    pub closed spec fn imu_offsets_spec(self) -> IMUOffsets {
        self.imu_offsets
    }

    pub closed spec fn imu_factory_calibration_spec(self) -> IMUCalibration {
        self.imu_factory_calibration
    }

    pub closed spec fn imu_user_calibration_spec(self) -> IMUCalibration {
        self.imu_user_calibration
    }

    pub closed spec fn color_spec(self) -> Color {
        self.color
    }

    pub fn is_connected(&self) -> (r: bool)
        ensures
            r == self.connected(),
    {
        self.hid_device.is_some()
    }

    /// The transport handle, while connected.
    pub fn hid_device(&self) -> (r: Option<&H>)
        ensures
            r is Some == self.connected(),
            r is Some ==> self.handle() == Some(*r->Some_0),
    {
        self.hid_device.as_ref()
    }

    pub fn serial_number(&self) -> (r: &str)
        ensures
            r@ == self.serial(),
    {
        self.serial_number.as_str()
    }

    pub fn device_type(&self) -> (r: JoyConDeviceType)
        ensures
            r == self.kind(),
    {
        self.device_type
    }

    pub fn stick_parameters(&self) -> (r: &StickParameters)
        ensures
            *r == self.stick_parameters_spec(),
    {
        &self.stick_parameters
    }

    pub fn stick_factory_calibration(&self) -> (r: &JoyConSticksCalibration)
        ensures
            *r == self.stick_factory_calibration_spec(),
    {
        &self.stick_factory_calibration
    }

    pub fn stick_user_calibration(&self) -> (r: &JoyConSticksCalibration)
        ensures
            *r == self.stick_user_calibration_spec(),
    {
        &self.stick_user_calibration
    }

    pub fn imu_offsets(&self) -> (r: &IMUOffsets)
        ensures
            *r == self.imu_offsets_spec(),
    {
        &self.imu_offsets
    }

    pub fn imu_factory_calibration(&self) -> (r: &IMUCalibration)
        ensures
            *r == self.imu_factory_calibration_spec(),
    {
        &self.imu_factory_calibration
    }

    pub fn imu_user_calibration(&self) -> (r: &IMUCalibration)
        ensures
            *r == self.imu_user_calibration_spec(),
    {
        &self.imu_user_calibration
    }

    pub fn color(&self) -> (r: &Color)
        ensures
            *r == self.color_spec(),
    {
        &self.color
    }

    /// Connects the device again, over a new handle.
    pub fn reset_device(&mut self, hid_device: H)
        ensures
            final(self).connected(),
            final(self).handle() == Some(hid_device),
            final(self).serial() == old(self).serial(),
            final(self).kind() == old(self).kind(),
            final(self).stick_parameters_spec() == old(self).stick_parameters_spec(),
            final(self).stick_factory_calibration_spec() == old(self).stick_factory_calibration_spec(),
            final(self).stick_user_calibration_spec() == old(self).stick_user_calibration_spec(),
            final(self).imu_offsets_spec() == old(self).imu_offsets_spec(),
            final(self).imu_factory_calibration_spec() == old(self).imu_factory_calibration_spec(),
            final(self).imu_user_calibration_spec() == old(self).imu_user_calibration_spec(),
            final(self).color_spec() == old(self).color_spec(),
    {
        self.hid_device = Some(hid_device);
    }

    /// Marks the device disconnected, dropping its handle.
    pub fn forget_device(&mut self)
        ensures
            !final(self).connected(),
            final(self).serial() == old(self).serial(),
            final(self).kind() == old(self).kind(),
            final(self).stick_parameters_spec() == old(self).stick_parameters_spec(),
            final(self).stick_factory_calibration_spec() == old(self).stick_factory_calibration_spec(),
            final(self).stick_user_calibration_spec() == old(self).stick_user_calibration_spec(),
            final(self).imu_offsets_spec() == old(self).imu_offsets_spec(),
            final(self).imu_factory_calibration_spec() == old(self).imu_factory_calibration_spec(),
            final(self).imu_user_calibration_spec() == old(self).imu_user_calibration_spec(),
            final(self).color_spec() == old(self).color_spec(),
    {
        self.hid_device = None;
    }

    /// The handle to write or read through, or the error for a device that
    /// is not connected.
    pub fn connected_device(&self) -> (r: JoyConResult<&H>)
        ensures
            self.connected() ==> r is Ok && self.handle() == Some(*r->Ok_0),
            !self.connected() ==> r == Err::<&H, JoyConError>(JoyConError::Disconnected),
    {
        match &self.hid_device {
            Some(h) => Ok(h),
            None => Err(JoyConError::Disconnected),
        }
    }
}

} // verus!
