use vstd::prelude::*;

verus! {

/// Why a device could not be classified as a Joy-Con or Pro Controller, or
/// could not be set up.
#[derive(Debug, Clone, PartialEq, Eq)]
pub enum JoyConDeviceError {
    InvalidVendorID(u16),
    InvalidProductID(u16),
    FailedStickParameterLoading,
    FailedStickCalibrationLoading,
    FailedIMUOffsetsLoading,
    FailedIMUCalibrationLoading,
    FailedColorLoading,
}

/// A simple HID report that could not be decoded.
#[derive(Debug, Clone, PartialEq, Eq)]
pub enum InvalidSimpleHIDReport {
    InvalidReport(Vec<u8>),
    InvalidStickDirection(u8),
}

/// A standard input report that could not be decoded.
#[derive(Debug, Clone, PartialEq, Eq)]
pub enum InvalidStandardInputReport {
    InvalidReport(Vec<u8>),
    InvalidExtraReport(Vec<u8>),
    Battery(u8),
    ConnectionInfo(u8),
    InvalidInputReportId(u8),
}

/// A report read from the controller that could not be decoded.
#[derive(Debug, Clone, PartialEq, Eq)]
pub enum JoyConReportError {
    InvalidSimpleHidReport(InvalidSimpleHIDReport),
    InvalidStandardInputReport(InvalidStandardInputReport),
    EmptyReport,
}

/// Every error of this library.
#[derive(Debug, Clone, PartialEq, Eq)]
pub enum JoyConError {
    /// The HID transport failed; the message is the transport's own.
    HidApiError(String),
    /// No acknowledgement came for the sub-command (its id), with the bytes
    /// read last (empty when no read succeeded).
    SubCommandError(u8, Vec<u8>),
    JoyConDeviceError(JoyConDeviceError),
    JoyConReportError(JoyConReportError),
    /// The controller is not connected at the moment.
    Disconnected,
}

pub type JoyConResult<T> = Result<T, JoyConError>;

impl JoyConError {
    /// Transport failures and disconnections end an exchange at once; every
    /// other error is a failed attempt that may be retried.
    pub open spec fn is_transport_failure(&self) -> bool {
        match self {
            JoyConError::HidApiError(_) => true,
            JoyConError::Disconnected => true,
            _ => false,
        }
    }

    pub fn transport_failure(&self) -> (r: bool)
        ensures
            r == self.is_transport_failure(),
    {
        match self {
            JoyConError::HidApiError(_) => true,
            JoyConError::Disconnected => true,
            _ => false,
        }
    }
}

pub fn standard_report_error(e: InvalidStandardInputReport) -> (r: JoyConError)
    ensures
        r == JoyConError::JoyConReportError(JoyConReportError::InvalidStandardInputReport(e)),
{
    JoyConError::JoyConReportError(JoyConReportError::InvalidStandardInputReport(e))
}

pub fn simple_report_error(e: InvalidSimpleHIDReport) -> (r: JoyConError)
    ensures
        r == JoyConError::JoyConReportError(JoyConReportError::InvalidSimpleHidReport(e)),
{
    JoyConError::JoyConReportError(JoyConReportError::InvalidSimpleHidReport(e))
}

} // verus!
