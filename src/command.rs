use vstd::prelude::*;

verus! {

/// Length of every output report sent to the controller.
pub const FRAME_LEN: usize = 64;

/// Index of the first sub-command argument byte in an output report.
pub const ARGS_OFFSET: usize = 11;

/// The most argument bytes that fit in one output report.
pub const MAX_ARGS_LEN: usize = 53;

/// Output report ids.
#[allow(non_camel_case_types)]
#[derive(Copy, Clone, Hash, PartialEq, Eq, Debug)]
pub enum Command {
    RumbleAndSubCommand,
    NFC_IR_MCU_FW_Update,
    Rumble,
    RumbleAndRequestSpecificDataFromThe_NFC_IR_MCU,
}

impl Command {
    pub open spec fn spec_id(self) -> u8 {
        match self {
            Command::RumbleAndSubCommand => 1,
            Command::NFC_IR_MCU_FW_Update => 3,
            Command::Rumble => 16,
            Command::RumbleAndRequestSpecificDataFromThe_NFC_IR_MCU => 17,
        }
    }

    /// The byte that identifies the command on the wire.
    #[verifier::when_used_as_spec(spec_id)]
    pub fn id(self) -> (r: u8)
        ensures
            r == self.spec_id(),
    {
        match self {
            Command::RumbleAndSubCommand => 1,
            Command::NFC_IR_MCU_FW_Update => 3,
            Command::Rumble => 16,
            Command::RumbleAndRequestSpecificDataFromThe_NFC_IR_MCU => 17,
        }
    }
}

/// Sub-command ids, carried in byte 10 of an output report.
#[allow(non_camel_case_types)]
#[derive(Copy, Clone, Hash, PartialEq, Eq, Debug)]
pub enum SubCommand {
    GetOnlyControllerState,
    BluetoothManualPairing,
    RequestDeviceInfo,
    SetInputReportMode,
    TriggerButtonsElapsedTime,
    GetPageListState,
    SetHCIState,
    ResetPairingInfo,
    SetShipmentLowPowerState,
    SPIFlashRead,
    SPIFlashWrite,
    SPISectorErase,
    ResetNFC_IR_MCU,
    Set_NFC_IR_MCUConfiguration,
    Set_NFC_IR_MCUState,
    Get_x28_NFC_IR_MCUData,
    Set_GPIO_PinOutputValue,
    Get_x29_NFC_IR_MCUData,
    SetPlayerLights,
    GetPlayerLights,
    SetHOMELight,
    EnableIMU,
    SetIMUSensitivity,
    WriteToIMURegisters,
    ReadIMURegisters,
    EnableVibration,
    GetRegulatedVoltage,
    SetGPIOPinOutputValue,
    GetGPIOPinInput_OutputValue,
}

impl SubCommand {
    pub open spec fn spec_id(self) -> u8 {
        match self {
            SubCommand::GetOnlyControllerState => 0,
            SubCommand::BluetoothManualPairing => 1,
            SubCommand::RequestDeviceInfo => 2,
            SubCommand::SetInputReportMode => 3,
            SubCommand::TriggerButtonsElapsedTime => 4,
            SubCommand::GetPageListState => 5,
            SubCommand::SetHCIState => 6,
            SubCommand::ResetPairingInfo => 7,
            SubCommand::SetShipmentLowPowerState => 8,
            SubCommand::SPIFlashRead => 10,
            SubCommand::SPIFlashWrite => 11,
            SubCommand::SPISectorErase => 12,
            SubCommand::ResetNFC_IR_MCU => 32,
            SubCommand::Set_NFC_IR_MCUConfiguration => 33,
            SubCommand::Set_NFC_IR_MCUState => 34,
            SubCommand::Get_x28_NFC_IR_MCUData => 41,
            SubCommand::Set_GPIO_PinOutputValue => 42,
            SubCommand::Get_x29_NFC_IR_MCUData => 43,
            SubCommand::SetPlayerLights => 48,
            SubCommand::GetPlayerLights => 49,
            SubCommand::SetHOMELight => 56,
            SubCommand::EnableIMU => 64,
            SubCommand::SetIMUSensitivity => 65,
            SubCommand::WriteToIMURegisters => 66,
            SubCommand::ReadIMURegisters => 67,
            SubCommand::EnableVibration => 72,
            SubCommand::GetRegulatedVoltage => 80,
            SubCommand::SetGPIOPinOutputValue => 81,
            SubCommand::GetGPIOPinInput_OutputValue => 82,
        }
    }

    /// The byte that identifies the sub-command on the wire.
    #[verifier::when_used_as_spec(spec_id)]
    pub fn id(self) -> (r: u8)
        ensures
            r == self.spec_id(),
    {
        match self {
            SubCommand::GetOnlyControllerState => 0,
            SubCommand::BluetoothManualPairing => 1,
            SubCommand::RequestDeviceInfo => 2,
            SubCommand::SetInputReportMode => 3,
            SubCommand::TriggerButtonsElapsedTime => 4,
            SubCommand::GetPageListState => 5,
            SubCommand::SetHCIState => 6,
            SubCommand::ResetPairingInfo => 7,
            SubCommand::SetShipmentLowPowerState => 8,
            SubCommand::SPIFlashRead => 10,
            SubCommand::SPIFlashWrite => 11,
            SubCommand::SPISectorErase => 12,
            SubCommand::ResetNFC_IR_MCU => 32,
            SubCommand::Set_NFC_IR_MCUConfiguration => 33,
            SubCommand::Set_NFC_IR_MCUState => 34,
            SubCommand::Get_x28_NFC_IR_MCUData => 41,
            SubCommand::Set_GPIO_PinOutputValue => 42,
            SubCommand::Get_x29_NFC_IR_MCUData => 43,
            SubCommand::SetPlayerLights => 48,
            SubCommand::GetPlayerLights => 49,
            SubCommand::SetHOMELight => 56,
            SubCommand::EnableIMU => 64,
            SubCommand::SetIMUSensitivity => 65,
            SubCommand::WriteToIMURegisters => 66,
            SubCommand::ReadIMURegisters => 67,
            SubCommand::EnableVibration => 72,
            SubCommand::GetRegulatedVoltage => 80,
            SubCommand::SetGPIOPinOutputValue => 81,
            SubCommand::GetGPIOPinInput_OutputValue => 82,
        }
    }
}

/// Increments by one for each frame sent, wrapping from 255 back to 0.
#[derive(Debug, Clone, Copy, PartialEq, Eq, Hash)]
pub struct GlobalPacketNumber(pub u8);

impl GlobalPacketNumber {
    /// The packet number that follows this one.
    pub fn next(self) -> (r: GlobalPacketNumber)
        ensures
            r.0 as int == (self.0 as int + 1) % 256,
    {
        GlobalPacketNumber(self.0.wrapping_add(1))
    }

    /// The first packet number of a session.
    pub fn initial() -> (r: GlobalPacketNumber)
        ensures
            r.0 == 0,
    {
        GlobalPacketNumber(0)
    }

    pub fn value(self) -> (r: u8)
        ensures
            r == self.0,
    {
        self.0
    }
}

impl Default for GlobalPacketNumber {
    fn default() -> (r: Self)
        ensures
            r.0 == 0,
    {
        GlobalPacketNumber(0)
    }
}

/// The four rumble bytes of one side, or zeros when none is pending.
pub open spec fn rumble_byte(rumble: Option<[u8; 4]>, i: int) -> u8 {
    match rumble {
        Some(bytes) => bytes[i],
        None => 0,
    }
}

/// The 64-byte output report: command id, packet number, left and right
/// rumble, sub-command id, then the arguments left-aligned, zero elsewhere.
pub open spec fn frame_spec(
    command: u8,
    packet_number: u8,
    rumble_left: Option<[u8; 4]>,
    rumble_right: Option<[u8; 4]>,
    sub_command: u8,
    args: Seq<u8>,
) -> Seq<u8> {
    Seq::new(
        64,
        |i: int|
            if i == 0 {
                command
            } else if i == 1 {
                packet_number
            } else if 2 <= i < 6 {
                rumble_byte(rumble_left, i - 2)
            } else if 6 <= i < 10 {
                rumble_byte(rumble_right, i - 6)
            } else if i == 10 {
                sub_command
            } else if 11 <= i < 11 + args.len() {
                args[i - 11]
            } else {
                0
            },
    )
}

/// Builds one output report.
pub fn frame(
    command: u8,
    packet_number: u8,
    rumble_left: Option<[u8; 4]>,
    rumble_right: Option<[u8; 4]>,
    sub_command: u8,
    args: &[u8],
) -> (r: [u8; 64])
    requires
        args@.len() <= MAX_ARGS_LEN,
    ensures
        r@ == frame_spec(command, packet_number, rumble_left, rumble_right, sub_command, args@),
{
    let mut buf = [0u8; 64];
    buf[0] = command;
    buf[1] = packet_number;
    if let Some(l) = rumble_left {
        buf[2] = l[0];
        buf[3] = l[1];
        buf[4] = l[2];
        buf[5] = l[3];
    }
    if let Some(r) = rumble_right {
        buf[6] = r[0];
        buf[7] = r[1];
        buf[8] = r[2];
        buf[9] = r[3];
    }
    buf[10] = sub_command;
    let ghost spec = frame_spec(command, packet_number, rumble_left, rumble_right, sub_command, args@);
    let mut i: usize = 0;
    while i < args.len()
        invariant
            i <= args@.len() <= MAX_ARGS_LEN,
            buf@.len() == 64,
            spec.len() == 64,
            spec == frame_spec(command, packet_number, rumble_left, rumble_right, sub_command, args@),
            forall|j: int| 0 <= j < 11 + i ==> buf@[j] == spec[j],
            forall|j: int| 11 + i <= j < 64 ==> buf@[j] == 0,
        decreases args@.len() - i,
    {
        buf[ARGS_OFFSET + i] = args[i];
        i += 1;
    }
    assert(buf@ =~= spec);
    buf
}

/// What one output report shows of a frame: its length, the sub-command
/// byte, the arguments in place and zeros in every byte that nothing fills.
pub proof fn lemma_frame_layout(
    command: u8,
    packet_number: u8,
    rumble_left: Option<[u8; 4]>,
    rumble_right: Option<[u8; 4]>,
    sub_command: u8,
    args: Seq<u8>,
)
    requires
        args.len() <= MAX_ARGS_LEN,
    ensures
        ({
            let f = frame_spec(command, packet_number, rumble_left, rumble_right, sub_command, args);
            &&& f.len() == 64
            &&& f[0] == command
            &&& f[1] == packet_number
            &&& f[10] == sub_command
            &&& f.subrange(11, 11 + args.len() as int) == args
            &&& forall|i: int| 11 + args.len() <= i < 64 ==> f[i] == 0
            &&& rumble_left is None ==> forall|i: int| 2 <= i < 6 ==> f[i] == 0
            &&& rumble_right is None ==> forall|i: int| 6 <= i < 10 ==> f[i] == 0
        }),
{
    let f = frame_spec(command, packet_number, rumble_left, rumble_right, sub_command, args);
    assert(f.subrange(11, 11 + args.len() as int) =~= args);
}

} // verus!
