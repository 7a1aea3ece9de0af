use vstd::prelude::*;

use crate::command::SubCommand;
use crate::driver::{request_is, DriverState, SubCommandRequest};
use crate::features::{IMUConfig, JoyConFeature};

verus! {

/// Argument of the mode switch to simple HID reports.
pub const SIMPLE_HID_MODE_ARG: u8 = 0x3F;

/// Argument of the mode switch to standard full reports.
pub const STANDARD_FULL_MODE_ARG: u8 = 0x30;

/// The input report modes. A controller is always in exactly one of the
/// first two; a switch replaces the previous one. The third switches
/// nothing: it reads the reply to the next sub-command.
#[derive(Debug, Clone, Copy, PartialEq, Eq, Structural, Hash)]
pub enum InputReportMode {
    /// A short report on every button change.
    SimpleHID,
    /// The full standard report, with 6-axis data, at 60 Hz or more.
    StandardFull,
    /// The standard report that answers a sub-command.
    SubCommandReply,
}

/// One step of setting a mode up.
#[derive(Debug, Clone, PartialEq, Eq)]
pub enum ModeSetupStep {
    /// Switch a feature on, then record it as enabled.
    EnableFeature(JoyConFeature),
    /// Stop waiting for acknowledgements of sub-commands.
    StopCheckingReplies,
    /// Send a sub-command.
    Send(SubCommandRequest),
}

fn mode_switch(arg: u8) -> (r: ModeSetupStep)
    ensures
        r matches ModeSetupStep::Send(req) && request_is(req, SubCommand::SetInputReportMode, seq![arg]),
{
    let mut args: Vec<u8> = Vec::new();
    args.push(arg);
    assert(args@ =~= seq![arg]);
    ModeSetupStep::Send(SubCommandRequest { sub_command: SubCommand::SetInputReportMode, args })
}

impl InputReportMode {
    /// The steps that put a controller in this mode. Simple HID only
    /// switches. Standard full first switches the 6-axis sensor on with its
    /// default configuration unless it is on already, then, on a controller
    /// that does not acknowledge reliably, stops checking replies, then
    /// switches. Sub-command replies need no step.
    pub fn setup(self, state: &DriverState) -> (r: Vec<ModeSetupStep>)
        ensures
            match self {
                InputReportMode::SimpleHID => r@.len() == 1 && (r@[0] matches ModeSetupStep::Send(
                    req,
                ) && request_is(req, SubCommand::SetInputReportMode, seq![SIMPLE_HID_MODE_ARG])),
                InputReportMode::StandardFull => {
                    let imu_on = exists|c: IMUConfig|
                        state.features().contains(JoyConFeature::IMUFeature(c));
                    let k: int = if imu_on { 0 } else { 1 };
                    let m: int = if state.reliable_acks() { 0 } else { 1 };
                    &&& r@.len() == k + m + 1
                    &&& !imu_on ==> r@[0] == ModeSetupStep::EnableFeature(
                        JoyConFeature::IMUFeature(IMUConfig::spec_default()),
                    )
                    &&& !state.reliable_acks() ==> r@[k] == ModeSetupStep::StopCheckingReplies
                    &&& r@[k + m] matches ModeSetupStep::Send(req) && request_is(
                        req,
                        SubCommand::SetInputReportMode,
                        seq![STANDARD_FULL_MODE_ARG],
                    )
                },
                InputReportMode::SubCommandReply => r@.len() == 0,
            },
    {
        let mut steps: Vec<ModeSetupStep> = Vec::new();
        match self {
            InputReportMode::SimpleHID => {
                steps.push(mode_switch(SIMPLE_HID_MODE_ARG));
            },
            InputReportMode::StandardFull => {
                if !state.imu_enabled() {
                    steps.push(ModeSetupStep::EnableFeature(JoyConFeature::IMUFeature(IMUConfig::default())));
                }
                if !state.acks_reliable() {
                    steps.push(ModeSetupStep::StopCheckingReplies);
                }
                steps.push(mode_switch(STANDARD_FULL_MODE_ARG));
            },
            InputReportMode::SubCommandReply => {},
        }
        steps
    }
}

} // verus!
