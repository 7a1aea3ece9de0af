use vstd::prelude::*;

use crate::bytes::to_vec;
use crate::command::{frame, frame_spec, Command, GlobalPacketNumber, SubCommand, MAX_ARGS_LEN};
use crate::device::JoyConDeviceType;
use crate::features::{IMUConfig, JoyConFeature};
use crate::report::{ack_byte_spec, AckByte, SubCommandReply, ACK_BYTE_INDEX};
use crate::result::{JoyConError, JoyConResult};

verus! {

/// How often a reply is read while waiting for the acknowledgement of a
/// sub-command.
pub const ACK_TRY: usize = 5;

/// How the controller is held; it only changes how directions are read.
#[derive(Debug, Clone, Copy, PartialEq, Eq, Structural, Hash)]
pub enum Rotation {
    Portrait,
    Landscape,
}

/// A sub-command with its argument bytes.
#[derive(Debug, Clone, PartialEq, Eq)]
pub struct SubCommandRequest {
    pub sub_command: SubCommand,
    pub args: Vec<u8>,
}

pub open spec fn request_is(r: SubCommandRequest, sub_command: SubCommand, args: Seq<u8>) -> bool {
    r.sub_command == sub_command && r.args@ == args
}

fn request(sub_command: SubCommand, arg: u8) -> (r: SubCommandRequest)
    ensures
        request_is(r, sub_command, seq![arg]),
{
    let mut args: Vec<u8> = Vec::new();
    args.push(arg);
    assert(args@ =~= seq![arg]);
    SubCommandRequest { sub_command, args }
}

/// The state a driver keeps for one controller: how it is held, the rumble
/// sent with every frame, the features switched on, whether replies are
/// checked, and the packet number of the next frame.
#[derive(Debug, Clone)]
pub struct DriverState {
    pub rotation: Rotation,
    rumble_left: Option<[u8; 4]>,
    rumble_right: Option<[u8; 4]>,
    enabled_features: Vec<JoyConFeature>,
    valid_reply: bool,
    acks_reliable: bool,
    global_packet_number: GlobalPacketNumber,
}

/// One frame sent: it carries the packet number the state held, with the
/// state's rumble, and the packet number moves on by one.
pub open spec fn command_sent(
    before: DriverState,
    command: u8,
    sub_command: u8,
    args: Seq<u8>,
    sent: Seq<u8>,
    after: DriverState,
) -> bool {
    &&& sent == frame_spec(
        command,
        before.packet_number(),
        before.rumble_status().0,
        before.rumble_status().1,
        sub_command,
        args,
    )
    &&& after.packet_number() as int == (before.packet_number() as int + 1) % 256
    &&& after.rumble_status() == before.rumble_status()
    &&& after.features() == before.features()
    &&& after.checks_replies() == before.checks_replies()
    &&& after.held() == before.held()
    &&& after.reliable_acks() == before.reliable_acks()
}

impl DriverState {
    pub closed spec fn held(self) -> Rotation {
        self.rotation
    }

    pub closed spec fn packet_number(self) -> u8 {
        self.global_packet_number.0
    }

    pub closed spec fn rumble_status(self) -> (Option<[u8; 4]>, Option<[u8; 4]>) {
        (self.rumble_left, self.rumble_right)
    }

    pub closed spec fn features(self) -> Seq<JoyConFeature> {
        self.enabled_features@
    }

    pub closed spec fn checks_replies(self) -> bool {
        self.valid_reply
    }

    /// Whether the controller acknowledges every sub-command; a Pro
    /// Controller does not.
    pub closed spec fn reliable_acks(self) -> bool {
        self.acks_reliable
    }

    /// No feature is listed twice.
    pub open spec fn wf(self) -> bool {
        self.features().no_duplicates()
    }

    /// A fresh driver: held upright, no rumble, no feature, packet number 0,
    /// and replies checked except on a Pro Controller, which does not
    /// acknowledge every sub-command.
    pub fn new(device_type: JoyConDeviceType) -> (r: DriverState)
        ensures
            r.wf(),
            r.held() == Rotation::Portrait,
            r.rumble_status() == (None::<[u8; 4]>, None::<[u8; 4]>),
            r.features() == Seq::<JoyConFeature>::empty(),
            r.checks_replies() == (device_type != JoyConDeviceType::ProCon),
            r.reliable_acks() == (device_type != JoyConDeviceType::ProCon),
            r.packet_number() == 0,
    {
        let valid_reply = match device_type {
            JoyConDeviceType::ProCon => false,
            _ => true,
        };
        DriverState {
            rotation: Rotation::Portrait,
            rumble_left: None,
            rumble_right: None,
            enabled_features: Vec::new(),
            valid_reply,
            acks_reliable: valid_reply,
            global_packet_number: GlobalPacketNumber::initial(),
        }
    }

    pub fn valid_reply(&self) -> (r: bool)
        ensures
            r == self.checks_replies(),
    {
        self.valid_reply
    }

    pub fn set_valid_reply(&mut self, valid: bool)
        ensures
            final(self).checks_replies() == valid,
            final(self).reliable_acks() == old(self).reliable_acks(),
            final(self).packet_number() == old(self).packet_number(),
            final(self).rumble_status() == old(self).rumble_status(),
            final(self).features() == old(self).features(),
            final(self).held() == old(self).held(),
    {
        self.valid_reply = valid;
    }

    pub fn acks_reliable(&self) -> (r: bool)
        ensures
            r == self.reliable_acks(),
    {
        self.acks_reliable
    }

    pub fn global_packet_number(&self) -> (r: u8)
        ensures
            r == self.packet_number(),
    {
        self.global_packet_number.value()
    }

    pub fn increase_global_packet_number(&mut self)
        ensures
            final(self).packet_number() as int == (old(self).packet_number() as int + 1) % 256,
            final(self).reliable_acks() == old(self).reliable_acks(),
            final(self).checks_replies() == old(self).checks_replies(),
            final(self).rumble_status() == old(self).rumble_status(),
            final(self).features() == old(self).features(),
            final(self).held() == old(self).held(),
    {
        self.global_packet_number = self.global_packet_number.next();
    }

    /// Sets the rumble bytes sent with every following frame.
    pub fn set_rumble_status(&mut self, rumble_l_r: (Option<[u8; 4]>, Option<[u8; 4]>))
        ensures
            final(self).rumble_status() == rumble_l_r,
            final(self).reliable_acks() == old(self).reliable_acks(),
            final(self).packet_number() == old(self).packet_number(),
            final(self).checks_replies() == old(self).checks_replies(),
            final(self).features() == old(self).features(),
            final(self).held() == old(self).held(),
    {
        self.rumble_left = rumble_l_r.0;
        self.rumble_right = rumble_l_r.1;
    }

    pub fn get_rumble_status(&self) -> (r: (Option<[u8; 4]>, Option<[u8; 4]>))
        ensures
            r == self.rumble_status(),
    {
        (self.rumble_left, self.rumble_right)
    }

    pub fn enabled_features(&self) -> (r: &Vec<JoyConFeature>)
        ensures
            r@ == self.features(),
    {
        &self.enabled_features
    }

    /// Whether `feature` is switched on.
    pub fn has_feature(&self, feature: JoyConFeature) -> (r: bool)
        ensures
            r == self.features().contains(feature),
    {
        let mut i: usize = 0;
        while i < self.enabled_features.len()
            invariant
                i <= self.enabled_features@.len(),
                forall|j: int| 0 <= j < i ==> self.enabled_features@[j] != feature,
            decreases self.enabled_features@.len() - i,
        {
            if self.enabled_features[i] == feature {
                return true;
            }
            i += 1;
        }
        false
    }

    /// Whether the 6-axis sensor is switched on, in any configuration.
    pub fn imu_enabled(&self) -> (r: bool)
        ensures
            r == exists|c: IMUConfig| self.features().contains(JoyConFeature::IMUFeature(c)),
    {
        let mut i: usize = 0;
        while i < self.enabled_features.len()
            invariant
                i <= self.enabled_features@.len(),
                forall|j: int| 0 <= j < i ==> self.enabled_features@[j] is Vibration,
            decreases self.enabled_features@.len() - i,
        {
            if let JoyConFeature::IMUFeature(c) = self.enabled_features[i] {
                assert(self.features()[i as int] == JoyConFeature::IMUFeature(c));
                assert(self.features().contains(JoyConFeature::IMUFeature(c)));
                return true;
            }
            i += 1;
        }
        assert forall|c: IMUConfig| !self.features().contains(JoyConFeature::IMUFeature(c)) by {
            if self.features().contains(JoyConFeature::IMUFeature(c)) {
                let j = choose|j: int|
                    0 <= j < self.features().len() && self.features()[j]
                        == JoyConFeature::IMUFeature(c);
                assert(self.enabled_features@[j] is Vibration);
            }
        }
        false
    }

    /// Records that `feature` was switched on.
    pub fn mark_enabled(&mut self, feature: JoyConFeature)
        requires
            old(self).wf(),
        ensures
            final(self).wf(),
            final(self).features().to_set() == old(self).features().to_set().insert(feature),
            final(self).reliable_acks() == old(self).reliable_acks(),
            final(self).packet_number() == old(self).packet_number(),
            final(self).checks_replies() == old(self).checks_replies(),
            final(self).rumble_status() == old(self).rumble_status(),
            final(self).held() == old(self).held(),
    {
        if !self.has_feature(feature) {
            self.enabled_features.push(feature);
            assert(self.features().to_set() =~= old(self).features().to_set().insert(feature)) by {
                assert forall|x: JoyConFeature| #[trigger]
                    self.features().contains(x) <==> old(self).features().contains(x) || x
                        == feature by {
                    if old(self).features().contains(x) {
                        let j = choose|j: int|
                            0 <= j < old(self).features().len() && old(self).features()[j] == x;
                        assert(self.features()[j] == x);
                    }
                    if x == feature {
                        assert(self.features()[self.features().len() - 1] == x);
                    }
                }
            }
        } else {
            assert(old(self).features().to_set() =~= old(self).features().to_set().insert(
                feature,
            ));
        }
    }

    /// The frame of a command: the current packet number and rumble, then
    /// the sub-command and its arguments. The packet number moves on.
    pub fn send_command_raw(&mut self, command: u8, sub_command: u8, data: &[u8]) -> (r: [u8; 64])
        requires
            data@.len() <= MAX_ARGS_LEN,
        ensures
            command_sent(*old(self), command, sub_command, data@, r@, *final(self)),
            final(self).wf() == old(self).wf(),
    {
        let buf = frame(
            command,
            self.global_packet_number.value(),
            self.rumble_left,
            self.rumble_right,
            sub_command,
            data,
        );
        self.increase_global_packet_number();
        buf
    }

    /// The frame of a command given by its names.
    pub fn send_command(&mut self, command: Command, sub_command: SubCommand, data: &[u8]) -> (r: [u8;
        64])
        requires
            data@.len() <= MAX_ARGS_LEN,
        ensures
            command_sent(*old(self), command.spec_id(), sub_command.spec_id(), data@, r@, *final(self)),
            final(self).wf() == old(self).wf(),
    {
        self.send_command_raw(command.id(), sub_command.id(), data)
    }

    /// The frame of a sub-command, and the exchange that waits for its
    /// reply. The exchange checks the reply only while replies are checked.
    pub fn send_sub_command_raw(&mut self, sub_command: u8, data: &[u8]) -> (r: (
        [u8; 64],
        SubCommandExchange,
    ))
        requires
            data@.len() <= MAX_ARGS_LEN,
        ensures
            command_sent(
                *old(self),
                Command::RumbleAndSubCommand.spec_id(),
                sub_command,
                data@,
                r.0@,
                *final(self),
            ),
            final(self).wf() == old(self).wf(),
            r.1.sub_command() == sub_command,
            r.1.validates() == old(self).checks_replies(),
            r.1.failures() == 0,
            r.1.last_read() == Seq::<u8>::empty(),
    {
        let validate = self.valid_reply;
        let buf = self.send_command_raw(Command::RumbleAndSubCommand.id(), sub_command, data);
        (buf, SubCommandExchange::new(sub_command, validate))
    }

    pub fn send_sub_command(&mut self, sub_command: SubCommand, data: &[u8]) -> (r: (
        [u8; 64],
        SubCommandExchange,
    ))
        requires
            data@.len() <= MAX_ARGS_LEN,
        ensures
            command_sent(
                *old(self),
                Command::RumbleAndSubCommand.spec_id(),
                sub_command.spec_id(),
                data@,
                r.0@,
                *final(self),
            ),
            final(self).wf() == old(self).wf(),
            r.1.sub_command() == sub_command.spec_id(),
            r.1.validates() == old(self).checks_replies(),
            r.1.failures() == 0,
            r.1.last_read() == Seq::<u8>::empty(),
    {
        self.send_sub_command_raw(sub_command.id(), data)
    }

    /// The frame that sends the current rumble on its own.
    pub fn rumble_frame(&mut self) -> (r: [u8; 64])
        ensures
            command_sent(
                *old(self),
                Command::Rumble.spec_id(),
                0,
                Seq::<u8>::empty(),
                r@,
                *final(self),
            ),
            final(self).wf() == old(self).wf(),
    {
        let none: [u8; 0] = [];
        proof {
            assert(none@ =~= Seq::<u8>::empty());
        }
        self.send_command_raw(Command::Rumble.id(), 0, &none)
    }

    /// The outcome of the reset made when a driver is attached: a controller
    /// that does not acknowledge reliably may fail it without failing the
    /// attachment.
    pub fn settle_reset(&self, result: JoyConResult<()>) -> (r: JoyConResult<()>)
        ensures
            self.reliable_acks() ==> r == result,
            !self.reliable_acks() ==> r is Ok,
    {
        if self.acks_reliable {
            result
        } else {
            Ok(())
        }
    }

    /// What resets a controller: the 6-axis sensor off, then vibration off.
    pub fn reset_requests() -> (r: Vec<SubCommandRequest>)
        ensures
            r@.len() == 2,
            request_is(r@[0], SubCommand::EnableIMU, seq![0u8]),
            request_is(r@[1], SubCommand::EnableVibration, seq![0u8]),
    {
        let mut v: Vec<SubCommandRequest> = Vec::new();
        v.push(request(SubCommand::EnableIMU, 0));
        v.push(request(SubCommand::EnableVibration, 0));
        v
    }

    /// What switches a feature on: for the 6-axis sensor, enabling it and
    /// then its configuration; for vibration, enabling it.
    pub fn feature_requests(feature: JoyConFeature) -> (r: Vec<SubCommandRequest>)
        ensures
            match feature {
                JoyConFeature::IMUFeature(config) => {
                    &&& r@.len() == 2
                    &&& request_is(r@[0], SubCommand::EnableIMU, seq![1u8])
                    &&& request_is(r@[1], SubCommand::SetIMUSensitivity, config.spec_to_bytes())
                },
                JoyConFeature::Vibration => {
                    &&& r@.len() == 1
                    &&& request_is(r@[0], SubCommand::EnableVibration, seq![1u8])
                },
            },
    {
        let mut v: Vec<SubCommandRequest> = Vec::new();
        match feature {
            JoyConFeature::IMUFeature(config) => {
                v.push(request(SubCommand::EnableIMU, 1));
                let bytes = config.to_bytes();
                let args = to_vec(&bytes);
                v.push(SubCommandRequest { sub_command: SubCommand::SetIMUSensitivity, args });
            },
            JoyConFeature::Vibration => {
                v.push(request(SubCommand::EnableVibration, 1));
            },
        }
        v
    }
}

/// What an exchange does next.
#[derive(Debug)]
pub enum ExchangeStep {
    /// Read one more input report and hand it to the exchange.
    ReadAgain,
    /// The exchange is over, with this outcome.
    Finished(JoyConResult<SubCommandReply<[u8; 362]>>),
}

/// Waits for the acknowledgement of one sub-command, over at most
/// `ACK_TRY` reads.
#[derive(Debug, Clone)]
pub struct SubCommandExchange {
    sub_command: u8,
    validate: bool,
    failures: usize,
    last_read: Vec<u8>,
}

/// A read that does not end the exchange by itself: while acknowledgements
/// are checked, a report without one; in any case, an error other than a
/// transport failure.
pub open spec fn read_fails(validate: bool, read: JoyConResult<[u8; 362]>) -> bool {
    match read {
        Ok(buf) => validate && !(ack_byte_spec(buf[ACK_BYTE_INDEX as int]) is Ack),
        Err(e) => !e.is_transport_failure(),
    }
}

/// One read handed to an exchange: an acknowledged report is the checked
/// reply; without checking, any report read is the unchecked reply; a
/// transport failure is the outcome; any other read is one more failure; the failure that uses up the budget ends the exchange with a
/// sub-command error carrying the bytes read last.
pub open spec fn exchange_transition(
    before: SubCommandExchange,
    read: JoyConResult<[u8; 362]>,
    after: SubCommandExchange,
    step: ExchangeStep,
) -> bool {
    &&& after.sub_command() == before.sub_command()
    &&& after.validates() == before.validates()
    &&& if read_fails(before.validates(), read) {
        &&& after.failures() == before.failures() + 1
        &&& after.last_read() == match read {
            Ok(buf) => buf@,
            Err(_) => before.last_read(),
        }
        &&& if after.failures() == ACK_TRY {
            step matches ExchangeStep::Finished(Err(JoyConError::SubCommandError(id, bytes)))
                && id == before.sub_command() && bytes@ == after.last_read()
        } else {
            step is ReadAgain
        }
    } else {
        &&& after.failures() == before.failures()
        &&& after.last_read() == before.last_read()
        &&& match read {
            Ok(buf) => step == ExchangeStep::Finished(
                Ok(
                    if before.validates() {
                        SubCommandReply::Checked(buf)
                    } else {
                        SubCommandReply::Unchecked(buf)
                    },
                ),
            ),
            Err(e) => step == ExchangeStep::Finished(Err(e)),
        }
    }
}

impl SubCommandExchange {
    pub closed spec fn sub_command(self) -> u8 {
        self.sub_command
    }

    pub closed spec fn validates(self) -> bool {
        self.validate
    }

    pub closed spec fn failures(self) -> nat {
        self.failures as nat
    }

    pub closed spec fn last_read(self) -> Seq<u8> {
        self.last_read@
    }

    pub fn new(sub_command: u8, validate: bool) -> (r: SubCommandExchange)
        ensures
            r.sub_command() == sub_command,
            r.validates() == validate,
            r.failures() == 0,
            r.last_read() == Seq::<u8>::empty(),
    {
        SubCommandExchange { sub_command, validate, failures: 0, last_read: Vec::new() }
    }

    /// Whether the exchange may take another read.
    pub fn can_read(&self) -> (r: bool)
        ensures
            r == (self.failures() < ACK_TRY),
    {
        self.failures < ACK_TRY
    }

    /// The first step once the frame is written: a report is read, checked
    /// or not.
    pub fn start(&self) -> (r: ExchangeStep)
        ensures
            r is ReadAgain,
    {
        ExchangeStep::ReadAgain
    }

    /// Hands the outcome of one read to the exchange.
    pub fn on_read(&mut self, read: JoyConResult<[u8; 362]>) -> (r: ExchangeStep)
        requires
            old(self).failures() < ACK_TRY,
        ensures
            exchange_transition(*old(self), read, *final(self), r),
    {
        match read {
            Ok(buf) => {
                if !self.validate {
                    return ExchangeStep::Finished(Ok(SubCommandReply::Unchecked(buf)));
                }
                let ack = AckByte::from(buf[ACK_BYTE_INDEX]);
                if ack.is_ack() {
                    ExchangeStep::Finished(Ok(SubCommandReply::Checked(buf)))
                } else {
                    self.failures = self.failures + 1;
                    self.last_read = to_vec(&buf);
                    self.after_failure()
                }
            },
            Err(e) => {
                if e.transport_failure() {
                    ExchangeStep::Finished(Err(e))
                } else {
                    self.failures = self.failures + 1;
                    self.after_failure()
                }
            },
        }
    }

    fn after_failure(&self) -> (r: ExchangeStep)
        requires
            self.failures() <= ACK_TRY,
        ensures
            if self.failures() == ACK_TRY {
                r matches ExchangeStep::Finished(Err(JoyConError::SubCommandError(id, bytes)))
                    && id == self.sub_command() && bytes@ == self.last_read()
            } else {
                r is ReadAgain
            },
    {
        if self.failures == ACK_TRY {
            ExchangeStep::Finished(Err(JoyConError::SubCommandError(self.sub_command, self.last_read.clone())))
        } else {
            ExchangeStep::ReadAgain
        }
    }
}

/// Frames sent one after another by a fresh driver carry the packet
/// numbers 0, 1, 2, ... taken modulo 256, whatever the frames hold, and after
/// N frames the packet number is N modulo 256.
pub proof fn lemma_packet_numbers_cycle(
    states: Seq<DriverState>,
    commands: Seq<u8>,
    sub_commands: Seq<u8>,
    args: Seq<Seq<u8>>,
    sent: Seq<Seq<u8>>,
)
    requires
        states.len() == sent.len() + 1,
        commands.len() == sent.len(),
        sub_commands.len() == sent.len(),
        args.len() == sent.len(),
        states[0].packet_number() == 0,
        forall|k: int|
            0 <= k < sent.len() ==> #[trigger] command_sent(
                states[k],
                commands[k],
                sub_commands[k],
                args[k],
                sent[k],
                states[k + 1],
            ),
    ensures
        forall|k: int| 0 <= k < sent.len() ==> (#[trigger] sent[k])[1] as int == k % 256,
        forall|k: int| 0 <= k < sent.len() ==> (#[trigger] sent[k]).len() == 64,
        states.last().packet_number() as int == sent.len() % 256,
{
    assert forall|k: int| 0 <= k < states.len() implies #[trigger] states[k].packet_number() as int
        == k % 256 by {
        lemma_packet_number_after(states, commands, sub_commands, args, sent, k);
    }
    assert(states[states.len() - 1].packet_number() as int == (states.len() - 1) % 256);
    assert forall|k: int| 0 <= k < sent.len() implies (#[trigger] sent[k])[1] as int == k % 256
        && sent[k].len() == 64 by {
        assert(command_sent(states[k], commands[k], sub_commands[k], args[k], sent[k], states[k + 1]));
        assert(states[k].packet_number() as int == k % 256);
    }
}

proof fn lemma_packet_number_after(
    states: Seq<DriverState>,
    commands: Seq<u8>,
    sub_commands: Seq<u8>,
    args: Seq<Seq<u8>>,
    sent: Seq<Seq<u8>>,
    k: int,
)
    requires
        states.len() == sent.len() + 1,
        commands.len() == sent.len(),
        sub_commands.len() == sent.len(),
        args.len() == sent.len(),
        states[0].packet_number() == 0,
        forall|k: int|
            0 <= k < sent.len() ==> #[trigger] command_sent(
                states[k],
                commands[k],
                sub_commands[k],
                args[k],
                sent[k],
                states[k + 1],
            ),
        0 <= k < states.len(),
    ensures
        states[k].packet_number() as int == k % 256,
    decreases k,
{
    if k > 0 {
        lemma_packet_number_after(states, commands, sub_commands, args, sent, k - 1);
        let j = k - 1;
        assert(command_sent(states[j], commands[j], sub_commands[j], args[j], sent[j], states[j + 1]));
        assert(((k - 1) % 256 + 1) % 256 == k % 256) by (nonlinear_arith)
            requires
                k > 0,
        ;
    }
}

/// Reads that each fail, handed to a fresh exchange one after another while
/// it asks for more, end it at exactly the `ACK_TRY`-th read, never sooner,
/// with a sub-command error for its sub-command.
pub proof fn lemma_retry_budget(
    states: Seq<SubCommandExchange>,
    reads: Seq<JoyConResult<[u8; 362]>>,
    steps: Seq<ExchangeStep>,
)
    requires
        reads.len() >= 1,
        states.len() == reads.len() + 1,
        steps.len() == reads.len(),
        states[0].failures() == 0,
        forall|k: int|
            0 <= k < reads.len() ==> #[trigger] exchange_transition(
                states[k],
                reads[k],
                states[k + 1],
                steps[k],
            ),
        forall|k: int| 0 <= k < reads.len() ==> read_fails(states[0].validates(), #[trigger] reads[k]),
        forall|k: int| 0 <= k < reads.len() - 1 ==> (#[trigger] steps[k]) is ReadAgain,
    ensures
        reads.len() <= ACK_TRY,
        forall|k: int| 0 <= k < reads.len() ==> ((#[trigger] steps[k]) is Finished <==> k + 1 == ACK_TRY),
        reads.len() == ACK_TRY ==> (steps.last() matches ExchangeStep::Finished(
            Err(JoyConError::SubCommandError(id, _)),
        ) && id == states[0].sub_command()),
{
    assert forall|k: int| 0 <= k < states.len() implies #[trigger] states[k].failures() == k
        && states[k].sub_command() == states[0].sub_command()
        && states[k].validates() == states[0].validates() by {
        lemma_failures_after(states, reads, steps, k);
    }
    assert forall|k: int| 0 <= k < reads.len() implies ((#[trigger] steps[k]) is Finished <==> k + 1
        == ACK_TRY) by {
        assert(exchange_transition(states[k], reads[k], states[k + 1], steps[k]));
        assert(read_fails(states[0].validates(), reads[k]));
        assert(states[k + 1].failures() == k + 1);
    }
    if reads.len() > ACK_TRY {
        let k = ACK_TRY - 1;
        assert(steps[k] is Finished);
        assert(steps[k] is ReadAgain);
    }
    if reads.len() == ACK_TRY {
        let k = ACK_TRY - 1;
        assert(exchange_transition(states[k], reads[k], states[k + 1], steps[k]));
        assert(read_fails(states[0].validates(), reads[k]));
        assert(states[k].sub_command() == states[0].sub_command());
    }
}

proof fn lemma_failures_after(
    states: Seq<SubCommandExchange>,
    reads: Seq<JoyConResult<[u8; 362]>>,
    steps: Seq<ExchangeStep>,
    k: int,
)
    requires
        states.len() == reads.len() + 1,
        steps.len() == reads.len(),
        states[0].failures() == 0,
        forall|k: int|
            0 <= k < reads.len() ==> #[trigger] exchange_transition(
                states[k],
                reads[k],
                states[k + 1],
                steps[k],
            ),
        forall|k: int| 0 <= k < reads.len() ==> read_fails(states[0].validates(), #[trigger] reads[k]),
        0 <= k < states.len(),
    ensures
        states[k].failures() == k,
        states[k].sub_command() == states[0].sub_command(),
        states[k].validates() == states[0].validates(),
    decreases k,
{
    if k > 0 {
        lemma_failures_after(states, reads, steps, k - 1);
        let j = k - 1;
        assert(exchange_transition(states[j], reads[j], states[j + 1], steps[j]));
        assert(read_fails(states[0].validates(), reads[j]));
    }
}

} // verus!
