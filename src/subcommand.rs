use vstd::prelude::*;

use crate::bytes::copy_range;
use crate::command::SubCommand;
use crate::report::{
    ack_byte_spec, common_report_error, AckByte, CommonReport, StandardInputReport,
};
use crate::result::{JoyConError, JoyConResult};

verus! {

/// A reply to a sub-command that can be decoded from the 35 bytes that
/// follow the sub-command echo in a standard input report.
pub trait SubCommandReplyData: Sized {
    /// The sub-command whose reply this is.
    spec fn spec_sub_command() -> SubCommand;

    /// The arguments sent with the sub-command.
    spec fn spec_args() -> Seq<u8>;

    /// The 35 bytes `reply` hold no valid reply.
    spec fn spec_rejects(reply: Seq<u8>) -> bool;

    /// `e` is the error that the rejected bytes `reply` give.
    spec fn spec_error(reply: Seq<u8>, e: JoyConError) -> bool;

    /// This value is what the 35 bytes `reply` hold.
    spec fn spec_decodes(self, reply: Seq<u8>) -> bool;

    fn sub_command() -> (r: SubCommand)
        ensures
            r == Self::spec_sub_command(),
    ;

    fn args() -> (r: Vec<u8>)
        ensures
            r@ == Self::spec_args(),
            r@.len() <= crate::command::MAX_ARGS_LEN,
    ;

    fn from_reply(reply: [u8; 35]) -> (r: JoyConResult<Self>)
        ensures
            if Self::spec_rejects(reply@) {
                r is Err && Self::spec_error(reply@, r->Err_0)
            } else {
                r is Ok && r->Ok_0.spec_decodes(reply@)
            },
    ;
}

/// The part of a standard input report that answers a sub-command: the ack
/// byte, the id of the sub-command answered, and the decoded reply.
#[derive(Debug, Clone, PartialEq, Eq)]
pub struct SubCommandReport<RD> {
    pub ack_byte: AckByte,
    pub sub_command_id: u8,
    pub reply: RD,
}

impl<RD: SubCommandReplyData> SubCommandReport<RD> {
    pub open spec fn decodes(self, value: Seq<u8>) -> bool {
        &&& self.ack_byte == ack_byte_spec(value[0])
        &&& self.sub_command_id == value[1]
        &&& self.reply.spec_decodes(value.subrange(2, 37))
    }

    /// Decodes the 349 bytes that follow the header.
    pub fn try_from(value: [u8; 349]) -> (r: JoyConResult<SubCommandReport<RD>>)
        ensures
            if RD::spec_rejects(value@.subrange(2, 37)) {
                r is Err && RD::spec_error(value@.subrange(2, 37), r->Err_0)
            } else {
                r is Ok && r->Ok_0.decodes(value@)
            },
    {
        let ack_byte = AckByte::from(value[0]);
        let reply_bytes: [u8; 35] = copy_range(&value, 2);
        let reply = RD::from_reply(reply_bytes)?;
        Ok(SubCommandReport { ack_byte, sub_command_id: value[1], reply })
    }
}

/// Decodes a standard input report that answers a sub-command.
pub fn decode_sub_command_reply<RD: SubCommandReplyData>(value: &[u8; 362]) -> (r: JoyConResult<
    StandardInputReport<SubCommandReport<RD>>,
>)
    ensures
        match common_report_error(value@.subrange(0, 13)) {
            Some(e) => r == Err::<StandardInputReport<SubCommandReport<RD>>, JoyConError>(e),
            None => if RD::spec_rejects(value@.subrange(15, 50)) {
                r is Err && RD::spec_error(value@.subrange(15, 50), r->Err_0)
            } else {
                r is Ok && r->Ok_0.common.decodes(value@.subrange(0, 13))
                    && r->Ok_0.extra.decodes(value@.subrange(13, 362))
            },
        },
{
    let header: [u8; 13] = copy_range(value, 0);
    let common = CommonReport::try_from(header)?;
    let extra_bytes: [u8; 349] = copy_range(value, 13);
    assert(extra_bytes@.subrange(2, 37) =~= value@.subrange(15, 50));
    let extra = SubCommandReport::<RD>::try_from(extra_bytes)?;
    Ok(StandardInputReport { common, extra })
}

} // verus!
