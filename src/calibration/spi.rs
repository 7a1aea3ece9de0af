use vstd::prelude::*;

verus! {

/// The most bytes one SPI flash read returns.
pub const SPI_MAX_READ: u8 = 0x1D;

/// How many replies are read while waiting for the answer to an SPI flash
/// read.
pub const SPI_READ_TRIES: usize = 5;

/// Length of the request that reads SPI flash.
pub const SPI_REQUEST_LEN: usize = 16;

/// Length of the reply read after an SPI flash read request.
pub const SPI_REPLY_LEN: usize = 64;

/// Index at which the reply repeats the request's sub-command and target.
pub const SPI_ECHO_OFFSET: usize = 14;

/// Index at which the data of the reply starts.
pub const SPI_DATA_OFFSET: usize = 20;

/// Sub-command byte of the SPI flash read request.
pub const SPI_READ_SUB_COMMAND: u8 = 0x10;

/// The address, low byte first, then the length.
pub open spec fn spi_target_spec(address: u32, length: u8) -> Seq<u8> {
    seq![
        (address % 256) as u8,
        (address / 256 % 256) as u8,
        (address / 65536 % 256) as u8,
        (address / 16777216) as u8,
        length,
    ]
}

/// The argument block of an SPI flash read of `length` bytes at `address`.
pub fn spi_target(address: u32, length: u8) -> (r: [u8; 5])
    requires
        length <= SPI_MAX_READ,
    ensures
        r@ == spi_target_spec(address, length),
{
    let b0 = (address & 0xFF) as u8;
    let b1 = ((address & 0xFF00) >> 8u32) as u8;
    let b2 = ((address & 0xFF0000) >> 16u32) as u8;
    let b3 = ((address & 0xFF000000) >> 24u32) as u8;
    proof {
        assert((address & 0xFF) as u8 == (address % 256) as u8
            && ((address & 0xFF00) >> 8u32) as u8 == ((address / 256) % 256) as u8
            && ((address & 0xFF0000) >> 16u32) as u8 == ((address / 65536) % 256) as u8
            && ((address & 0xFF000000) >> 24u32) as u8 == (address / 16777216) as u8)
            by (bit_vector);
    }
    let r = [b0, b1, b2, b3, length];
    assert(r@ =~= spi_target_spec(address, length));
    r
}

/// Offset added to an address for the memory-read feature report.
pub const MEMORY_READ_BASE: u32 = 0xF800_0000;

/// The checksum byte: what makes the bytes before it sum to 0 modulo 256.
pub open spec fn checksum_of(sum: int) -> u8 {
    ((256 - sum % 256) % 256) as u8
}

/// The feature report that sets up a memory read: its id, the target with
/// the address moved by `MEMORY_READ_BASE`, a zero, and the checksum.
pub open spec fn setup_memory_read_spec(address: u32, length: u8) -> Seq<u8> {
    let t = spi_target_spec((address + MEMORY_READ_BASE) as u32, length);
    seq![0x71u8, t[0], t[1], t[2], t[3], t[4], 0u8, checksum_of(0x71 + t[0] + t[1] + t[2] + t[3] + t[4])]
}

pub fn setup_memory_read_target(address: u32, length: u8) -> (r: [u8; 8])
    requires
        address + MEMORY_READ_BASE <= u32::MAX,
        length <= SPI_MAX_READ,
    ensures
        r@ == setup_memory_read_spec(address, length),
{
    let args = spi_target(address + MEMORY_READ_BASE, length);
    let sum: u32 = 0x71u32 + args[0] as u32 + args[1] as u32 + args[2] as u32 + args[3] as u32
        + args[4] as u32;
    let acc = (sum & 0xFF) as u8;
    let check = 0u8.wrapping_sub(acc);
    proof {
        assert((sum & 0xFF) as u8 == (sum % 256) as u8) by (bit_vector);
    }
    let r = [0x71u8, args[0], args[1], args[2], args[3], args[4], 0x00u8, check];
    assert(r@ =~= setup_memory_read_spec(address, length));
    r
}

/// The request that reads `length` bytes of SPI flash at a 16-bit address:
/// a rumble-and-sub-command report with packet number 0 and no rumble, the
/// SPI flash read sub-command, then the read's target.
pub open spec fn spi_read_request_spec(address: u16, length: u8) -> Seq<u8> {
    seq![0x01u8, 0u8, 0u8, 0u8, 0u8, 0u8, 0u8, 0u8, 0u8, 0u8, SPI_READ_SUB_COMMAND]
        + spi_target_spec(address as u32, length)
}

pub fn spi_read_request(address: u16, length: u8) -> (r: [u8; 16])
    requires
        length <= SPI_MAX_READ,
    ensures
        r@ == spi_read_request_spec(address, length),
{
    let t = spi_target(address as u32, length);
    let r = [
        0x01u8, 0u8, 0u8, 0u8, 0u8, 0u8, 0u8, 0u8, 0u8, 0u8,
        SPI_READ_SUB_COMMAND,
        t[0], t[1], t[2], t[3], t[4],
    ];
    assert(r@ =~= spi_read_request_spec(address, length));
    r
}

/// A reply answers the read when bytes 14 to 19 repeat the request's
/// sub-command, address and length.
pub open spec fn spi_reply_matches_spec(reply: Seq<u8>, address: u16, length: u8) -> bool {
    reply.subrange(14, 20) == spi_read_request_spec(address, length).subrange(10, 16)
}

pub fn spi_reply_matches(reply: &[u8; 64], address: u16, length: u8) -> (r: bool)
    requires
        length <= SPI_MAX_READ,
    ensures
        r == spi_reply_matches_spec(reply@, address, length),
{
    let request = spi_read_request(address, length);
    let mut i: usize = 0;
    while i < 6
        invariant
            i <= 6,
            request@ == spi_read_request_spec(address, length),
            forall|j: int| 14 <= j < 14 + i ==> reply@[j] == request@[j - 4],
        decreases 6 - i,
    {
        if reply[SPI_ECHO_OFFSET + i] != request[10 + i] {
            assert(reply@.subrange(14, 20)[i as int] != spi_read_request_spec(address, length).subrange(10, 16)[i as int]);
            return false;
        }
        i += 1;
    }
    assert(reply@.subrange(14, 20) =~= spi_read_request_spec(address, length).subrange(10, 16));
    true
}

/// What a wait for the answer to an SPI flash read does next.
#[derive(Debug, Clone, PartialEq, Eq)]
pub enum SpiReadStep<T> {
    /// Read one more reply and hand it to the wait.
    ReadAgain,
    /// The wait is over: the decoded answer, or nothing.
    Finished(Option<T>),
}

/// Waits for the reply that answers an SPI flash read, over at most
/// `SPI_READ_TRIES` replies.
#[derive(Debug, Clone, Copy)]
pub struct SpiReadWait {
    replies: usize,
}

impl SpiReadWait {
    pub closed spec fn replies_seen(self) -> nat {
        self.replies as nat
    }

    pub fn new() -> (r: SpiReadWait)
        ensures
            r.replies_seen() == 0,
    {
        SpiReadWait { replies: 0 }
    }

    /// Whether the wait may take another reply.
    pub fn can_read(&self) -> (r: bool)
        ensures
            r == (self.replies_seen() < SPI_READ_TRIES),
    {
        self.replies < SPI_READ_TRIES
    }

    /// Hands the outcome of one read to the wait: `None` for a failed read,
    /// which ends the wait without an answer; otherwise the reply decoded,
    /// `None` when it does not answer the read. An answer ends the wait; a
    /// reply that is no answer counts, and the last allowed one ends the wait
    /// without an answer.
    pub fn on_read<T>(&mut self, read: Option<Option<T>>) -> (r: SpiReadStep<T>)
        requires
            old(self).replies_seen() < SPI_READ_TRIES,
        ensures
            match read {
                None => r == SpiReadStep::<T>::Finished(None) && final(self).replies_seen() == old(self).replies_seen(),
                Some(Some(v)) => r == SpiReadStep::Finished(Some(v))
                    && final(self).replies_seen() == old(self).replies_seen() + 1,
                Some(None) => {
                    &&& final(self).replies_seen() == old(self).replies_seen() + 1
                    &&& if final(self).replies_seen() == SPI_READ_TRIES {
                        r == SpiReadStep::<T>::Finished(None)
                    } else {
                        r == SpiReadStep::<T>::ReadAgain
                    }
                },
            },
    {
        match read {
            None => SpiReadStep::Finished(None),
            Some(Some(v)) => {
                self.replies = self.replies + 1;
                SpiReadStep::Finished(Some(v))
            },
            Some(None) => {
                self.replies = self.replies + 1;
                if self.replies == SPI_READ_TRIES {
                    SpiReadStep::Finished(None)
                } else {
                    SpiReadStep::ReadAgain
                }
            },
        }
    }
}

} // verus!
