//! I2C combined write-then-read, byte by byte: the main sends the address
//! with the write bit and the command bytes, issues a repeated start without
//! releasing the bus, sends the address with the read bit, and clocks the
//! reply in. A byte the target does not acknowledge ends the transaction
//! with a bus error; what was read so far is never handed out.
use vstd::prelude::*;
use crate::error::PeriphError;
use crate::poll::{BoundedPoll, PollOutcome};

verus! {

/// Bus address of the temperature sensor.
pub const TMP117_I2C_ADDRESS: u8 = 0x48;

/// Register of the temperature result.
pub const TMP117_TEMP_RESULT_REG: u8 = 0x00;

/// Configuration register; its high byte carries the data-ready flag.
pub const TMP117_CONFIGURATION_REG: u8 = 0x01;

/// Register of the device identifier.
pub const TMP117_DEVICE_ID_REG: u8 = 0x0F;

/// Data-ready flag in the high byte of the configuration register.
pub const TMP117_DATA_READY: u8 = 0x20;

/// Value a data line reads while nobody drives it: the pull-up holds it high.
pub const RELEASED_BYTE: u8 = 0xFF;

/// The address byte: the 7-bit address above the read/write bit.
pub open spec fn address_byte_of(addr: u8, read: bool) -> int {
    2 * addr + if read {
        1int
    } else {
        0int
    }
}

/// The bytes the main sends in a combined write-then-read.
pub open spec fn frame_of(addr: u8, cmd: Seq<u8>) -> Seq<u8> {
    seq![address_byte_of(addr, false) as u8] + cmd + seq![address_byte_of(addr, true) as u8]
}

/// Whether the target acknowledged each of the first `k` bytes. A bit not
/// in `acks` reads high, which on the bus is a NACK.
pub open spec fn acked(acks: Seq<bool>, k: int) -> bool {
    k <= acks.len() && forall|i: int| 0 <= i < k ==> #[trigger] acks[i]
}

/// Byte `i` of the reply, as the main clocks it in.
pub open spec fn reply_byte(incoming: Seq<u8>, i: int) -> u8 {
    if i < incoming.len() {
        incoming[i]
    } else {
        RELEASED_BYTE
    }
}

/// The address byte for a 7-bit address; an address above 7 bits is
/// refused.
pub fn address_byte(addr: u8, read: bool) -> (r: Result<u8, PeriphError>)
    ensures
        match r {
            Ok(b) => addr < 128 && b as int == address_byte_of(addr, read),
            Err(e) => addr >= 128 && e == PeriphError::ConfigurationError,
        },
{
    if addr >= 128 {
        return Err(PeriphError::ConfigurationError);
    }
    if read {
        Ok(addr * 2 + 1)
    } else {
        Ok(addr * 2)
    }
}

/// The bytes the main sends in a combined write-then-read to `addr`.
pub fn write_read_frame(addr: u8, cmd: &Vec<u8>) -> (r: Result<Vec<u8>, PeriphError>)
    ensures
        match r {
            Ok(f) => addr < 128 && f@ == frame_of(addr, cmd@),
            Err(e) => addr >= 128 && e == PeriphError::ConfigurationError,
        },
{
    let w = match address_byte(addr, false) {
        Ok(b) => b,
        Err(e) => return Err(e),
    };
    let rd = match address_byte(addr, true) {
        Ok(b) => b,
        Err(e) => return Err(e),
    };
    let mut frame: Vec<u8> = Vec::new();
    frame.push(w);
    let mut i: usize = 0;
    while i < cmd.len()
        invariant
            i <= cmd@.len(),
            frame@ == seq![w] + cmd@.subrange(0, i as int),
        decreases cmd@.len() - i,
    {
        frame.push(cmd[i]);
        i = i + 1;
        assert(frame@ == seq![w] + cmd@.subrange(0, i as int));
    }
    frame.push(rd);
    assert(cmd@.subrange(0, cmd@.len() as int) == cmd@);
    Ok(frame)
}

/// A combined write-then-read of `n` bytes from the target at `addr`, with
/// command bytes `cmd`. `acks` holds the acknowledge bit the target gave to
/// each byte the main sent, in order; `incoming` the bytes the target drove
/// in the read phase. Returns the reply when every sent byte was
/// acknowledged; a missing acknowledge, of the address or of any command
/// byte, is a bus error.
pub fn write_then_read(addr: u8, cmd: &Vec<u8>, acks: &Vec<bool>, incoming: &Vec<u8>, n: usize) -> (r:
    Result<Vec<u8>, PeriphError>)
    ensures
        match r {
            Ok(d) => addr < 128 && acked(acks@, frame_of(addr, cmd@).len() as int) && d@.len() == n
                && forall|i: int| 0 <= i < n ==> #[trigger] d@[i] == reply_byte(incoming@, i),
            Err(PeriphError::ConfigurationError) => addr >= 128,
            Err(PeriphError::BusError) => addr < 128 && !acked(acks@, frame_of(addr, cmd@).len() as int),
            Err(PeriphError::Timeout) => false,
        },
{
    let frame = match write_read_frame(addr, cmd) {
        Ok(f) => f,
        Err(e) => return Err(e),
    };
    let mut i: usize = 0;
    while i < frame.len()
        invariant
            i <= frame@.len(),
            addr < 128,
            frame@ == frame_of(addr, cmd@),
            acked(acks@, i as int),
        decreases frame@.len() - i,
    {
        if i >= acks.len() || !acks[i] {
            proof {
                if i < acks@.len() {
                    assert(!acks@[i as int]);
                }
            }
            assert(!acked(acks@, frame@.len() as int));
            return Err(PeriphError::BusError);
        }
        i = i + 1;
    }
    let mut data: Vec<u8> = Vec::new();
    let mut j: usize = 0;
    while j < n
        invariant
            j <= n,
            data@.len() == j,
            forall|k: int| 0 <= k < j ==> #[trigger] data@[k] == reply_byte(incoming@, k),
        decreases n - j,
    {
        if j < incoming.len() {
            data.push(incoming[j]);
        } else {
            data.push(RELEASED_BYTE);
        }
        j = j + 1;
    }
    Ok(data)
}

/// Whether a read of the configuration register shows a finished
/// conversion.
pub fn tmp117_data_ready(config: &[u8; 2]) -> (r: bool)
    ensures
        r == ((config@[0] / 32) % 2 == 1),
{
    let hi: u8 = config[0];
    assert(hi & 0x20 != 0 <==> (hi / 32) % 2 == 1) by (bit_vector);
    hi & TMP117_DATA_READY != 0
}

/// The raw temperature result: the two bytes read, most significant first.
pub fn tmp117_raw_temperature(result: &[u8; 2]) -> (r: u16)
    ensures
        r as int == 256 * result@[0] + result@[1],
{
    (result[0] as u16) * 256 + result[1] as u16
}

/// One step of the wait for a finished conversion, given the outcome of a
/// read of the configuration register. A bus error ends the wait at once and
/// is passed on; otherwise the poll records whether the flag was set.
pub fn data_ready_step(poll: &mut BoundedPoll, reply: Result<[u8; 2], PeriphError>) -> (r: Result<
    PollOutcome,
    PeriphError,
>)
    requires
        old(poll).wf(),
    ensures
        final(poll).wf(),
        final(poll).budget == old(poll).budget,
        match reply {
            Err(e) => r == Err::<PollOutcome, PeriphError>(e) && *final(poll) == *old(poll),
            Ok(b) => {
                &&& r is Ok
                &&& (r->Ok_0 == PollOutcome::Ready) == (old(poll).attempts < old(poll).budget && (b@[0]
                    / 32) % 2 == 1)
                &&& (r->Ok_0 == PollOutcome::TimedOut) == (old(poll).attempts + 1 >= old(poll).budget
                    && !(old(poll).attempts < old(poll).budget && (b@[0] / 32) % 2 == 1))
            },
        },
{
    match reply {
        Err(e) => Err(e),
        Ok(b) => {
            let ready = tmp117_data_ready(&b);
            Ok(poll.observe(ready))
        },
    }
}

} // verus!
