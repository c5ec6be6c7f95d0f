//! The two-wire bus capability the driver is generic over, and the frames
//! the driver puts on it.

use vstd::prelude::*;

use crate::registers::{Bank, Register};

verus! {

/// One framed bus transaction, as specification data: the device address and
/// the bytes that actually crossed the bus.
#[verifier::ext_equal]
pub enum Transaction {
    /// Bytes sent to the device at the address.
    Write(u8, Seq<u8>),
    /// Bytes delivered by the device at the address.
    Read(u8, Seq<u8>),
}

/// Capability the driver needs from a two-wire bus: blocking framed
/// transactions against a device address. A ghost log records every
/// transaction, so that the driver's contracts can pin down the exact bytes
/// each operation puts on the bus.
pub trait I2cBus {
    /// Transport-level error reported on a bus failure (device NACK, lost
    /// arbitration, timeout — the taxonomy is the transport's own).
    type Error;

    /// Ghost history of the transactions performed, oldest first.
    spec fn log(&self) -> Seq<Transaction>;

    /// Send `bytes` to the device at `addr` as one framed transaction. On
    /// failure, only a proper prefix of the frame has crossed the bus, and
    /// nothing is sent after the failure point.
    fn write(&mut self, addr: u8, bytes: &Vec<u8>) -> (r: Result<(), Self::Error>)
        ensures
            r is Ok ==> final(self).log() == old(self).log().push(
                Transaction::Write(addr, bytes@),
            ),
            r is Err ==> exists|k: int|
                0 <= k < bytes@.len() && final(self).log() == old(self).log().push(
                    Transaction::Write(addr, bytes@.subrange(0, k)),
                ),
    ;

    /// Read one byte from the device at `addr` as one framed transaction.
    /// On failure no byte was delivered.
    fn read_byte(&mut self, addr: u8) -> (r: Result<u8, Self::Error>)
        ensures
            r matches Ok(b) ==> final(self).log() == old(self).log().push(
                Transaction::Read(addr, seq![b]),
            ),
            r is Err ==> final(self).log() == old(self).log().push(
                Transaction::Read(addr, Seq::<u8>::empty()),
            ),
    ;
}

/// The two-byte frame that writes `value` to `register`: the register
/// address, then the value.
pub open spec fn reg_frame_spec(register: Register, value: u8) -> Seq<u8> {
    seq![register.addr_spec(), value]
}

/// The seven-byte frame that writes a bank's three channel currents in one
/// transaction: the bank's base address, then low byte and two-bit high byte
/// of red, green and blue. Channel values are ten-bit quantities; higher
/// bits never reach the wire.
pub open spec fn bank_frame_spec(bank: Bank, r: u16, g: u16, b: u16) -> Seq<u8> {
    seq![
        bank.base_addr_spec(),
        (r & 0xFF) as u8,
        ((r >> 8) & 0x03) as u8,
        (g & 0xFF) as u8,
        ((g >> 8) & 0x03) as u8,
        (b & 0xFF) as u8,
        ((b >> 8) & 0x03) as u8,
    ]
}

/// Holds when the log grew by exactly one write toward the device that broke
/// off before the end of `frame`: a proper prefix of the frame crossed the
/// bus and nothing followed the failure point.
pub open spec fn aborted_write(
    pre: Seq<Transaction>,
    post: Seq<Transaction>,
    addr: u8,
    frame: Seq<u8>,
) -> bool {
    exists|k: int|
        0 <= k < frame.len() && post == pre.push(Transaction::Write(addr, frame.subrange(0, k)))
}

/// Holds when the log grew by one failed attempt to read a register: either
/// the one-byte address write itself broke off, or the address went out and
/// the one-byte read delivered nothing.
pub open spec fn aborted_read(
    pre: Seq<Transaction>,
    post: Seq<Transaction>,
    addr: u8,
    reg: u8,
) -> bool {
    ||| post == pre.push(Transaction::Write(addr, Seq::<u8>::empty()))
    ||| post == pre.push(Transaction::Write(addr, seq![reg])).push(
        Transaction::Read(addr, Seq::<u8>::empty()),
    )
}

/// Build the frame that writes `value` to `register`.
pub fn reg_frame(register: Register, value: u8) -> (f: Vec<u8>)
    ensures
        f@ == reg_frame_spec(register, value),
{
    let mut f: Vec<u8> = Vec::new();
    f.push(register.addr());
    f.push(value);
    proof {
        assert(f@ =~= reg_frame_spec(register, value));
    }
    f
}

/// Build the frame that writes a bank's three channel currents.
pub fn bank_frame(bank: Bank, r: u16, g: u16, b: u16) -> (f: Vec<u8>)
    ensures
        f@ == bank_frame_spec(bank, r, g, b),
{
    let mut f: Vec<u8> = Vec::new();
    f.push(bank.base_addr());
    f.push((r & 0xFF) as u8);
    f.push(((r >> 8) & 0x03) as u8);
    f.push((g & 0xFF) as u8);
    f.push(((g >> 8) & 0x03) as u8);
    f.push((b & 0xFF) as u8);
    f.push(((b >> 8) & 0x03) as u8);
    proof {
        assert(f@ =~= bank_frame_spec(bank, r, g, b));
    }
    f
}

} // verus!
