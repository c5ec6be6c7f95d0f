//! Register-level driver for the LM3549 high-power sequential LED driver.
//!
//! The chip is controlled over a two-wire serial bus. This crate defines the
//! register address map, the bit-field codecs for the composite registers
//! (control, current limit, fault, fault mask), and a driver that frames each
//! high-level operation as one or more bus transactions. The driver is
//! generic over the [`bus::I2cBus`] capability, whose ghost transaction log
//! lets every operation's contract pin down the exact bytes it puts on the
//! bus; [`sim::SimBus`] is a verified in-memory transport for tests.

use vstd::prelude::*;

pub mod bus;
pub mod registers;
pub mod sim;

pub use crate::bus::{I2cBus, Transaction};
pub use crate::registers::{
    Bank, Ctrl, Fault, FaultMask, Ilimit, NegLimit, OpenShort, PosLimit, Register, SoftStart,
    Timeout,
};
pub use crate::sim::{BusEvent, SimBus, SimError};

use crate::bus::{aborted_read, aborted_write, bank_frame, bank_frame_spec, reg_frame,
    reg_frame_spec};

verus! {

/// Seven-bit bus address the chip answers to.
pub const LM3549_ADDR: u8 = 0x36;

/// LM3549 high-power sequential LED driver, generic over the bus transport.
/// It owns the transport and a fixed device address for its whole lifetime
/// and holds no other state: every operation goes straight to the device.
pub struct LM3549<I2C> {
    /// The bus transport, exclusively owned.
    pub i2c: I2C,
    /// Seven-bit device address, fixed at construction.
    pub address: u8,
}

impl<I2C> LM3549<I2C> {
    /// Create a new LM3549 instance with the default address.
    pub fn new(i2c: I2C) -> (d: Self)
        ensures
            d.i2c == i2c,
            d.address == LM3549_ADDR,
    {
        LM3549 { i2c, address: LM3549_ADDR }
    }
}

impl<I2C: I2cBus> LM3549<I2C> {
    /// Ghost history of the bus transactions performed through this driver.
    pub open spec fn log(&self) -> Seq<Transaction> {
        self.i2c.log()
    }

    /// Read a register: write the one-byte register address, then read one
    /// byte, both framed against the device address. A transport failure is
    /// returned unchanged.
    pub fn read(&mut self, register: Register) -> (r: Result<u8, I2C::Error>)
        ensures
            final(self).address == old(self).address,
            r matches Ok(v) ==> final(self).log() == old(self).log().push(
                Transaction::Write(old(self).address, seq![register.addr_spec()]),
            ).push(Transaction::Read(old(self).address, seq![v])),
            r is Err ==> aborted_read(
                old(self).log(),
                final(self).log(),
                old(self).address,
                register.addr_spec(),
            ),
    {
        let mut frame: Vec<u8> = Vec::new();
        frame.push(register.addr());
        proof {
            assert(frame@ =~= seq![register.addr_spec()]);
        }
        match self.i2c.write(self.address, &frame) {
            Ok(()) => {}
            Err(e) => {
                proof {
                    let k = choose|k: int|
                        0 <= k < frame@.len() && self.log() == old(self).log().push(
                            Transaction::Write(old(self).address, frame@.subrange(0, k)),
                        );
                    assert(frame@.subrange(0, k) =~= Seq::<u8>::empty());
                }
                return Err(e);
            }
        }
        match self.i2c.read_byte(self.address) {
            Ok(v) => Ok(v),
            Err(e) => Err(e),
        }
    }

    /// Read and decode the fault register.
    pub fn get_fault(&mut self) -> (r: Result<Fault, I2C::Error>)
        ensures
            final(self).address == old(self).address,
            r matches Ok(f) ==> final(self).log() == old(self).log().push(
                Transaction::Write(old(self).address, seq![Register::Fault.addr_spec()]),
            ).push(Transaction::Read(old(self).address, seq![f.0])),
            r is Err ==> aborted_read(
                old(self).log(),
                final(self).log(),
                old(self).address,
                Register::Fault.addr_spec(),
            ),
    {
        match self.read(Register::Fault) {
            Ok(x) => Ok(Fault(x)),
            Err(e) => Err(e),
        }
    }

    /// Write a register: one two-byte framed transaction carrying the
    /// register address and the value.
    pub fn write(&mut self, register: Register, value: u8) -> (r: Result<(), I2C::Error>)
        ensures
            final(self).address == old(self).address,
            r is Ok ==> final(self).log() == old(self).log().push(
                Transaction::Write(old(self).address, reg_frame_spec(register, value)),
            ),
            r is Err ==> aborted_write(
                old(self).log(),
                final(self).log(),
                old(self).address,
                reg_frame_spec(register, value),
            ),
    {
        let frame = reg_frame(register, value);
        self.i2c.write(self.address, &frame)
    }

    /// Write the three channel currents of a bank as one seven-byte framed
    /// transaction starting at the bank's base address, so that the device
    /// applies the new color atomically.
    pub fn write_bank(&mut self, bank: Bank, r: u16, g: u16, b: u16) -> (res: Result<
        (),
        I2C::Error,
    >)
        ensures
            final(self).address == old(self).address,
            res is Ok ==> final(self).log() == old(self).log().push(
                Transaction::Write(old(self).address, bank_frame_spec(bank, r, g, b)),
            ),
            res is Err ==> aborted_write(
                old(self).log(),
                final(self).log(),
                old(self).address,
                bank_frame_spec(bank, r, g, b),
            ),
    {
        let frame = bank_frame(bank, r, g, b);
        self.i2c.write(self.address, &frame)
    }

    /// Select the bank of current settings the device drives from.
    pub fn select_bank(&mut self, bank: Bank) -> (r: Result<(), I2C::Error>)
        ensures
            final(self).address == old(self).address,
            r is Ok ==> final(self).log() == old(self).log().push(
                Transaction::Write(old(self).address, seq![0x00u8, bank.sel_spec()]),
            ),
            r is Err ==> aborted_write(
                old(self).log(),
                final(self).log(),
                old(self).address,
                seq![0x00u8, bank.sel_spec()],
            ),
    {
        let sel: u8 = match bank {
            Bank::B0 => 0,
            Bank::B1 => 1,
            Bank::B2 => 2,
        };
        proof {
            assert(reg_frame_spec(Register::BankSel, sel) =~= seq![0x00u8, bank.sel_spec()]);
        }
        self.write(Register::BankSel, sel)
    }

    /// Set the master fader level (the control register's fader enable must
    /// be set for it to take effect).
    pub fn set_fader(&mut self, fade: u8) -> (r: Result<(), I2C::Error>)
        ensures
            final(self).address == old(self).address,
            r is Ok ==> final(self).log() == old(self).log().push(
                Transaction::Write(old(self).address, seq![0x13u8, fade]),
            ),
            r is Err ==> aborted_write(
                old(self).log(),
                final(self).log(),
                old(self).address,
                seq![0x13u8, fade],
            ),
    {
        proof {
            assert(reg_frame_spec(Register::Fader, fade) =~= seq![0x13u8, fade]);
        }
        self.write(Register::Fader, fade)
    }

    /// Write the control register.
    pub fn set_ctrl(&mut self, ctrl: Ctrl) -> (r: Result<(), I2C::Error>)
        ensures
            final(self).address == old(self).address,
            r is Ok ==> final(self).log() == old(self).log().push(
                Transaction::Write(old(self).address, seq![0x14u8, ctrl.0]),
            ),
            r is Err ==> aborted_write(
                old(self).log(),
                final(self).log(),
                old(self).address,
                seq![0x14u8, ctrl.0],
            ),
    {
        proof {
            assert(reg_frame_spec(Register::Ctrl, ctrl.0) =~= seq![0x14u8, ctrl.0]);
        }
        self.write(Register::Ctrl, ctrl.0)
    }

    /// Write the current-limit register.
    pub fn set_ilimit(&mut self, limit: Ilimit) -> (r: Result<(), I2C::Error>)
        ensures
            final(self).address == old(self).address,
            r is Ok ==> final(self).log() == old(self).log().push(
                Transaction::Write(old(self).address, seq![0x15u8, limit.0]),
            ),
            r is Err ==> aborted_write(
                old(self).log(),
                final(self).log(),
                old(self).address,
                seq![0x15u8, limit.0],
            ),
    {
        proof {
            assert(reg_frame_spec(Register::Ilimit, limit.0) =~= seq![0x15u8, limit.0]);
        }
        self.write(Register::Ilimit, limit.0)
    }

    /// Write the fault-mask register.
    pub fn set_fault_mask(&mut self, mask: FaultMask) -> (r: Result<(), I2C::Error>)
        ensures
            final(self).address == old(self).address,
            r is Ok ==> final(self).log() == old(self).log().push(
                Transaction::Write(old(self).address, seq![0x16u8, mask.0]),
            ),
            r is Err ==> aborted_write(
                old(self).log(),
                final(self).log(),
                old(self).address,
                seq![0x16u8, mask.0],
            ),
    {
        proof {
            assert(reg_frame_spec(Register::FaultMask, mask.0) =~= seq![0x16u8, mask.0]);
        }
        self.write(Register::FaultMask, mask.0)
    }
}

} // verus!
