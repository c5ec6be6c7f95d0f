//! Register address map of the LM3549.

use vstd::prelude::*;

verus! {

/// Addressable registers of the chip. Every bus transaction is prefixed with
/// the one-byte address that `addr` returns.
#[derive(Clone, Copy, PartialEq, Eq, Structural, Debug)]
pub enum Register {
    BankSel,
    Ir0Lsb,
    Ir0Msb,
    Ig0Lsb,
    Ig0Msb,
    Ib0Lsb,
    Ib0Msb,
    Ir1Lsb,
    Ir1Msb,
    Ig1Lsb,
    Ig1Msb,
    Ib1Lsb,
    Ib1Msb,
    Ir2Lsb,
    Ir2Msb,
    Ig2Lsb,
    Ig2Msb,
    Ib2Lsb,
    Ib2Msb,
    Fader,
    Ctrl,
    Ilimit,
    FaultMask,
    Fault,
    User1,
    User2,
    EepromCtrl,
}

impl Register {
    /// One-byte bus address of the register, per the datasheet's table.
    pub open spec fn addr_spec(self) -> u8 {
        match self {
            Register::BankSel => 0x00,
            Register::Ir0Lsb => 0x01,
            Register::Ir0Msb => 0x02,
            Register::Ig0Lsb => 0x03,
            Register::Ig0Msb => 0x04,
            Register::Ib0Lsb => 0x05,
            Register::Ib0Msb => 0x06,
            Register::Ir1Lsb => 0x07,
            Register::Ir1Msb => 0x08,
            Register::Ig1Lsb => 0x09,
            Register::Ig1Msb => 0x0A,
            Register::Ib1Lsb => 0x0B,
            Register::Ib1Msb => 0x0C,
            Register::Ir2Lsb => 0x0D,
            Register::Ir2Msb => 0x0E,
            Register::Ig2Lsb => 0x0F,
            Register::Ig2Msb => 0x10,
            Register::Ib2Lsb => 0x11,
            Register::Ib2Msb => 0x12,
            Register::Fader => 0x13,
            Register::Ctrl => 0x14,
            Register::Ilimit => 0x15,
            Register::FaultMask => 0x16,
            Register::Fault => 0x17,
            Register::User1 => 0x19,
            Register::User2 => 0x1A,
            Register::EepromCtrl => 0x40,
        }
    }

    /// One-byte bus address of the register.
    pub fn addr(self) -> (a: u8)
        ensures
            a == self.addr_spec(),
    {
        match self {
            Register::BankSel => 0x00,
            Register::Ir0Lsb => 0x01,
            Register::Ir0Msb => 0x02,
            Register::Ig0Lsb => 0x03,
            Register::Ig0Msb => 0x04,
            Register::Ib0Lsb => 0x05,
            Register::Ib0Msb => 0x06,
            Register::Ir1Lsb => 0x07,
            Register::Ir1Msb => 0x08,
            Register::Ig1Lsb => 0x09,
            Register::Ig1Msb => 0x0A,
            Register::Ib1Lsb => 0x0B,
            Register::Ib1Msb => 0x0C,
            Register::Ir2Lsb => 0x0D,
            Register::Ir2Msb => 0x0E,
            Register::Ig2Lsb => 0x0F,
            Register::Ig2Msb => 0x10,
            Register::Ib2Lsb => 0x11,
            Register::Ib2Msb => 0x12,
            Register::Fader => 0x13,
            Register::Ctrl => 0x14,
            Register::Ilimit => 0x15,
            Register::FaultMask => 0x16,
            Register::Fault => 0x17,
            Register::User1 => 0x19,
            Register::User2 => 0x1A,
            Register::EepromCtrl => 0x40,
        }
    }
}

/// Selects one of the three banks of current settings. Each bank's three
/// channels occupy six consecutive registers starting at the bank's base
/// address.
#[derive(Clone, Copy, PartialEq, Eq, Structural, Debug)]
pub enum Bank {
    /// Bank 0
    B0,
    /// Bank 1
    B1,
    /// Bank 2
    B2,
}

impl Bank {
    /// Base register address of the bank's six current registers.
    pub open spec fn base_addr_spec(self) -> u8 {
        match self {
            Bank::B0 => 0x01,
            Bank::B1 => 0x07,
            Bank::B2 => 0x0D,
        }
    }

    /// Base register address of the bank's six current registers.
    pub fn base_addr(self) -> (a: u8)
        ensures
            a == self.base_addr_spec(),
    {
        match self {
            Bank::B0 => 0x01,
            Bank::B1 => 0x07,
            Bank::B2 => 0x0D,
        }
    }

    /// Selection code written to the bank-select register.
    pub open spec fn sel_spec(self) -> u8 {
        match self {
            Bank::B0 => 0,
            Bank::B1 => 1,
            Bank::B2 => 2,
        }
    }
}

/// Buck-boost converter positive current limit.
#[derive(Clone, Copy, PartialEq, Eq, Structural, Debug)]
pub enum PosLimit {
    /// 500 mA
    MA500,
    /// 1000 mA
    MA1000,
    /// 1500 mA
    MA1500,
    /// 2000 mA
    MA2000,
}

impl PosLimit {
    /// Two-bit code of the limit inside the current-limit register.
    pub open spec fn code_spec(self) -> u8 {
        match self {
            PosLimit::MA500 => 0,
            PosLimit::MA1000 => 1,
            PosLimit::MA1500 => 2,
            PosLimit::MA2000 => 3,
        }
    }

    /// Limit denoted by a raw code. Every two-bit pattern has a meaning;
    /// codes above the two-bit range fall back to the highest limit.
    pub open spec fn from_code_spec(x: u8) -> PosLimit {
        if x == 0 {
            PosLimit::MA500
        } else if x == 1 {
            PosLimit::MA1000
        } else if x == 2 {
            PosLimit::MA1500
        } else {
            PosLimit::MA2000
        }
    }
}

impl From<PosLimit> for u8 {
    fn from(p: PosLimit) -> (r: u8) {
        match p {
            PosLimit::MA500 => 0,
            PosLimit::MA1000 => 1,
            PosLimit::MA1500 => 2,
            PosLimit::MA2000 => 3,
        }
    }
}

impl vstd::std_specs::convert::FromSpecImpl<PosLimit> for u8 {
    open spec fn obeys_from_spec() -> bool {
        true
    }

    open spec fn from_spec(p: PosLimit) -> u8 {
        p.code_spec()
    }
}

impl From<u8> for PosLimit {
    fn from(x: u8) -> (r: PosLimit) {
        if x == 0 {
            PosLimit::MA500
        } else if x == 1 {
            PosLimit::MA1000
        } else if x == 2 {
            PosLimit::MA1500
        } else {
            PosLimit::MA2000
        }
    }
}

impl vstd::std_specs::convert::FromSpecImpl<u8> for PosLimit {
    open spec fn obeys_from_spec() -> bool {
        true
    }

    open spec fn from_spec(x: u8) -> PosLimit {
        PosLimit::from_code_spec(x)
    }
}

/// Buck-boost converter negative current limit.
#[derive(Clone, Copy, PartialEq, Eq, Structural, Debug)]
pub enum NegLimit {
    /// 550 mA
    MA550,
    /// 1100 mA
    MA1100,
    /// 1650 mA
    MA1650,
    /// 2200 mA
    MA2200,
}

impl NegLimit {
    /// Two-bit code of the limit inside the current-limit register.
    pub open spec fn code_spec(self) -> u8 {
        match self {
            NegLimit::MA550 => 0,
            NegLimit::MA1100 => 1,
            NegLimit::MA1650 => 2,
            NegLimit::MA2200 => 3,
        }
    }

    /// Limit denoted by a raw code; codes above the two-bit range fall back
    /// to the highest limit.
    pub open spec fn from_code_spec(x: u8) -> NegLimit {
        if x == 0 {
            NegLimit::MA550
        } else if x == 1 {
            NegLimit::MA1100
        } else if x == 2 {
            NegLimit::MA1650
        } else {
            NegLimit::MA2200
        }
    }
}

impl From<NegLimit> for u8 {
    fn from(n: NegLimit) -> (r: u8) {
        match n {
            NegLimit::MA550 => 0,
            NegLimit::MA1100 => 1,
            NegLimit::MA1650 => 2,
            NegLimit::MA2200 => 3,
        }
    }
}

impl vstd::std_specs::convert::FromSpecImpl<NegLimit> for u8 {
    open spec fn obeys_from_spec() -> bool {
        true
    }

    open spec fn from_spec(n: NegLimit) -> u8 {
        n.code_spec()
    }
}

impl From<u8> for NegLimit {
    fn from(x: u8) -> (r: NegLimit) {
        if x == 0 {
            NegLimit::MA550
        } else if x == 1 {
            NegLimit::MA1100
        } else if x == 2 {
            NegLimit::MA1650
        } else {
            NegLimit::MA2200
        }
    }
}

impl vstd::std_specs::convert::FromSpecImpl<u8> for NegLimit {
    open spec fn obeys_from_spec() -> bool {
        true
    }

    open spec fn from_spec(x: u8) -> NegLimit {
        NegLimit::from_code_spec(x)
    }
}

/// Source of an open or short fault.
#[derive(Clone, Copy, PartialEq, Eq, Structural, Debug)]
pub enum OpenShort {
    /// No fault
    NoFault,
    /// Red driver
    Red,
    /// Green driver
    Green,
    /// Blue driver
    Blue,
}

impl OpenShort {
    /// Source denoted by a raw two-bit code; codes above the two-bit range
    /// read as no fault.
    pub open spec fn from_code_spec(x: u8) -> OpenShort {
        if x == 1 {
            OpenShort::Red
        } else if x == 2 {
            OpenShort::Green
        } else if x == 3 {
            OpenShort::Blue
        } else {
            OpenShort::NoFault
        }
    }
}

impl From<u8> for OpenShort {
    fn from(x: u8) -> (r: OpenShort) {
        if x == 1 {
            OpenShort::Red
        } else if x == 2 {
            OpenShort::Green
        } else if x == 3 {
            OpenShort::Blue
        } else {
            OpenShort::NoFault
        }
    }
}

impl vstd::std_specs::convert::FromSpecImpl<u8> for OpenShort {
    open spec fn obeys_from_spec() -> bool {
        true
    }

    open spec fn from_spec(x: u8) -> OpenShort {
        OpenShort::from_code_spec(x)
    }
}

/// How long the device stays in active mode after all enable pins have gone
/// low.
#[derive(Clone, Copy, PartialEq, Eq, Structural, Debug)]
pub enum Timeout {
    /// 125 ms
    MS125,
    /// 250 ms
    MS250,
    /// 500 ms
    MS500,
    /// 1000 ms (1 s)
    MS1000,
}

impl Timeout {
    /// Two-bit code of the timeout inside the control register.
    pub open spec fn code_spec(self) -> u8 {
        match self {
            Timeout::MS125 => 0,
            Timeout::MS250 => 1,
            Timeout::MS500 => 2,
            Timeout::MS1000 => 3,
        }
    }

    /// Timeout denoted by a raw code; codes above the two-bit range fall
    /// back to the longest timeout.
    pub open spec fn from_code_spec(x: u8) -> Timeout {
        if x == 0 {
            Timeout::MS125
        } else if x == 1 {
            Timeout::MS250
        } else if x == 2 {
            Timeout::MS500
        } else {
            Timeout::MS1000
        }
    }
}

impl From<u8> for Timeout {
    fn from(x: u8) -> (r: Timeout) {
        if x == 0 {
            Timeout::MS125
        } else if x == 1 {
            Timeout::MS250
        } else if x == 2 {
            Timeout::MS500
        } else {
            Timeout::MS1000
        }
    }
}

impl vstd::std_specs::convert::FromSpecImpl<u8> for Timeout {
    open spec fn obeys_from_spec() -> bool {
        true
    }

    open spec fn from_spec(x: u8) -> Timeout {
        Timeout::from_code_spec(x)
    }
}

impl From<Timeout> for u8 {
    fn from(t: Timeout) -> (r: u8) {
        match t {
            Timeout::MS125 => 0,
            Timeout::MS250 => 1,
            Timeout::MS500 => 2,
            Timeout::MS1000 => 3,
        }
    }
}

impl vstd::std_specs::convert::FromSpecImpl<Timeout> for u8 {
    open spec fn obeys_from_spec() -> bool {
        true
    }

    open spec fn from_spec(t: Timeout) -> u8 {
        t.code_spec()
    }
}

/// Soft-start ramp time.
#[derive(Clone, Copy, PartialEq, Eq, Structural, Debug)]
pub enum SoftStart {
    /// No soft start
    Off,
    /// 0.5 s
    MS500,
    /// 1 s
    MS1000,
    /// 2 s
    MS2000,
}

impl SoftStart {
    /// Two-bit code of the soft-start time inside the control register.
    pub open spec fn code_spec(self) -> u8 {
        match self {
            SoftStart::Off => 0,
            SoftStart::MS500 => 1,
            SoftStart::MS1000 => 2,
            SoftStart::MS2000 => 3,
        }
    }

    /// Soft-start time denoted by a raw code; codes above the two-bit range
    /// fall back to the longest ramp.
    pub open spec fn from_code_spec(x: u8) -> SoftStart {
        if x == 0 {
            SoftStart::Off
        } else if x == 1 {
            SoftStart::MS500
        } else if x == 2 {
            SoftStart::MS1000
        } else {
            SoftStart::MS2000
        }
    }
}

impl From<u8> for SoftStart {
    fn from(x: u8) -> (r: SoftStart) {
        if x == 0 {
            SoftStart::Off
        } else if x == 1 {
            SoftStart::MS500
        } else if x == 2 {
            SoftStart::MS1000
        } else {
            SoftStart::MS2000
        }
    }
}

impl vstd::std_specs::convert::FromSpecImpl<u8> for SoftStart {
    open spec fn obeys_from_spec() -> bool {
        true
    }

    open spec fn from_spec(x: u8) -> SoftStart {
        SoftStart::from_code_spec(x)
    }
}

impl From<SoftStart> for u8 {
    fn from(s: SoftStart) -> (r: u8) {
        match s {
            SoftStart::Off => 0,
            SoftStart::MS500 => 1,
            SoftStart::MS1000 => 2,
            SoftStart::MS2000 => 3,
        }
    }
}

impl vstd::std_specs::convert::FromSpecImpl<SoftStart> for u8 {
    open spec fn obeys_from_spec() -> bool {
        true
    }

    open spec fn from_spec(s: SoftStart) -> u8 {
        s.code_spec()
    }
}

/// Current limit register: a thin wrapper over the raw byte. The positive
/// limit occupies bits 5-4, the negative limit bits 1-0.
#[derive(Clone, Copy, PartialEq, Eq, Structural, Debug)]
pub struct Ilimit(pub u8);

impl Ilimit {
    /// Positive limit decoded from bits 5-4.
    pub open spec fn pos_spec(self) -> PosLimit {
        PosLimit::from_code_spec((self.0 >> 4) & 0x03)
    }

    /// Negative limit decoded from bits 1-0.
    pub open spec fn neg_spec(self) -> NegLimit {
        NegLimit::from_code_spec(self.0 & 0x03)
    }

    /// The register with the positive-limit field replaced, other bits kept.
    pub open spec fn with_pos_spec(self, p: PosLimit) -> Ilimit {
        Ilimit((self.0 & 0xCF) | (p.code_spec() << 4))
    }

    /// The register with the negative-limit field replaced, other bits kept.
    pub open spec fn with_neg_spec(self, n: NegLimit) -> Ilimit {
        Ilimit((self.0 & 0xFC) | n.code_spec())
    }

    /// Positive limit.
    pub fn pos(&self) -> (p: PosLimit)
        ensures
            p == self.pos_spec(),
    {
        PosLimit::from((self.0 >> 4) & 0x03)
    }

    /// Negative limit.
    pub fn neg(&self) -> (n: NegLimit)
        ensures
            n == self.neg_spec(),
    {
        NegLimit::from(self.0 & 0x03)
    }

    /// Set the positive limit, leaving every other bit unchanged.
    pub fn set_pos(&mut self, p: PosLimit)
        ensures
            *final(self) == old(self).with_pos_spec(p),
    {
        self.0 = (self.0 & 0xCF) | (u8::from(p) << 4);
    }

    /// Set the negative limit, leaving every other bit unchanged.
    pub fn set_neg(&mut self, n: NegLimit)
        ensures
            *final(self) == old(self).with_neg_spec(n),
    {
        self.0 = (self.0 & 0xFC) | u8::from(n);
    }
}

impl Default for Ilimit {
    /// Default current limit: positive 1000 mA and negative 1100 mA.
    fn default() -> (d: Ilimit)
        ensures
            d.0 == 0x11,
    {
        Ilimit(0x11)
    }
}

/// Control register: a thin wrapper over the raw byte. Soft start occupies
/// bits 5-4, the active-mode timeout bits 3-2, the fader enable bit 1 and the
/// PWM fade enable bit 0 (PWM overrides the fader when set).
#[derive(Clone, Copy, PartialEq, Eq, Structural, Debug)]
pub struct Ctrl(pub u8);

impl Ctrl {
    /// Soft-start time decoded from bits 5-4.
    pub open spec fn softstart_spec(self) -> SoftStart {
        SoftStart::from_code_spec((self.0 >> 4) & 0x03)
    }

    /// Active-mode timeout decoded from bits 3-2.
    pub open spec fn timeout_spec(self) -> Timeout {
        Timeout::from_code_spec((self.0 >> 2) & 0x03)
    }

    /// Fader enable, bit 1.
    pub open spec fn mfe_spec(self) -> bool {
        self.0 & 0x02 != 0
    }

    /// PWM fade enable, bit 0.
    pub open spec fn pwm_spec(self) -> bool {
        self.0 & 0x01 != 0
    }

    /// The register with the soft-start field replaced, other bits kept.
    pub open spec fn with_softstart_spec(self, s: SoftStart) -> Ctrl {
        Ctrl((self.0 & 0xCF) | (s.code_spec() << 4))
    }

    /// The register with the timeout field replaced, other bits kept.
    pub open spec fn with_timeout_spec(self, t: Timeout) -> Ctrl {
        Ctrl((self.0 & 0xF3) | (t.code_spec() << 2))
    }

    /// The register with the fader-enable bit replaced, other bits kept.
    pub open spec fn with_mfe_spec(self, fade: bool) -> Ctrl {
        Ctrl(if fade { self.0 | 0x02 } else { self.0 & 0xFD })
    }

    /// The register with the PWM-fade bit replaced, other bits kept.
    pub open spec fn with_pwm_spec(self, fade: bool) -> Ctrl {
        Ctrl(if fade { self.0 | 0x01 } else { self.0 & 0xFE })
    }

    /// Soft-start time.
    pub fn softstart(&self) -> (s: SoftStart)
        ensures
            s == self.softstart_spec(),
    {
        SoftStart::from((self.0 >> 4) & 0x03)
    }

    /// Active-mode timeout.
    pub fn timeout(&self) -> (t: Timeout)
        ensures
            t == self.timeout_spec(),
    {
        Timeout::from((self.0 >> 2) & 0x03)
    }

    /// Fader enable.
    pub fn mfe(&self) -> (b: bool)
        ensures
            b == self.mfe_spec(),
    {
        self.0 & 0x02 != 0
    }

    /// PWM fade enable.
    pub fn pwm(&self) -> (b: bool)
        ensures
            b == self.pwm_spec(),
    {
        self.0 & 0x01 != 0
    }

    /// Set the soft-start time, leaving every other bit unchanged.
    pub fn set_softstart(&mut self, s: SoftStart)
        ensures
            *final(self) == old(self).with_softstart_spec(s),
    {
        self.0 = (self.0 & 0xCF) | (u8::from(s) << 4);
    }

    /// Set the active-mode timeout, leaving every other bit unchanged.
    pub fn set_timeout(&mut self, t: Timeout)
        ensures
            *final(self) == old(self).with_timeout_spec(t),
    {
        self.0 = (self.0 & 0xF3) | (u8::from(t) << 2);
    }

    /// Enable or disable the fader, leaving every other bit unchanged.
    pub fn set_mfe(&mut self, fade: bool)
        ensures
            *final(self) == old(self).with_mfe_spec(fade),
    {
        if fade {
            self.0 = self.0 | 0x02;
        } else {
            self.0 = self.0 & 0xFD;
        }
    }

    /// Enable or disable PWM fade, leaving every other bit unchanged.
    pub fn set_pwm(&mut self, fade: bool)
        ensures
            *final(self) == old(self).with_pwm_spec(fade),
    {
        if fade {
            self.0 = self.0 | 0x01;
        } else {
            self.0 = self.0 & 0xFE;
        }
    }
}

impl Default for Ctrl {
    /// Default control value: no fader control, no soft start, 125 ms timeout.
    fn default() -> (d: Ctrl)
        ensures
            d.0 == 0x00,
    {
        Ctrl(0x00)
    }
}

/// Fault register: a thin wrapper over the raw byte read from the chip.
/// Shorted drivers are reported in bits 6-5, open drivers in bits 4-3,
/// under-voltage lockout in bit 2, thermal shutdown in bit 1 and overcurrent
/// in bit 0.
#[derive(Clone, Copy, PartialEq, Eq, Structural, Debug)]
pub struct Fault(pub u8);

impl Fault {
    /// Source of a short fault, decoded from bits 6-5.
    pub open spec fn short_spec(self) -> OpenShort {
        OpenShort::from_code_spec((self.0 >> 5) & 0x03)
    }

    /// Source of an open fault, decoded from bits 4-3.
    pub open spec fn open_spec(self) -> OpenShort {
        OpenShort::from_code_spec((self.0 >> 3) & 0x03)
    }

    /// Under-voltage lockout, bit 2.
    pub open spec fn uvlo_spec(self) -> bool {
        self.0 & 0x04 != 0
    }

    /// Thermal shutdown, bit 1.
    pub open spec fn tsd_spec(self) -> bool {
        self.0 & 0x02 != 0
    }

    /// Overcurrent, bit 0.
    pub open spec fn ocp_spec(self) -> bool {
        self.0 & 0x01 != 0
    }

    /// No fault is active: all fault-bearing bits (6-0) are clear.
    pub open spec fn is_ok_spec(self) -> bool {
        self.0 & 0x7F == 0
    }

    /// Shorted drivers.
    pub fn short(&self) -> (s: OpenShort)
        ensures
            s == self.short_spec(),
    {
        OpenShort::from((self.0 >> 5) & 0x03)
    }

    /// Open drivers.
    pub fn open(&self) -> (s: OpenShort)
        ensures
            s == self.open_spec(),
    {
        OpenShort::from((self.0 >> 3) & 0x03)
    }

    /// Under-voltage lockout.
    pub fn uvlo(&self) -> (b: bool)
        ensures
            b == self.uvlo_spec(),
    {
        self.0 & 0x04 != 0
    }

    /// Thermal shutdown.
    pub fn tsd(&self) -> (b: bool)
        ensures
            b == self.tsd_spec(),
    {
        self.0 & 0x02 != 0
    }

    /// Overcurrent.
    pub fn ocp(&self) -> (b: bool)
        ensures
            b == self.ocp_spec(),
    {
        self.0 & 0x01 != 0
    }

    /// No fault flag is active: every fault-bearing bit is clear, the device
    /// is healthy.
    pub fn is_ok(&self) -> (b: bool)
        ensures
            b == self.is_ok_spec(),
    {
        self.0 & 0x7F == 0
    }

    /// One or more fault flags are active.
    pub fn is_err(&self) -> (b: bool)
        ensures
            b == !self.is_ok_spec(),
    {
        self.0 & 0x7F != 0
    }
}

/// Fault mask register: a thin wrapper over the raw byte. Each set bit lets
/// the matching fault drive the chip's open-drain fault output: shorted
/// drivers in bit 4, open drivers in bit 3, under-voltage lockout in bit 2,
/// thermal shutdown in bit 1 and overcurrent in bit 0.
#[derive(Clone, Copy, PartialEq, Eq, Structural, Debug)]
pub struct FaultMask(pub u8);

impl FaultMask {
    /// Short faults drive the output, bit 4.
    pub open spec fn short_spec(self) -> bool {
        self.0 & 0x10 != 0
    }

    /// Open faults drive the output, bit 3.
    pub open spec fn open_spec(self) -> bool {
        self.0 & 0x08 != 0
    }

    /// Under-voltage lockout drives the output, bit 2.
    pub open spec fn uvlo_spec(self) -> bool {
        self.0 & 0x04 != 0
    }

    /// Thermal shutdown drives the output, bit 1.
    pub open spec fn tsd_spec(self) -> bool {
        self.0 & 0x02 != 0
    }

    /// Overcurrent drives the output, bit 0.
    pub open spec fn ocp_spec(self) -> bool {
        self.0 & 0x01 != 0
    }

    /// Short faults drive the output.
    pub fn short(&self) -> (b: bool)
        ensures
            b == self.short_spec(),
    {
        self.0 & 0x10 != 0
    }

    /// Open faults drive the output.
    pub fn open(&self) -> (b: bool)
        ensures
            b == self.open_spec(),
    {
        self.0 & 0x08 != 0
    }

    /// Under-voltage lockout drives the output.
    pub fn uvlo(&self) -> (b: bool)
        ensures
            b == self.uvlo_spec(),
    {
        self.0 & 0x04 != 0
    }

    /// Thermal shutdown drives the output.
    pub fn tsd(&self) -> (b: bool)
        ensures
            b == self.tsd_spec(),
    {
        self.0 & 0x02 != 0
    }

    /// Overcurrent drives the output.
    pub fn ocp(&self) -> (b: bool)
        ensures
            b == self.ocp_spec(),
    {
        self.0 & 0x01 != 0
    }
}

impl Default for FaultMask {
    /// Default mask: no fault drives the output.
    fn default() -> (d: FaultMask)
        ensures
            d.0 == 0x00,
    {
        FaultMask(0x00)
    }
}

/// Law: decoding what was encoded gives back the fields. From any starting
/// current-limit register, writing a positive and a negative limit and
/// reading both fields back yields the same pair.
pub proof fn lemma_ilimit_field_round_trip(l: Ilimit, p: PosLimit, n: NegLimit)
    ensures
        l.with_pos_spec(p).with_neg_spec(n).pos_spec() == p,
        l.with_pos_spec(p).with_neg_spec(n).neg_spec() == n,
{
    let x = l.0;
    let cp = p.code_spec();
    let cn = n.code_spec();
    assert(((((x & 0xCF) | (cp << 4)) & 0xFC) | cn) >> 4 & 0x03 == cp) by (bit_vector)
        requires
            cp < 4,
            cn < 4,
    ;
    assert(((((x & 0xCF) | (cp << 4)) & 0xFC) | cn) & 0x03 == cn) by (bit_vector)
        requires
            cp < 4,
            cn < 4,
    ;
    assert(PosLimit::from_code_spec(cp) == p);
    assert(NegLimit::from_code_spec(cn) == n);
}

/// Law: every raw control byte decodes and re-encodes to itself. The wrapper
/// keeps the raw byte as its only state, so no bit is lost in either
/// direction.
pub proof fn lemma_ctrl_raw_round_trip(b: u8)
    ensures
        Ctrl(b).0 == b,
{
}

/// Law: decoding what was encoded gives back the fields. From any starting
/// control register, writing all four fields and reading them back yields
/// the same values.
pub proof fn lemma_ctrl_field_round_trip(c: Ctrl, s: SoftStart, t: Timeout, fade: bool, pwm_fade: bool)
    ensures
        ({
            let w = c.with_softstart_spec(s).with_timeout_spec(t).with_mfe_spec(fade).with_pwm_spec(
                pwm_fade,
            );
            w.softstart_spec() == s && w.timeout_spec() == t && w.mfe_spec() == fade
                && w.pwm_spec() == pwm_fade
        }),
{
    let x = c.0;
    let cs = s.code_spec();
    let ct = t.code_spec();
    let w = c.with_softstart_spec(s).with_timeout_spec(t).with_mfe_spec(fade).with_pwm_spec(
        pwm_fade,
    );
    let y1 = ((x & 0xCF) | (cs << 4)) & 0xF3 | (ct << 2);
    let y2: u8 = if fade {
        y1 | 0x02
    } else {
        y1 & 0xFD
    };
    let y3: u8 = if pwm_fade {
        y2 | 0x01
    } else {
        y2 & 0xFE
    };
    assert(w.0 == y3);
    assert((y3 >> 4) & 0x03 == cs && (y3 >> 2) & 0x03 == ct && (y3 & 0x02 != 0) == fade && (y3
        & 0x01 != 0) == pwm_fade) by (bit_vector)
        requires
            cs < 4,
            ct < 4,
            y3 == ({
                let y1 = ((x & 0xCF) | (cs << 4)) & 0xF3 | (ct << 2);
                let y2: u8 = if fade {
                    y1 | 0x02
                } else {
                    y1 & 0xFD
                };
                if pwm_fade {
                    y2 | 0x01
                } else {
                    y2 & 0xFE
                }
            }),
    ;
    assert(SoftStart::from_code_spec(cs) == s);
    assert(Timeout::from_code_spec(ct) == t);
}

/// Law: nothing is lost by decoding. Rebuilding a control register from the
/// four fields decoded out of a raw byte reproduces every field-bearing bit
/// (bits 5-0) of that byte.
pub proof fn lemma_ctrl_reencode(b: u8)
    ensures
        ({
            let c = Ctrl(b);
            Ctrl(0x00).with_softstart_spec(c.softstart_spec()).with_timeout_spec(
                c.timeout_spec(),
            ).with_mfe_spec(c.mfe_spec()).with_pwm_spec(c.pwm_spec()).0 == b & 0x3F
        }),
{
    let vs: u8 = (b >> 4) & 0x03;
    let vt: u8 = (b >> 2) & 0x03;
    assert(vs < 4 && vt < 4) by (bit_vector)
        requires
            vs == (b >> 4) & 0x03,
            vt == (b >> 2) & 0x03,
    ;
    assert(SoftStart::from_code_spec(vs).code_spec() == vs);
    assert(Timeout::from_code_spec(vt).code_spec() == vt);
    let cs = Ctrl(b).softstart_spec().code_spec();
    let ct = Ctrl(b).timeout_spec().code_spec();
    assert(({
        let y1 = ((0x00u8 & 0xCF) | (cs << 4)) & 0xF3 | (ct << 2);
        let y2: u8 = if b & 0x02 != 0 {
            y1 | 0x02
        } else {
            y1 & 0xFD
        };
        let y3: u8 = if b & 0x01 != 0 {
            y2 | 0x01
        } else {
            y2 & 0xFE
        };
        y3 == b & 0x3F
    })) by (bit_vector)
        requires
            cs == (b >> 4) & 0x03,
            ct == (b >> 2) & 0x03,
    ;
}

/// Law: the health predicate agrees with the decoded fields. A fault
/// register reads as healthy exactly when both fault sources decode to no
/// fault and the three flag bits are clear.
pub proof fn lemma_fault_ok_iff_clear(f: Fault)
    ensures
        f.is_ok_spec() <==> (f.short_spec() == OpenShort::NoFault && f.open_spec()
            == OpenShort::NoFault && !f.uvlo_spec() && !f.tsd_spec() && !f.ocp_spec()),
{
    let x = f.0;
    let sc: u8 = (x >> 5) & 0x03;
    let oc: u8 = (x >> 3) & 0x03;
    assert(sc < 4 && oc < 4 && ((x & 0x7F == 0) <==> (sc == 0 && oc == 0 && x & 0x04 == 0 && x
        & 0x02 == 0 && x & 0x01 == 0))) by (bit_vector)
        requires
            sc == (x >> 5) & 0x03,
            oc == (x >> 3) & 0x03,
    ;
    assert(OpenShort::from_code_spec(sc) == OpenShort::NoFault <==> sc == 0);
    assert(OpenShort::from_code_spec(oc) == OpenShort::NoFault <==> oc == 0);
}

} // verus!
