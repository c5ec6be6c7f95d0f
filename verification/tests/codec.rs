use lm3549::{
    Ctrl, Fault, FaultMask, Ilimit, NegLimit, OpenShort, PosLimit, Register, SoftStart, Timeout,
};

#[test]
fn register_addresses_match_the_datasheet() {
    assert_eq!(Register::BankSel.addr(), 0x00);
    assert_eq!(Register::Ir0Lsb.addr(), 0x01);
    assert_eq!(Register::Ib0Msb.addr(), 0x06);
    assert_eq!(Register::Ir1Lsb.addr(), 0x07);
    assert_eq!(Register::Ir2Lsb.addr(), 0x0D);
    assert_eq!(Register::Fader.addr(), 0x13);
    assert_eq!(Register::Ctrl.addr(), 0x14);
    assert_eq!(Register::Ilimit.addr(), 0x15);
    assert_eq!(Register::FaultMask.addr(), 0x16);
    assert_eq!(Register::Fault.addr(), 0x17);
    assert_eq!(Register::User1.addr(), 0x19);
    assert_eq!(Register::User2.addr(), 0x1A);
    assert_eq!(Register::EepromCtrl.addr(), 0x40);
}

#[test]
fn pos_limit_codes_round_trip() {
    assert_eq!(u8::from(PosLimit::MA500), 0);
    assert_eq!(u8::from(PosLimit::MA1000), 1);
    assert_eq!(u8::from(PosLimit::MA1500), 2);
    assert_eq!(u8::from(PosLimit::MA2000), 3);
    assert_eq!(PosLimit::from(0), PosLimit::MA500);
    assert_eq!(PosLimit::from(1), PosLimit::MA1000);
    assert_eq!(PosLimit::from(2), PosLimit::MA1500);
    assert_eq!(PosLimit::from(3), PosLimit::MA2000);
    // Codes outside the two-bit range fall back to the highest member.
    assert_eq!(PosLimit::from(200), PosLimit::MA2000);
}

#[test]
fn neg_limit_codes_round_trip() {
    assert_eq!(u8::from(NegLimit::MA550), 0);
    assert_eq!(u8::from(NegLimit::MA1100), 1);
    assert_eq!(u8::from(NegLimit::MA1650), 2);
    assert_eq!(u8::from(NegLimit::MA2200), 3);
    assert_eq!(NegLimit::from(0), NegLimit::MA550);
    assert_eq!(NegLimit::from(3), NegLimit::MA2200);
    assert_eq!(NegLimit::from(9), NegLimit::MA2200);
}

#[test]
fn open_short_codes_decode() {
    assert_eq!(OpenShort::from(0), OpenShort::NoFault);
    assert_eq!(OpenShort::from(1), OpenShort::Red);
    assert_eq!(OpenShort::from(2), OpenShort::Green);
    assert_eq!(OpenShort::from(3), OpenShort::Blue);
    assert_eq!(OpenShort::from(77), OpenShort::NoFault);
}

#[test]
fn timeout_codes_round_trip() {
    assert_eq!(u8::from(Timeout::MS125), 0);
    assert_eq!(u8::from(Timeout::MS250), 1);
    assert_eq!(u8::from(Timeout::MS500), 2);
    assert_eq!(u8::from(Timeout::MS1000), 3);
    assert_eq!(Timeout::from(0), Timeout::MS125);
    assert_eq!(Timeout::from(2), Timeout::MS500);
    assert_eq!(Timeout::from(42), Timeout::MS1000);
}

#[test]
fn softstart_codes_round_trip() {
    assert_eq!(u8::from(SoftStart::Off), 0);
    assert_eq!(u8::from(SoftStart::MS500), 1);
    assert_eq!(u8::from(SoftStart::MS1000), 2);
    assert_eq!(u8::from(SoftStart::MS2000), 3);
    assert_eq!(SoftStart::from(0), SoftStart::Off);
    assert_eq!(SoftStart::from(1), SoftStart::MS500);
    assert_eq!(SoftStart::from(250), SoftStart::MS2000);
}

#[test]
fn ilimit_field_round_trip_all_combinations() {
    let positives = [
        PosLimit::MA500,
        PosLimit::MA1000,
        PosLimit::MA1500,
        PosLimit::MA2000,
    ];
    let negatives = [
        NegLimit::MA550,
        NegLimit::MA1100,
        NegLimit::MA1650,
        NegLimit::MA2200,
    ];
    for &p in positives.iter() {
        for &n in negatives.iter() {
            let mut l = Ilimit(0x00);
            l.set_pos(p);
            l.set_neg(n);
            assert_eq!(l.pos(), p);
            assert_eq!(l.neg(), n);
        }
    }
}

#[test]
fn ilimit_setters_keep_other_bits() {
    let mut l = Ilimit(0xFF);
    l.set_pos(PosLimit::MA500);
    assert_eq!(l.0, 0xCF);
    l.set_neg(NegLimit::MA550);
    assert_eq!(l.0, 0xCC);
}

#[test]
fn ctrl_raw_round_trip_all_bytes() {
    for raw in 0u16..=255 {
        let b = raw as u8;
        let c = Ctrl(b);
        assert_eq!(c.0, b);
        // Re-encoding the decoded fields reproduces every field-bearing bit.
        let mut rebuilt = Ctrl(0x00);
        rebuilt.set_softstart(c.softstart());
        rebuilt.set_timeout(c.timeout());
        rebuilt.set_mfe(c.mfe());
        rebuilt.set_pwm(c.pwm());
        assert_eq!(rebuilt.0, b & 0x3F);
    }
}

#[test]
fn ctrl_fields_decode() {
    // Soft start 1 s (code 2), timeout 250 ms (code 1), fader on, PWM off.
    let c = Ctrl(0b0010_0110);
    assert_eq!(c.softstart(), SoftStart::MS1000);
    assert_eq!(c.timeout(), Timeout::MS250);
    assert!(c.mfe());
    assert!(!c.pwm());
}

#[test]
fn defaults_encode_to_datasheet_values() {
    assert_eq!(Ctrl::default().0, 0x00);
    assert_eq!(Ilimit::default().0, 0x11);
    assert_eq!(FaultMask::default().0, 0x00);
    assert_eq!(Ilimit::default().pos(), PosLimit::MA1000);
    assert_eq!(Ilimit::default().neg(), NegLimit::MA1100);
    assert_eq!(Ctrl::default().softstart(), SoftStart::Off);
    assert_eq!(Ctrl::default().timeout(), Timeout::MS125);
}

#[test]
fn fault_zero_decodes_clear() {
    let f = Fault(0x00);
    assert_eq!(f.short(), OpenShort::NoFault);
    assert_eq!(f.open(), OpenShort::NoFault);
    assert!(!f.uvlo());
    assert!(!f.tsd());
    assert!(!f.ocp());
    assert!(f.is_ok());
    assert!(!f.is_err());
}

#[test]
fn fault_fields_decode() {
    // Short on green (code 2 in bits 6-5), open on blue (code 3 in bits
    // 4-3), thermal shutdown set.
    let f = Fault(0b0101_1010);
    assert_eq!(f.short(), OpenShort::Green);
    assert_eq!(f.open(), OpenShort::Blue);
    assert!(!f.uvlo());
    assert!(f.tsd());
    assert!(!f.ocp());
    assert!(f.is_err());
    assert!(!f.is_ok());
}

#[test]
fn fault_ignores_the_unused_top_bit() {
    // Bit 7 bears no fault: a byte with only it set still reads healthy.
    let f = Fault(0x80);
    assert!(f.is_ok());
    assert!(!f.is_err());
}

#[test]
fn fault_mask_bits_decode() {
    let m = FaultMask(0x1F);
    assert!(m.short());
    assert!(m.open());
    assert!(m.uvlo());
    assert!(m.tsd());
    assert!(m.ocp());
    let only_short = FaultMask(0x10);
    assert!(only_short.short());
    assert!(!only_short.open());
    assert!(!only_short.uvlo());
    assert!(!only_short.tsd());
    assert!(!only_short.ocp());
}
