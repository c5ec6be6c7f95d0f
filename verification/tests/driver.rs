use lm3549::{
    Bank, BusEvent, Ctrl, FaultMask, Ilimit, OpenShort, Register, SimBus, LM3549,
};

#[test]
fn new_uses_the_default_device_address() {
    let d = LM3549::new(SimBus::new());
    assert_eq!(d.address, 0x36);
}

#[test]
fn select_bank_writes_the_selector_code() {
    // Each bank writes its selection code to the bank-select register 0x00.
    let mut d = LM3549::new(SimBus::new());
    d.select_bank(Bank::B0).unwrap();
    d.select_bank(Bank::B1).unwrap();
    d.select_bank(Bank::B2).unwrap();
    assert_eq!(
        d.i2c.events,
        vec![
            BusEvent::Write(0x36, vec![0x00, 0x00]),
            BusEvent::Write(0x36, vec![0x00, 0x01]),
            BusEvent::Write(0x36, vec![0x00, 0x02]),
        ]
    );
}

#[test]
fn write_bank_frames_seven_bytes() {
    let mut d = LM3549::new(SimBus::new());
    d.write_bank(Bank::B0, 1023, 0, 512).unwrap();
    assert_eq!(
        d.i2c.events,
        vec![BusEvent::Write(
            0x36,
            vec![0x01, 0xFF, 0x03, 0x00, 0x00, 0x00, 0x02]
        )]
    );
}

#[test]
fn write_bank_uses_each_banks_base_address() {
    let mut d = LM3549::new(SimBus::new());
    d.write_bank(Bank::B1, 1, 2, 3).unwrap();
    d.write_bank(Bank::B2, 0x300, 0x2FF, 0x100).unwrap();
    assert_eq!(
        d.i2c.events,
        vec![
            BusEvent::Write(0x36, vec![0x07, 0x01, 0x00, 0x02, 0x00, 0x03, 0x00]),
            BusEvent::Write(0x36, vec![0x0D, 0x00, 0x03, 0xFF, 0x02, 0x00, 0x01]),
        ]
    );
}

#[test]
fn write_bank_drops_bits_above_ten() {
    // Only the low ten bits of each channel reach the wire.
    let mut d = LM3549::new(SimBus::new());
    d.write_bank(Bank::B0, 0xFFFF, 0x0400, 0x07FF).unwrap();
    assert_eq!(
        d.i2c.events,
        vec![BusEvent::Write(
            0x36,
            vec![0x01, 0xFF, 0x03, 0x00, 0x00, 0xFF, 0x03]
        )]
    );
}

#[test]
fn read_writes_the_address_then_reads_one_byte() {
    let mut bus = SimBus::new();
    bus.push_response(0xAB);
    let mut d = LM3549::new(bus);
    let v = d.read(Register::Fault).unwrap();
    assert_eq!(v, 0xAB);
    assert_eq!(
        d.i2c.events,
        vec![
            BusEvent::Write(0x36, vec![0x17]),
            BusEvent::Read(0x36, vec![0xAB]),
        ]
    );
}

#[test]
fn get_fault_decodes_the_fault_byte() {
    let mut bus = SimBus::new();
    // Short on red (code 1 in bits 6-5) and overcurrent.
    bus.push_response(0b0010_0001);
    let mut d = LM3549::new(bus);
    let f = d.get_fault().unwrap();
    assert_eq!(f.short(), OpenShort::Red);
    assert_eq!(f.open(), OpenShort::NoFault);
    assert!(f.ocp());
    assert!(f.is_err());
    assert_eq!(
        d.i2c.events,
        vec![
            BusEvent::Write(0x36, vec![0x17]),
            BusEvent::Read(0x36, vec![0b0010_0001]),
        ]
    );
}

#[test]
fn write_frames_address_and_value() {
    let mut d = LM3549::new(SimBus::new());
    d.write(Register::User1, 0x42).unwrap();
    assert_eq!(d.i2c.events, vec![BusEvent::Write(0x36, vec![0x19, 0x42])]);
}

#[test]
fn setters_write_their_registers() {
    let mut d = LM3549::new(SimBus::new());
    d.set_fader(0x80).unwrap();
    d.set_ctrl(Ctrl(0b0010_0110)).unwrap();
    d.set_ilimit(Ilimit::default()).unwrap();
    d.set_fault_mask(FaultMask(0x1F)).unwrap();
    assert_eq!(
        d.i2c.events,
        vec![
            BusEvent::Write(0x36, vec![0x13, 0x80]),
            BusEvent::Write(0x36, vec![0x14, 0b0010_0110]),
            BusEvent::Write(0x36, vec![0x15, 0x11]),
            BusEvent::Write(0x36, vec![0x16, 0x1F]),
        ]
    );
}

#[test]
fn write_bank_failing_mid_frame_stops_at_the_failure_point() {
    // The bus accepts one byte and fails on the second: the operation
    // reports the transport error and nothing is sent after the failure.
    let mut d = LM3549::new(SimBus::with_budget(1));
    let res = d.write_bank(Bank::B0, 1023, 0, 512);
    assert!(res.is_err());
    assert_eq!(d.i2c.events, vec![BusEvent::Write(0x36, vec![0x01])]);
}

#[test]
fn write_failing_on_the_first_byte_sends_nothing() {
    let mut d = LM3549::new(SimBus::with_budget(0));
    let res = d.write(Register::Ctrl, 0x00);
    assert!(res.is_err());
    assert_eq!(d.i2c.events, vec![BusEvent::Write(0x36, vec![])]);
}

#[test]
fn read_failing_after_the_address_write_delivers_nothing() {
    // One byte of budget: the address write crosses, the read fails.
    let mut d = LM3549::new(SimBus::with_budget(1));
    let res = d.read(Register::Fault);
    assert!(res.is_err());
    assert_eq!(
        d.i2c.events,
        vec![
            BusEvent::Write(0x36, vec![0x17]),
            BusEvent::Read(0x36, vec![]),
        ]
    );
}

#[test]
fn operations_keep_going_once_the_budget_is_spent_on_success() {
    // A budget that exactly covers a frame lets it succeed; the next
    // operation then fails cleanly.
    let mut d = LM3549::new(SimBus::with_budget(2));
    d.write(Register::Fader, 0x10).unwrap();
    let res = d.set_fader(0x20);
    assert!(res.is_err());
    assert_eq!(
        d.i2c.events,
        vec![
            BusEvent::Write(0x36, vec![0x13, 0x10]),
            BusEvent::Write(0x36, vec![]),
        ]
    );
}
