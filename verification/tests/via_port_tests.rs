use emulator::system::SystemHost;
use emulator::via::{DDRB, PORTB, W65C22S};

fn test_rig() -> (W65C22S, SystemHost) {
    (W65C22S::new(), SystemHost::new())
}

#[test]
fn processor_simple_write_pb() {
    let (mut via, mut sys) = test_rig();

    via.write(&mut sys, DDRB, 0b1111_1111).unwrap();
    via.write(&mut sys, PORTB, 0x42).unwrap();

    assert_eq!(0x42, sys.via_pb);
}

#[test]
fn processor_complex_write_pb() {
    let (mut via, mut sys) = test_rig();

    sys.via_pb = 0b1100_0011;

    via.write(&mut sys, DDRB, 0b0110_1001).unwrap();
    via.write(&mut sys, PORTB, 0xa7).unwrap();

    assert_eq!(0b1010_0011, sys.via_pb);
}

#[test]
fn processor_change_ddrb() {
    let (mut via, mut sys) = test_rig();

    sys.via_pb = 0xc3;

    via.write(&mut sys, DDRB, 0x00).unwrap();
    via.write(&mut sys, PORTB, 0x42).unwrap();

    assert_eq!(0xc3, sys.via_pb);

    via.write(&mut sys, DDRB, 0x0f).unwrap();

    assert_eq!(0xc2, sys.via_pb);

    via.write(&mut sys, DDRB, 0xff).unwrap();

    assert_eq!(0x42, sys.via_pb);
}

#[test]
fn via_simple_write_pb() {
    let (mut via, mut sys) = test_rig();

    via.write(&mut sys, DDRB, 0b1111_1111).unwrap();
    via.write(&mut sys, PORTB, 0x42).unwrap();

    assert_eq!(0x42, sys.via_pb);
}

#[test]
fn via_complex_write_pb() {
    let (mut via, mut sys) = test_rig();

    via.write(&mut sys, PORTB, 0b1100_0011).unwrap();

    via.write(&mut sys, DDRB, 0b0110_1001).unwrap();
    via.write(&mut sys, PORTB, 0b1010_0111).unwrap();

    assert_eq!(0b0010_0001, sys.via_pb & 0b0110_1001);
}

#[test]
fn via_change_ddrb() {
    let (mut via, mut sys) = test_rig();

    via.write(&mut sys, DDRB, 0xff).unwrap();
    via.write(&mut sys, PORTB, 0xc3).unwrap();

    assert_eq!(0xc3, sys.via_pb);

    via.write(&mut sys, DDRB, 0x00).unwrap();
    via.write(&mut sys, PORTB, 0x42).unwrap();

    assert_eq!(0xc3, sys.via_pb);

    via.write(&mut sys, DDRB, 0x0f).unwrap();

    assert_eq!(0xc2, sys.via_pb);

    via.write(&mut sys, DDRB, 0xff).unwrap();

    assert_eq!(0x42, sys.via_pb);
}

#[test]
fn ddrb_transition_drives_from_orb() {
    let (mut via, mut sys) = test_rig();

    // Latch a value while every bit is still an input, then open one bit:
    // exactly that bit must be re-driven from ORB.
    via.write(&mut sys, PORTB, 0b1000_0001).unwrap();
    sys.via_pb = 0x00;
    let events_before = sys.port_events.len();

    via.write(&mut sys, DDRB, 0b0000_0001).unwrap();

    assert_eq!(0b0000_0001, sys.via_pb);
    let emitted: Vec<_> = sys.port_events[events_before..].to_vec();
    assert_eq!(1, emitted.len());
}

#[test]
fn port_read_latching_modes() {
    let (mut via, mut sys) = test_rig();
    sys.pb_drive = Some(0x5a);

    // Input latching off: a PORTB read samples the pins right now.
    assert_eq!(0x5a, via.read(&mut sys, PORTB).unwrap());

    // Input latching on (ACR bit 1): the read returns what the last clock
    // pulse latched, not the current pin levels.
    via.write(&mut sys, emulator::via::ACR, 0b0000_0010).unwrap();
    via.clock_pulse(&mut sys);
    sys.pb_drive = Some(0xa5);
    assert_eq!(0x5a, via.read(&mut sys, PORTB).unwrap());
    via.clock_pulse(&mut sys);
    assert_eq!(0xa5, via.read(&mut sys, PORTB).unwrap());
}
