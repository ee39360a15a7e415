use emulator::system::SystemHost;
use emulator::via::{ACR, IER, IFR, PORTB, T1C_H, T1C_L, T1L_H, T1L_L, T2C_H, T2C_L, W65C22S};

fn test_rig() -> (W65C22S, SystemHost) {
    (W65C22S::new(), SystemHost::new())
}

#[test]
fn t1_one_shot() {
    let (mut via, mut sys) = test_rig();

    // PB7 disabled, one-shot mode
    via.write(&mut sys, ACR, 0b0000_0011).unwrap();
    // Set IER6
    via.write(&mut sys, IER, 0b1100_0000).unwrap();

    via.write(&mut sys, T1L_L, 0x37).unwrap();
    via.write(&mut sys, T1L_H, 0x13).unwrap();
    assert_eq!(0x37, via.read(&mut sys, T1L_L).unwrap());
    assert_eq!(0x13, via.read(&mut sys, T1L_H).unwrap());

    via.write(&mut sys, T1C_L, 0x02).unwrap();
    via.write(&mut sys, T1C_H, 0x00).unwrap();

    // The one-shot takes latch + 1 pulses to fire.
    assert_eq!(0x00, via.read(&mut sys, IFR).unwrap(), "No interrupt flags should be set yet");
    via.clock_pulse(&mut sys);
    assert_eq!(0x00, via.read(&mut sys, IFR).unwrap(), "No interrupt flags should be set yet");
    via.clock_pulse(&mut sys);
    assert_eq!(0x00, via.read(&mut sys, IFR).unwrap(), "No interrupt flags should be set yet");
    via.clock_pulse(&mut sys);
    assert_eq!(0b1100_0000, via.read(&mut sys, IFR).unwrap(), "IFR6 should be set");

    via.clock_pulse(&mut sys);
    assert_eq!(0x00, via.read(&mut sys, T1C_L).unwrap(), "Timer shouldn't be running anymore");
    assert_eq!(0x00, via.read(&mut sys, T1C_H).unwrap(), "Timer shouldn't be running anymore");
}

#[test]
fn t1_os_long_timer() {
    let (mut via, mut sys) = test_rig();

    // PB7 disabled, one-shot mode
    via.write(&mut sys, ACR, 0b0000_0011).unwrap();
    // Set IER6
    via.write(&mut sys, IER, 0b1100_0000).unwrap();

    via.write(&mut sys, T1C_L, (500u16 & 0x00ff) as u8).unwrap();
    via.write(&mut sys, T1C_H, ((500u16 & 0xff00) >> 8) as u8).unwrap();

    // The one-shot takes latch + 1 = 501 pulses to fire.
    for _i in 0..501 {
        assert_eq!(0x00, via.read(&mut sys, IFR).unwrap(), "No interrupt flags should be set yet");
        via.clock_pulse(&mut sys);
    }
    assert_eq!(0b1100_0000, via.read(&mut sys, IFR).unwrap(), "IFR6 should be set");

    via.clock_pulse(&mut sys);
    assert_eq!(0x00, via.read(&mut sys, T1C_L).unwrap(), "Timer shouldn't be running anymore");
    assert_eq!(0x00, via.read(&mut sys, T1C_H).unwrap(), "Timer shouldn't be running anymore");
}

#[test]
fn t1_freerun() {
    let (mut via, mut sys) = test_rig();

    // PB7 disabled, freerun mode
    via.write(&mut sys, ACR, 0b0100_0011).unwrap();
    // Set IER6
    via.write(&mut sys, IER, 0b1100_0000).unwrap();

    via.write(&mut sys, T1C_L, 0x02).unwrap();
    via.write(&mut sys, T1C_H, 0x00).unwrap();

    // First fire after latch + 1 = 3 pulses.
    assert_eq!(0x00, via.read(&mut sys, IFR).unwrap(), "No interrupt flags should be set yet");
    via.clock_pulse(&mut sys);
    assert_eq!(0x00, via.read(&mut sys, IFR).unwrap(), "No interrupt flags should be set yet");
    via.clock_pulse(&mut sys);
    assert_eq!(0x00, via.read(&mut sys, IFR).unwrap(), "No interrupt flags should be set yet");
    via.clock_pulse(&mut sys);
    assert_eq!(0b1100_0000, via.read(&mut sys, IFR).unwrap(), "IFR6 should be set");

    via.clock_pulse(&mut sys);

    // Clear IFR6; the flag re-asserts every latch + 1 pulses, here on the
    // sixth pulse overall.
    via.write(&mut sys, IFR, 0b0100_0000).unwrap();
    assert_eq!(0x00, via.read(&mut sys, IFR).unwrap(), "Interrupt flags should have been reset");

    via.clock_pulse(&mut sys);
    assert_eq!(0x00, via.read(&mut sys, IFR).unwrap(), "Interrupt flags should have been reset");
    via.clock_pulse(&mut sys);
    assert_eq!(0b1100_0000, via.read(&mut sys, IFR).unwrap(), "IFR6 should be set");
}

#[test]
fn t2_one_shot() {
    let (mut via, mut sys) = test_rig();

    // One-shot mode
    via.write(&mut sys, ACR, 0b0000_0011).unwrap();
    // Set IER5
    via.write(&mut sys, IER, 0b1010_0000).unwrap();

    via.write(&mut sys, T2C_L, 0x02).unwrap();
    via.write(&mut sys, T2C_H, 0x00).unwrap();

    // The interrupt fires when the counter crosses zero: latch + 1 pulses.
    assert_eq!(0x00, via.read(&mut sys, IFR).unwrap(), "No interrupt flags should be set yet");
    via.clock_pulse(&mut sys);
    assert_eq!(0x00, via.read(&mut sys, IFR).unwrap(), "No interrupt flags should be set yet");
    via.clock_pulse(&mut sys);
    assert_eq!(0x00, via.read(&mut sys, IFR).unwrap(), "No interrupt flags should be set yet");
    via.clock_pulse(&mut sys);
    assert_eq!(0b1010_0000, via.read(&mut sys, IFR).unwrap(), "IFR5 should be set");

    via.clock_pulse(&mut sys);
    assert_eq!(0b1010_0000, via.read(&mut sys, IFR).unwrap(), "IFR5 should still be set");

    // The counter wrapped at the fire and keeps counting down.
    assert_eq!(0xfe, via.read(&mut sys, T2C_L).unwrap(), "Timer should still be running");
    assert_eq!(0xff, via.read(&mut sys, T2C_H).unwrap(), "Timer should still be running");
    assert_eq!(0b0000_0000, via.read(&mut sys, IFR).unwrap(), "IFR5 should be reset");

    via.clock_pulse(&mut sys);
    assert_eq!(0xfd, via.read(&mut sys, T2C_L).unwrap(), "Timer should still be running");
    assert_eq!(0xff, via.read(&mut sys, T2C_H).unwrap(), "Timer should still be running");
}

#[test]
fn t2_full_cycle() {
    let (mut via, mut sys) = test_rig();

    // One-shot mode
    via.write(&mut sys, ACR, 0b0000_0011).unwrap();
    // Set IER5
    via.write(&mut sys, IER, 0b1010_0000).unwrap();

    via.write(&mut sys, T2C_L, 0x02).unwrap();
    via.write(&mut sys, T2C_H, 0x00).unwrap();

    assert_eq!(0x00, via.read(&mut sys, IFR).unwrap(), "No interrupt flags should be set yet");
    via.clock_pulse(&mut sys);
    assert_eq!(0x00, via.read(&mut sys, IFR).unwrap(), "No interrupt flags should be set yet");
    via.clock_pulse(&mut sys);
    assert_eq!(0x00, via.read(&mut sys, IFR).unwrap(), "No interrupt flags should be set yet");
    via.clock_pulse(&mut sys);
    assert_eq!(0b1010_0000, via.read(&mut sys, IFR).unwrap(), "IFR5 should be set");

    // Clear IFR5
    via.write(&mut sys, IFR, 0b0010_0000).unwrap();
    assert_eq!(0b0000_0000, via.read(&mut sys, IFR).unwrap(), "IFR5 should be reset");

    // The interrupt does not re-fire while the counter free-runs through a
    // full wrap.
    for _i in 0..65_539 {
        assert_eq!(0x00, via.read(&mut sys, IFR).unwrap(), "No interrupt flags should be set");
        via.clock_pulse(&mut sys);
    }
    assert_eq!(0xfc, via.read(&mut sys, T2C_L).unwrap(), "Timer should still be running");
    assert_eq!(0xff, via.read(&mut sys, T2C_H).unwrap(), "Timer should still be running");
}

#[test]
fn t2_pulse_count() {
    let (mut via, mut sys) = test_rig();

    // PB6 reads high: no pulses yet.
    sys.pb_drive = Some(0xff);

    via.write(&mut sys, PORTB, 0xff).unwrap();

    // Pulse counting mode
    via.write(&mut sys, ACR, 0b0010_0011).unwrap();
    // Set IER5
    via.write(&mut sys, IER, 0b1010_0000).unwrap();

    via.write(&mut sys, T2C_L, 0x03).unwrap();
    via.write(&mut sys, T2C_H, 0x00).unwrap();

    // Pulses with PB6 high do not count.
    via.clock_pulse(&mut sys);
    via.clock_pulse(&mut sys);
    assert_eq!(0x00, via.read(&mut sys, IFR).unwrap(), "No interrupt flags should be set yet");

    // Three single-pulse lows: three decrements, no interrupt yet.
    for _i in 0..3 {
        sys.pb_drive = Some(0b1011_1111);
        via.clock_pulse(&mut sys);
        assert_eq!(0x00, via.read(&mut sys, IFR).unwrap(), "No interrupt flags should be set yet");
        sys.pb_drive = Some(0xff);
        via.clock_pulse(&mut sys);
        assert_eq!(0x00, via.read(&mut sys, IFR).unwrap(), "No interrupt flags should be set yet");
    }

    // The fourth low pulse crosses zero and sets IFR5.
    sys.pb_drive = Some(0b1011_1111);
    via.clock_pulse(&mut sys);
    assert_eq!(0b1010_0000, via.read(&mut sys, IFR).unwrap(), "IFR5 should be set");

    // The counter keeps wrapping on further pulses.
    via.clock_pulse(&mut sys);
    assert_eq!(0xfe, via.read(&mut sys, T2C_L).unwrap(), "Timer should still be running");
    assert_eq!(0xff, via.read(&mut sys, T2C_H).unwrap(), "Timer should still be running");
}

#[test]
fn t1_pb7_toggle() {
    let (mut via, mut sys) = test_rig();

    // PB7 output mode together with free-run: ACR bits 7 and 6.
    via.write(&mut sys, ACR, 0b1100_0000).unwrap();
    via.write(&mut sys, emulator::via::DDRB, 0x80).unwrap();
    via.write(&mut sys, PORTB, 0x00).unwrap();

    via.write(&mut sys, T1C_L, 0x01).unwrap();
    via.write(&mut sys, T1C_H, 0x00).unwrap();

    // The output inverts on every fire, every latch + 1 = 2 pulses.
    assert_eq!(0x00, sys.via_pb & 0x80);
    via.clock_pulse(&mut sys);
    assert_eq!(0x00, sys.via_pb & 0x80);
    via.clock_pulse(&mut sys);
    assert_eq!(0x80, sys.via_pb & 0x80);
    via.clock_pulse(&mut sys);
    via.clock_pulse(&mut sys);
    assert_eq!(0x00, sys.via_pb & 0x80);
}
