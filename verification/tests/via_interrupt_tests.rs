use emulator::errors::EmuError;
use emulator::system::SystemHost;
use emulator::via::{IER, IFR, W65C22S};

fn test_rig() -> (W65C22S, SystemHost) {
    (W65C22S::new(), SystemHost::new())
}

#[test]
fn interrupts() {
    let (mut via, mut sys) = test_rig();

    assert_eq!(0x00, via.read(&mut sys, IFR).unwrap(), "No interrupts should be enabled yet");
    assert_eq!(0x00, via.read(&mut sys, IFR).unwrap(), "No interrupt flags should be set yet");

    via.change_interrupt_flag(&mut sys, None, true);
    assert_eq!(0x00, via.read(&mut sys, IFR).unwrap(), "No interrupt flags should be set yet");

    via.change_interrupt_flag(&mut sys, Some(0), false);
    assert_eq!(0x00, via.read(&mut sys, IFR).unwrap(), "No interrupt flags should be set yet");

    via.change_interrupt_flag(&mut sys, Some(0), true);
    via.change_interrupt_flag(&mut sys, Some(5), true);
    via.change_interrupt_flag(&mut sys, Some(6), true);
    assert_eq!(0b0110_0001, via.read(&mut sys, IFR).unwrap(), "IFR6, IFR5 and IFR0 should be set");

    via.write(&mut sys, IER, 0b1000_0010).unwrap();
    assert_eq!(0b0110_0001, via.read(&mut sys, IFR).unwrap(), "IFR7 should still be reset");

    via.write(&mut sys, IER, 0b1000_1001).unwrap();
    assert_eq!(0b1000_1011, via.read(&mut sys, IER).unwrap());
    assert_eq!(0b1110_0001, via.read(&mut sys, IFR).unwrap(), "IFR7 should be set");

    via.write(&mut sys, IFR, 0b1000_0000).unwrap();
    assert_eq!(0b1110_0001, via.read(&mut sys, IFR).unwrap(), "Writing to IFR7 shouldn't clear it");

    via.write(&mut sys, IFR, 0b0100_1000).unwrap();
    assert_eq!(0b1010_0001, via.read(&mut sys, IFR).unwrap(), "IFR6 should be cleared");

    via.write(&mut sys, IFR, 0b1001_0001).unwrap();
    assert_eq!(0b0010_0000, via.read(&mut sys, IFR).unwrap(), "IFR7 should be cleared");

    via.change_interrupt_flag(&mut sys, Some(3), true);
    assert_eq!(0b1010_1000, via.read(&mut sys, IFR).unwrap(), "IFR7 should be set");

    via.write(&mut sys, IER, 0b0010_1001).unwrap();
    assert_eq!(0b1000_0010, via.read(&mut sys, IER).unwrap());
    assert_eq!(0b0010_1000, via.read(&mut sys, IFR).unwrap(), "IFR7 should be reset");
}

#[test]
fn irq_line_follows_enabled_flags() {
    let (mut via, mut sys) = test_rig();

    // A flag without its enable bit does not raise the line.
    via.change_interrupt_flag(&mut sys, Some(6), true);
    assert!(!sys.irq);

    // Enabling the matching bit raises it.
    via.write(&mut sys, IER, 0b1100_0000).unwrap();
    assert!(sys.irq);

    // Clearing the flag drops it again.
    via.write(&mut sys, IFR, 0b0100_0000).unwrap();
    assert!(!sys.irq);
}

#[test]
fn ier_read_has_top_bit_set() {
    let (mut via, mut sys) = test_rig();

    assert_eq!(0b1000_0000, via.read(&mut sys, IER).unwrap());
    via.write(&mut sys, IER, 0b1000_0101).unwrap();
    assert_eq!(0b1000_0101, via.read(&mut sys, IER).unwrap());
    via.write(&mut sys, IER, 0b0000_0100).unwrap();
    assert_eq!(0b1000_0001, via.read(&mut sys, IER).unwrap());
}

#[test]
fn register_select_out_of_range() {
    let (mut via, mut sys) = test_rig();

    assert_eq!(Err(EmuError::InvalidRegister), via.read(&mut sys, 0x10));
    assert_eq!(Err(EmuError::InvalidRegister), via.write(&mut sys, 0xff, 0x42));
}

#[test]
fn unimplemented_registers() {
    let (mut via, mut sys) = test_rig();

    // The shift register and the no-handshake port A mirror are documented
    // gaps of the emulation.
    assert_eq!(Err(EmuError::Unimplemented), via.read(&mut sys, 0x0a));
    assert_eq!(Err(EmuError::Unimplemented), via.write(&mut sys, 0x0a, 0));
    assert_eq!(Err(EmuError::Unimplemented), via.read(&mut sys, 0x0f));
    assert_eq!(Err(EmuError::Unimplemented), via.write(&mut sys, 0x0f, 0));
}

#[test]
fn pcr_drives_cb2() {
    let (mut via, mut sys) = test_rig();

    // CB2 output mode, PCR[7:5] = 110 drives the pin low.
    via.write(&mut sys, 0x0c, 0b1100_0000).unwrap();
    assert!(!sys.cb2);

    // Any other output pattern drives it high.
    via.write(&mut sys, 0x0c, 0b1110_0000).unwrap();
    assert!(sys.cb2);
}
