use emulator::errors::EmuError;
use emulator::lcd::{CpuToLcdMessage, LCDPins, SysToLcdMessage, LCD};

fn pins(rs: bool, rw: bool, data: u8) -> LCDPins {
    LCDPins { rs, rw, data }
}

fn frame(row1: &str, row2: &str) -> String {
    let horiz: String = "\u{2550}".repeat(16);
    format!(
        "\u{2554}{}\u{2557}\n\u{2551}{}\u{2551}\n\u{2551}{}\u{2551}\n\u{255a}{}\u{255d}",
        horiz, row1, row2, horiz
    )
}

#[test]
fn clear_and_hello() {
    let mut lcd = LCD::new();

    // Clear display, then write "HI!" and a NUL in 8-bit mode.
    lcd.pin_change(pins(false, false, 0x01)).unwrap();
    lcd.pin_change(pins(true, false, b'H')).unwrap();
    lcd.pin_change(pins(true, false, b'I')).unwrap();
    lcd.pin_change(pins(true, false, b'!')).unwrap();
    lcd.pin_change(pins(true, false, 0x00)).unwrap();

    assert_eq!(4, lcd.ddram_addr, "cursor should sit after the written data");

    let shown = lcd.take_frame().expect("a frame should be pending");
    assert_eq!(frame("HI!             ", "                "), shown);
}

#[test]
fn four_bit_mismatch_fails() {
    let mut lcd = LCD::new();

    // Switch to the 4-bit interface.
    lcd.pin_change(pins(false, false, 0x20)).unwrap();

    // First half with RS low, second half with RS high: the pair is bad.
    lcd.pin_change(pins(false, false, 0x80)).unwrap();
    assert_eq!(
        Err(EmuError::ProtocolMismatch),
        lcd.pin_change(pins(true, false, 0x00))
    );
}

#[test]
fn four_bit_pairs_assemble() {
    let mut lcd = LCD::new();

    // Switch to the 4-bit interface, then clear as a nibble pair
    // (0x01 -> halves 0x00 and 0x10).
    lcd.pin_change(pins(false, false, 0x20)).unwrap();
    lcd.pin_change(pins(false, false, 0x00)).unwrap();
    lcd.pin_change(pins(false, false, 0x10)).unwrap();
    assert_eq!(0, lcd.ddram_addr);

    // 'H' = 0x48 as halves 0x40 and 0x80: high nibble, then low nibble in
    // the wire positions.
    lcd.pin_change(pins(true, false, 0x40)).unwrap();
    lcd.pin_change(pins(true, false, 0x80)).unwrap();

    assert_eq!(b'H', lcd.ddram_data[0]);
    assert_eq!(1, lcd.ddram_addr);
}

#[test]
fn cursor_wraps_one_line() {
    let mut lcd = LCD::new();
    lcd.pin_change(pins(false, false, 0x01)).unwrap();

    // Park the cursor on the last one-line address and write: it wraps to
    // the start.
    lcd.pin_change(pins(false, false, 0x80 | 0x4f)).unwrap();
    assert_eq!(0x4f, lcd.ddram_addr);
    lcd.pin_change(pins(true, false, b'x')).unwrap();
    assert_eq!(0x00, lcd.ddram_addr);

    // Entry mode decrement: writing at the start wraps to the end.
    lcd.pin_change(pins(false, false, 0x04)).unwrap();
    lcd.pin_change(pins(true, false, b'y')).unwrap();
    assert_eq!(0x4f, lcd.ddram_addr);
}

#[test]
fn cursor_jumps_between_two_lines() {
    let mut lcd = LCD::new();

    // 8-bit, two lines.
    lcd.pin_change(pins(false, false, 0x38)).unwrap();

    lcd.pin_change(pins(false, false, 0x80 | 0x27)).unwrap();
    lcd.pin_change(pins(true, false, b'a')).unwrap();
    assert_eq!(0x40, lcd.ddram_addr, "end of line one jumps to line two");

    lcd.pin_change(pins(false, false, 0x80 | 0x67)).unwrap();
    lcd.pin_change(pins(true, false, b'b')).unwrap();
    assert_eq!(0x00, lcd.ddram_addr, "end of line two wraps to the start");
}

#[test]
fn illegal_ddram_address_fails() {
    let mut lcd = LCD::new();
    assert_eq!(
        Err(EmuError::InvalidRegister),
        lcd.pin_change(pins(false, false, 0x80 | 0x50))
    );

    lcd.pin_change(pins(false, false, 0x38)).unwrap();
    assert_eq!(
        Err(EmuError::InvalidRegister),
        lcd.pin_change(pins(false, false, 0x80 | 0x28))
    );
}

#[test]
fn undocumented_and_unimplemented_transactions() {
    let mut lcd = LCD::new();

    // The all-zero instruction byte is undocumented.
    assert_eq!(Err(EmuError::Unimplemented), lcd.pin_change(pins(false, false, 0x00)));
    // Busy-flag read-back is a documented gap.
    assert_eq!(Err(EmuError::Unimplemented), lcd.pin_change(pins(false, true, 0x00)));
    // So are CGRAM addresses and data read-back.
    assert_eq!(Err(EmuError::Unimplemented), lcd.pin_change(pins(false, false, 0x40)));
    assert_eq!(Err(EmuError::Unimplemented), lcd.pin_change(pins(true, true, 0x00)));
}

#[test]
fn display_shift_moves_window() {
    let mut lcd = LCD::new();
    lcd.pin_change(pins(false, false, 0x01)).unwrap();
    lcd.pin_change(pins(true, false, b'A')).unwrap();
    lcd.pin_change(pins(true, false, b'B')).unwrap();

    // Shift the display right: the window starts one later and the first
    // column shows 'B'.
    lcd.pin_change(pins(false, false, 0x1c)).unwrap();
    assert_eq!(1, lcd.display_addr);
    let shown = lcd.take_frame().expect("a frame should be pending");
    assert_eq!(frame("B               ", "                "), shown);

    // Shift left twice: the window wraps to the end of the line.
    lcd.pin_change(pins(false, false, 0x18)).unwrap();
    lcd.pin_change(pins(false, false, 0x18)).unwrap();
    assert_eq!(0x4f, lcd.display_addr);
}

#[test]
fn cursor_marker_and_blink() {
    let mut lcd = LCD::new();
    lcd.pin_change(pins(false, false, 0x01)).unwrap();

    // Display on, cursor on, blink on.
    lcd.pin_change(pins(false, false, 0x0f)).unwrap();

    let shown = lcd.take_frame().expect("a frame should be pending");
    let cursor_cell = "\u{200c}\u{332} ";
    assert_eq!(
        frame(&format!("{}               ", cursor_cell), "                "),
        shown
    );

    // After a full blink period the cursor cell shows the block glyph.
    for _i in 0..100_001 {
        lcd.tick();
    }
    assert!(lcd.current_blink);
    let shown = lcd.take_frame().expect("a frame should be pending");
    assert_eq!(
        frame(&format!("{}\u{2588}               ", "\u{200c}\u{332}"), "                "),
        shown
    );
}

#[test]
fn pin_edges_assemble_transactions() {
    let mut lcd = LCD::new();

    // Drive the wires for "set DDRAM address 0x20" (byte 0xA0) and pulse
    // enable.
    lcd.receive(SysToLcdMessage::DataPinChange(7, true)).unwrap();
    lcd.receive(SysToLcdMessage::DataPinChange(5, true)).unwrap();
    lcd.receive(SysToLcdMessage::RegisterPinChange(false)).unwrap();
    lcd.receive(SysToLcdMessage::ReadWritePinChange(false)).unwrap();
    lcd.receive(SysToLcdMessage::EnablePinChange(true)).unwrap();

    assert_eq!(0x20, lcd.ddram_addr);

    // A held-high enable is no new edge.
    lcd.receive(SysToLcdMessage::DataPinChange(7, false)).unwrap();
    lcd.receive(SysToLcdMessage::EnablePinChange(true)).unwrap();
    assert_eq!(0x20, lcd.ddram_addr);

    // After a falling edge, the next rising edge carries the new wires.
    lcd.receive(SysToLcdMessage::DataPinChange(7, true)).unwrap();
    lcd.receive(SysToLcdMessage::DataPinChange(5, false)).unwrap();
    lcd.receive(SysToLcdMessage::EnablePinChange(false)).unwrap();
    lcd.receive(SysToLcdMessage::EnablePinChange(true)).unwrap();
    assert_eq!(0x00, lcd.ddram_addr, "byte 0x80 sets address zero");
}

#[test]
fn snapshot_gating() {
    let mut lcd = LCD::new();
    lcd.pin_change(pins(false, false, 0x01)).unwrap();

    // Snapshots start out unthrottled.
    assert!(lcd.take_frame().is_some());
    assert!(lcd.take_frame().is_none(), "no frame pending after taking it");

    // One grant serves exactly one frame.
    lcd.receive(SysToLcdMessage::AllowOneUpdate).unwrap();
    lcd.pin_change(pins(true, false, b'A')).unwrap();
    assert!(lcd.take_frame().is_some());
    lcd.pin_change(pins(true, false, b'B')).unwrap();
    assert!(lcd.take_frame().is_none(), "the single grant is used up");

    // Lifting the throttle serves the pending frame again.
    lcd.receive(SysToLcdMessage::AllowAllUpdates).unwrap();
    assert!(lcd.take_frame().is_some());
}

#[test]
fn ddram_to_string_renders_codes() {
    let mut lcd = LCD::new();
    lcd.pin_change(pins(false, false, 0x01)).unwrap();
    lcd.pin_change(pins(true, false, 0x7e)).unwrap();
    lcd.pin_change(pins(true, false, 0xff)).unwrap();
    lcd.pin_change(pins(true, false, 0xb1)).unwrap();

    assert_eq!("\u{2192}\u{2588}\u{ff71} ", lcd.ddram_to_string(0, 4));
}

#[test]
fn transaction_message_wrapper() {
    let mut lcd = LCD::new();
    lcd.handle_cpu_message(CpuToLcdMessage::PinChange(pins(false, false, 0x01))).unwrap();
    assert_eq!(0x20, lcd.ddram_data[0]);
    lcd.handle_cpu_message(CpuToLcdMessage::Exit).unwrap();
}
