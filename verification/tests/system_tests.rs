use emulator::errors::EmuError;
use emulator::lcd::SysToLcdMessage;
use emulator::messages::{Config, RunState, ToGuiMessage, ToSysMessage, WaitTime, WaitTimeUnit};
use emulator::system::{port_b_event_to_lcd, ControlOutcome, Data, PhysSystem};

fn rom_with(bytes: &[u8]) -> Vec<u8> {
    let mut program = vec![0u8; 0x8000];
    program[..bytes.len()].copy_from_slice(bytes);
    program
}

fn strict_system() -> PhysSystem {
    PhysSystem::new(
        Config { lcd_enabled: true, allow_garbage: false },
        &rom_with(&[0xa9, 0x42]),
    )
}

#[test]
fn port_b_drive_snapshot() {
    let mut sys = strict_system();

    // DDRB = 0xFF; PORTB = 0x42 over the bus.
    sys.write(0x6002, 0xff).unwrap();
    sys.write(0x6000, 0x42).unwrap();
    assert_eq!(0x42, sys.host.via_pb);

    sys.update_gui();
    assert!(sys.gui_msgs.contains(&ToGuiMessage::PortB(0x42)));
}

#[test]
fn port_b_direction_mask() {
    let mut sys = strict_system();

    sys.host.via_pb = 0xc3;
    sys.write(0x6002, 0x69).unwrap();
    sys.write(0x6000, 0xa7).unwrap();

    assert_eq!(0xa3, sys.host.via_pb);
}

#[test]
fn pa_breakpoint_pauses() {
    let mut sys = strict_system();
    assert!(sys.pa_as_breakpoint);

    // Opening the port A direction drives PA lines, which already trips
    // the breakpoint while running.
    sys.state = RunState::Running;
    sys.write(0x6003, 0x01).unwrap();
    assert_eq!(RunState::Idle, sys.state);
    assert_eq!(Some(&ToGuiMessage::Paused), sys.gui_msgs.last());

    // A PORTA write while running trips it again.
    sys.state = RunState::Running;
    let before = sys.gui_msgs.len();
    sys.write(0x6001, 0x01).unwrap();
    assert_eq!(RunState::Idle, sys.state);
    assert_eq!(Some(&ToGuiMessage::Paused), sys.gui_msgs.last());
    assert_eq!(before + 4, sys.gui_msgs.len());

    // With the switch off, nothing pauses.
    sys.handle_message(ToSysMessage::Breakpoint(false));
    sys.state = RunState::Running;
    sys.write(0x6001, 0x00).unwrap();
    assert_eq!(RunState::Running, sys.state);
}

#[test]
fn garbage_read_is_strict_by_default() {
    let mut sys = strict_system();

    assert_eq!(Err(EmuError::GarbageRead), sys.read(0x0000));

    // A write clears the provenance.
    sys.write(0x0000, 0x07).unwrap();
    assert_eq!(Ok(0x07), sys.read(0x0000));
}

#[test]
fn stack_reads_skip_garbage_check() {
    let mut sys = strict_system();
    assert!(sys.read(0x0150).is_ok());
}

#[test]
fn rom_reads_and_discarded_writes() {
    let mut sys = strict_system();

    assert_eq!(Ok(0xa9), sys.read(0x8000));
    assert_eq!(Ok(0x42), sys.read(0x8001));
    assert_eq!(Ok(0x00), sys.read(0xffff));

    // ROM writes are silently discarded.
    sys.write(0x8000, 0x55).unwrap();
    assert_eq!(Ok(0xa9), sys.read(0x8000));
}

#[test]
fn unmapped_and_alias_reads() {
    let mut sys = strict_system();

    // Reads of the RAM alias range and the unmapped window are fatal in
    // strict mode, though writes land there.
    assert_eq!(Err(EmuError::UnmappedAccess), sys.read(0x4000));
    assert_eq!(Err(EmuError::UnmappedAccess), sys.read(0x7abc));
    sys.write(0x4100, 0x09).unwrap();
    assert_eq!(0x09, sys.mem[0x4100].data);
    assert!(!sys.mem[0x4100].is_garbage);

    // Permissive mode recovers with an arbitrary byte.
    let mut lax = PhysSystem::new(
        Config { lcd_enabled: false, allow_garbage: true },
        &rom_with(&[]),
    );
    assert!(lax.read(0x4000).is_ok());
    assert!(lax.read(0x0000).is_ok());
}

#[test]
fn via_window_over_the_bus() {
    let mut sys = strict_system();

    // The T2 low latch then high counter, through bus addresses.
    sys.write(0x6008, 0x05).unwrap();
    sys.write(0x6009, 0x00).unwrap();
    assert_eq!(Ok(0x04), sys.read(0x6008), "the read cycle itself ticks T2 once more");

    // The two unimplemented registers surface their gap.
    assert_eq!(Err(EmuError::Unimplemented), sys.read(0x600a));
    assert_eq!(Err(EmuError::Unimplemented), sys.write(0x600f, 0x00));
}

#[test]
fn cycles_count_bus_traffic() {
    let mut sys = strict_system();
    assert_eq!(0, sys.cycle_count);
    sys.write(0x0000, 1).unwrap();
    let _ = sys.read(0x0000);
    assert_eq!(2, sys.cycle_count);
}

#[test]
fn control_state_machine() {
    let mut sys = strict_system();
    assert_eq!(RunState::Idle, sys.state);

    // Step is only valid from Idle.
    assert_eq!(ControlOutcome::StepOnce, sys.handle_message(ToSysMessage::Step));

    assert_eq!(ControlOutcome::Continue, sys.handle_message(ToSysMessage::Run));
    assert_eq!(RunState::Running, sys.state);
    assert_eq!(ControlOutcome::Continue, sys.handle_message(ToSysMessage::Step));

    assert_eq!(ControlOutcome::Continue, sys.handle_message(ToSysMessage::Stop));
    assert_eq!(RunState::Idle, sys.state);

    assert_eq!(ControlOutcome::Exit, sys.handle_message(ToSysMessage::Exit));
    assert_eq!(RunState::Stopped, sys.state);
}

#[test]
fn wait_time_retunes_snapshot_period() {
    let mut sys = strict_system();

    sys.handle_message(ToSysMessage::ChangeWaitTime(0));
    assert_eq!(100_000, sys.screen_update_period);
    sys.handle_message(ToSysMessage::ChangeWaitTime(100));
    assert_eq!(10_000, sys.screen_update_period);
    sys.handle_message(ToSysMessage::ChangeWaitTime(1_000));
    assert_eq!(1_000, sys.screen_update_period);
    sys.handle_message(ToSysMessage::ChangeWaitTime(10_000));
    assert_eq!(100, sys.screen_update_period);
    sys.handle_message(ToSysMessage::ChangeWaitTime(10_001));
    assert_eq!(0, sys.screen_update_period);
    assert_eq!(Some(&SysToLcdMessage::AllowAllUpdates), sys.lcd_msgs.last());
}

#[test]
fn step_bookkeeping_refreshes_when_idle() {
    let mut sys = strict_system();
    let before = sys.gui_msgs.len();
    sys.begin_step();
    assert_eq!(1, sys.step_count);
    assert_eq!(before + 3, sys.gui_msgs.len(), "idle steps always refresh");
}

#[test]
fn shutdown_messages() {
    let mut sys = strict_system();
    sys.cpu_stopped();
    assert_eq!(RunState::Stopped, sys.state);
    sys.shutdown(true);
    let n = sys.gui_msgs.len();
    assert_eq!(Some(&ToGuiMessage::Stopped), sys.gui_msgs.get(n - 1));
    assert_eq!(Some(&SysToLcdMessage::Exit), sys.lcd_msgs.last());
}

#[test]
fn port_b_bits_route_to_lcd_pins() {
    assert_eq!(Some(SysToLcdMessage::DataPinChange(4, true)), port_b_event_to_lcd(0, true));
    assert_eq!(Some(SysToLcdMessage::DataPinChange(7, false)), port_b_event_to_lcd(3, false));
    assert_eq!(None, port_b_event_to_lcd(4, true));
    assert_eq!(Some(SysToLcdMessage::EnablePinChange(true)), port_b_event_to_lcd(5, true));
    assert_eq!(Some(SysToLcdMessage::ReadWritePinChange(false)), port_b_event_to_lcd(6, false));
    assert_eq!(Some(SysToLcdMessage::RegisterPinChange(true)), port_b_event_to_lcd(7, true));
}

#[test]
fn wait_time_units() {
    let ms = WaitTime { time: 50, unit: WaitTimeUnit::Milli };
    assert_eq!(50_000, ms.to_micro());
    let tens = WaitTime { time: 3, unit: WaitTimeUnit::TensOfMicro };
    assert_eq!(30, tens.to_micro());
    assert_eq!(50_000, WaitTime::default().to_micro());
}

#[test]
fn bench_system_is_all_garbage() {
    let mut sys = PhysSystem::default();
    assert!(!sys.prgm_config.lcd_enabled);
    assert_eq!(Err(EmuError::GarbageRead), sys.read(0x0200));
    // Stack reads skip the check and see the untouched power-on value.
    assert_eq!(Ok(0xff), sys.read(0x0100));
    // Even the ROM window is garbage with nothing loaded.
    assert_eq!(Err(EmuError::GarbageRead), sys.read(0x8000));
}

#[test]
fn data_cells_track_provenance() {
    let mut cell = Data { data: 0u8, is_garbage: true };
    assert_eq!(Err(EmuError::GarbageRead), cell.read(false));
    assert_eq!(Ok(0), cell.read(true));
    cell.write_valid(9);
    assert_eq!(Ok(9), cell.read(false));
}
