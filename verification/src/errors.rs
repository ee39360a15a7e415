use vstd::prelude::*;

verus! {

/// The error kinds of the emulator.
///
/// The first three are contract violations by the emulated program, or gaps
/// in the emulation, and are fatal.  `GarbageRead` and `UnmappedAccess` are
/// fatal in strict mode and recovered locally in permissive mode.  `PeerGone`
/// and `IoError` arise only in the thread and file plumbing around this
/// crate.
#[derive(Clone, Copy, Debug, PartialEq, Eq, Structural)]
pub enum EmuError {
    /// A register select or a display address outside the legal range.
    InvalidRegister,
    /// Two halves of a 4-bit LCD transfer with different control pins.
    ProtocolMismatch,
    /// A documented gap of the emulation (CGRAM, busy-flag read-back, ...).
    Unimplemented,
    /// A read of a memory cell that was never written since power-on.
    GarbageRead,
    /// A read of an address that no device answers.
    UnmappedAccess,
    /// A channel counterparty has gone away.
    PeerGone,
    /// A log file could not be created or written.
    IoError,
}

} // verus!
