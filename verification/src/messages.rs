use vstd::prelude::*;

verus! {

/// Default waiting time between steps when running, in milliseconds.
pub const DEFAULT_STEP_WAIT: u32 = 50;

/// A control message from the frontend to the orchestrator.
#[derive(Clone, Copy, Debug, PartialEq, Eq, Structural)]
pub enum ToSysMessage {
    Run,
    Stop,
    Step,
    /// New waiting time between steps, in microseconds.
    ChangeWaitTime(u32),
    ShowLog(bool),
    Breakpoint(bool),
    Exit,
}

/// A snapshot message from the orchestrator or the LCD to the frontend.
#[derive(Debug, PartialEq)]
pub enum ToGuiMessage {
    PortB(u8),
    PortA(u8),
    CycleCount(u64),
    LcdScreen(String),
    Paused,
    Stopped,
}

/// A message to the log sink.
#[derive(Debug, PartialEq)]
pub enum LogMessage {
    Log(String),
    ChangePrintLog(bool),
    Exit,
}

/// The program configuration taken from the command line.
#[derive(Clone, Copy, Debug, PartialEq, Eq, Structural)]
pub struct Config {
    pub lcd_enabled: bool,
    pub allow_garbage: bool,
}

/// The orchestrator's run state.
#[derive(Clone, Copy, Debug, PartialEq, Eq, Structural)]
pub enum RunState {
    Idle,
    Running,
    Stopped,
}

/// The unit a frontend wait-time figure is given in.
#[derive(Clone, Copy, Debug, PartialEq, Eq, Structural)]
pub enum WaitTimeUnit {
    Milli,
    TensOfMicro,
}

/// A waiting time between steps as the frontend states it.
#[derive(Clone, Copy, Debug, PartialEq, Eq, Structural)]
pub struct WaitTime {
    pub time: u32,
    pub unit: WaitTimeUnit,
}

/// The microsecond value of a wait-time figure.
pub open spec fn spec_to_micro(w: WaitTime) -> int {
    match w.unit {
        WaitTimeUnit::Milli => w.time * 1000,
        WaitTimeUnit::TensOfMicro => w.time * 10,
    }
}

impl WaitTime {
    /// This waiting time in microseconds.
    pub fn to_micro(&self) -> (r: u32)
        requires
            self.time <= 4_294_967,
        ensures
            r == spec_to_micro(*self),
    {
        match self.unit {
            WaitTimeUnit::Milli => self.time * 1000,
            WaitTimeUnit::TensOfMicro => self.time * 10,
        }
    }
}

impl Default for WaitTime {
    /// The default waiting time between steps.
    fn default() -> (r: Self)
        ensures
            r == (WaitTime { time: DEFAULT_STEP_WAIT, unit: WaitTimeUnit::Milli }),
    {
        WaitTime { time: DEFAULT_STEP_WAIT, unit: WaitTimeUnit::Milli }
    }
}

} // verus!
