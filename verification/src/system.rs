//! The system around the VIA: the memory map with power-on-garbage
//! tracking, the bus dispatch the CPU drives one cycle at a time, the
//! concrete VIA host, and the orchestrator's run/pause/step state machine.

use vstd::prelude::*;

use crate::bits::{bit, set_bit, spec_set_bit};
use crate::errors::EmuError;
use crate::lcd::SysToLcdMessage;
use crate::messages::{Config, LogMessage, RunState, ToGuiMessage, ToSysMessage};
use crate::rng::random_byte;
use crate::via::{
    cb2_after_write, events_after_write, irq_level, pa_after_write, pb_after_write,
    read_samples_pa, read_samples_pb, read_touches_irq, read_value, reg_ok, tick_drives_pb7,
    tick_sets_irq, via_after_read, via_after_tick, via_after_write, write_touches_irq, HostPorts,
    PortEvent, ViaSystem, W65C22S,
};

verus! {

/// A value together with its provenance: `is_garbage` marks a cell whose
/// content was never written since power-on, so that reading it is a bug.
#[derive(Clone, Copy, Debug, PartialEq)]
pub struct Data<T: Clone + Copy> {
    pub data: T,
    pub is_garbage: bool,
}

impl Data<u8> {
    /// A power-on cell: noise, marked garbage.
    pub fn new_garbage() -> (d: Data<u8>)
        ensures
            d.is_garbage,
    {
        Data { data: random_byte(), is_garbage: true }
    }
}

impl<T: Clone + Copy> Data<T> {
    /// The stored value.  A garbage cell yields its (noise) content only in
    /// permissive mode and fails otherwise.
    pub fn read(&self, allow_garbage: bool) -> (r: Result<T, EmuError>)
        ensures
            !self.is_garbage || allow_garbage ==> r == Ok::<T, EmuError>(self.data),
            self.is_garbage && !allow_garbage ==> r == Err::<T, EmuError>(EmuError::GarbageRead),
    {
        if self.is_garbage && !allow_garbage {
            Err(EmuError::GarbageRead)
        } else {
            Ok(self.data)
        }
    }

    /// Store a value; the cell is no longer garbage.
    pub fn write_valid(&mut self, data: T)
        ensures
            *final(self) == (Data { data, is_garbage: false }),
    {
        self.data = data;
        self.is_garbage = false;
    }
}

/// The orchestrator's side of the VIA capability set: the electrical port
/// levels, the latest pin samples, an optional external drive on the input
/// pins, the IRQ and CB2 lines, and the ordered log of bit-level writes.
pub struct SystemHost {
    pub via_pb: u8,
    pub via_pa: u8,
    pub pb_in: u8,
    pub pa_in: u8,
    pub pb_drive: Option<u8>,
    pub pa_drive: Option<u8>,
    pub irq: bool,
    pub cb2: bool,
    pub port_events: Vec<PortEvent>,
}

impl SystemHost {
    /// A host with floating input pins and no interrupt pending.  The port
    /// levels are power-on noise.
    pub fn new() -> (h: SystemHost)
        ensures
            h.pb_drive is None && h.pa_drive is None,
            !h.irq && !h.cb2,
            h.port_events@ == Seq::<PortEvent>::empty(),
    {
        SystemHost {
            via_pb: random_byte(),
            via_pa: random_byte(),
            pb_in: random_byte(),
            pa_in: random_byte(),
            pb_drive: None,
            pa_drive: None,
            irq: false,
            cb2: false,
            port_events: Vec::new(),
        }
    }
}

impl ViaSystem for SystemHost {
    open spec fn ports(&self) -> HostPorts {
        HostPorts {
            pb: self.via_pb,
            pa: self.via_pa,
            pb_in: self.pb_in,
            pa_in: self.pa_in,
            pb_ext: self.pb_drive,
            pa_ext: self.pa_drive,
            irq: self.irq,
            cb2: self.cb2,
        }
    }

    open spec fn events(&self) -> Seq<PortEvent> {
        self.port_events@
    }

    fn read_port_b(&mut self) -> (r: u8) {
        let v = match self.pb_drive {
            Some(d) => d,
            None => random_byte(),
        };
        self.pb_in = v;
        v
    }

    fn read_port_a(&mut self) -> (r: u8) {
        let v = match self.pa_drive {
            Some(d) => d,
            None => random_byte(),
        };
        self.pa_in = v;
        v
    }

    fn write_port_b(&mut self, bit: u8, level: bool) {
        self.via_pb = set_bit(self.via_pb, bit, level);
        self.port_events.push(PortEvent::PortB { bit, level });
    }

    fn write_port_a(&mut self, bit: u8, level: bool) {
        self.via_pa = set_bit(self.via_pa, bit, level);
        self.port_events.push(PortEvent::PortA { bit, level });
    }

    fn write_cb2(&mut self, level: bool) {
        self.cb2 = level;
        self.port_events.push(PortEvent::Cb2 { level });
    }

    fn update_irq(&mut self, irq: bool) {
        self.irq = irq;
    }
}

/// What the orchestrator's caller must do next after a control message.
#[derive(Clone, Copy, Debug, PartialEq, Eq, Structural)]
pub enum ControlOutcome {
    /// Keep pumping messages (and stepping while running).
    Continue,
    /// Execute exactly one CPU instruction, then keep pumping.
    StepOnce,
    /// Tear the system down.
    Exit,
}

/// The screen-snapshot period matching a waiting time: the faster the run
/// loop, the more cycles pass between frontend refreshes.
pub open spec fn period_for(wait_micros: u32) -> u64 {
    if wait_micros == 0 {
        100_000
    } else if wait_micros <= 100 {
        10_000
    } else if wait_micros <= 1_000 {
        1_000
    } else if wait_micros <= 10_000 {
        100
    } else {
        0
    }
}

/// A system with 16K of RAM, 32K of programmable (EEP)ROM, and a 6522
/// mapped to $6000.  Snapshot, pin-edge and log messages are queued in
/// order on `gui_msgs`, `lcd_msgs` and `log_msgs` for the surrounding
/// threads to deliver.
pub struct PhysSystem {
    pub prgm_config: Config,
    pub mem: Vec<Data<u8>>,
    pub via: W65C22S,
    pub host: SystemHost,
    pub step_wait_time: u32,
    pub cycle_count: u64,
    pub sent_cycle_count: u64,
    pub screen_update_period: u64,
    pub step_count: u64,
    pub state: RunState,
    pub pa_as_breakpoint: bool,
    pub gui_msgs: Vec<ToGuiMessage>,
    pub lcd_msgs: Vec<SysToLcdMessage>,
    pub log_msgs: Vec<LogMessage>,
}

impl PhysSystem {
    /// The whole 16-bit address space is backed by one cell per address.
    pub open spec fn wf(&self) -> bool {
        self.mem.len() == 0x10000
    }

    /// A fresh system: the ROM image fills 0x8000..=0xFFFF, everything
    /// below is power-on garbage, the VIA and host are in their power-on
    /// state, and the orchestrator idles.
    pub fn new(prgm_config: Config, program: &Vec<u8>) -> (s: PhysSystem)
        requires
            program.len() == 0x8000,
        ensures
            s.wf(),
            forall|i: int|
                0x8000 <= i < 0x10000 ==> s.mem@[i] == (Data {
                    data: program@[i - 0x8000],
                    is_garbage: false,
                }),
            forall|i: int| 0 <= i < 0x8000 ==> s.mem@[i].is_garbage,
            s.prgm_config == prgm_config,
            s.via.ddrb == 0 && s.via.ddra == 0 && s.via.orb == 0 && s.via.ora == 0,
            s.via.acr == 0 && s.via.ifr == 0 && s.via.ier == 0,
            !s.via.t1_is_running && !s.via.t2_trigger_interrupt,
            s.host.pb_drive is None && s.host.pa_drive is None && !s.host.irq,
            s.host.port_events@ == Seq::<PortEvent>::empty(),
            s.state == RunState::Idle,
            s.step_wait_time == 50_000 && s.screen_update_period == 0,
            s.cycle_count == 0 && s.sent_cycle_count == 0 && s.step_count == 0,
            s.pa_as_breakpoint,
            s.gui_msgs@ == Seq::<ToGuiMessage>::empty(),
            s.lcd_msgs@ == Seq::<SysToLcdMessage>::empty(),
            s.log_msgs@ == Seq::<LogMessage>::empty(),
    {
        let mut mem: Vec<Data<u8>> = Vec::new();
        let mut i: usize = 0;
        while i < 0x8000
            invariant
                i <= 0x8000,
                mem.len() == i,
                forall|j: int| 0 <= j < i ==> mem@[j].is_garbage,
            decreases 0x8000 - i,
        {
            mem.push(Data::new_garbage());
            i = i + 1;
        }
        while i < 0x10000
            invariant
                0x8000 <= i <= 0x10000,
                program.len() == 0x8000,
                mem.len() == i,
                forall|j: int| 0 <= j < 0x8000 ==> mem@[j].is_garbage,
                forall|j: int|
                    0x8000 <= j < i ==> mem@[j] == (Data {
                        data: program@[j - 0x8000],
                        is_garbage: false,
                    }),
            decreases 0x10000 - i,
        {
            mem.push(Data { data: program[i - 0x8000], is_garbage: false });
            i = i + 1;
        }
        PhysSystem {
            prgm_config,
            mem,
            via: W65C22S::new(),
            host: SystemHost::new(),
            step_wait_time: 50_000,
            cycle_count: 0,
            sent_cycle_count: 0,
            screen_update_period: 0,
            step_count: 0,
            state: RunState::Idle,
            pa_as_breakpoint: true,
            gui_msgs: Vec::new(),
            lcd_msgs: Vec::new(),
            log_msgs: Vec::new(),
        }
    }

    /// A full address space of untouched power-on cells, every value 0xFF.
    fn fill_garbage_mem() -> (mem: Vec<Data<u8>>)
        ensures
            mem.len() == 0x10000,
            forall|i: int|
                0 <= i < 0x10000 ==> mem@[i] == (Data { data: 0xffu8, is_garbage: true }),
    {
        let mut mem: Vec<Data<u8>> = Vec::new();
        let mut i: usize = 0;
        while i < 0x10000
            invariant
                i <= 0x10000,
                mem.len() == i,
                forall|j: int|
                    0 <= j < i ==> mem@[j] == (Data { data: 0xffu8, is_garbage: true }),
            decreases 0x10000 - i,
        {
            mem.push(Data { data: 0xff, is_garbage: true });
            i = i + 1;
        }
        mem
    }

    /// Queue a full frontend refresh: cycle count, both port levels, and
    /// one granted LCD snapshot.
    pub fn update_gui(&mut self)
        ensures
            *final(self) == (PhysSystem {
                gui_msgs: final(self).gui_msgs,
                lcd_msgs: final(self).lcd_msgs,
                ..*old(self)
            }),
            final(self).gui_msgs@ == old(self).gui_msgs@ + seq![
                ToGuiMessage::CycleCount(old(self).cycle_count),
                ToGuiMessage::PortB(old(self).host.via_pb),
                ToGuiMessage::PortA(old(self).host.via_pa),
            ],
            final(self).lcd_msgs@ == old(self).lcd_msgs@ + seq![SysToLcdMessage::AllowOneUpdate],
    {
        self.gui_msgs.push(ToGuiMessage::CycleCount(self.cycle_count));
        self.gui_msgs.push(ToGuiMessage::PortB(self.host.via_pb));
        self.gui_msgs.push(ToGuiMessage::PortA(self.host.via_pa));
        self.lcd_msgs.push(SysToLcdMessage::AllowOneUpdate);
        proof {
            assert(final(self).gui_msgs@ =~= old(self).gui_msgs@ + seq![
                ToGuiMessage::CycleCount(old(self).cycle_count),
                ToGuiMessage::PortB(old(self).host.via_pb),
                ToGuiMessage::PortA(old(self).host.via_pa),
            ]);
            assert(final(self).lcd_msgs@ =~= old(self).lcd_msgs@ + seq![
                SysToLcdMessage::AllowOneUpdate,
            ]);
        }
    }

    /// Bookkeeping before one CPU instruction: refresh the frontend when
    /// enough cycles have passed since the last refresh (always while not
    /// running), and count the step.
    pub fn begin_step(&mut self)
        requires
            old(self).step_count < u64::MAX,
        ensures
            final(self).step_count == old(self).step_count + 1,
            ({
                let refresh = old(self).cycle_count > old(self).sent_cycle_count + old(
                    self,
                ).screen_update_period || old(self).state != RunState::Running;
                if refresh {
                    &&& *final(self) == (PhysSystem {
                        step_count: final(self).step_count,
                        sent_cycle_count: old(self).cycle_count,
                        gui_msgs: final(self).gui_msgs,
                        lcd_msgs: final(self).lcd_msgs,
                        ..*old(self)
                    })
                    &&& final(self).gui_msgs@ == old(self).gui_msgs@ + seq![
                        ToGuiMessage::CycleCount(old(self).cycle_count),
                        ToGuiMessage::PortB(old(self).host.via_pb),
                        ToGuiMessage::PortA(old(self).host.via_pa),
                    ]
                    &&& final(self).lcd_msgs@ == old(self).lcd_msgs@ + seq![
                        SysToLcdMessage::AllowOneUpdate,
                    ]
                } else {
                    *final(self) == (PhysSystem { step_count: final(self).step_count, ..*old(self) })
                }
            }),
    {
        let threshold: u64 = if self.screen_update_period > u64::MAX - self.sent_cycle_count {
            u64::MAX
        } else {
            self.sent_cycle_count + self.screen_update_period
        };
        if self.cycle_count > threshold || !matches!(self.state, RunState::Running) {
            self.sent_cycle_count = self.cycle_count;
            self.update_gui();
        }
        self.step_count = self.step_count + 1;
    }

    /// Note that the CPU has executed its stop instruction.
    pub fn cpu_stopped(&mut self)
        ensures
            *final(self) == (PhysSystem { state: RunState::Stopped, ..*old(self) }),
    {
        self.state = RunState::Stopped;
    }

    /// Queue the teardown messages: a last frontend refresh and `Stopped`
    /// (unless the frontend itself asked to exit), and the LCD worker's
    /// `Exit` when one is attached.
    pub fn shutdown(&mut self, notify_gui: bool)
        ensures
            *final(self) == (PhysSystem {
                gui_msgs: final(self).gui_msgs,
                lcd_msgs: final(self).lcd_msgs,
                ..*old(self)
            }),
            final(self).gui_msgs@ == old(self).gui_msgs@ + (if notify_gui {
                seq![
                    ToGuiMessage::CycleCount(old(self).cycle_count),
                    ToGuiMessage::PortB(old(self).host.via_pb),
                    ToGuiMessage::PortA(old(self).host.via_pa),
                    ToGuiMessage::Stopped,
                ]
            } else {
                Seq::empty()
            }),
            final(self).lcd_msgs@ == old(self).lcd_msgs@ + (if notify_gui {
                seq![SysToLcdMessage::AllowOneUpdate]
            } else {
                Seq::empty()
            }) + (if old(self).prgm_config.lcd_enabled {
                seq![SysToLcdMessage::Exit]
            } else {
                Seq::empty()
            }),
    {
        if notify_gui {
            self.update_gui();
            self.gui_msgs.push(ToGuiMessage::Stopped);
        }
        if self.prgm_config.lcd_enabled {
            self.lcd_msgs.push(SysToLcdMessage::Exit);
        }
        proof {
            assert(final(self).gui_msgs@ =~= old(self).gui_msgs@ + (if notify_gui {
                seq![
                    ToGuiMessage::CycleCount(old(self).cycle_count),
                    ToGuiMessage::PortB(old(self).host.via_pb),
                    ToGuiMessage::PortA(old(self).host.via_pa),
                    ToGuiMessage::Stopped,
                ]
            } else {
                Seq::empty()
            }));
            assert(final(self).lcd_msgs@ =~= old(self).lcd_msgs@ + (if notify_gui {
                seq![SysToLcdMessage::AllowOneUpdate]
            } else {
                Seq::empty()
            }) + (if old(self).prgm_config.lcd_enabled {
                seq![SysToLcdMessage::Exit]
            } else {
                Seq::empty()
            }));
        }
    }

    /// React to one frontend control message.
    ///
    /// `Run` and `Stop` move between `Idle` and `Running`; `Step` asks for
    /// one instruction and only from `Idle`; `ChangeWaitTime` retunes the
    /// run loop and the snapshot period; `ShowLog` and `Breakpoint` are
    /// stateless switches; `Exit` ends the system.
    pub fn handle_message(&mut self, msg: ToSysMessage) -> (o: ControlOutcome)
        ensures
            ({
                let pre = *old(self);
                let post = *final(self);
                match msg {
                    ToSysMessage::Run => {
                        &&& o == ControlOutcome::Continue
                        &&& if pre.state == RunState::Idle {
                            &&& post == (PhysSystem {
                                state: RunState::Running,
                                lcd_msgs: post.lcd_msgs,
                                ..pre
                            })
                            &&& post.lcd_msgs@ == pre.lcd_msgs@ + seq![
                                SysToLcdMessage::AllowOneUpdate,
                            ]
                        } else {
                            post == pre
                        }
                    },
                    ToSysMessage::Stop => {
                        &&& o == ControlOutcome::Continue
                        &&& if pre.state == RunState::Running {
                            &&& post == (PhysSystem {
                                state: RunState::Idle,
                                gui_msgs: post.gui_msgs,
                                lcd_msgs: post.lcd_msgs,
                                ..pre
                            })
                            &&& post.gui_msgs@ == pre.gui_msgs@ + seq![
                                ToGuiMessage::CycleCount(pre.cycle_count),
                                ToGuiMessage::PortB(pre.host.via_pb),
                                ToGuiMessage::PortA(pre.host.via_pa),
                            ]
                            &&& post.lcd_msgs@ == pre.lcd_msgs@ + seq![
                                SysToLcdMessage::AllowOneUpdate,
                                SysToLcdMessage::AllowAllUpdates,
                            ]
                        } else {
                            post == pre
                        }
                    },
                    ToSysMessage::Step => {
                        &&& post == pre
                        &&& o == (if pre.state == RunState::Idle {
                            ControlOutcome::StepOnce
                        } else {
                            ControlOutcome::Continue
                        })
                    },
                    ToSysMessage::ChangeWaitTime(t) => {
                        &&& o == ControlOutcome::Continue
                        &&& post == (PhysSystem {
                            step_wait_time: t,
                            screen_update_period: period_for(t),
                            lcd_msgs: post.lcd_msgs,
                            ..pre
                        })
                        &&& post.lcd_msgs@ == pre.lcd_msgs@ + seq![
                            if period_for(t) == 0 {
                                SysToLcdMessage::AllowAllUpdates
                            } else {
                                SysToLcdMessage::AllowOneUpdate
                            },
                        ]
                    },
                    ToSysMessage::ShowLog(b) => {
                        &&& o == ControlOutcome::Continue
                        &&& post == (PhysSystem { log_msgs: post.log_msgs, ..pre })
                        &&& post.log_msgs@ == pre.log_msgs@ + seq![LogMessage::ChangePrintLog(b)]
                    },
                    ToSysMessage::Breakpoint(b) => {
                        &&& o == ControlOutcome::Continue
                        &&& post == (PhysSystem { pa_as_breakpoint: b, ..pre })
                    },
                    ToSysMessage::Exit => {
                        &&& o == ControlOutcome::Exit
                        &&& post == (PhysSystem { state: RunState::Stopped, ..pre })
                    },
                }
            }),
    {
        match msg {
            ToSysMessage::Run => {
                if matches!(self.state, RunState::Idle) {
                    self.state = RunState::Running;
                    self.lcd_msgs.push(SysToLcdMessage::AllowOneUpdate);
                    proof {
                        assert(final(self).lcd_msgs@ =~= old(self).lcd_msgs@ + seq![
                            SysToLcdMessage::AllowOneUpdate,
                        ]);
                    }
                }
                ControlOutcome::Continue
            },
            ToSysMessage::Stop => {
                if matches!(self.state, RunState::Running) {
                    self.state = RunState::Idle;
                    self.update_gui();
                    self.lcd_msgs.push(SysToLcdMessage::AllowAllUpdates);
                    proof {
                        assert(final(self).lcd_msgs@ =~= old(self).lcd_msgs@ + seq![
                            SysToLcdMessage::AllowOneUpdate,
                            SysToLcdMessage::AllowAllUpdates,
                        ]);
                    }
                }
                ControlOutcome::Continue
            },
            ToSysMessage::Step => {
                if matches!(self.state, RunState::Idle) {
                    ControlOutcome::StepOnce
                } else {
                    ControlOutcome::Continue
                }
            },
            ToSysMessage::ChangeWaitTime(t) => {
                self.step_wait_time = t;
                self.screen_update_period = if t == 0 {
                    100_000
                } else if t <= 100 {
                    10_000
                } else if t <= 1_000 {
                    1_000
                } else if t <= 10_000 {
                    100
                } else {
                    0
                };
                if self.screen_update_period == 0 {
                    self.lcd_msgs.push(SysToLcdMessage::AllowAllUpdates);
                } else {
                    self.lcd_msgs.push(SysToLcdMessage::AllowOneUpdate);
                }
                proof {
                    assert(final(self).lcd_msgs@ =~= old(self).lcd_msgs@ + seq![
                        if period_for(t) == 0 {
                            SysToLcdMessage::AllowAllUpdates
                        } else {
                            SysToLcdMessage::AllowOneUpdate
                        },
                    ]);
                }
                ControlOutcome::Continue
            },
            ToSysMessage::ShowLog(b) => {
                self.log_msgs.push(LogMessage::ChangePrintLog(b));
                proof {
                    assert(final(self).log_msgs@ =~= old(self).log_msgs@ + seq![
                        LogMessage::ChangePrintLog(b),
                    ]);
                }
                ControlOutcome::Continue
            },
            ToSysMessage::Breakpoint(b) => {
                self.pa_as_breakpoint = b;
                ControlOutcome::Continue
            },
            ToSysMessage::Exit => {
                self.state = RunState::Stopped;
                ControlOutcome::Exit
            },
        }
    }
}

/// The stack page, exempt from garbage checking: programs set the stack
/// pointer without pre-populating the page.
pub open spec fn is_stack(addr: u16) -> bool {
    0x0100 <= addr <= 0x01ff
}

/// The RAM addresses under garbage checking.
pub open spec fn is_ram(addr: u16) -> bool {
    addr <= 0x00ff || (0x0200 <= addr <= 0x3fff)
}

/// The VIA register window.
pub open spec fn is_via(addr: u16) -> bool {
    0x6000 <= addr <= 0x600f
}

/// The ROM image.
pub open spec fn is_rom(addr: u16) -> bool {
    0x8000 <= addr
}

/// Addresses where writes land in memory: everything below the ROM.  The
/// physical system also latches writes under the VIA window and in the RAM
/// alias range.
pub open spec fn is_writable(addr: u16) -> bool {
    addr <= 0x7fff
}

/// The register select a VIA-window address maps to.
pub open spec fn bus_rs(addr: u16) -> u8 {
    (addr & 0x000f) as u8
}

/// The sequence holds a port A write.
pub open spec fn has_pa_event(s: Seq<PortEvent>) -> bool {
    exists|i: int| 0 <= i < s.len() && (s[i] is PortA)
}

/// `has_pa_event` distributes over concatenation.
proof fn lemma_has_pa_concat(a: Seq<PortEvent>, b: Seq<PortEvent>)
    ensures
        has_pa_event(a + b) == (has_pa_event(a) || has_pa_event(b)),
{
    if has_pa_event(a) {
        let i = choose|i: int| 0 <= i < a.len() && (a[i] is PortA);
        assert((a + b)[i] is PortA);
        assert(has_pa_event(a + b));
    }
    if has_pa_event(b) {
        let i = choose|i: int| 0 <= i < b.len() && (b[i] is PortA);
        assert((a + b)[a.len() + i] is PortA);
        assert(has_pa_event(a + b));
    }
    if has_pa_event(a + b) {
        let i = choose|i: int| 0 <= i < (a + b).len() && ((a + b)[i] is PortA);
        if i < a.len() {
            assert(a[i] is PortA);
        } else {
            assert(b[i - a.len()] is PortA);
        }
    }
}

/// The low nibble of an address names a VIA register.
proof fn lemma_low_nibble(addr: u16)
    by (bit_vector)
    ensures
        addr & 0x000f < 16,
{
}

impl PhysSystem {
    /// What one bus-cycle read does: the cycle counter advances, the VIA
    /// receives its clock pulse (`post.via.irb`/`ira` hold the pin levels it
    /// sampled), and the addressed region answers: the stack page without a
    /// garbage check, RAM and ROM through it, the VIA window through the
    /// ticked register file, and everything else as an unmapped read.
    pub open spec fn bus_read_rel(
        pre: PhysSystem,
        post: PhysSystem,
        addr: u16,
        r: Result<u8, EmuError>,
    ) -> bool {
        let s_b = post.via.irb;
        let s_a = post.via.ira;
        let vt = via_after_tick(pre.via, s_b, s_a);
        let rs = bus_rs(addr);
        let pb_t = if tick_drives_pb7(pre.via) {
            spec_set_bit(pre.host.via_pb, 7, bit(vt.orb, 7))
        } else {
            pre.host.via_pb
        };
        let irq_t = if tick_sets_irq(pre.via, s_b) {
            irq_level(vt.ifr, vt.ier)
        } else {
            pre.host.irq
        };
        let tick_evts: Seq<PortEvent> = if tick_drives_pb7(pre.via) {
            seq![PortEvent::PortB { bit: 7, level: bit(vt.orb, 7) }]
        } else {
            Seq::empty()
        };
        &&& post.cycle_count == pre.cycle_count + 1
        &&& post.mem@ == pre.mem@
        &&& post.prgm_config == pre.prgm_config
        &&& post.state == pre.state
        &&& post.step_wait_time == pre.step_wait_time
        &&& post.sent_cycle_count == pre.sent_cycle_count
        &&& post.screen_update_period == pre.screen_update_period
        &&& post.step_count == pre.step_count
        &&& post.pa_as_breakpoint == pre.pa_as_breakpoint
        &&& post.gui_msgs@ == pre.gui_msgs@
        &&& post.lcd_msgs@ == pre.lcd_msgs@
        &&& post.log_msgs@ == pre.log_msgs@
        &&& post.host.via_pb == pb_t
        &&& post.host.via_pa == pre.host.via_pa
        &&& post.host.cb2 == pre.host.cb2
        &&& post.host.pb_drive == pre.host.pb_drive
        &&& post.host.pa_drive == pre.host.pa_drive
        &&& post.host.port_events@ == pre.host.port_events@ + tick_evts
        &&& (pre.host.pb_drive matches Some(d) ==> s_b == d)
        &&& (pre.host.pa_drive matches Some(d) ==> s_a == d)
        &&& if is_via(addr) {
            &&& (r is Ok <==> reg_ok(rs))
            &&& (reg_ok(rs) ==> {
                &&& post.via == via_after_read(vt, rs)
                &&& r == Ok::<u8, EmuError>(read_value(vt, rs, post.host.pb_in, post.host.pa_in))
                &&& post.host.irq == (if read_touches_irq(rs) {
                    irq_level(post.via.ifr, post.via.ier)
                } else {
                    irq_t
                })
                &&& (!read_samples_pb(vt, rs) ==> post.host.pb_in == s_b)
                &&& (!read_samples_pa(vt, rs) ==> post.host.pa_in == s_a)
                &&& (read_samples_pb(vt, rs) ==> (pre.host.pb_drive matches Some(d)
                    ==> post.host.pb_in == d))
                &&& (read_samples_pa(vt, rs) ==> (pre.host.pa_drive matches Some(d)
                    ==> post.host.pa_in == d))
            })
            &&& (!reg_ok(rs) ==> post.via == vt && post.host.irq == irq_t && r == Err::<
                u8,
                EmuError,
            >(EmuError::Unimplemented) && post.host.pb_in == s_b && post.host.pa_in == s_a)
        } else {
            &&& post.via == vt
            &&& post.host.irq == irq_t
            &&& post.host.pb_in == s_b
            &&& post.host.pa_in == s_a
            &&& if is_stack(addr) {
                r == Ok::<u8, EmuError>(pre.mem@[addr as int].data)
            } else if is_ram(addr) || is_rom(addr) {
                if !pre.mem@[addr as int].is_garbage || pre.prgm_config.allow_garbage {
                    r == Ok::<u8, EmuError>(pre.mem@[addr as int].data)
                } else {
                    r == Err::<u8, EmuError>(EmuError::GarbageRead)
                }
            } else {
                if pre.prgm_config.allow_garbage {
                    r is Ok
                } else {
                    r == Err::<u8, EmuError>(EmuError::UnmappedAccess)
                }
            }
        }
    }

    /// Ask the bus for the byte at `addr`, as the CPU does once per read
    /// cycle.
    pub fn read(&mut self, addr: u16) -> (r: Result<u8, EmuError>)
        requires
            old(self).wf(),
            old(self).cycle_count < u64::MAX,
        ensures
            final(self).wf(),
            PhysSystem::bus_read_rel(*old(self), *final(self), addr, r),
    {
        proof {
            lemma_low_nibble(addr);
        }
        self.cycle_count = self.cycle_count + 1;
        let mut via = self.via;
        via.clock_pulse(&mut self.host);
        let value: Result<u8, EmuError> = if addr >= 0x0100 && addr <= 0x01ff {
            // Stack reads never trip the garbage check.
            Ok(self.mem[addr as usize].data)
        } else if addr <= 0x00ff || (addr >= 0x0200 && addr <= 0x3fff) {
            self.mem[addr as usize].read(self.prgm_config.allow_garbage)
        } else if addr >= 0x6000 && addr <= 0x600f {
            via.read(&mut self.host, (addr & 0x000f) as u8)
        } else if addr >= 0x8000 {
            self.mem[addr as usize].read(self.prgm_config.allow_garbage)
        } else {
            if self.prgm_config.allow_garbage {
                Ok(random_byte())
            } else {
                Err(EmuError::UnmappedAccess)
            }
        };
        self.via = via;
        value
    }

    /// What one bus-cycle write does: the cycle counter advances, the VIA
    /// receives its clock pulse, the write lands in memory everywhere below
    /// the ROM, the VIA window additionally dispatches into the ticked
    /// register file, and a write that drove a port A line while the
    /// breakpoint switch is on drops a running system back to idle with a
    /// refresh and a `Paused` snapshot.
    pub open spec fn bus_write_fields_rel(
        pre: PhysSystem,
        post: PhysSystem,
        addr: u16,
        value: u8,
        r: Result<(), EmuError>,
    ) -> bool {
        let s_b = post.via.irb;
        let s_a = post.via.ira;
        let vt = via_after_tick(pre.via, s_b, s_a);
        let rs = bus_rs(addr);
        let pb_t = if tick_drives_pb7(pre.via) {
            spec_set_bit(pre.host.via_pb, 7, bit(vt.orb, 7))
        } else {
            pre.host.via_pb
        };
        let irq_t = if tick_sets_irq(pre.via, s_b) {
            irq_level(vt.ifr, vt.ier)
        } else {
            pre.host.irq
        };
        let tick_evts: Seq<PortEvent> = if tick_drives_pb7(pre.via) {
            seq![PortEvent::PortB { bit: 7, level: bit(vt.orb, 7) }]
        } else {
            Seq::empty()
        };
        let via_ok = is_via(addr) && reg_ok(rs);
        let wr_evts: Seq<PortEvent> = if via_ok {
            events_after_write(vt, rs, value)
        } else {
            Seq::empty()
        };
        &&& post.cycle_count == pre.cycle_count + 1
        &&& post.prgm_config == pre.prgm_config
        &&& post.step_wait_time == pre.step_wait_time
        &&& post.sent_cycle_count == pre.sent_cycle_count
        &&& post.screen_update_period == pre.screen_update_period
        &&& post.step_count == pre.step_count
        &&& post.pa_as_breakpoint == pre.pa_as_breakpoint
        &&& post.log_msgs@ == pre.log_msgs@
        &&& post.mem@ == (if is_writable(addr) {
            pre.mem@.update(addr as int, Data { data: value, is_garbage: false })
        } else {
            pre.mem@
        })
        &&& post.via == (if via_ok {
            via_after_write(vt, rs, value)
        } else {
            vt
        })
        &&& (is_via(addr) ==> (r is Ok <==> reg_ok(rs)) && (!reg_ok(rs) ==> r == Err::<
            (),
            EmuError,
        >(EmuError::Unimplemented)))
        &&& (!is_via(addr) ==> r == Ok::<(), EmuError>(()))
        &&& post.host.via_pb == (if via_ok {
            pb_after_write(vt, pb_t, rs, value)
        } else {
            pb_t
        })
        &&& post.host.via_pa == (if via_ok {
            pa_after_write(vt, pre.host.via_pa, rs, value)
        } else {
            pre.host.via_pa
        })
        &&& post.host.cb2 == (if via_ok {
            cb2_after_write(pre.host.cb2, rs, value)
        } else {
            pre.host.cb2
        })
        &&& post.host.irq == (if via_ok && write_touches_irq(rs) {
            irq_level(post.via.ifr, post.via.ier)
        } else {
            irq_t
        })
        &&& post.host.pb_in == s_b
        &&& post.host.pa_in == s_a
        &&& post.host.pb_drive == pre.host.pb_drive
        &&& post.host.pa_drive == pre.host.pa_drive
        &&& post.host.port_events@ == pre.host.port_events@ + tick_evts + wr_evts
        &&& (pre.host.pb_drive matches Some(d) ==> s_b == d)
        &&& (pre.host.pa_drive matches Some(d) ==> s_a == d)
    }

    /// Whether this write drove a port A line and the breakpoint switch
    /// catches it: the running system must drop back to idle.
    pub open spec fn bus_write_trips(pre: PhysSystem, post: PhysSystem, addr: u16, value: u8) -> bool {
        let vt = via_after_tick(pre.via, post.via.irb, post.via.ira);
        let rs = bus_rs(addr);
        let via_ok = is_via(addr) && reg_ok(rs);
        &&& pre.pa_as_breakpoint
        &&& pre.state == RunState::Running
        &&& via_ok && has_pa_event(events_after_write(vt, rs, value))
    }

    /// What one bus-cycle write does, breakpoint reaction included.
    pub open spec fn bus_write_rel(
        pre: PhysSystem,
        post: PhysSystem,
        addr: u16,
        value: u8,
        r: Result<(), EmuError>,
    ) -> bool {
        let trip = PhysSystem::bus_write_trips(pre, post, addr, value);
        &&& PhysSystem::bus_write_fields_rel(pre, post, addr, value, r)
        &&& post.state == (if trip {
            RunState::Idle
        } else {
            pre.state
        })
        &&& post.gui_msgs@ == pre.gui_msgs@ + (if trip {
            seq![
                ToGuiMessage::CycleCount(post.cycle_count),
                ToGuiMessage::PortB(post.host.via_pb),
                ToGuiMessage::PortA(post.host.via_pa),
                ToGuiMessage::Paused,
            ]
        } else {
            Seq::empty()
        })
        &&& post.lcd_msgs@ == pre.lcd_msgs@ + (if trip {
            seq![SysToLcdMessage::AllowOneUpdate]
        } else {
            Seq::empty()
        })
    }

    /// The dispatch half of a bus-cycle write: everything
    /// [`PhysSystem::bus_write_rel`] says except the breakpoint reaction,
    /// which leaves `state` and the outbound queues alone.
    pub open spec fn bus_write_core_rel(
        pre: PhysSystem,
        post: PhysSystem,
        addr: u16,
        value: u8,
        r: Result<(), EmuError>,
    ) -> bool {
        &&& post.state == pre.state
        &&& post.gui_msgs@ == pre.gui_msgs@
        &&& post.lcd_msgs@ == pre.lcd_msgs@
        &&& PhysSystem::bus_write_fields_rel(pre, post, addr, value, r)
    }

    /// Send `value` to the bus at `addr`, as the CPU does once per write
    /// cycle.
    #[verifier::rlimit(100)]
    fn write_core(&mut self, addr: u16, value: u8) -> (r: Result<(), EmuError>)
        requires
            old(self).wf(),
            old(self).cycle_count < u64::MAX,
        ensures
            final(self).wf(),
            PhysSystem::bus_write_core_rel(*old(self), *final(self), addr, value, r),
    {
        proof {
            lemma_low_nibble(addr);
        }
        self.cycle_count = self.cycle_count + 1;
        let mut via = self.via;
        via.clock_pulse(&mut self.host);
        let result: Result<(), EmuError> = if addr >= 0x6000 && addr <= 0x600f {
            self.mem[addr as usize] = Data { data: value, is_garbage: false };
            via.write(&mut self.host, (addr & 0x000f) as u8, value)
        } else if addr <= 0x7fff {
            // Writes to the RAM aliases and the unmapped window still land,
            // as they do on the physical system; ROM writes are discarded.
            self.mem[addr as usize] = Data { data: value, is_garbage: false };
            Ok(())
        } else {
            Ok(())
        };
        self.via = via;
        result
    }

    /// Send `value` to the bus at `addr`, as the CPU does once per write
    /// cycle.
    #[verifier::rlimit(100)]
    pub fn write(&mut self, addr: u16, value: u8) -> (r: Result<(), EmuError>)
        requires
            old(self).wf(),
            old(self).cycle_count < u64::MAX,
        ensures
            final(self).wf(),
            PhysSystem::bus_write_rel(*old(self), *final(self), addr, value, r),
    {
        let n0 = self.host.port_events.len();
        let result = self.write_core(addr, value);

        let mut saw_pa = false;
        let mut i: usize = n0;
        while i < self.host.port_events.len()
            invariant
                n0 <= i <= self.host.port_events.len(),
                saw_pa == has_pa_event(self.host.port_events@.subrange(n0 as int, i as int)),
            decreases self.host.port_events.len() - i,
        {
            let ghost before = self.host.port_events@.subrange(n0 as int, i as int);
            let ghost ev = self.host.port_events@[i as int];
            if matches!(self.host.port_events[i], PortEvent::PortA { .. }) {
                saw_pa = true;
                proof {
                    assert(seq![ev][0] is PortA);
                    assert(has_pa_event(seq![ev]));
                }
            } else {
                proof {
                    assert(forall|k: int| 0 <= k < 1 ==> !(#[trigger] seq![ev][k] is PortA));
                    assert(!has_pa_event(seq![ev]));
                }
            }
            proof {
                lemma_has_pa_concat(before, seq![ev]);
                assert(self.host.port_events@.subrange(n0 as int, (i + 1) as int) =~= before
                    + seq![ev]);
            }
            i = i + 1;
        }

        proof {
            let s_b = self.via.irb;
            let s_a = self.via.ira;
            let vt = via_after_tick(old(self).via, s_b, s_a);
            let rs = bus_rs(addr);
            let tick_evts: Seq<PortEvent> = if tick_drives_pb7(old(self).via) {
                seq![PortEvent::PortB { bit: 7, level: bit(vt.orb, 7) }]
            } else {
                Seq::empty()
            };
            let via_ok = is_via(addr) && reg_ok(rs);
            let wr_evts: Seq<PortEvent> = if via_ok {
                events_after_write(vt, rs, value)
            } else {
                Seq::empty()
            };
            assert(self.host.port_events@.subrange(n0 as int, self.host.port_events@.len() as int)
                =~= tick_evts + wr_evts);
            lemma_has_pa_concat(tick_evts, wr_evts);
            assert(forall|k: int| 0 <= k < tick_evts.len() ==> !(#[trigger] tick_evts[k] is PortA));
            assert(saw_pa == has_pa_event(wr_evts));
        }

        if saw_pa && self.pa_as_breakpoint && matches!(self.state, RunState::Running) {
            self.state = RunState::Idle;
            self.update_gui();
            self.gui_msgs.push(ToGuiMessage::Paused);
            proof {
                assert(final(self).gui_msgs@ =~= old(self).gui_msgs@ + seq![
                    ToGuiMessage::CycleCount(final(self).cycle_count),
                    ToGuiMessage::PortB(final(self).host.via_pb),
                    ToGuiMessage::PortA(final(self).host.via_pa),
                    ToGuiMessage::Paused,
                ]);
                assert(final(self).lcd_msgs@ =~= old(self).lcd_msgs@ + seq![
                    SysToLcdMessage::AllowOneUpdate,
                ]);
            }
        } else {
            proof {
                assert(final(self).gui_msgs@ =~= old(self).gui_msgs@ + Seq::<
                    ToGuiMessage,
                >::empty());
                assert(final(self).lcd_msgs@ =~= old(self).lcd_msgs@ + Seq::<
                    SysToLcdMessage,
                >::empty());
            }
        }
        result
    }
}

impl Default for PhysSystem {
    /// A bench system with nothing loaded: every cell holds 0xFF and is
    /// still garbage, no LCD is attached, garbage checking is strict, and
    /// the orchestrator idles.
    fn default() -> (s: Self)
        ensures
            s.wf(),
            forall|i: int|
                0 <= i < 0x10000 ==> s.mem@[i] == (Data { data: 0xffu8, is_garbage: true }),
            s.prgm_config == (Config { lcd_enabled: false, allow_garbage: false }),
            s.via.ddrb == 0 && s.via.ddra == 0 && s.via.orb == 0 && s.via.ora == 0,
            s.via.acr == 0 && s.via.ifr == 0 && s.via.ier == 0,
            !s.via.t1_is_running && !s.via.t2_trigger_interrupt,
            s.host.pb_drive is None && s.host.pa_drive is None && !s.host.irq,
            s.host.port_events@ == Seq::<PortEvent>::empty(),
            s.state == RunState::Idle,
            s.step_wait_time == 50_000 && s.screen_update_period == 0,
            s.cycle_count == 0 && s.sent_cycle_count == 0 && s.step_count == 0,
            s.pa_as_breakpoint,
            s.gui_msgs@ == Seq::<ToGuiMessage>::empty(),
            s.lcd_msgs@ == Seq::<SysToLcdMessage>::empty(),
            s.log_msgs@ == Seq::<LogMessage>::empty(),
    {
        PhysSystem {
            prgm_config: Config { lcd_enabled: false, allow_garbage: false },
            mem: PhysSystem::fill_garbage_mem(),
            via: W65C22S::new(),
            host: SystemHost::new(),
            step_wait_time: 50_000,
            cycle_count: 0,
            sent_cycle_count: 0,
            screen_update_period: 0,
            step_count: 0,
            state: RunState::Idle,
            pa_as_breakpoint: true,
            gui_msgs: Vec::new(),
            lcd_msgs: Vec::new(),
            log_msgs: Vec::new(),
        }
    }
}

/// Where a driven port B bit goes on its way to the LCD: PB0..PB3 are the
/// data wires D4..D7, PB5 is enable, PB6 is read/write, PB7 is register
/// select, and PB4 is not connected.
pub fn port_b_event_to_lcd(bit: u8, level: bool) -> (m: Option<SysToLcdMessage>)
    requires
        bit < 8,
    ensures
        m == (if bit <= 3 {
            Some(SysToLcdMessage::DataPinChange((bit + 4) as u8, level))
        } else if bit == 5 {
            Some(SysToLcdMessage::EnablePinChange(level))
        } else if bit == 6 {
            Some(SysToLcdMessage::ReadWritePinChange(level))
        } else if bit == 7 {
            Some(SysToLcdMessage::RegisterPinChange(level))
        } else {
            None::<SysToLcdMessage>
        }),
{
    if bit <= 3 {
        Some(SysToLcdMessage::DataPinChange(bit + 4, level))
    } else if bit == 5 {
        Some(SysToLcdMessage::EnablePinChange(level))
    } else if bit == 6 {
        Some(SysToLcdMessage::ReadWritePinChange(level))
    } else if bit == 7 {
        Some(SysToLcdMessage::RegisterPinChange(level))
    } else {
        None
    }
}

} // verus!
