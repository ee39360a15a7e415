//! Register-level model of the WDC 65C22 Versatile Interface Adapter: two
//! I/O ports with data-direction registers, two timers, and interrupt logic.
//!
//! The VIA never touches global state.  Its host hands it a capability set
//! (the [`ViaSystem`] trait) through which it reads port pins, drives single
//! output bits, and raises the IRQ line.

use vstd::prelude::*;

use crate::bits::{bit, get_bit, lemma_bits_eq, lemma_merge_bits, lemma_set_bit, set_bit,
    spec_set_bit};
use crate::errors::EmuError;
use crate::rng::random_byte;

verus! {

pub const PORTB: u8 = 0x0;

pub const PORTA: u8 = 0x1;

pub const DDRB: u8 = 0x2;

pub const DDRA: u8 = 0x3;

pub const T1C_L: u8 = 0x4;

pub const T1C_H: u8 = 0x5;

pub const T1L_L: u8 = 0x6;

pub const T1L_H: u8 = 0x7;

pub const T2C_L: u8 = 0x8;

pub const T2C_H: u8 = 0x9;

pub const ACR: u8 = 0xb;

pub const PCR: u8 = 0xc;

pub const IFR: u8 = 0xd;

pub const IER: u8 = 0xe;

/// One bit-level action of the VIA on its surroundings, in the order it was
/// performed.
#[derive(Clone, Copy, Debug, PartialEq, Eq, Structural)]
pub enum PortEvent {
    PortB { bit: u8, level: bool },
    PortA { bit: u8, level: bool },
    Cb2 { level: bool },
}

/// The observable pin state of a VIA host: the electrical levels the VIA
/// drives (`pb`, `pa`, `cb2`), the levels it last sampled (`pb_in`,
/// `pa_in`), an optional external circuit driving the input pins (`pb_ext`,
/// `pa_ext`; `None` means the pins float), and the logical IRQ line.
pub struct HostPorts {
    pub pb: u8,
    pub pa: u8,
    pub pb_in: u8,
    pub pa_in: u8,
    pub pb_ext: Option<u8>,
    pub pa_ext: Option<u8>,
    pub irq: bool,
    pub cb2: bool,
}

/// The capability set a host offers the VIA.  Port writes are bit-granular:
/// the VIA emits one `write_port_b`/`write_port_a` call per driven bit, which
/// the host records in an ordered event log.
pub trait ViaSystem: Sized {
    /// The host's pin state as the VIA may observe or change it.
    spec fn ports(&self) -> HostPorts;

    /// Every bit-level port and CB2 write the host has received, oldest
    /// first.
    spec fn events(&self) -> Seq<PortEvent>;

    /// Sample the electrical levels of the port B pins.  A floating pin may
    /// read as anything; a pin driven by an external circuit reads as driven.
    fn read_port_b(&mut self) -> (r: u8)
        ensures
            final(self).ports() == (HostPorts { pb_in: r, ..old(self).ports() }),
            old(self).ports().pb_ext matches Some(d) ==> r == d,
            final(self).events() == old(self).events(),
    ;

    /// Sample the electrical levels of the port A pins.
    fn read_port_a(&mut self) -> (r: u8)
        ensures
            final(self).ports() == (HostPorts { pa_in: r, ..old(self).ports() }),
            old(self).ports().pa_ext matches Some(d) ==> r == d,
            final(self).events() == old(self).events(),
    ;

    /// Drive output bit `bit` of port B to `level`.
    fn write_port_b(&mut self, bit: u8, level: bool)
        requires
            bit < 8,
        ensures
            final(self).ports() == (HostPorts {
                pb: spec_set_bit(old(self).ports().pb, bit, level),
                ..old(self).ports()
            }),
            final(self).events() == old(self).events().push(PortEvent::PortB { bit, level }),
    ;

    /// Drive output bit `bit` of port A to `level`.
    fn write_port_a(&mut self, bit: u8, level: bool)
        requires
            bit < 8,
        ensures
            final(self).ports() == (HostPorts {
                pa: spec_set_bit(old(self).ports().pa, bit, level),
                ..old(self).ports()
            }),
            final(self).events() == old(self).events().push(PortEvent::PortA { bit, level }),
    ;

    /// Drive the CB2 pin to `level`.
    fn write_cb2(&mut self, level: bool)
        ensures
            final(self).ports() == (HostPorts { cb2: level, ..old(self).ports() }),
            final(self).events() == old(self).events().push(PortEvent::Cb2 { level }),
    ;

    /// Receive the logical level of the IRQ line: `true` means an enabled
    /// interrupt is pending.
    fn update_irq(&mut self, irq: bool)
        ensures
            final(self).ports() == (HostPorts { irq, ..old(self).ports() }),
            final(self).events() == old(self).events(),
    ;
}

/// The 65C22 register file.  Fields are the raw registers; `t1_l` and `t2_c`
/// are full 16-bit values, `t2_l` only the low-order latch byte.
#[derive(Clone, Copy)]
pub struct W65C22S {
    pub ddra: u8,
    pub ddrb: u8,
    pub ora: u8,
    pub orb: u8,
    pub ira: u8,
    pub irb: u8,
    pub cb1: bool,
    pub cb2: bool,
    pub ca1: bool,
    pub ca2: bool,
    pub t1_l: u16,
    pub t1_c: u16,
    pub t1_is_running: bool,
    pub t2_l: u8,
    pub t2_c: u16,
    pub t2_trigger_interrupt: bool,
    pub acr: u8,
    pub pcr: u8,
    pub ifr: u8,
    pub ier: u8,
}

/// The low-order byte of a 16-bit value.
pub open spec fn low8(x: u16) -> u8 {
    (x & 0xff) as u8
}

/// The high-order byte of a 16-bit value.
pub open spec fn high8(x: u16) -> u8 {
    ((x & 0xff00) >> 8) as u8
}

/// The 16-bit value with high byte `hi` and low byte `lo`.
pub open spec fn mk16(hi: u8, lo: u8) -> u16 {
    ((hi as u16) << 8) | (lo as u16)
}

/// The logical IRQ level: some status flag among IFR[6:0] is set while its
/// IER[6:0] enable bit is set too.
pub open spec fn irq_level(ifr: u8, ier: u8) -> bool {
    (ifr & 0x7f) & (ier & 0x7f) != 0
}

/// `ifr` with bit 7 recomputed from IFR[6:0] & IER[6:0].
pub open spec fn with_flag7(ifr: u8, ier: u8) -> u8 {
    if irq_level(ifr, ier) {
        (ifr & 0x7f) | 0x80
    } else {
        ifr & 0x7f
    }
}

/// `ifr` with status flag `flag` (if any) driven to `level`.
pub open spec fn apply_flag(ifr: u8, flag: Option<u8>, level: bool) -> u8 {
    match flag {
        Some(f) => spec_set_bit(ifr, f, level),
        None => ifr,
    }
}

/// A register select the VIA answers: `0..=15`, except the shift register
/// and the no-handshake port A mirror, which this emulation leaves out.
pub open spec fn reg_ok(rs: u8) -> bool {
    rs <= 15 && rs != 0xa && rs != 0xf
}

/// The register file after a write of `data` to register `rs`.
pub open spec fn via_after_write(v: W65C22S, rs: u8, data: u8) -> W65C22S {
    if rs == PORTB {
        W65C22S { orb: data, ..v }
    } else if rs == PORTA {
        W65C22S { ora: data, ..v }
    } else if rs == DDRB {
        W65C22S { ddrb: data, ..v }
    } else if rs == DDRA {
        W65C22S { ddra: data, ..v }
    } else if rs == T1C_H {
        // Both latch halves move into the counter and the countdown starts.
        let l = mk16(data, low8(v.t1_l));
        W65C22S {
            t1_l: l,
            t1_c: l,
            t1_is_running: true,
            ifr: with_flag7(spec_set_bit(v.ifr, 6, false), v.ier),
            ..v
        }
    } else if rs == T1C_L || rs == T1L_L {
        W65C22S { t1_l: mk16(high8(v.t1_l), data), ..v }
    } else if rs == T1L_H {
        W65C22S {
            t1_l: mk16(data, low8(v.t1_l)),
            ifr: with_flag7(spec_set_bit(v.ifr, 6, false), v.ier),
            ..v
        }
    } else if rs == T2C_L {
        W65C22S { t2_l: data, ..v }
    } else if rs == T2C_H {
        W65C22S {
            t2_c: mk16(data, v.t2_l),
            t2_trigger_interrupt: true,
            ifr: with_flag7(spec_set_bit(v.ifr, 5, false), v.ier),
            ..v
        }
    } else if rs == ACR {
        W65C22S { acr: data, ..v }
    } else if rs == PCR {
        W65C22S { pcr: data, ..v }
    } else if rs == IFR {
        // A written 1 clears the matching status flag; bit 7 is derived.
        W65C22S { ifr: with_flag7(v.ifr & !data, v.ier), ..v }
    } else if rs == IER {
        // Bit 7 of the write selects set (1) or clear (0) of the named bits.
        let ier2 = if bit(data, 7) {
            v.ier | (data & 0x7f)
        } else {
            v.ier & !(data & 0x7f)
        };
        W65C22S { ier: ier2, ifr: with_flag7(v.ifr, ier2), ..v }
    } else {
        v
    }
}

/// The port B pin levels after a write: a PORTB write drives every output
/// bit from the written value, a DDRB write re-drives each bit that turned
/// from input to output from ORB.
pub open spec fn pb_after_write(v: W65C22S, pb0: u8, rs: u8, data: u8) -> u8 {
    if rs == PORTB {
        (data & v.ddrb) | (pb0 & !v.ddrb)
    } else if rs == DDRB {
        (v.orb & (data & !v.ddrb)) | (pb0 & !(data & !v.ddrb))
    } else {
        pb0
    }
}

/// The port A pin levels after a write, as for port B.
pub open spec fn pa_after_write(v: W65C22S, pa0: u8, rs: u8, data: u8) -> u8 {
    if rs == PORTA {
        (data & v.ddra) | (pa0 & !v.ddra)
    } else if rs == DDRA {
        (v.ora & (data & !v.ddra)) | (pa0 & !(data & !v.ddra))
    } else {
        pa0
    }
}

/// The CB2 level after a write: a PCR write with bit 7 high puts CB2 in
/// output mode, low exactly when PCR[7:5] reads 110.
pub open spec fn cb2_after_write(cb0: bool, rs: u8, data: u8) -> bool {
    if rs == PCR && bit(data, 7) {
        !(data >> 5 == 6)
    } else {
        cb0
    }
}

/// Whether a write to `rs` makes the VIA recompute and report the IRQ line.
pub open spec fn write_touches_irq(rs: u8) -> bool {
    rs == T1C_H || rs == T1L_H || rs == T2C_H || rs == IFR || rs == IER
}

/// The host writes emitted by a write of `data` to register `rs`.
pub open spec fn events_after_write(v: W65C22S, rs: u8, data: u8) -> Seq<PortEvent> {
    if rs == PORTB {
        drive_events(false, data, v.ddrb, 8)
    } else if rs == PORTA {
        drive_events(true, data, v.ddra, 8)
    } else if rs == DDRB {
        drive_events(false, v.orb, data & !v.ddrb, 8)
    } else if rs == DDRA {
        drive_events(true, v.ora, data & !v.ddra, 8)
    } else if rs == PCR && bit(data, 7) {
        seq![PortEvent::Cb2 { level: !(data >> 5 == 6) }]
    } else {
        Seq::empty()
    }
}

/// The register file after a read of register `rs`: reading the low counter
/// bytes acknowledges the matching timer interrupt.
pub open spec fn via_after_read(v: W65C22S, rs: u8) -> W65C22S {
    if rs == T1C_L {
        W65C22S { ifr: with_flag7(spec_set_bit(v.ifr, 6, false), v.ier), ..v }
    } else if rs == T2C_L {
        W65C22S { ifr: with_flag7(spec_set_bit(v.ifr, 5, false), v.ier), ..v }
    } else {
        v
    }
}

/// Whether a read of `rs` freshly samples the port B pins (input latching
/// off).
pub open spec fn read_samples_pb(v: W65C22S, rs: u8) -> bool {
    rs == PORTB && !bit(v.acr, 1)
}

/// Whether a read of `rs` freshly samples the port A pins.
pub open spec fn read_samples_pa(v: W65C22S, rs: u8) -> bool {
    rs == PORTA && !bit(v.acr, 0)
}

/// Whether a read of `rs` makes the VIA recompute and report the IRQ line.
pub open spec fn read_touches_irq(rs: u8) -> bool {
    rs == T1C_L || rs == T2C_L
}

/// The byte a read of register `rs` hands the CPU.  `pbs` and `pas` are the
/// pin levels sampled during the read, used when input latching is off.
pub open spec fn read_value(v: W65C22S, rs: u8, pbs: u8, pas: u8) -> u8 {
    if rs == PORTB {
        if !bit(v.acr, 1) {
            (v.orb & v.ddrb) | (pbs & !v.ddrb)
        } else {
            (v.orb & v.ddrb) | (v.irb & !v.ddrb)
        }
    } else if rs == PORTA {
        if !bit(v.acr, 0) {
            pas
        } else {
            v.ira
        }
    } else if rs == DDRB {
        v.ddrb
    } else if rs == DDRA {
        v.ddra
    } else if rs == T1C_L {
        low8(v.t1_c)
    } else if rs == T1C_H {
        high8(v.t1_c)
    } else if rs == T1L_L {
        low8(v.t1_l)
    } else if rs == T1L_H {
        high8(v.t1_l)
    } else if rs == T2C_L {
        low8(v.t2_c)
    } else if rs == T2C_H {
        high8(v.t2_c)
    } else if rs == ACR {
        v.acr
    } else if rs == PCR {
        v.pcr
    } else if rs == IFR {
        v.ifr
    } else if rs == IER {
        v.ier | 0x80
    } else {
        0
    }
}

/// T1 is about to fire: it is running and its counter has reached zero.
pub open spec fn t1_fires(v: W65C22S) -> bool {
    v.t1_is_running && v.t1_c == 0
}

/// One clock pulse of timer T1.  A running timer counts down; on the pulse
/// after it reaches zero it raises IFR6, reloads from the latch in free-run
/// mode (ACR bit 6) or stops, and in PB7-output mode (ACR bit 7) inverts
/// ORB bit 7.
pub open spec fn tick_t1(v: W65C22S) -> W65C22S {
    if v.t1_is_running {
        if v.t1_c == 0 {
            W65C22S {
                ifr: with_flag7(spec_set_bit(v.ifr, 6, true), v.ier),
                t1_c: if bit(v.acr, 6) {
                    v.t1_l
                } else {
                    v.t1_c
                },
                t1_is_running: bit(v.acr, 6),
                orb: if bit(v.acr, 7) {
                    v.orb ^ 0x80
                } else {
                    v.orb
                },
                ..v
            }
        } else {
            W65C22S { t1_c: (v.t1_c - 1) as u16, ..v }
        }
    } else {
        v
    }
}

/// A 16-bit counter one step down, wrapping through 0xFFFF.
pub open spec fn wrap_dec(x: u16) -> u16 {
    if x == 0 {
        0xffff
    } else {
        (x - 1) as u16
    }
}

/// T2 counts this pulse: always in timed mode (ACR bit 5 low), only while
/// the freshly latched PB6 level is low in pulse-count mode.
pub open spec fn t2_counts(v: W65C22S) -> bool {
    !bit(v.acr, 5) || !bit(v.irb, 6)
}

/// T2 fires this pulse: it counts, crosses zero, and is still armed.
pub open spec fn t2_fires(v: W65C22S) -> bool {
    t2_counts(v) && v.t2_c == 0 && v.t2_trigger_interrupt
}

/// One clock pulse of timer T2: a wrapping decrement, raising IFR5 and
/// disarming once per arming when the counter crosses zero.
pub open spec fn tick_t2(v: W65C22S) -> W65C22S {
    if t2_counts(v) {
        if v.t2_c == 0 && v.t2_trigger_interrupt {
            W65C22S {
                t2_c: 0xffff,
                t2_trigger_interrupt: false,
                ifr: with_flag7(spec_set_bit(v.ifr, 5, true), v.ier),
                ..v
            }
        } else {
            W65C22S { t2_c: wrap_dec(v.t2_c), ..v }
        }
    } else {
        v
    }
}

/// The register file after one clock pulse: the input latches take the
/// sampled pin levels `pbs` and `pas`, then T1 and T2 advance.
pub open spec fn via_after_tick(v: W65C22S, pbs: u8, pas: u8) -> W65C22S {
    tick_t2(tick_t1(W65C22S { irb: pbs, ira: pas, ..v }))
}

/// Whether this pulse makes T1 toggle the PB7 output.
pub open spec fn tick_drives_pb7(v: W65C22S) -> bool {
    t1_fires(v) && bit(v.acr, 7)
}

/// Whether this pulse makes the VIA recompute and report the IRQ line.
pub open spec fn tick_sets_irq(v: W65C22S, pbs: u8) -> bool {
    t1_fires(v) || t2_fires(tick_t1(W65C22S { irb: pbs, ira: v.ira, ..v }))
}

/// The bit-level write calls emitted when bits `0..n` of a port are driven:
/// for every bit `i < n` with `mask` high, one event carrying bit `i` of
/// `src`, in ascending bit order.  `on_a` selects port A over port B.
pub open spec fn drive_events(on_a: bool, src: u8, mask: u8, n: nat) -> Seq<PortEvent>
    decreases n,
{
    if n == 0 {
        Seq::empty()
    } else {
        let i = (n - 1) as u8;
        drive_events(on_a, src, mask, (n - 1) as nat) + (if bit(mask, i) {
            seq![
                if on_a {
                    PortEvent::PortA { bit: i, level: bit(src, i) }
                } else {
                    PortEvent::PortB { bit: i, level: bit(src, i) }
                },
            ]
        } else {
            Seq::empty()
        })
    }
}

impl W65C22S {
    /// A VIA in its power-on state.  The input latches and both counters
    /// hold noise; everything else matches values observed on hardware.
    pub fn new() -> (v: W65C22S)
        ensures
            v.ddra == 0 && v.ddrb == 0 && v.ora == 0 && v.orb == 0,
            !v.cb1 && !v.cb2 && !v.ca1 && !v.ca2,
            v.t1_l == 0xbaaa && !v.t1_is_running,
            v.t2_l == 0 && !v.t2_trigger_interrupt,
            v.acr == 0 && v.pcr == 0 && v.ifr == 0 && v.ier == 0,
    {
        W65C22S {
            ddra: 0x00,
            ddrb: 0x00,
            ora: 0x00,
            orb: 0x00,
            ira: random_byte(),
            irb: random_byte(),
            cb2: false,
            cb1: false,
            ca1: false,
            ca2: false,
            t1_l: 0xbaaa,
            t1_c: random_u16(),
            t1_is_running: false,
            t2_l: 0x00,
            t2_c: random_u16(),
            t2_trigger_interrupt: false,
            acr: 0x00,
            pcr: 0x00,
            ifr: 0x00,
            ier: 0x00,
        }
    }

    /// Update the IRQ line, after driving status flag `flag` (when given) to
    /// `logic_level`: IFR bit 7 is recomputed from IFR[6:0] & IER[6:0] and
    /// the host is told the new level.
    pub fn change_interrupt_flag<S: ViaSystem>(
        &mut self,
        via_system: &mut S,
        flag: Option<u8>,
        logic_level: bool,
    )
        requires
            old(self).flag_ok(flag),
        ensures
            *final(self) == (W65C22S {
                ifr: with_flag7(apply_flag(old(self).ifr, flag, logic_level), old(self).ier),
                ..*old(self)
            }),
            final(via_system).ports() == (HostPorts {
                irq: irq_level(final(self).ifr, final(self).ier),
                ..old(via_system).ports()
            }),
            final(via_system).events() == old(via_system).events(),
    {
        match flag {
            Some(f) => {
                self.ifr = set_bit(self.ifr, f, logic_level);
            },
            None => {},
        }
        let active = (self.ifr & 0x7f) & (self.ier & 0x7f) != 0;
        via_system.update_irq(active);
        self.ifr = if active {
            (self.ifr & 0x7f) | 0x80
        } else {
            self.ifr & 0x7f
        };
        proof {
            lemma_irq_masked(apply_flag(old(self).ifr, flag, logic_level), self.ier);
        }
    }

    /// A status flag index names one of IFR[6:0].
    pub open spec fn flag_ok(&self, flag: Option<u8>) -> bool {
        match flag {
            Some(f) => f < 7,
            None => true,
        }
    }

    /// One PHI2 clock pulse, to deliver before any same-cycle read or write:
    /// the input latches resample the pins, then both timers advance.
    #[verifier::rlimit(100)]
    pub fn clock_pulse<S: ViaSystem>(&mut self, via_system: &mut S)
        ensures
            *final(self) == via_after_tick(
                *old(self),
                final(via_system).ports().pb_in,
                final(via_system).ports().pa_in,
            ),
            final(via_system).ports() == (HostPorts {
                pb_in: final(via_system).ports().pb_in,
                pa_in: final(via_system).ports().pa_in,
                pb: if tick_drives_pb7(*old(self)) {
                    spec_set_bit(old(via_system).ports().pb, 7, bit(final(self).orb, 7))
                } else {
                    old(via_system).ports().pb
                },
                irq: if tick_sets_irq(*old(self), final(via_system).ports().pb_in) {
                    irq_level(final(self).ifr, final(self).ier)
                } else {
                    old(via_system).ports().irq
                },
                ..old(via_system).ports()
            }),
            old(via_system).ports().pb_ext matches Some(d) ==> final(via_system).ports().pb_in
                == d,
            old(via_system).ports().pa_ext matches Some(d) ==> final(via_system).ports().pa_in
                == d,
            final(via_system).events() == old(via_system).events() + (if tick_drives_pb7(
                *old(self),
            ) {
                seq![PortEvent::PortB { bit: 7, level: bit(final(self).orb, 7) }]
            } else {
                Seq::empty()
            }),
    {
        self.irb = via_system.read_port_b();
        self.ira = via_system.read_port_a();

        if self.t1_is_running {
            if self.t1_c == 0 {
                self.change_interrupt_flag(via_system, Some(6), true);
                if get_bit(self.acr, 6) {
                    self.t1_c = self.t1_l;
                } else {
                    self.t1_is_running = false;
                }
                if get_bit(self.acr, 7) {
                    self.orb = self.orb ^ 0x80;
                    via_system.write_port_b(7, get_bit(self.orb, 7));
                }
            } else {
                self.t1_c = self.t1_c - 1;
            }
        }

        if !get_bit(self.acr, 5) || !get_bit(self.irb, 6) {
            let c2: u16 = if self.t2_c == 0 {
                0xffff
            } else {
                self.t2_c - 1
            };
            self.t2_c = c2;
            if c2 == 0xffff && self.t2_trigger_interrupt {
                self.change_interrupt_flag(via_system, Some(5), true);
                self.t2_trigger_interrupt = false;
            }
        }
        proof {
            assert(final(via_system).events() =~= old(via_system).events() + (if tick_drives_pb7(
                *old(self),
            ) {
                seq![PortEvent::PortB { bit: 7, level: bit(final(self).orb, 7) }]
            } else {
                Seq::empty()
            }));
        }
    }

    /// Hand the CPU the byte at register `register_select`.
    ///
    /// Any select above 15 is `InvalidRegister`; the two registers this
    /// emulation leaves out answer `Unimplemented`.  Reading T1C_L clears
    /// IFR6, reading T2C_L clears IFR5, and a port read with input latching
    /// off samples the pins through the host.
    pub fn read<S: ViaSystem>(&mut self, via_system: &mut S, register_select: u8) -> (r: Result<
        u8,
        EmuError,
    >)
        ensures
            r is Ok <==> reg_ok(register_select),
            r is Err ==> *final(self) == *old(self) && final(via_system).ports() == old(
                via_system,
            ).ports() && final(via_system).events() == old(via_system).events(),
            r is Err ==> r == Err::<u8, EmuError>(
                if register_select > 15 {
                    EmuError::InvalidRegister
                } else {
                    EmuError::Unimplemented
                },
            ),
            reg_ok(register_select) ==> {
                &&& *final(self) == via_after_read(*old(self), register_select)
                &&& r == Ok::<u8, EmuError>(
                    read_value(
                        *old(self),
                        register_select,
                        final(via_system).ports().pb_in,
                        final(via_system).ports().pa_in,
                    ),
                )
                &&& final(via_system).ports() == (HostPorts {
                    pb_in: final(via_system).ports().pb_in,
                    pa_in: final(via_system).ports().pa_in,
                    irq: if read_touches_irq(register_select) {
                        irq_level(final(self).ifr, final(self).ier)
                    } else {
                        old(via_system).ports().irq
                    },
                    ..old(via_system).ports()
                })
                &&& !read_samples_pb(*old(self), register_select)
                    ==> final(via_system).ports().pb_in == old(via_system).ports().pb_in
                &&& !read_samples_pa(*old(self), register_select)
                    ==> final(via_system).ports().pa_in == old(via_system).ports().pa_in
                &&& read_samples_pb(*old(self), register_select) ==> (old(
                    via_system,
                ).ports().pb_ext matches Some(d) ==> final(via_system).ports().pb_in == d)
                &&& read_samples_pa(*old(self), register_select) ==> (old(
                    via_system,
                ).ports().pa_ext matches Some(d) ==> final(via_system).ports().pa_in == d)
                &&& final(via_system).events() == old(via_system).events()
            },
    {
        if register_select == PORTB {
            if !get_bit(self.acr, 1) {
                let pbs = via_system.read_port_b();
                Ok((self.orb & self.ddrb) | (pbs & !self.ddrb))
            } else {
                Ok((self.orb & self.ddrb) | (self.irb & !self.ddrb))
            }
        } else if register_select == PORTA {
            if !get_bit(self.acr, 0) {
                let pas = via_system.read_port_a();
                Ok(pas)
            } else {
                Ok(self.ira)
            }
        } else if register_select == DDRB {
            Ok(self.ddrb)
        } else if register_select == DDRA {
            Ok(self.ddra)
        } else if register_select == T1C_L {
            self.change_interrupt_flag(via_system, Some(6), false);
            Ok((self.t1_c & 0x00ff) as u8)
        } else if register_select == T1C_H {
            Ok(((self.t1_c & 0xff00) >> 8) as u8)
        } else if register_select == T1L_L {
            Ok((self.t1_l & 0x00ff) as u8)
        } else if register_select == T1L_H {
            Ok(((self.t1_l & 0xff00) >> 8) as u8)
        } else if register_select == T2C_L {
            self.change_interrupt_flag(via_system, Some(5), false);
            Ok((self.t2_c & 0x00ff) as u8)
        } else if register_select == T2C_H {
            Ok(((self.t2_c & 0xff00) >> 8) as u8)
        } else if register_select == ACR {
            Ok(self.acr)
        } else if register_select == PCR {
            Ok(self.pcr)
        } else if register_select == IFR {
            Ok(self.ifr)
        } else if register_select == IER {
            Ok(self.ier | 0x80)
        } else if register_select <= 15 {
            Err(EmuError::Unimplemented)
        } else {
            Err(EmuError::InvalidRegister)
        }
    }

    /// Send `data` to register `register_select`.
    ///
    /// Any select above 15 is `InvalidRegister`; the two registers this
    /// emulation leaves out answer `Unimplemented`.  Port and direction
    /// writes drive the changed output bits through the host one bit at a
    /// time; timer and interrupt writes update the IRQ line.
    pub fn write<S: ViaSystem>(
        &mut self,
        via_system: &mut S,
        register_select: u8,
        data: u8,
    ) -> (r: Result<(), EmuError>)
        ensures
            r is Ok <==> reg_ok(register_select),
            r is Err ==> *final(self) == *old(self) && final(via_system).ports() == old(
                via_system,
            ).ports() && final(via_system).events() == old(via_system).events(),
            r is Err ==> r == Err::<(), EmuError>(
                if register_select > 15 {
                    EmuError::InvalidRegister
                } else {
                    EmuError::Unimplemented
                },
            ),
            reg_ok(register_select) ==> {
                &&& *final(self) == via_after_write(*old(self), register_select, data)
                &&& final(via_system).ports() == (HostPorts {
                    pb: pb_after_write(
                        *old(self),
                        old(via_system).ports().pb,
                        register_select,
                        data,
                    ),
                    pa: pa_after_write(
                        *old(self),
                        old(via_system).ports().pa,
                        register_select,
                        data,
                    ),
                    cb2: cb2_after_write(old(via_system).ports().cb2, register_select, data),
                    irq: if write_touches_irq(register_select) {
                        irq_level(final(self).ifr, final(self).ier)
                    } else {
                        old(via_system).ports().irq
                    },
                    ..old(via_system).ports()
                })
                &&& final(via_system).events() == old(via_system).events() + events_after_write(
                    *old(self),
                    register_select,
                    data,
                )
            },
    {
        if register_select == PORTB {
            self.orb = data;
            drive_port_b(via_system, data, self.ddrb);
            Ok(())
        } else if register_select == PORTA {
            self.ora = data;
            drive_port_a(via_system, data, self.ddra);
            Ok(())
        } else if register_select == DDRB {
            drive_port_b(via_system, self.orb, data & !self.ddrb);
            self.ddrb = data;
            Ok(())
        } else if register_select == DDRA {
            drive_port_a(via_system, self.ora, data & !self.ddra);
            self.ddra = data;
            Ok(())
        } else if register_select == T1C_H {
            let l = ((data as u16) << 8) | (self.t1_l & 0x00ff);
            self.t1_l = l;
            self.t1_c = l;
            self.t1_is_running = true;
            self.change_interrupt_flag(via_system, Some(6), false);
            proof {
                lemma_mk16_parts(old(self).t1_l, data);
            }
            Ok(())
        } else if register_select == T1C_L || register_select == T1L_L {
            self.t1_l = (self.t1_l & 0xff00) | (data as u16);
            proof {
                lemma_mk16_parts(old(self).t1_l, data);
            }
            Ok(())
        } else if register_select == T1L_H {
            self.t1_l = ((data as u16) << 8) | (self.t1_l & 0x00ff);
            self.change_interrupt_flag(via_system, Some(6), false);
            proof {
                lemma_mk16_parts(old(self).t1_l, data);
            }
            Ok(())
        } else if register_select == T2C_L {
            self.t2_l = data;
            Ok(())
        } else if register_select == T2C_H {
            self.t2_c = ((data as u16) << 8) | (self.t2_l as u16);
            self.change_interrupt_flag(via_system, Some(5), false);
            self.t2_trigger_interrupt = true;
            Ok(())
        } else if register_select == ACR {
            self.acr = data;
            Ok(())
        } else if register_select == PCR {
            self.pcr = data;
            if data >> 7 == 1 {
                if data >> 5 == 0b110 {
                    via_system.write_cb2(false);
                } else {
                    via_system.write_cb2(true);
                }
                proof {
                    lemma_top_bit(data);
                    assert(final(via_system).events() =~= old(via_system).events()
                        + events_after_write(*old(self), register_select, data));
                }
            } else {
                proof {
                    lemma_top_bit(data);
                    assert(final(via_system).events() =~= old(via_system).events()
                        + events_after_write(*old(self), register_select, data));
                }
            }
            Ok(())
        } else if register_select == IFR {
            self.ifr = self.ifr & !data;
            self.change_interrupt_flag(via_system, None, true);
            Ok(())
        } else if register_select == IER {
            self.ier = if get_bit(data, 7) {
                self.ier | (data & 0x7f)
            } else {
                self.ier & !(data & 0x7f)
            };
            self.change_interrupt_flag(via_system, None, true);
            Ok(())
        } else if register_select <= 15 {
            Err(EmuError::Unimplemented)
        } else {
            Err(EmuError::InvalidRegister)
        }
    }
}

/// Recomputing bit 7 does not change which enabled status flags are set.
proof fn lemma_irq_masked(ifr: u8, ier: u8)
    by (bit_vector)
    ensures
        irq_level(with_flag7(ifr, ier), ier) == irq_level(ifr, ier),
        with_flag7(with_flag7(ifr, ier), ier) == with_flag7(ifr, ier),
{
}

/// Composing a 16-bit value from one fresh byte and one kept byte agrees
/// with the byte-mask arithmetic the register file uses.
proof fn lemma_mk16_parts(x: u16, data: u8)
    by (bit_vector)
    ensures
        mk16(data, low8(x)) == ((data as u16) << 8) | (x & 0x00ff),
        mk16(high8(x), data) == (x & 0xff00) | (data as u16),
{
}

/// The top bit of a byte read as a shift and as a mask agree.
proof fn lemma_top_bit(data: u8)
    by (bit_vector)
    ensures
        (data >> 7 == 1) == bit(data, 7),
{
}

/// Recomputing bit 7 leaves the status flags IFR[6:0] alone, and bit 7
/// afterwards says exactly whether an enabled flag is pending.
pub proof fn lemma_flag7_bits(x: u8, e: u8, i: u8)
    by (bit_vector)
    requires
        i < 7,
    ensures
        bit(with_flag7(x, e), i) == bit(x, i),
        bit(with_flag7(x, e), 7) == irq_level(x, e),
        irq_level(with_flag7(x, e), e) == irq_level(x, e),
{
}

/// An IER set-write raises exactly the named enable bits, a clear-write
/// lowers exactly them, and neither touches bit 7 of the register.
pub proof fn lemma_ier_bits(e: u8, d: u8, i: u8)
    by (bit_vector)
    requires
        i < 7,
    ensures
        bit(e | (d & 0x7f), i) == (bit(e, i) || bit(d, i)),
        bit(e & !(d & 0x7f), i) == (bit(e, i) && !bit(d, i)),
        bit(e | (d & 0x7f), 7) == bit(e, 7),
        bit(e & !(d & 0x7f), 7) == bit(e, 7),
{
}

/// Splitting a composed 16-bit value gives back its two bytes, and its
/// numeric value is the usual base-256 composition.
pub proof fn lemma_mk16_roundtrip(hi: u8, lo: u8)
    by (bit_vector)
    ensures
        low8(mk16(hi, lo)) == lo,
        high8(mk16(hi, lo)) == hi,
        mk16(hi, lo) == hi * 256 + lo,
{
}

/// A 16-bit value of noise, for power-on counters.
fn random_u16() -> u16 {
    let hi = random_byte();
    let lo = random_byte();
    ((hi as u16) << 8) | (lo as u16)
}

/// Drive every port B bit under `mask` to its level in `src`, lowest bit
/// first, emitting one host write per driven bit.
fn drive_port_b<S: ViaSystem>(host: &mut S, src: u8, mask: u8)
    ensures
        final(host).ports() == (HostPorts {
            pb: (src & mask) | (old(host).ports().pb & !mask),
            ..old(host).ports()
        }),
        final(host).events() == old(host).events() + drive_events(false, src, mask, 8),
{
    let ghost h0 = *host;
    let mut i: u8 = 0;
    while i < 8
        invariant
            i <= 8,
            host.ports() == (HostPorts { pb: host.ports().pb, ..h0.ports() }),
            forall|j: u8|
                j < 8 ==> #[trigger] bit(host.ports().pb, j) == (if j < i && bit(mask, j) {
                    bit(src, j)
                } else {
                    bit(h0.ports().pb, j)
                }),
            host.events() == h0.events() + drive_events(false, src, mask, i as nat),
        decreases 8 - i,
    {
        let ghost pb_before = host.ports().pb;
        let ghost evts_before = host.events();
        if get_bit(mask, i) {
            host.write_port_b(i, get_bit(src, i));
            proof {
                lemma_set_bit(pb_before, i, bit(src, i));
            }
        }
        proof {
            assert(drive_events(false, src, mask, (i + 1) as nat) == drive_events(
                false,
                src,
                mask,
                i as nat,
            ) + (if bit(mask, i) {
                seq![PortEvent::PortB { bit: i, level: bit(src, i) }]
            } else {
                Seq::empty()
            }));
            assert(host.events() =~= h0.events() + drive_events(false, src, mask, (i + 1) as nat));
        }
        i = i + 1;
    }
    proof {
        lemma_merge_bits(src, h0.ports().pb, mask);
        lemma_bits_eq(host.ports().pb, (src & mask) | (h0.ports().pb & !mask));
    }
}

/// Drive every port A bit under `mask` to its level in `src`, lowest bit
/// first, emitting one host write per driven bit.
fn drive_port_a<S: ViaSystem>(host: &mut S, src: u8, mask: u8)
    ensures
        final(host).ports() == (HostPorts {
            pa: (src & mask) | (old(host).ports().pa & !mask),
            ..old(host).ports()
        }),
        final(host).events() == old(host).events() + drive_events(true, src, mask, 8),
{
    let ghost h0 = *host;
    let mut i: u8 = 0;
    while i < 8
        invariant
            i <= 8,
            host.ports() == (HostPorts { pa: host.ports().pa, ..h0.ports() }),
            forall|j: u8|
                j < 8 ==> #[trigger] bit(host.ports().pa, j) == (if j < i && bit(mask, j) {
                    bit(src, j)
                } else {
                    bit(h0.ports().pa, j)
                }),
            host.events() == h0.events() + drive_events(true, src, mask, i as nat),
        decreases 8 - i,
    {
        let ghost pa_before = host.ports().pa;
        if get_bit(mask, i) {
            host.write_port_a(i, get_bit(src, i));
            proof {
                lemma_set_bit(pa_before, i, bit(src, i));
            }
        }
        proof {
            assert(drive_events(true, src, mask, (i + 1) as nat) == drive_events(
                true,
                src,
                mask,
                i as nat,
            ) + (if bit(mask, i) {
                seq![PortEvent::PortA { bit: i, level: bit(src, i) }]
            } else {
                Seq::empty()
            }));
            assert(host.events() =~= h0.events() + drive_events(true, src, mask, (i + 1) as nat));
        }
        i = i + 1;
    }
    proof {
        lemma_merge_bits(src, h0.ports().pa, mask);
        lemma_bits_eq(host.ports().pa, (src & mask) | (h0.ports().pa & !mask));
    }
}

} // verus!
