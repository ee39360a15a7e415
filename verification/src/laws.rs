//! The VIA's governing properties, stated over the register-file model and
//! proved once and for all: port drive and direction-change behaviour, the
//! interrupt-register write rules, and the exact timing of both timers.

use vstd::prelude::*;

use crate::bits::{bit, lemma_bit_ops, lemma_merge_bits, lemma_set_bit, spec_set_bit};
use crate::errors::EmuError;
use crate::lcd::{decode_rel, pin_change_rel, DataLength, LCDPins, LCD};
use crate::via::{
    drive_events, events_after_write, high8, irq_level, lemma_flag7_bits, lemma_ier_bits,
    lemma_mk16_roundtrip, low8, mk16, pb_after_write, pa_after_write, t2_counts, via_after_tick,
    via_after_write, with_flag7, wrap_dec, PortEvent, W65C22S, DDRA, DDRB, PORTA, PORTB, T1C_H,
    T1C_L, T2C_H, T2C_L,
};

verus! {

/// The register file after `n` clock pulses, the pin samples reading
/// `pbs`/`pas` on every pulse.
pub open spec fn via_after_ticks(v: W65C22S, pbs: u8, pas: u8, n: nat) -> W65C22S
    decreases n,
{
    if n == 0 {
        v
    } else {
        via_after_tick(via_after_ticks(v, pbs, pas, (n - 1) as nat), pbs, pas)
    }
}

/// How many of the emitted bit-level writes drive port B bit `i`.
pub open spec fn count_pb_writes(s: Seq<PortEvent>, i: u8) -> nat
    decreases s.len(),
{
    if s.len() == 0 {
        0
    } else {
        count_pb_writes(s.drop_last(), i) + (if s.last() matches PortEvent::PortB {
            bit: b,
            level: _,
        } && b == i {
            1nat
        } else {
            0nat
        })
    }
}

proof fn lemma_count_pb_push(s: Seq<PortEvent>, e: PortEvent, i: u8)
    ensures
        count_pb_writes(s + seq![e], i) == count_pb_writes(s, i) + (if e matches PortEvent::PortB {
            bit: b,
            level: _,
        } && b == i {
            1nat
        } else {
            0nat
        }),
{
    assert((s + seq![e]).drop_last() =~= s);
    assert((s + seq![e]).last() == e);
}

proof fn lemma_drive_events_count(on_a: bool, src: u8, mask: u8, n: nat, i: u8)
    requires
        i < 8,
        n <= 8,
    ensures
        count_pb_writes(drive_events(on_a, src, mask, n), i) == (if !on_a && (i as nat) < n && bit(
            mask,
            i,
        ) {
            1nat
        } else {
            0nat
        }),
        (!on_a && (i as nat) < n && bit(mask, i)) ==> drive_events(on_a, src, mask, n).contains(
            PortEvent::PortB { bit: i, level: bit(src, i) },
        ),
    decreases n,
{
    if n == 0 {
    } else {
        let m = (n - 1) as nat;
        let j = (n - 1) as u8;
        lemma_drive_events_count(on_a, src, mask, m, i);
        let prev = drive_events(on_a, src, mask, m);
        if bit(mask, j) {
            let e = if on_a {
                PortEvent::PortA { bit: j, level: bit(src, j) }
            } else {
                PortEvent::PortB { bit: j, level: bit(src, j) }
            };
            assert(drive_events(on_a, src, mask, n) == prev + seq![e]);
            lemma_count_pb_push(prev, e, i);
            if !on_a && (i as nat) < n && bit(mask, i) {
                if i == j {
                    assert((prev + seq![e])[prev.len() as int] == e);
                } else {
                    let x = PortEvent::PortB { bit: i, level: bit(src, i) };
                    let k = choose|k: int| 0 <= k < prev.len() && prev[k] == x;
                    assert((prev + seq![e])[k] == x);
                }
            }
        } else {
            assert(drive_events(on_a, src, mask, n) == prev + Seq::<PortEvent>::empty());
            assert(prev + Seq::<PortEvent>::empty() =~= prev);
        }
    }
}

/// Port drive.  After `write(PORTB, v); write(DDRB, d)`, every port B bit
/// that `d` makes an output carries bit `i` of `v`, and every bit that was
/// an input before and stays one keeps the level it already had.
pub proof fn lemma_port_b_drive(via0: W65C22S, pb0: u8, v: u8, d: u8, i: u8)
    requires
        i < 8,
    ensures
        ({
            let via1 = via_after_write(via0, PORTB, v);
            let pb1 = pb_after_write(via0, pb0, PORTB, v);
            let pb2 = pb_after_write(via1, pb1, DDRB, d);
            &&& (bit(d, i) ==> bit(pb2, i) == bit(v, i))
            &&& (!bit(d, i) && !bit(via0.ddrb, i) ==> bit(pb2, i) == bit(pb0, i))
        }),
{
    let via1 = via_after_write(via0, PORTB, v);
    let pb1 = pb_after_write(via0, pb0, PORTB, v);
    lemma_merge_bits(v, pb0, via0.ddrb);
    lemma_merge_bits(v, pb1, d & !via0.ddrb);
    lemma_bit_ops(d, !via0.ddrb);
    lemma_bit_ops(via0.ddrb, d);
}

/// Port drive, port A side: the same law with DDRA and ORA.
pub proof fn lemma_port_a_drive(via0: W65C22S, pa0: u8, v: u8, d: u8, i: u8)
    requires
        i < 8,
    ensures
        ({
            let via1 = via_after_write(via0, PORTA, v);
            let pa1 = pa_after_write(via0, pa0, PORTA, v);
            let pa2 = pa_after_write(via1, pa1, DDRA, d);
            &&& (bit(d, i) ==> bit(pa2, i) == bit(v, i))
            &&& (!bit(d, i) && !bit(via0.ddra, i) ==> bit(pa2, i) == bit(pa0, i))
        }),
{
    let via1 = via_after_write(via0, PORTA, v);
    let pa1 = pa_after_write(via0, pa0, PORTA, v);
    lemma_merge_bits(v, pa0, via0.ddra);
    lemma_merge_bits(v, pa1, d & !via0.ddra);
    lemma_bit_ops(d, !via0.ddra);
    lemma_bit_ops(via0.ddra, d);
}

/// Direction-change emission.  A DDRB write emits exactly one
/// `write_port_b(i, orb[i])` for every bit `i` that turns from input to
/// output, and none for any other bit.
pub proof fn lemma_ddrb_single_emission(v: W65C22S, d: u8, i: u8)
    requires
        i < 8,
    ensures
        ({
            let evts = events_after_write(v, DDRB, d);
            &&& count_pb_writes(evts, i) == (if !bit(v.ddrb, i) && bit(d, i) {
                1nat
            } else {
                0nat
            })
            &&& (!bit(v.ddrb, i) && bit(d, i) ==> evts.contains(
                PortEvent::PortB { bit: i, level: bit(v.orb, i) },
            ))
        }),
{
    lemma_bit_ops(d, !v.ddrb);
    lemma_bit_ops(v.ddrb, d);
    lemma_drive_events_count(false, v.orb, d & !v.ddrb, 8, i);
}

/// IFR write rule.  A write to IFR clears exactly the status flags whose
/// written bit is 1; bit 7 never clears in response to the write itself and
/// is recomputed purely from IFR[6:0] & IER[6:0].
pub proof fn lemma_ifr_write(v: W65C22S, data: u8, i: u8)
    requires
        i < 7,
    ensures
        ({
            let v2 = via_after_write(v, crate::via::IFR, data);
            &&& bit(v2.ifr, i) == (bit(v.ifr, i) && !bit(data, i))
            &&& bit(v2.ifr, 7) == irq_level(v2.ifr, v.ier)
            &&& v2.ier == v.ier
        }),
{
    let v2 = via_after_write(v, crate::via::IFR, data);
    lemma_flag7_bits(v.ifr & !data, v.ier, i);
    lemma_bit_ops(v.ifr, !data);
    lemma_bit_ops(data, v.ifr);
    assert(irq_level(v2.ifr, v.ier) == irq_level(v.ifr & !data, v.ier)) by {
        lemma_flag7_bits(v.ifr & !data, v.ier, 0);
    };
}

/// IER write rule.  A write with bit 7 = 1 sets exactly the enable bits
/// named by value[6:0], one with bit 7 = 0 clears exactly them, and in
/// neither case does bit 7 of IER itself change.
pub proof fn lemma_ier_write(v: W65C22S, data: u8, i: u8)
    requires
        i < 7,
    ensures
        ({
            let v2 = via_after_write(v, crate::via::IER, data);
            &&& (bit(data, 7) ==> bit(v2.ier, i) == (bit(v.ier, i) || bit(data, i)))
            &&& (!bit(data, 7) ==> bit(v2.ier, i) == (bit(v.ier, i) && !bit(data, i)))
            &&& bit(v2.ier, 7) == bit(v.ier, 7)
        }),
{
    lemma_ier_bits(v.ier, data, i);
}

/// 4-bit pairing.  With the controller in 4-bit mode awaiting a transfer,
/// the first half is always latched; a second half whose RS or R/W pin
/// differs fails with a protocol mismatch and changes nothing more, while
/// a matched second half decodes the assembled byte
/// `high_nibble | (second_high_nibble >> 4)` (the first half's data wires
/// already carry the high nibble in their upper bits).
pub proof fn lemma_four_bit_pairing(
    l0: LCD,
    l1: LCD,
    l2: LCD,
    first: LCDPins,
    second: LCDPins,
    r1: Result<(), EmuError>,
    r2: Result<(), EmuError>,
)
    requires
        l0.waiting_for_more_data,
        l0.config.data_length == DataLength::Four,
        pin_change_rel(l0, l1, first, r1),
        pin_change_rel(l1, l2, second, r2),
    ensures
        r1 == Ok::<(), EmuError>(()),
        first.rs != second.rs || first.rw != second.rw ==> r2 == Err::<(), EmuError>(
            EmuError::ProtocolMismatch,
        ) && l2 == l1,
        first.rs == second.rs && first.rw == second.rw ==> decode_rel(
            LCD {
                pins: (LCDPins {
                    rs: first.rs,
                    rw: first.rw,
                    data: first.data | (second.data >> 4),
                }),
                waiting_for_more_data: true,
                ..l1
            },
            l2,
            r2,
        ),
{
}

/// While T1 counts down (counter above zero at the pulse), nothing else in
/// a pulse can raise IFR6, and the latch, ACR and run flag hold still.
proof fn lemma_t1_countdown(s0: W65C22S, pbs: u8, pas: u8, k: nat)
    requires
        s0.t1_is_running,
        !bit(s0.ifr, 6),
        k <= s0.t1_c,
    ensures
        ({
            let s = via_after_ticks(s0, pbs, pas, k);
            &&& s.t1_c == s0.t1_c - k
            &&& s.t1_is_running
            &&& !bit(s.ifr, 6)
            &&& s.t1_l == s0.t1_l
            &&& s.acr == s0.acr
        }),
    decreases k,
{
    if k > 0 {
        lemma_t1_countdown(s0, pbs, pas, (k - 1) as nat);
        let sp = via_after_ticks(s0, pbs, pas, (k - 1) as nat);
        let sq = W65C22S { irb: pbs, ira: pas, ..sp };
        let st = crate::via::tick_t1(sq);
        if t2_counts(st) && st.t2_c == 0 && st.t2_trigger_interrupt {
            lemma_set_bit(st.ifr, 5, true);
            lemma_flag7_bits(spec_set_bit(st.ifr, 5, true), st.ier, 6);
        }
    }
}

/// One pulse on a running timer whose counter is at zero raises IFR6,
/// whatever else the pulse does.
proof fn lemma_t1_fire(s: W65C22S, pbs: u8, pas: u8)
    requires
        s.t1_is_running,
        s.t1_c == 0,
    ensures
        bit(via_after_tick(s, pbs, pas).ifr, 6),
        via_after_tick(s, pbs, pas).t1_is_running == bit(s.acr, 6),
        bit(s.acr, 6) ==> via_after_tick(s, pbs, pas).t1_c == s.t1_l,
        !bit(s.acr, 6) ==> via_after_tick(s, pbs, pas).t1_c == 0,
        via_after_tick(s, pbs, pas).t1_l == s.t1_l,
        via_after_tick(s, pbs, pas).acr == s.acr,
{
    let sq = W65C22S { irb: pbs, ira: pas, ..s };
    let st = crate::via::tick_t1(sq);
    lemma_set_bit(s.ifr, 6, true);
    lemma_flag7_bits(spec_set_bit(s.ifr, 6, true), s.ier, 6);
    if t2_counts(st) && st.t2_c == 0 && st.t2_trigger_interrupt {
        lemma_set_bit(st.ifr, 5, true);
        lemma_flag7_bits(spec_set_bit(st.ifr, 5, true), st.ier, 6);
    }
}

/// T1 one-shot timing.  After `T1C_L <- lo; T1C_H <- hi` load
/// `n = hi * 256 + lo`, IFR6 stays clear for the next `n` clock pulses and
/// is set after exactly `n + 1`; the timer then no longer runs (one-shot
/// mode) and its counter rests at zero.
pub proof fn lemma_t1_one_shot(v: W65C22S, lo: u8, hi: u8, pbs: u8, pas: u8, k: nat)
    ensures
        ({
            let s0 = via_after_write(via_after_write(v, T1C_L, lo), T1C_H, hi);
            let n = (hi * 256 + lo) as nat;
            &&& (k <= n ==> !bit(via_after_ticks(s0, pbs, pas, k).ifr, 6))
            &&& bit(via_after_ticks(s0, pbs, pas, (n + 1) as nat).ifr, 6)
            &&& (!bit(v.acr, 6) ==> !via_after_ticks(s0, pbs, pas, (n + 1) as nat).t1_is_running
                && via_after_ticks(s0, pbs, pas, (n + 1) as nat).t1_c == 0)
        }),
{
    let v1 = via_after_write(v, T1C_L, lo);
    let s0 = via_after_write(v1, T1C_H, hi);
    let n = (hi * 256 + lo) as nat;
    lemma_mk16_roundtrip(high8(v.t1_l), lo);
    lemma_mk16_roundtrip(hi, low8(v1.t1_l));
    assert(s0.t1_c == mk16(hi, lo));
    lemma_mk16_roundtrip(hi, lo);
    assert(s0.t1_c as nat == n);
    lemma_set_bit(v1.ifr, 6, false);
    lemma_flag7_bits(spec_set_bit(v1.ifr, 6, false), v1.ier, 6);
    assert(!bit(s0.ifr, 6));
    if k <= n {
        lemma_t1_countdown(s0, pbs, pas, k);
    }
    lemma_t1_countdown(s0, pbs, pas, n);
    let sn = via_after_ticks(s0, pbs, pas, n);
    lemma_t1_fire(sn, pbs, pas);
    assert(via_after_ticks(s0, pbs, pas, (n + 1) as nat) == via_after_tick(sn, pbs, pas));
}

/// T1 free-run timing.  While running in free-run mode with the counter
/// just reloaded and IFR6 acknowledged, IFR6 stays clear for `latch`
/// pulses, re-asserts on pulse `latch + 1`, and the counter is reloaded for
/// the next round: the flag re-asserts every `latch + 1` pulses.
pub proof fn lemma_t1_freerun(s0: W65C22S, pbs: u8, pas: u8, k: nat)
    requires
        s0.t1_is_running,
        bit(s0.acr, 6),
        s0.t1_c == s0.t1_l,
        !bit(s0.ifr, 6),
    ensures
        k <= s0.t1_l ==> !bit(via_after_ticks(s0, pbs, pas, k).ifr, 6),
        ({
            let s1 = via_after_ticks(s0, pbs, pas, (s0.t1_l + 1) as nat);
            &&& bit(s1.ifr, 6)
            &&& s1.t1_is_running
            &&& s1.t1_c == s1.t1_l
            &&& s1.t1_l == s0.t1_l
            &&& bit(s1.acr, 6)
        }),
{
    if k <= s0.t1_l {
        lemma_t1_countdown(s0, pbs, pas, k);
    }
    lemma_t1_countdown(s0, pbs, pas, s0.t1_l as nat);
    let sn = via_after_ticks(s0, pbs, pas, s0.t1_l as nat);
    lemma_t1_fire(sn, pbs, pas);
    assert(via_after_ticks(s0, pbs, pas, (s0.t1_l + 1) as nat) == via_after_tick(sn, pbs, pas));
}

/// While T2 counts down in timed mode (counter above zero), nothing else in
/// a pulse can raise IFR5 or disturb the arming.
proof fn lemma_t2_countdown(s0: W65C22S, pbs: u8, pas: u8, k: nat)
    requires
        !bit(s0.acr, 5),
        s0.t2_trigger_interrupt,
        !bit(s0.ifr, 5),
        k <= s0.t2_c,
    ensures
        ({
            let s = via_after_ticks(s0, pbs, pas, k);
            &&& s.t2_c == s0.t2_c - k
            &&& s.t2_trigger_interrupt
            &&& !bit(s.ifr, 5)
            &&& s.acr == s0.acr
        }),
    decreases k,
{
    if k > 0 {
        lemma_t2_countdown(s0, pbs, pas, (k - 1) as nat);
        let sp = via_after_ticks(s0, pbs, pas, (k - 1) as nat);
        let sq = W65C22S { irb: pbs, ira: pas, ..sp };
        if sq.t1_is_running && sq.t1_c == 0 {
            lemma_set_bit(sq.ifr, 6, true);
            lemma_flag7_bits(spec_set_bit(sq.ifr, 6, true), sq.ier, 5);
        }
    }
}

/// One pulse with T2 armed at zero in timed mode raises IFR5, disarms the
/// timer, and wraps the counter to 0xFFFF.
proof fn lemma_t2_fire(s: W65C22S, pbs: u8, pas: u8)
    requires
        !bit(s.acr, 5),
        s.t2_trigger_interrupt,
        s.t2_c == 0,
    ensures
        ({
            let s1 = via_after_tick(s, pbs, pas);
            &&& bit(s1.ifr, 5)
            &&& !s1.t2_trigger_interrupt
            &&& s1.t2_c == 0xffff
        }),
{
    let sq = W65C22S { irb: pbs, ira: pas, ..s };
    let st = crate::via::tick_t1(sq);
    if sq.t1_is_running && sq.t1_c == 0 {
        lemma_set_bit(sq.ifr, 6, true);
        lemma_flag7_bits(spec_set_bit(sq.ifr, 6, true), sq.ier, 5);
    }
    lemma_set_bit(st.ifr, 5, true);
    lemma_flag7_bits(spec_set_bit(st.ifr, 5, true), st.ier, 5);
}

/// A disarmed T2 stays disarmed and cannot raise IFR5; its counter keeps
/// wrapping down on every counting pulse (it free-runs, it does not stop).
pub proof fn lemma_t2_no_refire(s: W65C22S, pbs: u8, pas: u8)
    requires
        !s.t2_trigger_interrupt,
    ensures
        ({
            let s1 = via_after_tick(s, pbs, pas);
            &&& !s1.t2_trigger_interrupt
            &&& bit(s1.ifr, 5) == bit(s.ifr, 5)
            &&& (t2_counts(W65C22S { irb: pbs, ira: pas, ..s }) ==> s1.t2_c == wrap_dec(s.t2_c))
            &&& (!t2_counts(W65C22S { irb: pbs, ira: pas, ..s }) ==> s1.t2_c == s.t2_c)
        }),
{
    let sq = W65C22S { irb: pbs, ira: pas, ..s };
    if sq.t1_is_running && sq.t1_c == 0 {
        lemma_set_bit(sq.ifr, 6, true);
        lemma_flag7_bits(spec_set_bit(sq.ifr, 6, true), sq.ier, 5);
    }
}

/// T2 arming and one-shot interrupt.  After `T2C_L <- lo; T2C_H <- hi`
/// load `n = hi * 256 + lo` in timed mode, IFR5 stays clear for the next
/// `n` pulses, is set on pulse `n + 1` exactly when the counter crosses
/// zero, and the timer disarms: with `lemma_t2_no_refire`, the interrupt
/// cannot fire again until T2C_H is rewritten, while the counter keeps
/// wrapping.
pub proof fn lemma_t2_arming(v: W65C22S, lo: u8, hi: u8, pbs: u8, pas: u8, k: nat)
    requires
        !bit(v.acr, 5),
    ensures
        ({
            let s0 = via_after_write(via_after_write(v, T2C_L, lo), T2C_H, hi);
            let n = (hi * 256 + lo) as nat;
            &&& (k <= n ==> !bit(via_after_ticks(s0, pbs, pas, k).ifr, 5))
            &&& bit(via_after_ticks(s0, pbs, pas, (n + 1) as nat).ifr, 5)
            &&& !via_after_ticks(s0, pbs, pas, (n + 1) as nat).t2_trigger_interrupt
            &&& via_after_ticks(s0, pbs, pas, (n + 1) as nat).t2_c == 0xffff
        }),
{
    let v1 = via_after_write(v, T2C_L, lo);
    let s0 = via_after_write(v1, T2C_H, hi);
    let n = (hi * 256 + lo) as nat;
    lemma_mk16_roundtrip(hi, lo);
    assert(s0.t2_c as nat == n);
    lemma_set_bit(v1.ifr, 5, false);
    lemma_flag7_bits(spec_set_bit(v1.ifr, 5, false), v1.ier, 5);
    assert(!bit(s0.ifr, 5));
    if k <= n {
        lemma_t2_countdown(s0, pbs, pas, k);
    }
    lemma_t2_countdown(s0, pbs, pas, n);
    let sn = via_after_ticks(s0, pbs, pas, n);
    lemma_t2_fire(sn, pbs, pas);
    assert(via_after_ticks(s0, pbs, pas, (n + 1) as nat) == via_after_tick(sn, pbs, pas));
}

} // verus!
