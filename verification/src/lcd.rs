//! HD44780-style character LCD controller: pin-level bus assembly, 4-bit
//! and 8-bit transaction handling, instruction decode, display data RAM,
//! cursor and blink state, and a textual framebuffer rendering.

use vstd::prelude::*;

use crate::bits::{bit, get_bit, set_bit, spec_set_bit};
use crate::errors::EmuError;

verus! {

/// Ticks between blink phase inversions while blinking is on.
pub const BLINK_PERIOD: u32 = 100_000;

/// The control and data pins of one complete LCD bus transaction.  In
/// 4-bit wiring, `data` first holds the high nibble in its top four bits.
#[derive(Clone, Copy, Debug, PartialEq, Eq, Structural)]
pub struct LCDPins {
    pub rs: bool,
    pub rw: bool,
    pub data: u8,
}

/// A transaction-level message to the LCD.
#[derive(Clone, Copy, Debug, PartialEq, Eq, Structural)]
pub enum CpuToLcdMessage {
    PinChange(LCDPins),
    Exit,
}

/// A pin-edge message from the orchestrator to the LCD: single wire-level
/// changes (the data pins are the LCD's D4..D7), and the snapshot gating
/// and shutdown controls.
#[derive(Clone, Copy, Debug, PartialEq, Eq, Structural)]
pub enum SysToLcdMessage {
    DataPinChange(u8, bool),
    EnablePinChange(bool),
    ReadWritePinChange(bool),
    RegisterPinChange(bool),
    AllowOneUpdate,
    AllowAllUpdates,
    Exit,
}

/// Bus width of the data interface.
#[derive(Clone, Copy, Debug, PartialEq, Eq, Structural)]
pub enum DataLength {
    Eight,
    Four,
}

/// Number of display lines.
#[derive(Clone, Copy, Debug, PartialEq, Eq, Structural)]
pub enum NbLines {
    Two,
    One,
}

/// Character font height.
#[derive(Clone, Copy, Debug, PartialEq, Eq, Structural)]
pub enum Font {
    FiveByTen,
    FiveByEight,
}

/// Direction of a cursor or display shift.
#[derive(Clone, Copy, Debug, PartialEq, Eq, Structural)]
pub enum ShiftDir {
    Right,
    Left,
}

/// What moves after a data write or an explicit shift instruction.
#[derive(Clone, Copy, Debug, PartialEq, Eq, Structural)]
pub enum DisplayBehavior {
    Both,
    MoveCursor,
    ShiftDisplay,
}

/// Which address space the address counter points into.
#[derive(Clone, Copy, Debug, PartialEq, Eq, Structural)]
pub enum AddrCounter {
    Ddram,
    Cgram,
}

/// How many framebuffer snapshots the orchestrator currently allows.
#[derive(Clone, Copy, Debug, PartialEq, Eq, Structural)]
pub enum UpdateGate {
    Hold,
    One,
    All,
}

/// The controller configuration the function-set, entry-mode and
/// display-control instructions write.
#[derive(Clone, Copy, Debug, PartialEq, Eq, Structural)]
pub struct LCDConfig {
    pub data_length: DataLength,
    pub nb_lines: NbLines,
    pub font: Font,
    pub display_on: bool,
    pub cursor_on: bool,
    pub blink_on: bool,
    pub shift_dir: ShiftDir,
    pub display_behavior: DisplayBehavior,
}

/// The LCD controller: the latched transaction pins, the wire-level pin
/// levels the orchestrator drives one at a time, display data RAM with its
/// address counter, the display window start, blink state, and the rendered
/// framebuffer with its snapshot gate.
pub struct LCD {
    pub pins: LCDPins,
    pub screen: Vec<char>,
    pub current_blink: bool,
    pub cycles_before_blink: u32,
    pub display_addr: u8,
    pub addr_counter: AddrCounter,
    pub ddram_data: Vec<u8>,
    pub ddram_addr: u8,
    pub config: LCDConfig,
    pub waiting_for_more_data: bool,
    pub wire_rs: bool,
    pub wire_rw: bool,
    pub wire_e: bool,
    pub wire_data: u8,
    pub gate: UpdateGate,
    pub frame_pending: bool,
}

/// The character a DDRAM code renders as: the HD44780 character ROM, with
/// ASCII in its usual place, the yen sign and two arrows among it, a
/// halfwidth-katakana block, and a final row of Greek letters and symbols.
#[verifier::opaque]
pub open spec fn font_char(b: u8) -> char {
    if 0x20 <= b <= 0x7d && b != 0x5c {
        b as char
    } else if b == 0x5c {
        '\u{a5}'
    } else if b == 0x7e {
        '\u{2192}'
    } else if b == 0x7f {
        '\u{2190}'
    } else if b == 0xa1 {
        '\u{ff61}'
    } else if b == 0xa2 {
        '\u{ff62}'
    } else if b == 0xa3 {
        '\u{ff63}'
    } else if b == 0xa4 {
        '\u{ff64}'
    } else if b == 0xa5 {
        '\u{ff65}'
    } else if b == 0xa6 {
        '\u{ff66}'
    } else if b == 0xa7 {
        '\u{ff67}'
    } else if b == 0xa8 {
        '\u{ff68}'
    } else if b == 0xa9 {
        '\u{ff69}'
    } else if b == 0xaa {
        '\u{ff6a}'
    } else if b == 0xab {
        '\u{ff6b}'
    } else if b == 0xac {
        '\u{ff6c}'
    } else if b == 0xad {
        '\u{ff6d}'
    } else if b == 0xae {
        '\u{ff6e}'
    } else if b == 0xaf {
        '\u{ff6f}'
    } else if b == 0xb0 {
        '\u{ff70}'
    } else if b == 0xb1 {
        '\u{ff71}'
    } else if b == 0xb2 {
        '\u{ff72}'
    } else if b == 0xb3 {
        '\u{ff73}'
    } else if b == 0xb4 {
        '\u{ff74}'
    } else if b == 0xb5 {
        '\u{ff75}'
    } else if b == 0xb6 {
        '\u{ff76}'
    } else if b == 0xb7 {
        '\u{ff77}'
    } else if b == 0xb8 {
        '\u{ff78}'
    } else if b == 0xb9 {
        '\u{ff79}'
    } else if b == 0xba {
        '\u{ff7a}'
    } else if b == 0xbb {
        '\u{ff7b}'
    } else if b == 0xbc {
        '\u{ff7c}'
    } else if b == 0xbd {
        '\u{ff7d}'
    } else if b == 0xbe {
        '\u{ff7e}'
    } else if b == 0xbf {
        '\u{ff7f}'
    } else if b == 0xc0 {
        '\u{ff80}'
    } else if b == 0xc1 {
        '\u{ff81}'
    } else if b == 0xc2 {
        '\u{ff82}'
    } else if b == 0xc3 {
        '\u{ff83}'
    } else if b == 0xc4 {
        '\u{ff84}'
    } else if b == 0xc5 {
        '\u{ff85}'
    } else if b == 0xc6 {
        '\u{ff86}'
    } else if b == 0xc7 {
        '\u{ff87}'
    } else if b == 0xc8 {
        '\u{ff88}'
    } else if b == 0xc9 {
        '\u{ff89}'
    } else if b == 0xca {
        '\u{ff8a}'
    } else if b == 0xcb {
        '\u{ff8b}'
    } else if b == 0xcc {
        '\u{ff8c}'
    } else if b == 0xcd {
        '\u{ff8d}'
    } else if b == 0xce {
        '\u{ff8e}'
    } else if b == 0xcf {
        '\u{ff8f}'
    } else if b == 0xd0 {
        '\u{ff90}'
    } else if b == 0xd1 {
        '\u{ff91}'
    } else if b == 0xd2 {
        '\u{ff92}'
    } else if b == 0xd3 {
        '\u{ff93}'
    } else if b == 0xd4 {
        '\u{ff94}'
    } else if b == 0xd5 {
        '\u{ff95}'
    } else if b == 0xd6 {
        '\u{ff96}'
    } else if b == 0xd7 {
        '\u{ff97}'
    } else if b == 0xd8 {
        '\u{ff98}'
    } else if b == 0xd9 {
        '\u{ff99}'
    } else if b == 0xda {
        '\u{ff9a}'
    } else if b == 0xdb {
        '\u{ff9b}'
    } else if b == 0xdc {
        '\u{ff9c}'
    } else if b == 0xdd {
        '\u{ff9d}'
    } else if b == 0xde {
        '\u{ff9e}'
    } else if b == 0xdf {
        '\u{ff9f}'
    } else if b == 0xe0 {
        '\u{3b1}'
    } else if b == 0xe1 {
        '\u{e4}'
    } else if b == 0xe2 {
        '\u{3b2}'
    } else if b == 0xe3 {
        '\u{3b5}'
    } else if b == 0xe4 {
        '\u{3bc}'
    } else if b == 0xe5 {
        '\u{3c3}'
    } else if b == 0xe6 {
        '\u{3c1}'
    } else if b == 0xe7 {
        '\u{67}'
    } else if b == 0xe8 {
        '\u{221a}'
    } else if b == 0xe9 {
        '\u{b9}'
    } else if b == 0xea {
        '\u{6a}'
    } else if b == 0xeb {
        '\u{2e3}'
    } else if b == 0xec {
        '\u{a2}'
    } else if b == 0xed {
        '\u{2c60}'
    } else if b == 0xee {
        '\u{f1}'
    } else if b == 0xef {
        '\u{f6}'
    } else if b == 0xf0 {
        '\u{70}'
    } else if b == 0xf1 {
        '\u{71}'
    } else if b == 0xf2 {
        '\u{3b8}'
    } else if b == 0xf3 {
        '\u{221e}'
    } else if b == 0xf4 {
        '\u{3a9}'
    } else if b == 0xf5 {
        '\u{fc}'
    } else if b == 0xf6 {
        '\u{3a3}'
    } else if b == 0xf7 {
        '\u{3c0}'
    } else if b == 0xf8 {
        '\u{1d535}'
    } else if b == 0xf9 {
        '\u{79}'
    } else if b == 0xfa {
        '\u{5343}'
    } else if b == 0xfb {
        '\u{4e07}'
    } else if b == 0xfc {
        '\u{5186}'
    } else if b == 0xfd {
        '\u{f7}'
    } else if b == 0xff {
        '\u{2588}'
    } else {
        ' '
    }
}

/// Look the glyph of a DDRAM code up in the font.
pub fn glyph(b: u8) -> (c: char)
    ensures
        c == font_char(b),
{
    proof {
        reveal(font_char);
    }
    if 0x20 <= b && b <= 0x7d && b != 0x5c {
        b as char
    } else {
        match b {
            0x5c => '\u{a5}',
            0x7e => '\u{2192}',
            0x7f => '\u{2190}',
            0xa1 => '\u{ff61}',
            0xa2 => '\u{ff62}',
            0xa3 => '\u{ff63}',
            0xa4 => '\u{ff64}',
            0xa5 => '\u{ff65}',
            0xa6 => '\u{ff66}',
            0xa7 => '\u{ff67}',
            0xa8 => '\u{ff68}',
            0xa9 => '\u{ff69}',
            0xaa => '\u{ff6a}',
            0xab => '\u{ff6b}',
            0xac => '\u{ff6c}',
            0xad => '\u{ff6d}',
            0xae => '\u{ff6e}',
            0xaf => '\u{ff6f}',
            0xb0 => '\u{ff70}',
            0xb1 => '\u{ff71}',
            0xb2 => '\u{ff72}',
            0xb3 => '\u{ff73}',
            0xb4 => '\u{ff74}',
            0xb5 => '\u{ff75}',
            0xb6 => '\u{ff76}',
            0xb7 => '\u{ff77}',
            0xb8 => '\u{ff78}',
            0xb9 => '\u{ff79}',
            0xba => '\u{ff7a}',
            0xbb => '\u{ff7b}',
            0xbc => '\u{ff7c}',
            0xbd => '\u{ff7d}',
            0xbe => '\u{ff7e}',
            0xbf => '\u{ff7f}',
            0xc0 => '\u{ff80}',
            0xc1 => '\u{ff81}',
            0xc2 => '\u{ff82}',
            0xc3 => '\u{ff83}',
            0xc4 => '\u{ff84}',
            0xc5 => '\u{ff85}',
            0xc6 => '\u{ff86}',
            0xc7 => '\u{ff87}',
            0xc8 => '\u{ff88}',
            0xc9 => '\u{ff89}',
            0xca => '\u{ff8a}',
            0xcb => '\u{ff8b}',
            0xcc => '\u{ff8c}',
            0xcd => '\u{ff8d}',
            0xce => '\u{ff8e}',
            0xcf => '\u{ff8f}',
            0xd0 => '\u{ff90}',
            0xd1 => '\u{ff91}',
            0xd2 => '\u{ff92}',
            0xd3 => '\u{ff93}',
            0xd4 => '\u{ff94}',
            0xd5 => '\u{ff95}',
            0xd6 => '\u{ff96}',
            0xd7 => '\u{ff97}',
            0xd8 => '\u{ff98}',
            0xd9 => '\u{ff99}',
            0xda => '\u{ff9a}',
            0xdb => '\u{ff9b}',
            0xdc => '\u{ff9c}',
            0xdd => '\u{ff9d}',
            0xde => '\u{ff9e}',
            0xdf => '\u{ff9f}',
            0xe0 => '\u{3b1}',
            0xe1 => '\u{e4}',
            0xe2 => '\u{3b2}',
            0xe3 => '\u{3b5}',
            0xe4 => '\u{3bc}',
            0xe5 => '\u{3c3}',
            0xe6 => '\u{3c1}',
            0xe7 => '\u{67}',
            0xe8 => '\u{221a}',
            0xe9 => '\u{b9}',
            0xea => '\u{6a}',
            0xeb => '\u{2e3}',
            0xec => '\u{a2}',
            0xed => '\u{2c60}',
            0xee => '\u{f1}',
            0xef => '\u{f6}',
            0xf0 => '\u{70}',
            0xf1 => '\u{71}',
            0xf2 => '\u{3b8}',
            0xf3 => '\u{221e}',
            0xf4 => '\u{3a9}',
            0xf5 => '\u{fc}',
            0xf6 => '\u{3a3}',
            0xf7 => '\u{3c0}',
            0xf8 => '\u{1d535}',
            0xf9 => '\u{79}',
            0xfa => '\u{5343}',
            0xfb => '\u{4e07}',
            0xfc => '\u{5186}',
            0xfd => '\u{f7}',
            0xff => '\u{2588}',
            _ => ' ',
        }
    }
}

/// A DDRAM address the cursor may hold in the given line mode: one line
/// uses 0x00..=0x4F, two lines use 0x00..=0x27 and 0x40..=0x67.
pub open spec fn valid_addr(lines: NbLines, a: u8) -> bool {
    match lines {
        NbLines::One => a <= 0x4f,
        NbLines::Two => a <= 0x27 || (0x40 <= a <= 0x67),
    }
}

/// A DDRAM address the display window may start at: the first line's
/// addresses of the mode.
pub open spec fn valid_display_addr(lines: NbLines, a: u8) -> bool {
    match lines {
        NbLines::One => a <= 0x4f,
        NbLines::Two => a <= 0x27,
    }
}

/// One cursor step: the address moves one place and wraps around the valid
/// DDRAM subset of the line mode, jumping between the two lines' ranges in
/// two-line mode.
pub open spec fn cursor_step(lines: NbLines, a: u8, dir: ShiftDir) -> u8 {
    let b: u8 = match dir {
        ShiftDir::Left => if a == 0 {
            0xff
        } else {
            (a - 1) as u8
        },
        ShiftDir::Right => if a == 0xff {
            0
        } else {
            (a + 1) as u8
        },
    };
    match lines {
        NbLines::One => if b == 0xff {
            0x4f
        } else if b == 0x50 {
            0x00
        } else {
            b
        },
        NbLines::Two => if b == 0xff {
            0x67
        } else if b == 0x28 {
            0x40
        } else if b == 0x3f {
            0x27
        } else if b == 0x68 {
            0x00
        } else {
            b
        },
    }
}

/// One display-window step: the window start moves one place and wraps
/// around the first line's addresses.
pub open spec fn display_step(lines: NbLines, a: u8, dir: ShiftDir) -> u8 {
    let b: u8 = match dir {
        ShiftDir::Left => if a == 0 {
            0xff
        } else {
            (a - 1) as u8
        },
        ShiftDir::Right => if a == 0xff {
            0
        } else {
            (a + 1) as u8
        },
    };
    match lines {
        NbLines::One => if b == 0xff {
            0x4f
        } else if b == 0x50 {
            0x00
        } else {
            b
        },
        NbLines::Two => if b == 0xff {
            0x27
        } else if b == 0x28 {
            0x00
        } else {
            b
        },
    }
}

/// Everything the framebuffer rendering depends on.
pub struct FrameView {
    pub lines: NbLines,
    pub display_addr: u8,
    pub cursor_on: bool,
    pub ddram_addr: u8,
    pub blink: bool,
    pub ddram: Seq<u8>,
}

/// The rendering-relevant part of a controller state.
pub open spec fn frame_view(l: LCD) -> FrameView {
    FrameView {
        lines: l.config.nb_lines,
        display_addr: l.display_addr,
        cursor_on: l.config.cursor_on,
        ddram_addr: l.ddram_addr,
        blink: l.current_blink,
        ddram: l.ddram_data@,
    }
}

/// The characters one DDRAM cell renders as: a zero-width joiner and a
/// combining underline mark the cursor cell, and the blink phase replaces
/// the cursor cell's glyph with the full block.
pub open spec fn cell_chars(fv: FrameView, addr: int) -> Seq<char> {
    let marker: Seq<char> = if fv.cursor_on && addr == fv.ddram_addr {
        seq!['\u{200c}', '\u{332}']
    } else {
        Seq::empty()
    };
    let g: char = if fv.blink && addr == fv.ddram_addr {
        font_char(0xff)
    } else {
        font_char(fv.ddram[addr])
    };
    marker + seq![g]
}

/// The rendering of the DDRAM cells `start..end`, in address order.
pub open spec fn window_chars(fv: FrameView, start: int, end: int) -> Seq<char>
    decreases end - start,
{
    if end <= start {
        Seq::empty()
    } else {
        window_chars(fv, start, end - 1) + cell_chars(fv, end - 1)
    }
}

/// `n` copies of one character.
pub open spec fn repeat_char(c: char, n: nat) -> Seq<char>
    decreases n,
{
    if n == 0 {
        Seq::empty()
    } else {
        repeat_char(c, (n - 1) as nat).push(c)
    }
}

/// The first display row: sixteen cells from the window start, wrapping
/// around the first line's addresses.
pub open spec fn row1_chars(fv: FrameView) -> Seq<char> {
    let a = fv.display_addr as int;
    match fv.lines {
        NbLines::One => if a > 0x40 {
            window_chars(fv, a, 0x50) + window_chars(fv, 0, a - 0x40)
        } else {
            window_chars(fv, a, a + 0x10)
        },
        NbLines::Two => if a > 0x18 {
            window_chars(fv, a, 0x28) + window_chars(fv, 0, a - 0x18)
        } else {
            window_chars(fv, a, a + 0x10)
        },
    }
}

/// The second display row: blank in one-line mode, sixteen cells from the
/// second line's window start in two-line mode.
pub open spec fn row2_chars(fv: FrameView) -> Seq<char> {
    let a = fv.display_addr as int;
    match fv.lines {
        NbLines::One => repeat_char(' ', 16),
        NbLines::Two => if a > 0x18 {
            window_chars(fv, a + 0x40, 0x68) + window_chars(fv, 0x40, a + 0x28)
        } else {
            window_chars(fv, a + 0x40, a + 0x50)
        },
    }
}

/// The whole framebuffer: both rows framed in box-drawing characters.
pub open spec fn frame_chars(fv: FrameView) -> Seq<char> {
    seq!['\u{2554}'] + repeat_char('\u{2550}', 16) + seq!['\u{2557}', '\n', '\u{2551}']
        + row1_chars(fv) + seq!['\u{2551}', '\n', '\u{2551}'] + row2_chars(fv) + seq![
        '\u{2551}',
        '\n',
        '\u{255a}',
    ] + repeat_char('\u{2550}', 16) + seq!['\u{255d}']
}

/// What one decoded bus transaction does to the controller.  The
/// transaction is the one latched in `pre.pins`; instructions are keyed on
/// the highest set bit of the data byte, data writes land at the cursor and
/// move it by the entry mode, and the documented gaps (CGRAM, reads, the
/// all-zero instruction byte) fail without touching the state.
pub open spec fn decode_rel(pre: LCD, post: LCD, r: Result<(), EmuError>) -> bool {
    let d = pre.pins.data;
    let lines = pre.config.nb_lines;
    if !pre.pins.rs && !pre.pins.rw {
        if bit(d, 7) {
            // Set DDRAM address.
            let a = d & 0x7f;
            if valid_addr(lines, a) {
                &&& r == Ok::<(), EmuError>(())
                &&& post == (LCD {
                    addr_counter: AddrCounter::Ddram,
                    ddram_addr: a,
                    screen: post.screen,
                    frame_pending: true,
                    ..pre
                })
                &&& post.screen@ == frame_chars(frame_view(post))
            } else {
                r == Err::<(), EmuError>(EmuError::InvalidRegister) && post == pre
            }
        } else if bit(d, 6) {
            // Set CGRAM address: a documented gap.
            r == Err::<(), EmuError>(EmuError::Unimplemented) && post == pre
        } else if bit(d, 5) {
            // Function set.
            if !bit(d, 4) && pre.config.data_length == DataLength::Eight {
                // Switching to 4-bit: this byte is the switch itself; the
                // full function set follows as a nibble pair.
                &&& r == Ok::<(), EmuError>(())
                &&& post == (LCD {
                    config: (LCDConfig { data_length: DataLength::Four, ..pre.config }),
                    waiting_for_more_data: true,
                    ..pre
                })
            } else {
                &&& r == Ok::<(), EmuError>(())
                &&& post == (LCD {
                    config: (LCDConfig {
                        data_length: if bit(d, 4) {
                            DataLength::Eight
                        } else {
                            DataLength::Four
                        },
                        nb_lines: if bit(d, 3) {
                            NbLines::Two
                        } else {
                            NbLines::One
                        },
                        font: if bit(d, 2) {
                            Font::FiveByTen
                        } else {
                            Font::FiveByEight
                        },
                        ..pre.config
                    }),
                    waiting_for_more_data: if bit(d, 4) {
                        pre.waiting_for_more_data
                    } else {
                        true
                    },
                    ddram_data: post.ddram_data,
                    ddram_addr: 0,
                    display_addr: 0,
                    screen: post.screen,
                    frame_pending: true,
                    ..pre
                })
                &&& post.ddram_data@ == Seq::new(0x80, |i: int| 0x20u8)
                &&& post.screen@ == frame_chars(frame_view(post))
            }
        } else if bit(d, 4) {
            // Cursor or display shift.
            let dir = if bit(d, 2) {
                ShiftDir::Right
            } else {
                ShiftDir::Left
            };
            &&& r == Ok::<(), EmuError>(())
            &&& post == (LCD {
                ddram_addr: if bit(d, 3) {
                    pre.ddram_addr
                } else {
                    cursor_step(lines, pre.ddram_addr, dir)
                },
                display_addr: if bit(d, 3) {
                    display_step(lines, pre.display_addr, dir)
                } else {
                    pre.display_addr
                },
                screen: post.screen,
                frame_pending: true,
                ..pre
            })
            &&& post.screen@ == frame_chars(frame_view(post))
        } else if bit(d, 3) {
            // Display on/off control.
            &&& r == Ok::<(), EmuError>(())
            &&& post == (LCD {
                config: (LCDConfig {
                    display_on: bit(d, 2),
                    cursor_on: bit(d, 1),
                    blink_on: bit(d, 0),
                    ..pre.config
                }),
                current_blink: if bit(d, 0) {
                    pre.current_blink
                } else {
                    false
                },
                cycles_before_blink: if bit(d, 0) {
                    BLINK_PERIOD
                } else {
                    pre.cycles_before_blink
                },
                screen: post.screen,
                frame_pending: true,
                ..pre
            })
            &&& post.screen@ == frame_chars(frame_view(post))
        } else if bit(d, 2) {
            // Entry mode set.
            &&& r == Ok::<(), EmuError>(())
            &&& post == (LCD {
                config: (LCDConfig {
                    shift_dir: if bit(d, 1) {
                        ShiftDir::Right
                    } else {
                        ShiftDir::Left
                    },
                    display_behavior: if bit(d, 0) {
                        DisplayBehavior::Both
                    } else {
                        DisplayBehavior::MoveCursor
                    },
                    ..pre.config
                }),
                ..pre
            })
        } else if bit(d, 1) {
            // Return home.
            &&& r == Ok::<(), EmuError>(())
            &&& post == (LCD {
                addr_counter: AddrCounter::Ddram,
                ddram_addr: 0,
                display_addr: 0,
                screen: post.screen,
                frame_pending: true,
                ..pre
            })
            &&& post.screen@ == frame_chars(frame_view(post))
        } else if bit(d, 0) {
            // Clear display.
            &&& r == Ok::<(), EmuError>(())
            &&& post == (LCD {
                ddram_data: post.ddram_data,
                addr_counter: AddrCounter::Ddram,
                ddram_addr: 0,
                display_addr: 0,
                config: (LCDConfig { shift_dir: ShiftDir::Right, ..pre.config }),
                screen: post.screen,
                frame_pending: true,
                ..pre
            })
            &&& post.ddram_data@ == Seq::new(0x80, |i: int| 0x20u8)
            &&& post.screen@ == frame_chars(frame_view(post))
        } else {
            // The all-zero instruction byte is undocumented.
            r == Err::<(), EmuError>(EmuError::Unimplemented) && post == pre
        }
    } else if pre.pins.rs && !pre.pins.rw {
        match pre.addr_counter {
            AddrCounter::Ddram => {
                // Write to DDRAM at the cursor, then move per entry mode.
                let dir = pre.config.shift_dir;
                let beh = pre.config.display_behavior;
                &&& r == Ok::<(), EmuError>(())
                &&& post == (LCD {
                    ddram_data: post.ddram_data,
                    ddram_addr: if beh != DisplayBehavior::ShiftDisplay {
                        cursor_step(lines, pre.ddram_addr, dir)
                    } else {
                        pre.ddram_addr
                    },
                    display_addr: if beh != DisplayBehavior::MoveCursor {
                        display_step(lines, pre.display_addr, dir)
                    } else {
                        pre.display_addr
                    },
                    screen: post.screen,
                    frame_pending: true,
                    ..pre
                })
                &&& post.ddram_data@ == pre.ddram_data@.update(pre.ddram_addr as int, d)
                &&& post.screen@ == frame_chars(frame_view(post))
            },
            AddrCounter::Cgram => {
                r == Err::<(), EmuError>(EmuError::Unimplemented) && post == pre
            },
        }
    } else {
        // Busy-flag and data read-back are documented gaps.
        r == Err::<(), EmuError>(EmuError::Unimplemented) && post == pre
    }
}

/// What one transaction-level pin message does: a first 4-bit half is
/// latched, a second half must repeat the control pins and completes the
/// byte as `high_nibble | (second_high_nibble >> 4)`, and a complete
/// transaction is decoded.
pub open spec fn pin_change_rel(pre: LCD, post: LCD, new_pins: LCDPins, r: Result<
    (),
    EmuError,
>) -> bool {
    if pre.waiting_for_more_data {
        r == Ok::<(), EmuError>(()) && post == (LCD {
            pins: new_pins,
            waiting_for_more_data: false,
            ..pre
        })
    } else if pre.config.data_length == DataLength::Four {
        if new_pins.rs != pre.pins.rs || new_pins.rw != pre.pins.rw {
            r == Err::<(), EmuError>(EmuError::ProtocolMismatch) && post == pre
        } else {
            decode_rel(
                LCD {
                    pins: (LCDPins { data: pre.pins.data | (new_pins.data >> 4), ..pre.pins }),
                    waiting_for_more_data: true,
                    ..pre
                },
                post,
                r,
            )
        }
    } else {
        decode_rel(LCD { pins: new_pins, ..pre }, post, r)
    }
}

/// Append `n` copies of `c`.
fn push_repeat(v: &mut Vec<char>, c: char, n: u8)
    ensures
        final(v)@ == old(v)@ + repeat_char(c, n as nat),
{
    let ghost v0 = old(v)@;
    let mut k: u8 = 0;
    while k < n
        invariant
            k <= n,
            v@ == v0 + repeat_char(c, k as nat),
        decreases n - k,
    {
        v.push(c);
        proof {
            assert(v@ =~= v0 + repeat_char(c, (k + 1) as nat));
        }
        k = k + 1;
    }
}

/// Gather a vector of characters into one string.
///
/// Relies on String's FromIterator collection: the string holds exactly
/// the given characters in order.
#[verifier::external_body]
fn chars_to_string(v: &Vec<char>) -> (s: String)
    ensures
        s@ == v@,
{
    v.iter().collect()
}

impl LCD {
    /// The DDRAM backing is complete and both address counters point into
    /// the valid subset of the current line mode.
    pub open spec fn wf(&self) -> bool {
        &&& self.ddram_data.len() == 0x80
        &&& valid_addr(self.config.nb_lines, self.ddram_addr)
        &&& valid_display_addr(self.config.nb_lines, self.display_addr)
    }

    /// A controller in its power-on state: 8-bit bus, one line, display
    /// on, cursor and blink off, DDRAM full of noise (0xFF), and the
    /// framebuffer freshly rendered.
    pub fn new() -> (l: LCD)
        ensures
            l.wf(),
            l.config == (LCDConfig {
                data_length: DataLength::Eight,
                nb_lines: NbLines::One,
                font: Font::FiveByEight,
                display_on: true,
                cursor_on: false,
                blink_on: false,
                shift_dir: ShiftDir::Right,
                display_behavior: DisplayBehavior::MoveCursor,
            }),
            l.ddram_addr == 0 && l.display_addr == 0,
            l.ddram_data@ == Seq::new(0x80, |i: int| 0xffu8),
            !l.waiting_for_more_data && !l.current_blink,
            l.cycles_before_blink == BLINK_PERIOD,
            l.addr_counter == AddrCounter::Ddram,
            l.pins == (LCDPins { rs: false, rw: false, data: 0 }),
            !l.wire_rs && !l.wire_rw && !l.wire_e && l.wire_data == 0,
            l.gate == UpdateGate::All,
            l.frame_pending,
            l.screen@ == frame_chars(frame_view(l)),
    {
        let mut ddram: Vec<u8> = Vec::new();
        let mut i: usize = 0;
        while i < 0x80
            invariant
                i <= 0x80,
                ddram.len() == i,
                forall|j: int| 0 <= j < i ==> ddram@[j] == 0xffu8,
            decreases 0x80 - i,
        {
            ddram.push(0xff);
            i = i + 1;
        }
        proof {
            assert(ddram@ =~= Seq::new(0x80, |j: int| 0xffu8));
        }
        let mut l = LCD {
            pins: LCDPins { rs: false, rw: false, data: 0 },
            screen: Vec::new(),
            current_blink: false,
            cycles_before_blink: BLINK_PERIOD,
            display_addr: 0,
            addr_counter: AddrCounter::Ddram,
            ddram_data: ddram,
            ddram_addr: 0,
            config: LCDConfig {
                data_length: DataLength::Eight,
                nb_lines: NbLines::One,
                font: Font::FiveByEight,
                display_on: true,
                cursor_on: false,
                blink_on: false,
                shift_dir: ShiftDir::Right,
                display_behavior: DisplayBehavior::MoveCursor,
            },
            waiting_for_more_data: false,
            wire_rs: false,
            wire_rw: false,
            wire_e: false,
            wire_data: 0,
            gate: UpdateGate::All,
            frame_pending: false,
        };
        l.update_screen();
        l
    }

    /// The rendering of the DDRAM cells `start_addr..end_addr`, as a
    /// character vector.
    fn ddram_chars(&self, start_addr: u8, end_addr: u8) -> (v: Vec<char>)
        requires
            self.ddram_data.len() == 0x80,
            start_addr <= end_addr,
            end_addr <= 0x80,
        ensures
            v@ == window_chars(frame_view(*self), start_addr as int, end_addr as int),
    {
        let ghost fv = frame_view(*self);
        let mut v: Vec<char> = Vec::new();
        let mut i: u8 = start_addr;
        while i < end_addr
            invariant
                start_addr <= i <= end_addr,
                end_addr <= 0x80,
                self.ddram_data.len() == 0x80,
                fv == frame_view(*self),
                v@ == window_chars(fv, start_addr as int, i as int),
            decreases end_addr - i,
        {
            if self.config.cursor_on && i == self.ddram_addr {
                v.push('\u{200c}');
                v.push('\u{332}');
            }
            let code: u8 = if self.current_blink && i == self.ddram_addr {
                0xff
            } else {
                self.ddram_data[i as usize]
            };
            let g = glyph(code);
            v.push(g);
            proof {
                assert(window_chars(fv, start_addr as int, (i + 1) as int) == window_chars(
                    fv,
                    start_addr as int,
                    i as int,
                ) + cell_chars(fv, i as int));
                assert(v@ =~= window_chars(fv, start_addr as int, i as int) + cell_chars(
                    fv,
                    i as int,
                ));
            }
            i = i + 1;
        }
        v
    }

    /// The rendering of the DDRAM cells `start_addr..end_addr`, as a
    /// string.
    pub fn ddram_to_string(&self, start_addr: u8, end_addr: u8) -> (s: String)
        requires
            self.ddram_data.len() == 0x80,
            start_addr <= end_addr,
            end_addr <= 0x80,
        ensures
            s@ == window_chars(frame_view(*self), start_addr as int, end_addr as int),
    {
        let v = self.ddram_chars(start_addr, end_addr);
        chars_to_string(&v)
    }

    /// Re-render the framebuffer from the current state and mark a frame
    /// as pending for the next allowed snapshot.
    #[verifier::rlimit(100)]
    pub fn update_screen(&mut self)
        requires
            old(self).wf(),
        ensures
            *final(self) == (LCD {
                screen: final(self).screen,
                frame_pending: true,
                ..*old(self)
            }),
            final(self).screen@ == frame_chars(frame_view(*old(self))),
    {
        let ghost fv = frame_view(*self);
        let mut s: Vec<char> = Vec::new();
        s.push('\u{2554}');
        push_repeat(&mut s, '\u{2550}', 16);
        s.push('\u{2557}');
        s.push('\n');
        s.push('\u{2551}');
        let ghost head = seq!['\u{2554}'] + repeat_char('\u{2550}', 16) + seq![
            '\u{2557}',
            '\n',
            '\u{2551}',
        ];
        proof {
            assert(s@ =~= head);
        }
        match self.config.nb_lines {
            NbLines::One => {
                if self.display_addr > 0x40 {
                    let mut r = self.ddram_chars(self.display_addr, 0x50);
                    s.append(&mut r);
                    let mut r2 = self.ddram_chars(0, self.display_addr - 0x40);
                    s.append(&mut r2);
                } else {
                    let mut r = self.ddram_chars(self.display_addr, self.display_addr + 0x10);
                    s.append(&mut r);
                }
            },
            NbLines::Two => {
                if self.display_addr > 0x18 {
                    let mut r = self.ddram_chars(self.display_addr, 0x28);
                    s.append(&mut r);
                    let mut r2 = self.ddram_chars(0, self.display_addr - 0x18);
                    s.append(&mut r2);
                } else {
                    let mut r = self.ddram_chars(self.display_addr, self.display_addr + 0x10);
                    s.append(&mut r);
                }
            },
        }
        proof {
            assert(s@ =~= head + row1_chars(fv));
        }
        s.push('\u{2551}');
        s.push('\n');
        s.push('\u{2551}');
        match self.config.nb_lines {
            NbLines::One => {
                push_repeat(&mut s, ' ', 16);
            },
            NbLines::Two => {
                if self.display_addr > 0x18 {
                    let mut r = self.ddram_chars(self.display_addr + 0x40, 0x68);
                    s.append(&mut r);
                    let mut r2 = self.ddram_chars(0x40, self.display_addr + 0x28);
                    s.append(&mut r2);
                } else {
                    let mut r = self.ddram_chars(
                        self.display_addr + 0x40,
                        self.display_addr + 0x50,
                    );
                    s.append(&mut r);
                }
            },
        }
        proof {
            assert(s@ =~= head + row1_chars(fv) + seq!['\u{2551}', '\n', '\u{2551}'] + row2_chars(
                fv,
            ));
        }
        s.push('\u{2551}');
        s.push('\n');
        s.push('\u{255a}');
        push_repeat(&mut s, '\u{2550}', 16);
        s.push('\u{255d}');
        proof {
            assert(s@ =~= frame_chars(fv));
        }
        self.screen = s;
        self.frame_pending = true;
    }

    /// Move the cursor and/or the display window one place in the given
    /// direction, wrapping around the valid DDRAM subset, and re-render.
    pub fn cursor_display_shift(&mut self, shift_dir: ShiftDir, display_behavior: DisplayBehavior)
        requires
            old(self).wf(),
        ensures
            final(self).wf(),
            *final(self) == (LCD {
                ddram_addr: final(self).ddram_addr,
                display_addr: final(self).display_addr,
                screen: final(self).screen,
                frame_pending: true,
                ..*old(self)
            }),
            final(self).ddram_addr == (if display_behavior != DisplayBehavior::ShiftDisplay {
                cursor_step(old(self).config.nb_lines, old(self).ddram_addr, shift_dir)
            } else {
                old(self).ddram_addr
            }),
            final(self).display_addr == (if display_behavior != DisplayBehavior::MoveCursor {
                display_step(old(self).config.nb_lines, old(self).display_addr, shift_dir)
            } else {
                old(self).display_addr
            }),
            final(self).screen@ == frame_chars(frame_view(*final(self))),
    {
        if !matches!(display_behavior, DisplayBehavior::ShiftDisplay) {
            let b: u8 = match shift_dir {
                ShiftDir::Left => if self.ddram_addr == 0 {
                    0xff
                } else {
                    self.ddram_addr - 1
                },
                ShiftDir::Right => if self.ddram_addr == 0xff {
                    0
                } else {
                    self.ddram_addr + 1
                },
            };
            self.ddram_addr = match self.config.nb_lines {
                NbLines::One => if b == 0xff {
                    0x4f
                } else if b == 0x50 {
                    0x00
                } else {
                    b
                },
                NbLines::Two => if b == 0xff {
                    0x67
                } else if b == 0x28 {
                    0x40
                } else if b == 0x3f {
                    0x27
                } else if b == 0x68 {
                    0x00
                } else {
                    b
                },
            };
        }
        if !matches!(display_behavior, DisplayBehavior::MoveCursor) {
            let b: u8 = match shift_dir {
                ShiftDir::Left => if self.display_addr == 0 {
                    0xff
                } else {
                    self.display_addr - 1
                },
                ShiftDir::Right => if self.display_addr == 0xff {
                    0
                } else {
                    self.display_addr + 1
                },
            };
            self.display_addr = match self.config.nb_lines {
                NbLines::One => if b == 0xff {
                    0x4f
                } else if b == 0x50 {
                    0x00
                } else {
                    b
                },
                NbLines::Two => if b == 0xff {
                    0x27
                } else if b == 0x28 {
                    0x00
                } else {
                    b
                },
            };
        }
        self.update_screen();
    }

    /// Fill every DDRAM cell with one value.
    fn fill_ddram(&mut self, value: u8)
        requires
            old(self).ddram_data.len() == 0x80,
        ensures
            *final(self) == (LCD { ddram_data: final(self).ddram_data, ..*old(self) }),
            final(self).ddram_data@ == Seq::new(0x80, |i: int| value),
    {
        let mut i: usize = 0;
        while i < 0x80
            invariant
                i <= 0x80,
                self.ddram_data.len() == 0x80,
                forall|j: int| 0 <= j < i ==> self.ddram_data@[j] == value,
                *self == (LCD { ddram_data: self.ddram_data, ..*old(self) }),
            decreases 0x80 - i,
        {
            self.ddram_data[i] = value;
            i = i + 1;
        }
        proof {
            assert(self.ddram_data@ =~= Seq::new(0x80, |i: int| value));
        }
    }
}

impl LCD {
    /// The set-address, CGRAM and function-set instructions (a set top
    /// bit of the data byte).
    #[verifier::rlimit(100)]
    fn instr_high(&mut self) -> (r: Result<(), EmuError>)
        requires
            old(self).wf(),
            !old(self).pins.rs && !old(self).pins.rw,
            bit(old(self).pins.data, 7) || bit(old(self).pins.data, 6) || bit(
                old(self).pins.data,
                5,
            ),
        ensures
            final(self).wf(),
            decode_rel(*old(self), *final(self), r),
    {
        let d = self.pins.data;
        {
            if get_bit(d, 7) {
                let a = d & 0x7f;
                let ok = match self.config.nb_lines {
                    NbLines::One => a <= 0x4f,
                    NbLines::Two => a <= 0x27 || (0x40 <= a && a <= 0x67),
                };
                if ok {
                    self.addr_counter = AddrCounter::Ddram;
                    self.ddram_addr = a;
                    self.update_screen();
                    Ok(())
                } else {
                    Err(EmuError::InvalidRegister)
                }
            } else if get_bit(d, 6) {
                Err(EmuError::Unimplemented)
            } else if get_bit(d, 5) {
                if !get_bit(d, 4) && matches!(self.config.data_length, DataLength::Eight) {
                    self.config.data_length = DataLength::Four;
                    self.waiting_for_more_data = true;
                    Ok(())
                } else {
                    self.config.data_length = if get_bit(d, 4) {
                        DataLength::Eight
                    } else {
                        DataLength::Four
                    };
                    if !get_bit(d, 4) {
                        self.waiting_for_more_data = true;
                    }
                    self.config.nb_lines = if get_bit(d, 3) {
                        NbLines::Two
                    } else {
                        NbLines::One
                    };
                    self.config.font = if get_bit(d, 2) {
                        Font::FiveByTen
                    } else {
                        Font::FiveByEight
                    };
                    self.fill_ddram(0x20);
                    self.ddram_addr = 0;
                    self.display_addr = 0;
                    self.update_screen();
                    Ok(())
                }
            } else {
                Err(EmuError::Unimplemented)
            }
        }
    }

    /// The shift and display-control instructions.
    #[verifier::rlimit(100)]
    fn instr_mid(&mut self) -> (r: Result<(), EmuError>)
        requires
            old(self).wf(),
            !old(self).pins.rs && !old(self).pins.rw,
            !bit(old(self).pins.data, 7) && !bit(old(self).pins.data, 6) && !bit(
                old(self).pins.data,
                5,
            ),
            bit(old(self).pins.data, 4) || bit(old(self).pins.data, 3),
        ensures
            final(self).wf(),
            decode_rel(*old(self), *final(self), r),
    {
        let d = self.pins.data;
        {
            if get_bit(d, 4) {
                let dir = if get_bit(d, 2) {
                    ShiftDir::Right
                } else {
                    ShiftDir::Left
                };
                let beh = if get_bit(d, 3) {
                    DisplayBehavior::ShiftDisplay
                } else {
                    DisplayBehavior::MoveCursor
                };
                self.cursor_display_shift(dir, beh);
                Ok(())
            } else if get_bit(d, 3) {
                self.config.display_on = get_bit(d, 2);
                self.config.cursor_on = get_bit(d, 1);
                if get_bit(d, 0) {
                    self.config.blink_on = true;
                    self.cycles_before_blink = BLINK_PERIOD;
                } else {
                    self.config.blink_on = false;
                    self.current_blink = false;
                }
                self.update_screen();
                Ok(())
            } else {
                Err(EmuError::Unimplemented)
            }
        }
    }

    /// The entry-mode and return-home instructions, and the undocumented
    /// all-zero byte.
    #[verifier::rlimit(100)]
    fn instr_low(&mut self) -> (r: Result<(), EmuError>)
        requires
            old(self).wf(),
            !old(self).pins.rs && !old(self).pins.rw,
            !bit(old(self).pins.data, 7) && !bit(old(self).pins.data, 6) && !bit(
                old(self).pins.data,
                5,
            ),
            !bit(old(self).pins.data, 4) && !bit(old(self).pins.data, 3),
            bit(old(self).pins.data, 2) || bit(old(self).pins.data, 1) || !bit(
                old(self).pins.data,
                0,
            ),
        ensures
            final(self).wf(),
            decode_rel(*old(self), *final(self), r),
    {
        let d = self.pins.data;
        {
            if get_bit(d, 2) {
                self.config.shift_dir = if get_bit(d, 1) {
                    ShiftDir::Right
                } else {
                    ShiftDir::Left
                };
                self.config.display_behavior = if get_bit(d, 0) {
                    DisplayBehavior::Both
                } else {
                    DisplayBehavior::MoveCursor
                };
                Ok(())
            } else if get_bit(d, 1) {
                self.addr_counter = AddrCounter::Ddram;
                self.ddram_addr = 0;
                self.display_addr = 0;
                self.update_screen();
                Ok(())
            } else {
                Err(EmuError::Unimplemented)
            }
        }
    }

    /// The clear-display instruction.
    #[verifier::rlimit(100)]
    fn instr_clear(&mut self) -> (r: Result<(), EmuError>)
        requires
            old(self).wf(),
            !old(self).pins.rs && !old(self).pins.rw,
            old(self).pins.data == 1,
        ensures
            final(self).wf(),
            decode_rel(*old(self), *final(self), r),
    {
        proof {
            crate::bits::lemma_bit_ops(1, 1);
            assert(bit(1u8, 0) && !bit(1u8, 1) && !bit(1u8, 2) && !bit(1u8, 3) && !bit(1u8, 4)
                && !bit(1u8, 5) && !bit(1u8, 6) && !bit(1u8, 7)) by (bit_vector);
        }
        self.fill_ddram(0x20);
        self.addr_counter = AddrCounter::Ddram;
        self.ddram_addr = 0;
        self.display_addr = 0;
        self.config.shift_dir = ShiftDir::Right;
        self.update_screen();
        Ok(())
    }

    /// Decode and perform the transaction latched in `pins`.
    #[verifier::rlimit(100)]
    pub fn read_pins(&mut self) -> (r: Result<(), EmuError>)
        requires
            old(self).wf(),
        ensures
            final(self).wf(),
            decode_rel(*old(self), *final(self), r),
    {
        let d = self.pins.data;
        if !self.pins.rs && !self.pins.rw {
            if get_bit(d, 7) || get_bit(d, 6) || get_bit(d, 5) {
                self.instr_high()
            } else if get_bit(d, 4) || get_bit(d, 3) {
                self.instr_mid()
            } else if get_bit(d, 2) || get_bit(d, 1) || !get_bit(d, 0) {
                self.instr_low()
            } else {
                proof {
                    assert(d == 1) by (bit_vector)
                        requires
                            !bit(d, 7) && !bit(d, 6) && !bit(d, 5) && !bit(d, 4) && !bit(d, 3)
                                && !bit(d, 2) && !bit(d, 1) && bit(d, 0),
                    ;
                }
                self.instr_clear()
            }
        } else if self.pins.rs && !self.pins.rw {
            match self.addr_counter {
                AddrCounter::Ddram => {
                    let a = self.ddram_addr;
                    self.ddram_data[a as usize] = d;
                    let dir = self.config.shift_dir;
                    let beh = self.config.display_behavior;
                    self.cursor_display_shift(dir, beh);
                    Ok(())
                },
                AddrCounter::Cgram => Err(EmuError::Unimplemented),
            }
        } else {
            Err(EmuError::Unimplemented)
        }
    }

    /// Take one transaction-level pin message: latch a first 4-bit half,
    /// check and complete a second half, decode a complete transaction.
    pub fn pin_change(&mut self, new_pins: LCDPins) -> (r: Result<(), EmuError>)
        requires
            old(self).wf(),
        ensures
            final(self).wf(),
            pin_change_rel(*old(self), *final(self), new_pins, r),
    {
        if self.waiting_for_more_data {
            self.pins = new_pins;
            self.waiting_for_more_data = false;
            Ok(())
        } else if matches!(self.config.data_length, DataLength::Four) {
            if self.pins.rs != new_pins.rs || self.pins.rw != new_pins.rw {
                Err(EmuError::ProtocolMismatch)
            } else {
                self.pins.data = self.pins.data | (new_pins.data >> 4);
                self.waiting_for_more_data = true;
                self.read_pins()
            }
        } else {
            self.pins = new_pins;
            self.read_pins()
        }
    }

    /// Take one transaction-level message as the worker loop hands it over.
    pub fn handle_cpu_message(&mut self, msg: CpuToLcdMessage) -> (r: Result<(), EmuError>)
        requires
            old(self).wf(),
        ensures
            final(self).wf(),
            match msg {
                CpuToLcdMessage::PinChange(p) => pin_change_rel(*old(self), *final(self), p, r),
                CpuToLcdMessage::Exit => r == Ok::<(), EmuError>(()) && *final(self) == *old(self),
            },
    {
        match msg {
            CpuToLcdMessage::PinChange(p) => self.pin_change(p),
            CpuToLcdMessage::Exit => Ok(()),
        }
    }

    /// One tick of the controller's time base: while blinking is on, the
    /// countdown runs and the blink phase inverts when it expires.
    pub fn tick(&mut self)
        requires
            old(self).wf(),
        ensures
            final(self).wf(),
            if old(self).config.blink_on {
                if old(self).cycles_before_blink == 0 {
                    &&& *final(self) == (LCD {
                        cycles_before_blink: BLINK_PERIOD,
                        current_blink: !old(self).current_blink,
                        screen: final(self).screen,
                        frame_pending: true,
                        ..*old(self)
                    })
                    &&& final(self).screen@ == frame_chars(frame_view(*final(self)))
                } else {
                    *final(self) == (LCD {
                        cycles_before_blink: (old(self).cycles_before_blink - 1) as u32,
                        ..*old(self)
                    })
                }
            } else {
                *final(self) == *old(self)
            },
    {
        if self.config.blink_on {
            if self.cycles_before_blink == 0 {
                self.cycles_before_blink = BLINK_PERIOD;
                self.current_blink = !self.current_blink;
                self.update_screen();
            } else {
                self.cycles_before_blink = self.cycles_before_blink - 1;
            }
        }
    }

    /// Take one pin-edge message from the orchestrator: data, control and
    /// enable wires are latched, a rising enable edge carries a
    /// transaction, and the gating messages set the snapshot gate.
    pub fn receive(&mut self, msg: SysToLcdMessage) -> (r: Result<(), EmuError>)
        requires
            old(self).wf(),
            msg matches SysToLcdMessage::DataPinChange(b, _) ==> 4 <= b < 8,
        ensures
            final(self).wf(),
            match msg {
                SysToLcdMessage::DataPinChange(b, level) => r == Ok::<(), EmuError>(())
                    && *final(self) == (LCD {
                    wire_data: spec_set_bit(old(self).wire_data, b, level),
                    ..*old(self)
                }),
                SysToLcdMessage::EnablePinChange(level) => if level && !old(self).wire_e {
                    pin_change_rel(
                        LCD { wire_e: true, ..*old(self) },
                        *final(self),
                        LCDPins {
                            rs: old(self).wire_rs,
                            rw: old(self).wire_rw,
                            data: old(self).wire_data,
                        },
                        r,
                    )
                } else {
                    r == Ok::<(), EmuError>(()) && *final(self) == (LCD {
                        wire_e: level,
                        ..*old(self)
                    })
                },
                SysToLcdMessage::ReadWritePinChange(level) => r == Ok::<(), EmuError>(())
                    && *final(self) == (LCD { wire_rw: level, ..*old(self) }),
                SysToLcdMessage::RegisterPinChange(level) => r == Ok::<(), EmuError>(())
                    && *final(self) == (LCD { wire_rs: level, ..*old(self) }),
                SysToLcdMessage::AllowOneUpdate => r == Ok::<(), EmuError>(()) && *final(self)
                    == (LCD { gate: UpdateGate::One, ..*old(self) }),
                SysToLcdMessage::AllowAllUpdates => r == Ok::<(), EmuError>(()) && *final(self)
                    == (LCD { gate: UpdateGate::All, ..*old(self) }),
                SysToLcdMessage::Exit => r == Ok::<(), EmuError>(()) && *final(self) == *old(
                    self,
                ),
            },
    {
        match msg {
            SysToLcdMessage::DataPinChange(b, level) => {
                self.wire_data = set_bit(self.wire_data, b, level);
                Ok(())
            },
            SysToLcdMessage::EnablePinChange(level) => {
                if level && !self.wire_e {
                    self.wire_e = true;
                    let pins = LCDPins { rs: self.wire_rs, rw: self.wire_rw, data: self.wire_data };
                    self.pin_change(pins)
                } else {
                    self.wire_e = level;
                    Ok(())
                }
            },
            SysToLcdMessage::ReadWritePinChange(level) => {
                self.wire_rw = level;
                Ok(())
            },
            SysToLcdMessage::RegisterPinChange(level) => {
                self.wire_rs = level;
                Ok(())
            },
            SysToLcdMessage::AllowOneUpdate => {
                self.gate = UpdateGate::One;
                Ok(())
            },
            SysToLcdMessage::AllowAllUpdates => {
                self.gate = UpdateGate::All;
                Ok(())
            },
            SysToLcdMessage::Exit => Ok(()),
        }
    }

    /// Hand out the rendered framebuffer if a frame is pending and the
    /// gate allows one: a single grant closes behind it.
    pub fn take_frame(&mut self) -> (f: Option<String>)
        requires
            old(self).wf(),
        ensures
            final(self).wf(),
            if old(self).frame_pending && old(self).gate != UpdateGate::Hold {
                &&& f matches Some(s) && s@ == old(self).screen@
                &&& *final(self) == (LCD {
                    frame_pending: false,
                    gate: if old(self).gate == UpdateGate::One {
                        UpdateGate::Hold
                    } else {
                        old(self).gate
                    },
                    ..*old(self)
                })
            } else {
                f is None && *final(self) == *old(self)
            },
    {
        if self.frame_pending && !matches!(self.gate, UpdateGate::Hold) {
            self.frame_pending = false;
            if matches!(self.gate, UpdateGate::One) {
                self.gate = UpdateGate::Hold;
            }
            Some(chars_to_string(&self.screen))
        } else {
            None
        }
    }
}

} // verus!
