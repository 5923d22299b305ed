//! The renderer's line state machine: the line counter, the mode bits of
//! the status register and the interrupts they raise.

use crate::bus::{spec_stat_with_mode, stat_with_mode};
use crate::host::LCD_HEIGHT;
use crate::interrupt::{LCDC_INTR, VBLANK_INTR};
use crate::state::LCD_VERT_LINES;
use crate::timer::LCD_LINE_CYCLES;
use vstd::prelude::*;

verus! {

pub const STAT_LYC_INTR: u8 = 0x40;

pub const STAT_MODE_2_INTR: u8 = 0x20;

pub const STAT_MODE_1_INTR: u8 = 0x10;

pub const STAT_MODE_0_INTR: u8 = 0x08;

pub const STAT_LYC_COINC: u8 = 0x04;

pub const LCD_MODE_0_CYCLES: u16 = 372;

pub const LCD_MODE_2_CYCLES: u16 = 204;

pub const LCD_MODE_3_CYCLES: u16 = 284;

pub const IO_STAT_MODE_HBLANK: u8 = 0;

pub const IO_STAT_MODE_VBLANK: u8 = 1;

pub const IO_STAT_MODE_SEARCH_OAM: u8 = 2;

pub const IO_STAT_MODE_SEARCH_TRANSFER: u8 = 3;

/// What the line state machine reads and writes.
#[derive(Clone, Copy, Debug, PartialEq, Eq, Structural)]
pub struct LcdRegs {
    pub lcdc: u8,
    pub stat: u8,
    pub ly: u8,
    pub lyc: u8,
    /// The window's top line as the program last wrote it.
    pub wy_reg: u8,
    pub iflag: u8,
    pub lcd_count: u16,
    pub double_speed: u8,
    pub frame: bool,
    pub lcd_blank: bool,
    /// The window's top line as sampled at the start of the frame.
    pub wy: u8,
    pub window_clear: u8,
    pub frame_skip: bool,
    pub interlace: bool,
    pub frame_skip_count: bool,
    pub interlace_count: bool,
}

/// The registers after a tick, and what the tick asks for.
#[derive(Clone, Copy, Debug, PartialEq, Eq, Structural)]
pub struct LcdOut {
    pub regs: LcdRegs,
    /// The cycles until the next line event, where the tick started a new
    /// part of the line; else the cycles of the tick.
    pub cycles: u8,
    /// A new visible line began: a per-line transfer moves its next block.
    pub hblank: bool,
    /// The transfer of a visible line began: the line is to be drawn.
    pub draw: bool,
}

/// The request register with the status interrupt raised where the status
/// register enables the given source.
pub open spec fn spec_raise_stat(iflag: u8, stat: u8, source: u8) -> u8 {
    if stat & source != 0 {
        iflag | LCDC_INTR
    } else {
        iflag
    }
}

pub fn raise_stat(iflag: u8, stat: u8, source: u8) -> (r: u8)
    ensures
        r == spec_raise_stat(iflag, stat, source),
{
    if stat & source != 0 {
        iflag | LCDC_INTR
    } else {
        iflag
    }
}

/// The cycles that the line counter gains from a tick: half of them at
/// double speed.
pub open spec fn spec_lcd_gain(double_speed: u8, cycles: u8) -> u16 {
    if double_speed != 0 && cycles > 1 {
        (cycles / 2) as u16
    } else {
        cycles as u16
    }
}

/// The registers after the line counter passed the end of a line: the
/// next line begins, is compared with the compare register, and enters
/// vertical blank at line 144 or the first part of a visible line below it.
#[verifier::opaque]
pub open spec fn spec_next_line(r: LcdRegs, count: u16, cycles: u8) -> LcdOut {
    let ly = ((r.ly + 1) % (LCD_VERT_LINES as int)) as u8;
    let stat1 = if ly == r.lyc {
        r.stat | STAT_LYC_COINC
    } else {
        r.stat & 0xFB
    };
    let if1 = if ly == r.lyc {
        spec_raise_stat(r.iflag, stat1, STAT_LYC_INTR)
    } else {
        r.iflag
    };
    if ly == LCD_HEIGHT {
        let stat2 = spec_stat_with_mode(stat1, IO_STAT_MODE_VBLANK);
        let skip = if r.frame_skip {
            !r.frame_skip_count
        } else {
            r.frame_skip_count
        };
        LcdOut {
            regs: LcdRegs {
                ly,
                stat: stat2,
                iflag: spec_raise_stat(if1 | VBLANK_INTR, stat2, STAT_MODE_1_INTR),
                lcd_count: count,
                frame: true,
                lcd_blank: false,
                frame_skip_count: skip,
                interlace_count: if r.interlace && (!r.frame_skip || skip) {
                    !r.interlace_count
                } else {
                    r.interlace_count
                },
                ..r
            },
            cycles,
            hblank: false,
            draw: false,
        }
    } else if ly < LCD_HEIGHT {
        let stat2 = spec_stat_with_mode(stat1, IO_STAT_MODE_HBLANK);
        LcdOut {
            regs: LcdRegs {
                ly,
                stat: stat2,
                iflag: spec_raise_stat(if1, stat2, STAT_MODE_0_INTR),
                lcd_count: count,
                wy: if ly == 0 {
                    r.wy_reg
                } else {
                    r.wy
                },
                window_clear: if ly == 0 {
                    0
                } else {
                    r.window_clear
                },
                ..r
            },
            cycles: if count < LCD_MODE_2_CYCLES {
                (LCD_MODE_2_CYCLES - count) as u8
            } else {
                cycles
            },
            hblank: true,
            draw: false,
        }
    } else {
        LcdOut {
            regs: LcdRegs { ly, stat: stat1, iflag: if1, lcd_count: count, ..r },
            cycles,
            hblank: false,
            draw: false,
        }
    }
}

/// The registers after a tick of `cycles` cycles.  With the LCD off
/// nothing moves.  Else the line counter advances; at the end of a line
/// the next line begins, and within a visible line the mode goes from the
/// first part of the line to the OAM search at 204 cycles and on to the
/// transfer at 284, where the line is drawn unless the frame is blanked.
#[verifier::opaque]
pub open spec fn spec_lcd_advance(r: LcdRegs, cycles: u8) -> LcdOut {
    if r.lcdc & 0x80 == 0 {
        LcdOut { regs: r, cycles, hblank: false, draw: false }
    } else {
        let c = (r.lcd_count + spec_lcd_gain(r.double_speed, cycles)) as u16;
        if c >= LCD_LINE_CYCLES {
            spec_next_line(r, (c - LCD_LINE_CYCLES) as u16, cycles)
        } else if r.stat & 0x03 == IO_STAT_MODE_HBLANK && c >= LCD_MODE_2_CYCLES {
            let stat = spec_stat_with_mode(r.stat, IO_STAT_MODE_SEARCH_OAM);
            LcdOut {
                regs: LcdRegs {
                    stat,
                    iflag: spec_raise_stat(r.iflag, stat, STAT_MODE_2_INTR),
                    lcd_count: c,
                    ..r
                },
                cycles: if c < LCD_MODE_3_CYCLES {
                    (LCD_MODE_3_CYCLES - c) as u8
                } else {
                    cycles
                },
                hblank: false,
                draw: false,
            }
        } else if r.stat & 0x03 == IO_STAT_MODE_SEARCH_OAM && c >= LCD_MODE_3_CYCLES {
            LcdOut {
                regs: LcdRegs {
                    stat: spec_stat_with_mode(r.stat, IO_STAT_MODE_SEARCH_TRANSFER),
                    lcd_count: c,
                    ..r
                },
                cycles: if c < LCD_MODE_0_CYCLES {
                    (LCD_MODE_0_CYCLES - c) as u8
                } else {
                    cycles
                },
                hblank: false,
                draw: !r.lcd_blank,
            }
        } else {
            LcdOut { regs: LcdRegs { lcd_count: c, ..r }, cycles, hblank: false, draw: false }
        }
    }
}

fn next_line(r: LcdRegs, count: u16, cycles: u8) -> (o: LcdOut)
    requires
        r.ly < LCD_VERT_LINES,
        count < LCD_LINE_CYCLES,
        cycles >= 1,
    ensures
        o == spec_next_line(r, count, cycles),
        o.regs.ly < LCD_VERT_LINES,
        o.regs.lcd_count < LCD_LINE_CYCLES,
        o.cycles >= 1,
{
    proof {
        reveal(spec_next_line);
    }
    let ly: u8 = (r.ly + 1) % LCD_VERT_LINES;
    let mut n = r;
    n.ly = ly;
    n.lcd_count = count;
    if ly == r.lyc {
        n.stat = r.stat | STAT_LYC_COINC;
        n.iflag = raise_stat(r.iflag, n.stat, STAT_LYC_INTR);
    } else {
        n.stat = r.stat & 0xFB;
    }
    if ly == LCD_HEIGHT {
        n.stat = stat_with_mode(n.stat, IO_STAT_MODE_VBLANK);
        n.frame = true;
        n.iflag = raise_stat(n.iflag | VBLANK_INTR, n.stat, STAT_MODE_1_INTR);
        n.lcd_blank = false;
        if r.frame_skip {
            n.frame_skip_count = !r.frame_skip_count;
        }
        if r.interlace && (!r.frame_skip || n.frame_skip_count) {
            n.interlace_count = !r.interlace_count;
        }
        LcdOut { regs: n, cycles, hblank: false, draw: false }
    } else if ly < LCD_HEIGHT {
        if ly == 0 {
            n.wy = r.wy_reg;
            n.window_clear = 0;
        }
        n.stat = stat_with_mode(n.stat, IO_STAT_MODE_HBLANK);
        n.iflag = raise_stat(n.iflag, n.stat, STAT_MODE_0_INTR);
        let next: u8 = if count < LCD_MODE_2_CYCLES {
            (LCD_MODE_2_CYCLES - count) as u8
        } else {
            cycles
        };
        LcdOut { regs: n, cycles: next, hblank: true, draw: false }
    } else {
        LcdOut { regs: n, cycles, hblank: false, draw: false }
    }
}

/// Advances the line state machine by `cycles` cycles.
pub fn lcd_advance(r: LcdRegs, cycles: u8) -> (o: LcdOut)
    requires
        r.ly < LCD_VERT_LINES,
        r.lcd_count < LCD_LINE_CYCLES,
        cycles >= 1,
    ensures
        o == spec_lcd_advance(r, cycles),
        o.regs.ly < LCD_VERT_LINES,
        o.regs.lcd_count < LCD_LINE_CYCLES,
        o.cycles >= 1,
{
    proof {
        reveal(spec_lcd_advance);
    }
    if r.lcdc & 0x80 == 0 {
        return LcdOut { regs: r, cycles, hblank: false, draw: false };
    }
    let gain: u16 = if r.double_speed != 0 && cycles > 1 {
        (cycles / 2) as u16
    } else {
        cycles as u16
    };
    let c: u16 = r.lcd_count + gain;
    if c >= LCD_LINE_CYCLES {
        next_line(r, c - LCD_LINE_CYCLES, cycles)
    } else if r.stat & 0x03 == IO_STAT_MODE_HBLANK && c >= LCD_MODE_2_CYCLES {
        let mut n = r;
        n.lcd_count = c;
        n.stat = stat_with_mode(r.stat, IO_STAT_MODE_SEARCH_OAM);
        n.iflag = raise_stat(r.iflag, n.stat, STAT_MODE_2_INTR);
        let next: u8 = if c < LCD_MODE_3_CYCLES {
            (LCD_MODE_3_CYCLES - c) as u8
        } else {
            cycles
        };
        LcdOut { regs: n, cycles: next, hblank: false, draw: false }
    } else if r.stat & 0x03 == IO_STAT_MODE_SEARCH_OAM && c >= LCD_MODE_3_CYCLES {
        let mut n = r;
        n.lcd_count = c;
        n.stat = stat_with_mode(r.stat, IO_STAT_MODE_SEARCH_TRANSFER);
        let next: u8 = if c < LCD_MODE_0_CYCLES {
            (LCD_MODE_0_CYCLES - c) as u8
        } else {
            cycles
        };
        LcdOut { regs: n, cycles: next, hblank: false, draw: !r.lcd_blank }
    } else {
        let mut n = r;
        n.lcd_count = c;
        LcdOut { regs: n, cycles, hblank: false, draw: false }
    }
}

/// The line register only ever stays or moves to the next line, wrapping
/// from 153 to 0, and the frame is marked complete exactly when it moves
/// from line 143 to line 144.
pub proof fn lemma_line_advances(r: LcdRegs, cycles: u8)
    requires
        r.ly < LCD_VERT_LINES,
    ensures
        ({
            let o = spec_lcd_advance(r, cycles);
            &&& o.regs.ly == r.ly || o.regs.ly == (r.ly + 1) % (LCD_VERT_LINES as int)
            &&& o.regs.ly < LCD_VERT_LINES
            &&& o.regs.frame == (r.frame || (r.ly == 143 && o.regs.ly == 144))
            &&& o.regs.ly != r.ly ==> r.lcdc & 0x80 != 0 && r.lcd_count + spec_lcd_gain(
                r.double_speed,
                cycles,
            ) >= LCD_LINE_CYCLES
            &&& o.draw ==> o.regs.ly == r.ly && !r.lcd_blank && r.stat & 0x03
                == IO_STAT_MODE_SEARCH_OAM
            &&& r.lcdc & 0x80 == 0 ==> o.regs == r
        }),
{
    reveal(spec_lcd_advance);
    reveal(spec_next_line);
}

} // verus!
