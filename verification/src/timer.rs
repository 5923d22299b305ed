//! The periodic counters: divider, timer and the thresholds of the serial
//! link and the cartridge clock.

use crate::cart::{CartRtc, RTC_HALT};
use crate::interrupt::SERIAL_INTR;
use vstd::prelude::*;

verus! {

pub const DIV_CYCLES: u16 = 256;

pub const SERIAL_CYCLES: u16 = 4096;

/// The serial threshold of the fast clock of color mode.
pub const SERIAL_CYCLES_FAST: u16 = 128;

/// Machine cycles in one second of the cartridge clock.
pub const RTC_CYCLES: u32 = 4194304;

pub const LCD_LINE_CYCLES: u16 = 456;

pub const IO_TAC_ENABLE_MASK: u8 = 0x4;

/// The cycle counters.  Each one counts up to its threshold and is reduced
/// below it when it fires.
#[derive(Clone, Copy, Debug, PartialEq, Eq, Structural)]
pub struct Count {
    pub lcd_count: u16,
    pub div_count: u16,
    pub tima_count: u16,
    pub serial_count: u16,
    pub rtc_count: u32,
}

impl Count {
    /// Every counter is below its largest threshold.
    pub open spec fn wf(self) -> bool {
        &&& self.lcd_count < LCD_LINE_CYCLES
        &&& self.div_count < DIV_CYCLES
        &&& self.tima_count < 1024
        &&& self.serial_count < SERIAL_CYCLES
        &&& self.rtc_count < RTC_CYCLES
    }

    pub open spec fn spec_zero() -> Count {
        Count { lcd_count: 0, div_count: 0, tima_count: 0, serial_count: 0, rtc_count: 0 }
    }

    /// Tests the invariant of the counters.
    pub fn valid(&self) -> (b: bool)
        ensures
            b == self.wf(),
    {
        self.lcd_count < LCD_LINE_CYCLES && self.div_count < DIV_CYCLES && self.tima_count < 1024
            && self.serial_count < SERIAL_CYCLES && self.rtc_count < RTC_CYCLES
    }

    pub fn new() -> (r: Count)
        ensures
            r == Count::spec_zero(),
            r.wf(),
    {
        Count { lcd_count: 0, div_count: 0, tima_count: 0, serial_count: 0, rtc_count: 0 }
    }
}

/// The divider register and its counter.
#[derive(Clone, Copy, Debug, PartialEq, Eq, Structural)]
pub struct DivOut {
    pub div: u8,
    pub count: u16,
}

/// The divider after `cycles` more cycles: it goes up by one for every 256
/// cycles counted, whatever the timer control holds.
#[verifier::opaque]
pub open spec fn spec_div_tick(div: u8, count: u16, cycles: int) -> DivOut {
    DivOut {
        div: ((div + (count + cycles) / 256) % 256) as u8,
        count: ((count + cycles) % 256) as u16,
    }
}

pub fn div_tick(div: u8, count: u16, cycles: u8) -> (o: DivOut)
    requires
        count < DIV_CYCLES,
    ensures
        o == spec_div_tick(div, count, cycles as int),
        o.count < DIV_CYCLES,
{
    proof {
        reveal(spec_div_tick);
    }
    let total: u16 = count + cycles as u16;
    if total >= DIV_CYCLES {
        DivOut { div: if div == 0xFF { 0 } else { div + 1 }, count: total - DIV_CYCLES }
    } else {
        DivOut { div, count: total }
    }
}

/// The sum of a sequence of cycle counts.
pub open spec fn total_cycles(steps: Seq<u8>) -> int
    decreases steps.len(),
{
    if steps.len() == 0 {
        0
    } else {
        total_cycles(steps.drop_last()) + steps.last()
    }
}

/// The divider after a sequence of instructions, each ticked on its own.
pub open spec fn spec_div_run(div: u8, count: u16, steps: Seq<u8>) -> DivOut
    decreases steps.len(),
{
    if steps.len() == 0 {
        DivOut { div, count }
    } else {
        let before = spec_div_run(div, count, steps.drop_last());
        spec_div_tick(before.div, before.count, steps.last() as int)
    }
}

/// Adding less than 256 to a number moves its quotient by 256 up by the
/// carry out of its remainder.
proof fn lemma_split_add(t: int, c: int)
    requires
        t >= 0,
        0 <= c < 256,
    ensures
        (t + c) / 256 == t / 256 + (t % 256 + c) / 256,
        (t + c) % 256 == (t % 256 + c) % 256,
        (t % 256 + c) / 256 == 0 || (t % 256 + c) / 256 == 1,
{
    let q = t / 256;
    let r = t % 256;
    assert(t == 256 * q + r);
    if r + c < 256 {
        assert(t + c == 256 * q + (r + c));
    } else {
        assert(t + c == 256 * (q + 1) + (r + c - 256));
    }
}

/// Reducing modulo 256 before or after adding a carry gives the same.
proof fn lemma_mod_carry(a: int, k: int)
    requires
        a >= 0,
        k == 0 || k == 1,
    ensures
        (a % 256 + k) % 256 == (a + k) % 256,
{
    let q = a / 256;
    let r = a % 256;
    assert(a == 256 * q + r);
    if r + k < 256 {
        assert(a + k == 256 * q + (r + k));
    } else {
        assert(a + k == 256 * (q + 1) + 0);
    }
}

/// Over any sequence of instructions that total N cycles, the divider goes up
/// exactly floor((count + N) / 256) times modulo 256: ticking instruction by
/// instruction is the same as ticking once with the total.
pub proof fn lemma_div_counts_total(div: u8, count: u16, steps: Seq<u8>)
    requires
        count < DIV_CYCLES,
    ensures
        spec_div_run(div, count, steps) == spec_div_tick(div, count, total_cycles(steps)),
        total_cycles(steps) >= 0,
        count == 0 ==> spec_div_run(div, count, steps).div == (div + total_cycles(steps) / 256)
            % 256,
    decreases steps.len(),
{
    reveal(spec_div_tick);
    if steps.len() == 0 {
    } else {
        let init = steps.drop_last();
        lemma_div_counts_total(div, count, init);
        let n = total_cycles(init);
        let c = steps.last() as int;
        let t = count + n;
        lemma_split_add(t, c);
        lemma_split_add(t % 256, c);
        lemma_mod_carry(div + t / 256, (t % 256 + c) / 256);
        let before = spec_div_tick(div, count, n);
        assert(before.count == t % 256);
        assert(before.div == (div + t / 256) % 256);
        let after = spec_div_tick(before.div, before.count, c);
        assert(after.count == (t % 256 + c) % 256);
        assert(after.div == ((div + t / 256) % 256 + (t % 256 + c) / 256) % 256);
    }
}

/// The timer's period in cycles, selected by the two low bits of the control
/// register.
#[verifier::opaque]
pub open spec fn spec_tac_period(tac: u8) -> u16 {
    if tac % 4 == 0 {
        1024
    } else if tac % 4 == 1 {
        16
    } else if tac % 4 == 2 {
        64
    } else {
        256
    }
}

pub fn tac_period(tac: u8) -> (r: u16)
    ensures
        r == spec_tac_period(tac),
        r == 1024 || r == 16 || r == 64 || r == 256,
{
    proof {
        reveal(spec_tac_period);
    }
    let rate = tac % 4;
    if rate == 0 {
        1024
    } else if rate == 1 {
        16
    } else if rate == 2 {
        64
    } else {
        256
    }
}

/// The timer counter and whether it overflowed.
#[derive(Clone, Copy, Debug, PartialEq, Eq, Structural)]
pub struct TimaStep {
    pub tima: u8,
    pub overflow: bool,
}

/// One increment of the timer counter: from 0xFF it reloads from the modulo
/// register and reports the overflow.
pub open spec fn spec_tima_inc(tima: u8, tma: u8) -> TimaStep {
    if tima == 0xFF {
        TimaStep { tima: tma, overflow: true }
    } else {
        TimaStep { tima: (tima + 1) as u8, overflow: false }
    }
}

/// `n` increments of the timer counter; the overflow is reported if any of
/// them overflowed.
pub open spec fn spec_tima_run(tima: u8, tma: u8, n: nat) -> TimaStep
    decreases n,
{
    if n == 0 {
        TimaStep { tima, overflow: false }
    } else {
        let first = spec_tima_inc(tima, tma);
        let rest = spec_tima_run(first.tima, tma, (n - 1) as nat);
        TimaStep { tima: rest.tima, overflow: first.overflow || rest.overflow }
    }
}

/// The timer after a tick.
#[derive(Clone, Copy, Debug, PartialEq, Eq, Structural)]
pub struct TimaOut {
    pub tima: u8,
    pub count: u16,
    pub overflow: bool,
}

/// The timer after `cycles` more cycles.  It stands still while the enable
/// bit of the control register is clear; else it is incremented once for each
/// full period counted.
#[verifier::opaque]
pub open spec fn spec_tima_tick(tima: u8, tma: u8, tac: u8, count: u16, cycles: u8) -> TimaOut {
    if tac & IO_TAC_ENABLE_MASK == 0 {
        TimaOut { tima, count, overflow: false }
    } else {
        let period = spec_tac_period(tac);
        let total = count + cycles;
        let run = spec_tima_run(tima, tma, (total / (period as int)) as nat);
        TimaOut { tima: run.tima, count: (total % (period as int)) as u16, overflow: run.overflow }
    }
}

pub fn tima_inc(tima: u8, tma: u8) -> (o: TimaStep)
    ensures
        o == spec_tima_inc(tima, tma),
        tima == 0xFF ==> o.tima == tma && o.overflow,
        tima != 0xFF ==> o.tima == tima + 1 && !o.overflow,
{
    if tima == 0xFF {
        TimaStep { tima: tma, overflow: true }
    } else {
        TimaStep { tima: tima + 1, overflow: false }
    }
}

pub fn tima_tick(tima: u8, tma: u8, tac: u8, count: u16, cycles: u8) -> (o: TimaOut)
    requires
        count < 1024,
    ensures
        o == spec_tima_tick(tima, tma, tac, count, cycles),
        o.count < 1024,
{
    proof {
        reveal(spec_tima_tick);
    }
    if tac & IO_TAC_ENABLE_MASK == 0 {
        return TimaOut { tima, count, overflow: false };
    }
    let period = tac_period(tac);
    let total: u16 = count + cycles as u16;
    let n: u16 = total / period;
    let mut cur = tima;
    let mut overflow = false;
    let mut i: u16 = 0;
    while i < n
        invariant
            i <= n,
            spec_tima_run(tima, tma, n as nat).tima == spec_tima_run(cur, tma, (n - i) as nat).tima,
            spec_tima_run(tima, tma, n as nat).overflow == (overflow || spec_tima_run(
                cur,
                tma,
                (n - i) as nat,
            ).overflow),
        decreases n - i,
    {
        let s = tima_inc(cur, tma);
        cur = s.tima;
        overflow = overflow || s.overflow;
        i = i + 1;
    }
    TimaOut { tima: cur, count: total % period, overflow }
}

/// A timer counter at 0xFF that is incremented once reloads from the
/// modulo register at that increment and reports the overflow; below 0xFF
/// it goes up by one and reports none.
pub proof fn lemma_tima_overflow_reloads(tima: u8, tma: u8, tac: u8, count: u16, cycles: u8)
    requires
        tac & IO_TAC_ENABLE_MASK != 0,
        count < 1024,
        (count + cycles) / (spec_tac_period(tac) as int) == 1,
    ensures
        tima == 0xFF ==> spec_tima_tick(tima, tma, tac, count, cycles).tima == tma
            && spec_tima_tick(tima, tma, tac, count, cycles).overflow,
        tima != 0xFF ==> spec_tima_tick(tima, tma, tac, count, cycles).tima == tima + 1
            && !spec_tima_tick(tima, tma, tac, count, cycles).overflow,
{
    reveal(spec_tima_tick);
    reveal_with_fuel(spec_tima_run, 2);
}

/// While the timer's enable bit is clear the timer stands still, whatever
/// passes.
pub proof fn lemma_tima_disabled(tima: u8, tma: u8, tac: u8, count: u16, cycles: u8)
    requires
        tac & IO_TAC_ENABLE_MASK == 0,
    ensures
        spec_tima_tick(tima, tma, tac, count, cycles) == (TimaOut { tima, count, overflow: false }),
{
    reveal(spec_tima_tick);
}

/// The serial link's per-byte threshold: 4096 cycles, or the fast one in
/// color mode when either clock bit of the control register is set.
pub open spec fn spec_serial_period(color: bool, sc: u8) -> u16 {
    if color && sc & 0x3 != 0 {
        SERIAL_CYCLES_FAST
    } else {
        SERIAL_CYCLES
    }
}

pub fn serial_period(color: bool, sc: u8) -> (r: u16)
    ensures
        r == spec_serial_period(color, sc),
{
    if color && sc & 0x3 != 0 {
        SERIAL_CYCLES_FAST
    } else {
        SERIAL_CYCLES
    }
}

/// The smaller of two numbers.
pub open spec fn spec_min(a: int, b: int) -> int {
    if a <= b {
        a
    } else {
        b
    }
}

/// The cycles until the next line event of the renderer, by the mode bits
/// of the status register: the end of the first part of the line, of the
/// OAM search, of the first part of the transfer, and in vertical blank
/// the end of the line.
pub open spec fn spec_lcd_wait(stat: u8, lcd_count: u16) -> int {
    if stat & 0x03 == 0 {
        204 - lcd_count
    } else if stat & 0x03 == 2 {
        284 - lcd_count
    } else if stat & 0x03 == 3 {
        372 - lcd_count
    } else {
        456 - lcd_count
    }
}

/// The cycles a halted CPU sleeps at a time: until the next event of the
/// serial link, the timer or the renderer, whichever comes first among
/// those that run; 4 where that lies in the past; never more than 255.
#[verifier::opaque]
pub open spec fn spec_halt_cycles(sc: u8, tac: u8, lcdc: u8, stat: u8, count: Count) -> u8 {
    let h0: int = 0x7FFF;
    let h1 = if sc & 0x80 != 0 {
        spec_min(h0, SERIAL_CYCLES - count.serial_count)
    } else {
        h0
    };
    let h2 = if tac & IO_TAC_ENABLE_MASK != 0 {
        spec_min(h1, spec_tac_period(tac) - count.tima_count)
    } else {
        h1
    };
    let h3 = if lcdc & 0x80 != 0 {
        spec_min(h2, spec_lcd_wait(stat, count.lcd_count))
    } else {
        h2
    };
    if h3 <= 0 {
        4
    } else if h3 > 255 {
        255
    } else {
        h3 as u8
    }
}

pub fn halt_cycles(sc: u8, tac: u8, lcdc: u8, stat: u8, count: Count) -> (r: u8)
    requires
        count.wf(),
    ensures
        r == spec_halt_cycles(sc, tac, lcdc, stat, count),
        r >= 1,
{
    proof {
        reveal(spec_halt_cycles);
    }
    let mut h: i32 = 0x7FFF;
    if sc & 0x80 != 0 {
        let w: i32 = SERIAL_CYCLES as i32 - count.serial_count as i32;
        if w < h {
            h = w;
        }
    }
    if tac & IO_TAC_ENABLE_MASK != 0 {
        let w: i32 = tac_period(tac) as i32 - count.tima_count as i32;
        if w < h {
            h = w;
        }
    }
    if lcdc & 0x80 != 0 {
        let mode = stat & 0x03;
        let c: i32 = count.lcd_count as i32;
        let w: i32 = if mode == 0 {
            204 - c
        } else if mode == 2 {
            284 - c
        } else if mode == 3 {
            372 - c
        } else {
            456 - c
        };
        if w < h {
            h = w;
        }
    }
    if h <= 0 {
        4
    } else if h > 255 {
        255
    } else {
        h as u8
    }
}

/// The cartridge clock and its counter.
#[derive(Clone, Copy, Debug, PartialEq, Eq, Structural)]
pub struct RtcOut {
    pub rtc: CartRtc,
    pub count: u32,
}

/// The cartridge clock after `cycles` more cycles.  It stands still while
/// its halt bit is set; else it goes on by one second for each 4,194,304
/// cycles counted.
#[verifier::opaque]
pub open spec fn spec_rtc_advance(rtc: CartRtc, count: u32, cycles: u8) -> RtcOut {
    if rtc.high & RTC_HALT != 0 {
        RtcOut { rtc, count }
    } else if count + cycles >= RTC_CYCLES {
        RtcOut { rtc: rtc.spec_tick(), count: (count + cycles - RTC_CYCLES) as u32 }
    } else {
        RtcOut { rtc, count: (count + cycles) as u32 }
    }
}

pub fn rtc_advance(rtc: CartRtc, count: u32, cycles: u8) -> (o: RtcOut)
    requires
        count < RTC_CYCLES,
    ensures
        o == spec_rtc_advance(rtc, count, cycles),
        o.count < RTC_CYCLES,
{
    proof {
        reveal(spec_rtc_advance);
    }
    if rtc.high & RTC_HALT != 0 {
        return RtcOut { rtc, count };
    }
    let total: u32 = count + cycles as u32;
    if total >= RTC_CYCLES {
        let mut next = rtc;
        next.tick();
        RtcOut { rtc: next, count: total - RTC_CYCLES }
    } else {
        RtcOut { rtc, count: total }
    }
}

/// The serial registers and the interrupt request register.
#[derive(Clone, Copy, Debug, PartialEq, Eq, Structural)]
pub struct SerialOut {
    pub sb: u8,
    pub sc: u8,
    pub iflag: u8,
}

/// The registers at the end of a serial transfer.  A byte from the peer
/// replaces the data register; with no peer and the internal clock, 0xFF is
/// shifted in; both end the transfer and request the serial interrupt.
/// With no peer and an external clock nothing is shifted and the transfer
/// stays pending.
#[verifier::opaque]
pub open spec fn spec_serial_finish(sb: u8, sc: u8, iflag: u8, got: bool, byte: u8) -> SerialOut {
    if got {
        SerialOut { sb: byte, sc: sc & 0x01, iflag: iflag | SERIAL_INTR }
    } else if sc & 0x01 != 0 {
        SerialOut { sb: 0xFF, sc: sc & 0x01, iflag: iflag | SERIAL_INTR }
    } else {
        SerialOut { sb, sc, iflag }
    }
}

pub fn serial_finish(sb: u8, sc: u8, iflag: u8, got: bool, byte: u8) -> (o: SerialOut)
    ensures
        o == spec_serial_finish(sb, sc, iflag, got, byte),
        !got && sc & 0x01 != 0 ==> o.sb == 0xFF && o.iflag == iflag | SERIAL_INTR,
{
    proof {
        reveal(spec_serial_finish);
    }
    if got {
        SerialOut { sb: byte, sc: sc & 0x01, iflag: iflag | SERIAL_INTR }
    } else if sc & 0x01 != 0 {
        SerialOut { sb: 0xFF, sc: sc & 0x01, iflag: iflag | SERIAL_INTR }
    } else {
        SerialOut { sb, sc, iflag }
    }
}

/// The request register with the bits of `mask` set where `cond` holds.
pub open spec fn spec_raise(iflag: u8, cond: bool, mask: u8) -> u8 {
    if cond {
        iflag | mask
    } else {
        iflag
    }
}

pub fn raise(iflag: u8, cond: bool, mask: u8) -> (r: u8)
    ensures
        r == spec_raise(iflag, cond, mask),
{
    if cond {
        iflag | mask
    } else {
        iflag
    }
}

} // verus!
