//! What the passing of cycles does: the divider, the cartridge clock, the
//! serial link, the timer and the renderer, after each instruction.

use crate::cart::{Cart, Mbc};
use crate::host::Host;
use crate::interrupt::TIMER_INTR;
use crate::lcd::{lcd_advance, spec_lcd_advance, LcdRegs};
use crate::state::{
    Display, Gb, GbView, IO_DIV, IO_IF, IO_LCDC, IO_LY, IO_LYC, IO_SB, IO_SC, IO_STAT, IO_TAC,
    IO_TIMA, IO_TMA, IO_WX, IO_WY,
};
use crate::timer::{
    div_tick, raise, rtc_advance, serial_finish, serial_period, spec_div_tick, spec_raise,
    spec_rtc_advance, spec_serial_finish, spec_serial_period, spec_tima_tick, tima_tick, Count,
};
use vstd::prelude::*;

verus! {

/// The byte of an answer of the serial link; 0 where there is none.
pub open spec fn answer_byte(answer: Option<u8>) -> u8 {
    match answer {
        Some(b) => b,
        None => 0,
    }
}

impl GbView {
    /// The console after the divider counted `cycles` more cycles.
    #[verifier::opaque]
    pub open spec fn tick_div(self, cycles: u8) -> GbView {
        let o = spec_div_tick(self.hram_io[IO_DIV as int], self.counter.div_count, cycles as int);
        GbView {
            hram_io: self.hram_io.update(IO_DIV as int, o.div),
            counter: Count { div_count: o.count, ..self.counter },
            ..self
        }
    }

    /// The console after the cartridge clock, where the cartridge has one,
    /// counted `cycles` more cycles.
    #[verifier::opaque]
    pub open spec fn tick_rtc(self, cycles: u8) -> GbView {
        if self.cart.mbc == Mbc::Mbc3 {
            let o = spec_rtc_advance(self.cart.rtc_real, self.counter.rtc_count, cycles);
            GbView {
                cart: Cart { rtc_real: o.rtc, ..self.cart },
                counter: Count { rtc_count: o.count, ..self.counter },
                ..self
            }
        } else {
            self
        }
    }

    /// The console after the timer counted `cycles` more cycles: an
    /// overflow of the timer counter requests the timer interrupt.
    #[verifier::opaque]
    pub open spec fn tick_tima(self, cycles: u8) -> GbView {
        let o = spec_tima_tick(
            self.hram_io[IO_TIMA as int],
            self.hram_io[IO_TMA as int],
            self.hram_io[IO_TAC as int],
            self.counter.tima_count,
            cycles,
        );
        GbView {
            hram_io: self.hram_io.update(IO_TIMA as int, o.tima).update(
                IO_IF as int,
                spec_raise(self.hram_io[IO_IF as int], o.overflow, TIMER_INTR),
            ),
            counter: Count { tima_count: o.count, ..self.counter },
            ..self
        }
    }

    /// Whether a serial transfer is in progress.
    pub open spec fn serial_active(self) -> bool {
        self.hram_io[IO_SC as int] & 0x80 != 0
    }

    /// The console at the start of a tick of the serial link: at the start
    /// of a transfer the outgoing byte is handed to the host.
    #[verifier::opaque]
    pub open spec fn serial_begin(self) -> GbView {
        if self.counter.serial_count == 0 && self.serial {
            GbView { host: self.host.transmitted(self.hram_io[IO_SB as int]), ..self }
        } else {
            self
        }
    }

    /// Whether `cycles` more cycles complete the byte in transfer.
    pub open spec fn serial_due(self, cycles: u8) -> bool {
        self.counter.serial_count + cycles >= spec_serial_period(
            self.cgb.mode,
            self.hram_io[IO_SC as int],
        )
    }

    /// The console after the host was polled, where it has a serial link.
    #[verifier::opaque]
    pub open spec fn serial_polled(self, answer: Option<u8>) -> GbView {
        if self.serial {
            GbView { host: self.host.polled(answer), ..self }
        } else {
            self
        }
    }

    /// The console at the end of a transfer, given the host's answer.
    #[verifier::opaque]
    pub open spec fn serial_end(self, answer: Option<u8>) -> GbView {
        let o = spec_serial_finish(
            self.hram_io[IO_SB as int],
            self.hram_io[IO_SC as int],
            self.hram_io[IO_IF as int],
            answer is Some,
            answer_byte(answer),
        );
        GbView {
            hram_io: self.hram_io.update(IO_SB as int, o.sb).update(IO_SC as int, o.sc).update(
                IO_IF as int,
                o.iflag,
            ),
            counter: Count { serial_count: 0, ..self.counter },
            ..self
        }
    }

    /// The console after the serial link counted `cycles` more cycles.
    /// `answer` is what the host answers if it is polled.
    #[verifier::opaque]
    pub open spec fn tick_serial(self, cycles: u8, answer: Option<u8>) -> GbView {
        if !self.serial_active() {
            self
        } else {
            let s = self.serial_begin();
            if s.serial_due(cycles) {
                s.serial_polled(answer).serial_end(answer)
            } else {
                GbView {
                    counter: Count {
                        serial_count: (s.counter.serial_count + cycles) as u16,
                        ..s.counter
                    },
                    ..s
                }
            }
        }
    }

    /// What the line state machine reads.
    #[verifier::opaque]
    pub open spec fn lcd_regs(self) -> LcdRegs {
        LcdRegs {
            lcdc: self.hram_io[IO_LCDC as int],
            stat: self.hram_io[IO_STAT as int],
            ly: self.hram_io[IO_LY as int],
            lyc: self.hram_io[IO_LYC as int],
            wy_reg: self.hram_io[IO_WY as int],
            iflag: self.hram_io[IO_IF as int],
            lcd_count: self.counter.lcd_count,
            double_speed: self.cgb.double_speed,
            frame: self.gb_frame,
            lcd_blank: self.lcd_blank,
            wy: self.display.wy,
            window_clear: self.display.window_clear,
            frame_skip: self.direct.frame_skip,
            interlace: self.direct.interlace,
            frame_skip_count: self.display.frame_skip_count,
            interlace_count: self.display.interlace_count,
        }
    }

    /// The console with what the line state machine wrote.
    #[verifier::opaque]
    pub open spec fn with_lcd_regs(self, r: LcdRegs) -> GbView {
        GbView {
            hram_io: self.hram_io.update(IO_STAT as int, r.stat).update(IO_LY as int, r.ly).update(
                IO_IF as int,
                r.iflag,
            ),
            counter: Count { lcd_count: r.lcd_count, ..self.counter },
            gb_frame: r.frame,
            lcd_blank: r.lcd_blank,
            display: Display {
                wy: r.wy,
                window_clear: r.window_clear,
                frame_skip_count: r.frame_skip_count,
                interlace_count: r.interlace_count,
                ..self.display
            },
            ..self
        }
    }

    /// Whether a per-line transfer of color mode is armed.
    pub open spec fn hdma_armed(self) -> bool {
        self.cgb.mode && self.cgb.dma_active == 0 && self.cgb.dma_mode != 0
    }

    /// The console after a per-line transfer moved its next 16 bytes.
    #[verifier::opaque]
    pub open spec fn hdma_line(self) -> GbView {
        let c = self.block_copy(
            self.cgb.spec_hdma_src() as int,
            self.cgb.spec_hdma_dst() as int,
            0,
            16,
        );
        c.with_cgb(c.cgb.spec_hdma_line())
    }

    /// The console after the window's line counter moved on, on a line
    /// that shows the window.
    #[verifier::opaque]
    pub open spec fn window_step(self) -> GbView {
        if self.window_visible() {
            GbView {
                display: Display {
                    window_clear: self.display.window_clear.wrapping_add(1),
                    ..self.display
                },
                ..self
            }
        } else {
            self
        }
    }

    /// Whether this frame is left out by frame skipping.
    pub open spec fn frame_skipped(self) -> bool {
        self.direct.frame_skip && !self.display.frame_skip_count
    }

    /// Whether this line is left out by interlacing: the even lines of one
    /// frame, the odd lines of the next.
    pub open spec fn line_interlaced_out(self) -> bool {
        self.direct.interlace && ((!self.display.interlace_count && self.ly() % 2 == 0) || (
        self.display.interlace_count && self.ly() % 2 == 1))
    }

    /// The console after the current line was drawn.  Nothing happens
    /// where no scanlines are asked for or the frame is skipped.  A line
    /// left out by interlacing only moves the window's line counter.  Else
    /// the row is composed and handed to the host with its line number.
    #[verifier::opaque]
    pub open spec fn draw_line(self) -> GbView {
        if !self.display.lcd_draw_line || self.frame_skipped() {
            self
        } else if self.line_interlaced_out() {
            self.window_step()
        } else {
            GbView { host: self.host.drawn(self.line_pixels(), self.ly()), ..self }.window_step()
        }
    }

    /// The console after the start of a line: a per-line transfer of color
    /// mode, where one is armed, moves its next block at the start of a
    /// visible line.
    #[verifier::opaque]
    pub open spec fn line_dma(self, hblank: bool) -> GbView {
        if hblank && self.hdma_armed() {
            self.hdma_line()
        } else {
            self
        }
    }

    /// The console after the line was drawn, where it is to be drawn.
    #[verifier::opaque]
    pub open spec fn line_draw(self, draw: bool) -> GbView {
        if draw {
            self.draw_line()
        } else {
            self
        }
    }

    pub open spec fn with_idle(self, cycles: u8) -> GbView {
        GbView { idle_cycles: cycles, ..self }
    }

    /// The console after the renderer counted `cycles` more cycles.  The
    /// cycles until the next line event are kept for a halted CPU.
    #[verifier::opaque]
    pub open spec fn tick_lcd(self, cycles: u8) -> GbView {
        let o = spec_lcd_advance(self.lcd_regs(), cycles);
        self.with_lcd_regs(o.regs).line_dma(o.hblank).line_draw(o.draw).with_idle(o.cycles)
    }

    /// The console after `cycles` cycles passed.  `answer` is what the
    /// host answers if the serial link polls it.
    #[verifier::opaque]
    pub open spec fn tick(self, cycles: u8, answer: Option<u8>) -> GbView {
        self.tick_div(cycles).tick_rtc(cycles).tick_serial(cycles, answer).tick_tima(
            cycles,
        ).tick_lcd(cycles)
    }
}

impl GbView {
    /// Where the timer counter overflows in a tick, the tick leaves the
    /// timer interrupt requested and the counter reloaded as the timer's
    /// own rule gives it; the divider is not touched by the timer.
    pub proof fn lemma_tick_tima_requests(self, cycles: u8)
        requires
            self.hram_io.len() == crate::state::HRAM_IO_SIZE,
        ensures
            ({
                let o = spec_tima_tick(
                    self.hram_io[IO_TIMA as int],
                    self.hram_io[IO_TMA as int],
                    self.hram_io[IO_TAC as int],
                    self.counter.tima_count,
                    cycles,
                );
                let after = self.tick_tima(cycles);
                &&& after.hram_io[IO_TIMA as int] == o.tima
                &&& o.overflow ==> after.hram_io[IO_IF as int] & TIMER_INTR != 0
                &&& !o.overflow ==> after.hram_io[IO_IF as int] == self.hram_io[IO_IF as int]
                &&& after.hram_io[IO_DIV as int] == self.hram_io[IO_DIV as int]
            }),
    {
        reveal(GbView::tick_tima);
        let iflag = self.hram_io[IO_IF as int];
        assert((iflag | 0x04) & 0x04 != 0) by (bit_vector);
    }

    /// The divider counts every cycle of a tick, whatever the timer control
    /// register holds.
    pub proof fn lemma_tick_div_counts(self, cycles: u8)
        requires
            self.hram_io.len() == crate::state::HRAM_IO_SIZE,
        ensures
            self.tick_div(cycles).hram_io[IO_DIV as int] == spec_div_tick(
                self.hram_io[IO_DIV as int],
                self.counter.div_count,
                cycles as int,
            ).div,
            self.tick_div(cycles).counter.div_count == spec_div_tick(
                self.hram_io[IO_DIV as int],
                self.counter.div_count,
                cycles as int,
            ).count,
    {
        reveal(GbView::tick_div);
    }

    /// At the end of a serial transfer with the internal clock and no
    /// answer from a peer, the data register holds 0xFF and the serial
    /// interrupt is requested.
    pub proof fn lemma_serial_without_peer(self)
        requires
            self.hram_io.len() == crate::state::HRAM_IO_SIZE,
            self.hram_io[IO_SC as int] & 0x01 != 0,
        ensures
            self.serial_end(None).hram_io[IO_SB as int] == 0xFF,
            self.serial_end(None).hram_io[IO_IF as int] & crate::interrupt::SERIAL_INTR != 0,
            self.serial_end(None).counter.serial_count == 0,
    {
        reveal(GbView::serial_end);
        reveal(spec_serial_finish);
        let iflag = self.hram_io[IO_IF as int];
        assert((iflag | 0x08) & 0x08 != 0) by (bit_vector);
    }
}

impl GbView {
    /// A write below 0xFE00 reaches the bank controller, video RAM, the
    /// cartridge RAM or working RAM: the I/O registers and the frame flag
    /// stay as they are.
    pub proof fn lemma_write_low_keeps_line(self, addr: u16, val: u8)
        ensures
            self.write_low(addr, val).hram_io == self.hram_io,
            self.write_low(addr, val).gb_frame == self.gb_frame,
            self.write_low(addr, val).counter == self.counter,
    {
        reveal(GbView::write_low);
        reveal(GbView::write_cart_ram);
    }

    /// A block transfer leaves the I/O registers and the frame flag as they
    /// are.
    pub proof fn lemma_block_copy_keeps_line(self, src: int, dst: int, i: int, n: int)
        ensures
            self.block_copy(src, dst, i, n).hram_io == self.hram_io,
            self.block_copy(src, dst, i, n).gb_frame == self.gb_frame,
            self.block_copy(src, dst, i, n).counter == self.counter,
        decreases n - i,
    {
        if i < n {
            let b = self.read(((src + i) % 0x10000) as u16);
            self.lemma_write_low_keeps_line((dst + i) as u16, b);
            self.write_low((dst + i) as u16, b).lemma_block_copy_keeps_line(src, dst, i + 1, n);
        }
    }

    /// When cycles pass, the line register stays or moves on to the next
    /// line, wrapping from 153 to 0, and the frame is marked complete
    /// exactly when the line register moves from 143 to 144.
    pub proof fn lemma_tick_line_advances(self, cycles: u8, answer: Option<u8>)
        requires
            self.wf(),
        ensures
            ({
                let after = self.tick(cycles, answer);
                &&& after.ly() == self.ly() || after.ly() == (self.ly() + 1) % (
                crate::state::LCD_VERT_LINES as int)
                &&& after.ly() < crate::state::LCD_VERT_LINES
                &&& after.gb_frame == (self.gb_frame || (self.ly() == 143 && after.ly() == 144))
                &&& self.hram_io[IO_LCDC as int] & 0x80 == 0 ==> after.ly() == self.ly()
            }),
    {
        reveal(GbView::tick);
        reveal(GbView::tick_div);
        reveal(GbView::tick_rtc);
        reveal(GbView::tick_serial);
        reveal(GbView::serial_begin);
        reveal(GbView::serial_polled);
        reveal(GbView::serial_end);
        reveal(GbView::tick_tima);
        let s1 = self.tick_div(cycles);
        assert(s1.hram_io[IO_LY as int] == self.hram_io[IO_LY as int]);
        assert(s1.hram_io[IO_LCDC as int] == self.hram_io[IO_LCDC as int]);
        let s2 = s1.tick_rtc(cycles);
        let s3 = s2.tick_serial(cycles, answer);
        assert(s3.hram_io.len() == self.hram_io.len());
        assert(s3.hram_io[IO_LY as int] == self.hram_io[IO_LY as int]);
        assert(s3.hram_io[IO_LCDC as int] == self.hram_io[IO_LCDC as int]);
        assert(s3.gb_frame == self.gb_frame);
        let s4 = s3.tick_tima(cycles);
        assert(s4.hram_io[IO_LY as int] == self.hram_io[IO_LY as int]);
        assert(s4.hram_io[IO_LCDC as int] == self.hram_io[IO_LCDC as int]);
        assert(s4.gb_frame == self.gb_frame);
        s4.lemma_tick_lcd_line_advances(cycles);
    }

    /// When cycles pass, the divider counts them all: it is what the
    /// divider's own rule gives for the cycles of the tick, whatever the
    /// timer control register holds and whatever else the tick does.
    pub proof fn lemma_tick_counts_divider(self, cycles: u8, answer: Option<u8>)
        requires
            self.wf(),
        ensures
            ({
                let after = self.tick(cycles, answer);
                let o = spec_div_tick(
                    self.hram_io[IO_DIV as int],
                    self.counter.div_count,
                    cycles as int,
                );
                after.hram_io[IO_DIV as int] == o.div && after.counter.div_count == o.count
            }),
    {
        reveal(GbView::tick);
        reveal(GbView::tick_div);
        reveal(GbView::tick_rtc);
        reveal(GbView::tick_serial);
        reveal(GbView::serial_begin);
        reveal(GbView::serial_polled);
        reveal(GbView::serial_end);
        reveal(GbView::tick_tima);
        let o = spec_div_tick(self.hram_io[IO_DIV as int], self.counter.div_count, cycles as int);
        let s1 = self.tick_div(cycles);
        assert(s1.hram_io[IO_DIV as int] == o.div);
        let s2 = s1.tick_rtc(cycles);
        let s3 = s2.tick_serial(cycles, answer);
        assert(s3.hram_io.len() == self.hram_io.len());
        assert(s3.hram_io[IO_DIV as int] == o.div);
        assert(s3.counter.div_count == o.count);
        let s4 = s3.tick_tima(cycles);
        assert(s4.hram_io[IO_DIV as int] == o.div);
        assert(s4.counter.div_count == o.count);
        reveal(GbView::tick_lcd);
        reveal(GbView::with_lcd_regs);
        reveal(GbView::line_dma);
        reveal(GbView::line_draw);
        reveal(GbView::hdma_line);
        reveal(GbView::draw_line);
        reveal(GbView::window_step);
        let l = spec_lcd_advance(s4.lcd_regs(), cycles);
        let t1 = s4.with_lcd_regs(l.regs);
        assert(t1.hram_io[IO_DIV as int] == o.div);
        assert(t1.counter.div_count == o.count);
        t1.lemma_block_copy_keeps_line(
            t1.cgb.spec_hdma_src() as int,
            t1.cgb.spec_hdma_dst() as int,
            0,
            16,
        );
        let t2 = t1.line_dma(l.hblank);
        assert(t2.hram_io == t1.hram_io);
        assert(t2.counter == t1.counter);
        let t3 = t2.line_draw(l.draw);
        assert(t3.hram_io == t2.hram_io);
        assert(t3.counter == t2.counter);
    }

    /// The same of the renderer's part of a tick.
    pub proof fn lemma_tick_lcd_line_advances(self, cycles: u8)
        requires
            self.hram_io.len() == crate::state::HRAM_IO_SIZE,
            self.ly() < crate::state::LCD_VERT_LINES,
        ensures
            ({
                let after = self.tick_lcd(cycles);
                &&& after.ly() == self.ly() || after.ly() == (self.ly() + 1) % (
                crate::state::LCD_VERT_LINES as int)
                &&& after.ly() < crate::state::LCD_VERT_LINES
                &&& after.gb_frame == (self.gb_frame || (self.ly() == 143 && after.ly() == 144))
                &&& self.hram_io[IO_LCDC as int] & 0x80 == 0 ==> after.ly() == self.ly()
            }),
    {
        reveal(GbView::tick_lcd);
        reveal(GbView::lcd_regs);
        reveal(GbView::with_lcd_regs);
        reveal(GbView::line_dma);
        reveal(GbView::line_draw);
        reveal(GbView::hdma_line);
        reveal(GbView::draw_line);
        reveal(GbView::window_step);
        let r = self.lcd_regs();
        crate::lcd::lemma_line_advances(r, cycles);
        let o = spec_lcd_advance(r, cycles);
        let s1 = self.with_lcd_regs(o.regs);
        assert(s1.hram_io[IO_LY as int] == o.regs.ly);
        assert(s1.gb_frame == o.regs.frame);
        s1.lemma_block_copy_keeps_line(
            s1.cgb.spec_hdma_src() as int,
            s1.cgb.spec_hdma_dst() as int,
            0,
            16,
        );
        let s2 = s1.line_dma(o.hblank);
        assert(s2.hram_io == s1.hram_io);
        assert(s2.gb_frame == s1.gb_frame);
        let s3 = s2.line_draw(o.draw);
        assert(s3.hram_io == s2.hram_io);
        assert(s3.gb_frame == s2.gb_frame);
    }
}

impl<H: Host> Gb<H> {
    fn tick_div(&mut self, cycles: u8)
        requires
            old(self).wf(),
        ensures
            final(self)@ == old(self)@.tick_div(cycles),
            final(self).wf(),
    {
        proof {
            reveal(GbView::tick_div);
        }
        let o = div_tick(self.hram_io[IO_DIV], self.counter.div_count, cycles);
        self.hram_io[IO_DIV] = o.div;
        self.counter.div_count = o.count;
    }

    fn tick_rtc(&mut self, cycles: u8)
        requires
            old(self).wf(),
        ensures
            final(self)@ == old(self)@.tick_rtc(cycles),
            final(self).wf(),
    {
        proof {
            reveal(GbView::tick_rtc);
        }
        if self.cart.mbc == Mbc::Mbc3 {
            let o = rtc_advance(self.cart.rtc_real, self.counter.rtc_count, cycles);
            self.cart.rtc_real = o.rtc;
            self.counter.rtc_count = o.count;
        }
    }

    fn tick_tima(&mut self, cycles: u8)
        requires
            old(self).wf(),
        ensures
            final(self)@ == old(self)@.tick_tima(cycles),
            final(self).wf(),
    {
        proof {
            reveal(GbView::tick_tima);
        }
        let o = tima_tick(
            self.hram_io[IO_TIMA],
            self.hram_io[IO_TMA],
            self.hram_io[IO_TAC],
            self.counter.tima_count,
            cycles,
        );
        let iflag = raise(self.hram_io[IO_IF], o.overflow, TIMER_INTR);
        self.hram_io[IO_TIMA] = o.tima;
        self.hram_io[IO_IF] = iflag;
        self.counter.tima_count = o.count;
    }

    fn serial_begin(&mut self)
        requires
            old(self).wf(),
        ensures
            final(self)@ == old(self)@.serial_begin(),
            final(self).wf(),
    {
        proof {
            reveal(GbView::serial_begin);
        }
        if self.counter.serial_count == 0 && self.serial {
            self.host.serial_tx(self.hram_io[IO_SB]);
        }
    }

    /// Polls the host, where the console has a serial link.
    fn serial_poll(&mut self) -> (answer: Option<u8>)
        requires
            old(self).wf(),
        ensures
            final(self)@ == old(self)@.serial_polled(answer),
            final(self).wf(),
    {
        proof {
            reveal(GbView::serial_polled);
        }
        if self.serial {
            self.host.serial_rx()
        } else {
            None
        }
    }

    /// Ends a serial transfer with the host's answer.
    pub fn serial_end(&mut self, answer: Option<u8>)
        requires
            old(self).wf(),
        ensures
            final(self)@ == old(self)@.serial_end(answer),
            final(self).wf(),
    {
        proof {
            reveal(GbView::serial_end);
        }
        let got = answer.is_some();
        let byte: u8 = match answer {
            Some(b) => b,
            None => 0,
        };
        let o = serial_finish(
            self.hram_io[IO_SB],
            self.hram_io[IO_SC],
            self.hram_io[IO_IF],
            got,
            byte,
        );
        self.hram_io[IO_SB] = o.sb;
        self.hram_io[IO_SC] = o.sc;
        self.hram_io[IO_IF] = o.iflag;
        self.counter.serial_count = 0;
    }

    fn serial_count_up(&mut self, cycles: u8)
        requires
            old(self).wf(),
            !old(self)@.serial_due(cycles),
        ensures
            final(self)@ == (GbView {
                counter: Count {
                    serial_count: (old(self)@.counter.serial_count + cycles) as u16,
                    ..old(self)@.counter
                },
                ..old(self)@
            }),
            final(self).wf(),
    {
        self.counter.serial_count = self.counter.serial_count + cycles as u16;
    }

    /// Lets the serial link count `cycles` more cycles, and returns what
    /// the host answered where it was polled.
    fn tick_serial(&mut self, cycles: u8) -> (answer: Option<u8>)
        requires
            old(self).wf(),
        ensures
            final(self)@ == old(self)@.tick_serial(cycles, answer),
            final(self).wf(),
    {
        proof {
            reveal(GbView::tick_serial);
        }
        if self.hram_io[IO_SC] & 0x80 != 0 {
            self.serial_begin();
            let period = serial_period(self.cgb.mode, self.hram_io[IO_SC]);
            if self.counter.serial_count + cycles as u16 >= period {
                let answer = self.serial_poll();
                self.serial_end(answer);
                answer
            } else {
                self.serial_count_up(cycles);
                None
            }
        } else {
            None
        }
    }

    fn hdma_line(&mut self)
        requires
            old(self).wf(),
        ensures
            final(self)@ == old(self)@.hdma_line(),
            final(self).wf(),
    {
        proof {
            reveal(GbView::hdma_line);
        }
        let src = self.cgb.hdma_src();
        let dst = self.cgb.hdma_dst();
        self.block_copy(src, dst, 16);
        let mut c = self.cgb;
        c.hdma_line();
        self.set_cgb(c);
    }

    fn window_step(&mut self)
        requires
            old(self).wf(),
        ensures
            final(self)@ == old(self)@.window_step(),
            final(self).wf(),
    {
        proof {
            reveal(GbView::window_step);
        }
        if self.hram_io[IO_LCDC] & crate::ppu::LCDC_WINDOW_ENABLE != 0 && self.hram_io[IO_LY]
            >= self.display.wy && self.hram_io[IO_WX] <= 166 {
            self.display.window_clear = self.display.window_clear.wrapping_add(1);
        }
    }

    fn deliver_line(&mut self, pixels: &[u8; 160], line: u8)
        ensures
            final(self)@ == (GbView { host: old(self)@.host.drawn(pixels@, line), ..old(self)@ }),
            old(self).wf() ==> final(self).wf(),
    {
        self.host.lcd_draw_line(pixels, line);
    }

    /// Draws the current line: composes its row and hands it to the host,
    /// unless the line is left out.
    pub fn draw_line(&mut self)
        requires
            old(self).wf(),
        ensures
            final(self)@ == old(self)@.draw_line(),
            final(self).wf(),
    {
        proof {
            reveal(GbView::draw_line);
        }
        if !self.display.lcd_draw_line || (self.direct.frame_skip
            && !self.display.frame_skip_count) {
            return ;
        }
        let ly = self.hram_io[IO_LY];
        let out = self.direct.interlace && ((!self.display.interlace_count && ly % 2 == 0) || (
        self.display.interlace_count && ly % 2 == 1));
        if !out {
            let pixels = self.render_line();
            self.deliver_line(&pixels, ly);
        }
        self.window_step();
    }

    fn lcd_regs(&self) -> (r: LcdRegs)
        requires
            self.wf(),
        ensures
            r == self@.lcd_regs(),
            r.ly < crate::state::LCD_VERT_LINES,
            r.lcd_count < crate::timer::LCD_LINE_CYCLES,
    {
        proof {
            reveal(GbView::lcd_regs);
        }
        LcdRegs {
            lcdc: self.hram_io[IO_LCDC],
            stat: self.hram_io[IO_STAT],
            ly: self.hram_io[IO_LY],
            lyc: self.hram_io[IO_LYC],
            wy_reg: self.hram_io[IO_WY],
            iflag: self.hram_io[IO_IF],
            lcd_count: self.counter.lcd_count,
            double_speed: self.cgb.double_speed,
            frame: self.gb_frame,
            lcd_blank: self.lcd_blank,
            wy: self.display.wy,
            window_clear: self.display.window_clear,
            frame_skip: self.direct.frame_skip,
            interlace: self.direct.interlace,
            frame_skip_count: self.display.frame_skip_count,
            interlace_count: self.display.interlace_count,
        }
    }

    fn set_lcd_regs(&mut self, r: LcdRegs)
        requires
            old(self).wf(),
            r.ly < crate::state::LCD_VERT_LINES,
            r.lcd_count < crate::timer::LCD_LINE_CYCLES,
        ensures
            final(self)@ == old(self)@.with_lcd_regs(r),
            final(self).wf(),
            final(self).cgb == old(self).cgb,
    {
        proof {
            reveal(GbView::with_lcd_regs);
        }
        self.hram_io[IO_STAT] = r.stat;
        self.hram_io[IO_LY] = r.ly;
        self.hram_io[IO_IF] = r.iflag;
        self.counter.lcd_count = r.lcd_count;
        self.gb_frame = r.frame;
        self.lcd_blank = r.lcd_blank;
        self.display.wy = r.wy;
        self.display.window_clear = r.window_clear;
        self.display.frame_skip_count = r.frame_skip_count;
        self.display.interlace_count = r.interlace_count;
    }

    fn set_idle_cycles(&mut self, cycles: u8)
        requires
            old(self).wf(),
            cycles >= 1,
        ensures
            final(self)@ == old(self)@.with_idle(cycles),
            final(self).wf(),
    {
        self.idle_cycles = cycles;
    }

    fn line_dma(&mut self, hblank: bool)
        requires
            old(self).wf(),
        ensures
            final(self)@ == old(self)@.line_dma(hblank),
            final(self).wf(),
    {
        proof {
            reveal(GbView::line_dma);
        }
        if hblank && self.cgb.mode && self.cgb.dma_active == 0 && self.cgb.dma_mode != 0 {
            self.hdma_line();
        }
    }

    fn line_draw(&mut self, draw: bool)
        requires
            old(self).wf(),
        ensures
            final(self)@ == old(self)@.line_draw(draw),
            final(self).wf(),
    {
        proof {
            reveal(GbView::line_draw);
        }
        if draw {
            self.draw_line();
        }
    }

    fn tick_lcd(&mut self, cycles: u8)
        requires
            old(self).wf(),
            cycles >= 1,
        ensures
            final(self)@ == old(self)@.tick_lcd(cycles),
            final(self).wf(),
    {
        proof {
            reveal(GbView::tick_lcd);
        }
        let o = lcd_advance(self.lcd_regs(), cycles);
        self.set_lcd_regs(o.regs);
        self.line_dma(o.hblank);
        self.line_draw(o.draw);
        self.set_idle_cycles(o.cycles);
    }

    /// Lets `cycles` cycles pass, and returns what the host answered where
    /// the serial link polled it.
    pub fn tick(&mut self, cycles: u8) -> (answer: Option<u8>)
        requires
            old(self).wf(),
            cycles >= 1,
        ensures
            final(self)@ == old(self)@.tick(cycles, answer),
            final(self).wf(),
    {
        proof {
            reveal(GbView::tick);
        }
        self.tick_div(cycles);
        self.tick_rtc(cycles);
        let answer = self.tick_serial(cycles);
        self.tick_tima(cycles);
        self.tick_lcd(cycles);
        answer
    }
}

} // verus!
