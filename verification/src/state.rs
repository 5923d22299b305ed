//! The console's state and its model.

use crate::cart::Cart;
use crate::host::{Host, HostModel};
use crate::regs::CpuRegisters;
use crate::timer::Count;
use vstd::prelude::*;

verus! {

pub const WRAM_SIZE_COLOR: usize = 0x8000;

pub const VRAM_SIZE_COLOR: usize = 0x4000;

pub const WRAM_SIZE_MONO: usize = 0x2000;

pub const VRAM_SIZE_MONO: usize = 0x2000;

pub const HRAM_IO_SIZE: usize = 0x0100;

pub const OAM_SIZE: usize = 0x00A0;

pub const ROM_N_ADDR: u16 = 0x4000;

pub const VRAM_ADDR: u16 = 0x8000;

pub const WRAM_0_ADDR: u16 = 0xC000;

pub const OAM_ADDR: u16 = 0xFE00;

pub const UNUSED_ADDR: u16 = 0xFEA0;

pub const IO_ADDR: u16 = 0xFF00;

pub const HRAM_ADDR: u16 = 0xFF80;

pub const INTR_EN_ADDR: u16 = 0xFFFF;

pub const WRAM_BANK_SIZE: usize = 0x1000;

pub const VRAM_BANK_SIZE: usize = 0x2000;

pub const IO_JOYP: usize = 0x00;

pub const IO_SB: usize = 0x01;

pub const IO_SC: usize = 0x02;

pub const IO_DIV: usize = 0x04;

pub const IO_TIMA: usize = 0x05;

pub const IO_TMA: usize = 0x06;

pub const IO_TAC: usize = 0x07;

pub const IO_IF: usize = 0x0F;

pub const IO_LCDC: usize = 0x40;

pub const IO_STAT: usize = 0x41;

pub const IO_SCY: usize = 0x42;

pub const IO_SCX: usize = 0x43;

pub const IO_LY: usize = 0x44;

pub const IO_LYC: usize = 0x45;

pub const IO_DMA: usize = 0x46;

pub const IO_BGP: usize = 0x47;

pub const IO_OBP0: usize = 0x48;

pub const IO_OBP1: usize = 0x49;

pub const IO_WY: usize = 0x4A;

pub const IO_WX: usize = 0x4B;

pub const IO_BANK: usize = 0x50;

pub const IO_IE: usize = 0xFF;

pub const LCD_VERT_LINES: u8 = 154;

/// What is fixed when a console is built.
#[derive(Clone, Copy, Debug, PartialEq, Eq, Structural)]
pub struct Config {
    /// The console is color-capable: working and video RAM have their color
    /// sizes, and a cartridge that asks for color mode gets it.
    pub color: bool,
    /// Sprites are drawn by X coordinate, then table order, at most ten to a
    /// line; else in table order.
    pub high_lcd_accuracy: bool,
    /// Monochrome pixels carry the palette they came from in bits 4 and 5.
    pub tagged_palette: bool,
    /// Only every other frame is drawn.
    pub frame_skip: bool,
    /// Only every other line of a frame is drawn, alternating by frame.
    pub interlace: bool,
}

/// What the host sets directly.
#[derive(Clone, Copy, Debug, PartialEq, Eq, Structural)]
pub struct Direct {
    pub interlace: bool,
    pub frame_skip: bool,
    /// The buttons, one bit each, a clear bit for a button held down.
    pub joypad: u8,
}

impl Direct {
    pub open spec fn spec_new() -> Direct {
        Direct { interlace: false, frame_skip: false, joypad: 0 }
    }

    pub fn new() -> (r: Direct)
        ensures
            r == Direct::spec_new(),
    {
        Direct { interlace: false, frame_skip: false, joypad: 0 }
    }
}

/// The renderer's counters.
#[derive(Clone, Copy, Debug, PartialEq, Eq, Structural)]
pub struct Display {
    /// The window's own line counter.
    pub window_clear: u8,
    /// The window's top line, sampled at the start of the frame.
    pub wy: u8,
    pub frame_skip_count: bool,
    pub interlace_count: bool,
    /// Whether finished scanlines are handed to the host.
    pub lcd_draw_line: bool,
}

impl Display {
    pub open spec fn spec_new() -> Display {
        Display {
            window_clear: 0,
            wy: 0,
            frame_skip_count: false,
            interlace_count: false,
            lcd_draw_line: false,
        }
    }

    pub fn new() -> (r: Display)
        ensures
            r == Display::spec_new(),
    {
        Display {
            window_clear: 0,
            wy: 0,
            frame_skip_count: false,
            interlace_count: false,
            lcd_draw_line: false,
        }
    }
}

/// The registers that only color mode has.
#[derive(Clone, Copy, Debug, PartialEq, Eq, Structural)]
pub struct Cgb {
    pub mode: bool,
    pub double_speed: u8,
    pub double_speed_prep: u8,
    pub wram_bank: u8,
    pub vram_bank: u8,
    pub oam_palette_id: u8,
    pub bg_palette_id: u8,
    pub oam_palette_inc: u8,
    pub bg_palette_inc: u8,
    pub dma_active: u8,
    pub dma_mode: u8,
    pub dma_size: u8,
    pub dma_source: u16,
    pub dma_dest: u16,
}

impl Cgb {
    pub open spec fn wf(self) -> bool {
        &&& self.double_speed <= 1
        &&& self.double_speed_prep <= 1
        &&& self.vram_bank <= 1
        &&& self.oam_palette_id < 0x40
        &&& self.bg_palette_id < 0x40
        &&& self.oam_palette_inc <= 1
        &&& self.bg_palette_inc <= 1
        &&& self.dma_active <= 1
        &&& self.dma_mode <= 1
        &&& self.dma_size <= 128
    }

    /// The registers after a write to one that holds a plain field: the
    /// speed-switch request, the bank selects, the halves of the transfer
    /// addresses and the palette indices.
    #[verifier::opaque]
    pub open spec fn spec_write_reg(self, reg: u8, val: u8) -> Cgb {
        if reg == 0x4D {
            Cgb { double_speed_prep: val % 2, ..self }
        } else if reg == 0x4F {
            Cgb { vram_bank: val % 2, ..self }
        } else if reg == 0x51 {
            Cgb { dma_source: (self.dma_source % 256 + val * 256) as u16, ..self }
        } else if reg == 0x52 {
            Cgb { dma_source: ((self.dma_source / 256) * 256 + val) as u16, ..self }
        } else if reg == 0x53 {
            Cgb { dma_dest: (self.dma_dest % 256 + val * 256) as u16, ..self }
        } else if reg == 0x54 {
            Cgb { dma_dest: ((self.dma_dest / 256) * 256 + val) as u16, ..self }
        } else if reg == 0x68 {
            Cgb { bg_palette_id: val % 0x40, bg_palette_inc: val / 128, ..self }
        } else if reg == 0x6A {
            Cgb { oam_palette_id: val % 0x40, oam_palette_inc: val / 128, ..self }
        } else if reg == 0x70 {
            Cgb { wram_bank: val, ..self }
        } else {
            self
        }
    }

    /// The registers after a write of `val` to the transfer-start register,
    /// before anything is moved: the length in blocks of 16 bytes and the
    /// kind of transfer.
    pub open spec fn spec_hdma_begin(self, val: u8) -> Cgb {
        Cgb { dma_size: (val % 128 + 1) as u8, dma_mode: val / 128, ..self }
    }

    /// The first source address of a block transfer.
    pub open spec fn spec_hdma_src(self) -> u16 {
        (self.dma_source - self.dma_source % 16) as u16
    }

    /// The first destination address of a block transfer, in video RAM.
    pub open spec fn spec_hdma_dst(self) -> u16 {
        (0x8000 + self.dma_dest % 0x2000 - self.dma_dest % 16) as u16
    }

    /// The registers after `len` bytes were moved, with `size` blocks left.
    pub open spec fn spec_hdma_advanced(self, len: u16, size: u8) -> Cgb {
        Cgb {
            dma_source: ((self.dma_source + len) % 0x10000) as u16,
            dma_dest: ((self.dma_dest + len) % 0x10000) as u16,
            dma_size: size,
            ..self
        }
    }

    /// The registers after a write to the transfer-start register was dealt
    /// with: a per-line transfer is now active, a general-purpose one is
    /// over.
    pub open spec fn spec_hdma_end(self, val: u8) -> Cgb {
        Cgb { dma_active: (1 - val / 128) as u8, ..self }
    }

    /// The registers after one block of a per-line transfer.
    #[verifier::opaque]
    pub open spec fn spec_hdma_line(self) -> Cgb {
        let c = self.spec_hdma_advanced(
            16,
            if self.dma_size == 0 {
                0
            } else {
                (self.dma_size - 1) as u8
            },
        );
        if c.dma_size == 0 {
            Cgb { dma_active: 1, ..c }
        } else {
            c
        }
    }

    pub fn write_reg(&mut self, reg: u8, val: u8)
        requires
            old(self).wf(),
        ensures
            *final(self) == old(self).spec_write_reg(reg, val),
            final(self).wf(),
            final(self).mode == old(self).mode,
    {
        proof {
            reveal(Cgb::spec_write_reg);
        }
        if reg == 0x4D {
            self.double_speed_prep = val % 2;
        } else if reg == 0x4F {
            self.vram_bank = val % 2;
        } else if reg == 0x51 {
            self.dma_source = self.dma_source % 256 + val as u16 * 256;
        } else if reg == 0x52 {
            self.dma_source = (self.dma_source / 256) * 256 + val as u16;
        } else if reg == 0x53 {
            self.dma_dest = self.dma_dest % 256 + val as u16 * 256;
        } else if reg == 0x54 {
            self.dma_dest = (self.dma_dest / 256) * 256 + val as u16;
        } else if reg == 0x68 {
            self.bg_palette_id = val % 0x40;
            self.bg_palette_inc = val / 128;
        } else if reg == 0x6A {
            self.oam_palette_id = val % 0x40;
            self.oam_palette_inc = val / 128;
        } else if reg == 0x70 {
            self.wram_bank = val;
        }
    }

    pub fn hdma_begin(&mut self, val: u8)
        ensures
            *final(self) == old(self).spec_hdma_begin(val),
            1 <= final(self).dma_size <= 128,
    {
        self.dma_size = val % 128 + 1;
        self.dma_mode = val / 128;
    }

    pub fn hdma_src(&self) -> (r: u16)
        ensures
            r == self.spec_hdma_src(),
    {
        self.dma_source - self.dma_source % 16
    }

    pub fn hdma_dst(&self) -> (r: u16)
        ensures
            r == self.spec_hdma_dst(),
            0x8000 <= r < 0xA000,
    {
        0x8000 + self.dma_dest % 0x2000 - self.dma_dest % 16
    }

    pub fn hdma_advance(&mut self, len: u16, size: u8)
        ensures
            *final(self) == old(self).spec_hdma_advanced(len, size),
    {
        self.dma_source = self.dma_source.wrapping_add(len);
        self.dma_dest = self.dma_dest.wrapping_add(len);
        self.dma_size = size;
    }

    pub fn hdma_end(&mut self, val: u8)
        ensures
            *final(self) == old(self).spec_hdma_end(val),
    {
        self.dma_active = 1 - val / 128;
    }

    pub fn hdma_line(&mut self)
        requires
            old(self).wf(),
        ensures
            *final(self) == old(self).spec_hdma_line(),
            final(self).wf(),
            final(self).mode == old(self).mode,
    {
        proof {
            reveal(Cgb::spec_hdma_line);
        }
        let size: u8 = if self.dma_size == 0 {
            0
        } else {
            self.dma_size - 1
        };
        self.hdma_advance(16, size);
        if self.dma_size == 0 {
            self.dma_active = 1;
        }
    }

    pub open spec fn spec_new(mode: bool) -> Cgb {
        Cgb {
            mode,
            double_speed: 0,
            double_speed_prep: 0,
            wram_bank: 0,
            vram_bank: 0,
            oam_palette_id: 0,
            bg_palette_id: 0,
            oam_palette_inc: 0,
            bg_palette_inc: 0,
            dma_active: 0,
            dma_mode: 0,
            dma_size: 0,
            dma_source: 0,
            dma_dest: 0,
        }
    }

    /// The registers as they are when the console is reset.
    pub open spec fn spec_reset(self) -> Cgb {
        Cgb { wram_bank: 1, dma_active: 1, ..Cgb::spec_new(self.mode) }
    }

    /// Tests the invariant of the registers.
    pub fn valid(&self) -> (b: bool)
        ensures
            b == self.wf(),
    {
        self.double_speed <= 1 && self.double_speed_prep <= 1 && self.vram_bank <= 1
            && self.oam_palette_id < 0x40 && self.bg_palette_id < 0x40 && self.oam_palette_inc <= 1
            && self.bg_palette_inc <= 1 && self.dma_active <= 1 && self.dma_mode <= 1
            && self.dma_size <= 128
    }

    pub fn new(mode: bool) -> (r: Cgb)
        ensures
            r == Cgb::spec_new(mode),
            r.wf(),
    {
        Cgb {
            mode,
            double_speed: 0,
            double_speed_prep: 0,
            wram_bank: 0,
            vram_bank: 0,
            oam_palette_id: 0,
            bg_palette_id: 0,
            oam_palette_inc: 0,
            bg_palette_inc: 0,
            dma_active: 0,
            dma_mode: 0,
            dma_size: 0,
            dma_source: 0,
            dma_dest: 0,
        }
    }
}

/// The model of a console together with its host.
pub struct GbView {
    pub cpu_reg: CpuRegisters,
    pub gb_halt: bool,
    pub gb_ime: bool,
    pub gb_frame: bool,
    pub lcd_blank: bool,
    pub cart: Cart,
    pub counter: Count,
    pub idle_cycles: u8,
    pub display: Display,
    pub cgb: Cgb,
    pub direct: Direct,
    pub config: Config,
    pub serial: bool,
    pub bootrom: bool,
    pub wram: Seq<u8>,
    pub vram: Seq<u8>,
    pub oam: Seq<u8>,
    pub hram_io: Seq<u8>,
    pub bg_palette: Seq<u8>,
    pub sp_palette: Seq<u8>,
    pub cgb_bg_palette: Seq<u8>,
    pub cgb_oam_palette: Seq<u8>,
    pub fix_palette: Seq<u16>,
    pub host: HostModel,
}

impl GbView {
    /// The invariant of a console: the memories have their sizes, color mode
    /// is on only in a color-capable console, and the bank controller, the
    /// counters and the line register are in range.
    pub open spec fn wf(self) -> bool {
        &&& self.wram.len() == (if self.config.color {
            WRAM_SIZE_COLOR
        } else {
            WRAM_SIZE_MONO
        })
        &&& self.vram.len() == (if self.config.color {
            VRAM_SIZE_COLOR
        } else {
            VRAM_SIZE_MONO
        })
        &&& self.oam.len() == OAM_SIZE
        &&& self.hram_io.len() == HRAM_IO_SIZE
        &&& self.bg_palette.len() == 4
        &&& self.sp_palette.len() == 8
        &&& self.cgb_bg_palette.len() == 0x40
        &&& self.cgb_oam_palette.len() == 0x40
        &&& self.fix_palette.len() == 0x40
        &&& self.cgb.mode ==> self.config.color
        &&& self.cgb.wf()
        &&& self.cart.wf()
        &&& self.counter.wf()
        &&& self.hram_io[IO_LY as int] < LCD_VERT_LINES
        &&& self.idle_cycles >= 1
    }

    /// The I/O register `reg`.
    pub open spec fn io(self, reg: int) -> u8 {
        self.hram_io[reg]
    }

    pub open spec fn with_io(self, reg: int, val: u8) -> GbView {
        GbView { hram_io: self.hram_io.update(reg, val), ..self }
    }

    pub open spec fn with_reg(self, cpu_reg: CpuRegisters) -> GbView {
        GbView { cpu_reg, ..self }
    }
}

/// A console: the CPU, the memories, the bank controller, the counters and
/// the renderer's state, with the host it talks to.
pub struct Gb<H: Host> {
    pub cpu_reg: CpuRegisters,
    pub gb_halt: bool,
    pub gb_ime: bool,
    pub gb_frame: bool,
    pub lcd_blank: bool,
    pub cart: Cart,
    pub counter: Count,
    pub idle_cycles: u8,
    pub display: Display,
    pub cgb: Cgb,
    pub direct: Direct,
    pub config: Config,
    pub serial: bool,
    pub bootrom: bool,
    pub wram: Vec<u8>,
    pub vram: Vec<u8>,
    pub oam: Vec<u8>,
    pub hram_io: Vec<u8>,
    pub bg_palette: Vec<u8>,
    pub sp_palette: Vec<u8>,
    pub cgb_bg_palette: Vec<u8>,
    pub cgb_oam_palette: Vec<u8>,
    pub fix_palette: Vec<u16>,
    pub host: H,
}

impl<H: Host> View for Gb<H> {
    type V = GbView;

    open spec fn view(&self) -> GbView {
        GbView {
            cpu_reg: self.cpu_reg,
            gb_halt: self.gb_halt,
            gb_ime: self.gb_ime,
            gb_frame: self.gb_frame,
            lcd_blank: self.lcd_blank,
            cart: self.cart,
            counter: self.counter,
            idle_cycles: self.idle_cycles,
            display: self.display,
            cgb: self.cgb,
            direct: self.direct,
            config: self.config,
            serial: self.serial,
            bootrom: self.bootrom,
            wram: self.wram@,
            vram: self.vram@,
            oam: self.oam@,
            hram_io: self.hram_io@,
            bg_palette: self.bg_palette@,
            sp_palette: self.sp_palette@,
            cgb_bg_palette: self.cgb_bg_palette@,
            cgb_oam_palette: self.cgb_oam_palette@,
            fix_palette: self.fix_palette@,
            host: self.host.model(),
        }
    }
}

impl<H: Host> Gb<H> {
    /// The invariant of a console, stated of its model.
    pub open spec fn wf(&self) -> bool {
        self@.wf()
    }

    /// Tests the invariant of the console.  A console that was built by
    /// `new` and changed only through its methods passes; one whose fields
    /// were set by hand may not.
    pub fn valid(&self) -> (b: bool)
        ensures
            b == self.wf(),
    {
        let wram_size: usize = if self.config.color {
            WRAM_SIZE_COLOR
        } else {
            WRAM_SIZE_MONO
        };
        let vram_size: usize = if self.config.color {
            VRAM_SIZE_COLOR
        } else {
            VRAM_SIZE_MONO
        };
        self.wram.len() == wram_size && self.vram.len() == vram_size && self.oam.len() == OAM_SIZE
            && self.hram_io.len() == HRAM_IO_SIZE && self.bg_palette.len() == 4
            && self.sp_palette.len() == 8 && self.cgb_bg_palette.len() == 0x40
            && self.cgb_oam_palette.len() == 0x40 && self.fix_palette.len() == 0x40 && (
        !self.cgb.mode || self.config.color) && self.cgb.valid() && self.cart.valid()
            && self.counter.valid() && self.hram_io[IO_LY] < LCD_VERT_LINES && self.idle_cycles
            >= 1
    }

    /// Stores `val` in the I/O register `reg`, with no side effect.
    pub fn set_io(&mut self, reg: usize, val: u8)
        requires
            reg < HRAM_IO_SIZE,
            reg != IO_LY,
            old(self).wf(),
        ensures
            final(self)@ == old(self)@.with_io(reg as int, val),
            final(self).wf(),
    {
        self.hram_io[reg] = val;
    }
}

} // verus!
