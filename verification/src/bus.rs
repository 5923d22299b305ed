//! The memory bus: one read and one write entry point over the whole
//! 16-bit address space.

use crate::cart::{Cart, Mbc, RamKind};
use crate::host::{byte_at, Host};
use crate::state::{
    Cgb, Gb, GbView, HRAM_ADDR, INTR_EN_ADDR, IO_ADDR, IO_BANK, IO_BGP, IO_DMA, IO_LCDC, IO_LY,
    IO_OBP0, IO_OBP1, IO_STAT, OAM_ADDR, OAM_SIZE, ROM_N_ADDR, UNUSED_ADDR, VRAM_ADDR,
    VRAM_BANK_SIZE, WRAM_0_ADDR, WRAM_BANK_SIZE,
};
use crate::timer::Count;
use vstd::prelude::*;

verus! {

pub const LCDC_ENABLE: u8 = 0x80;

pub const STAT_MODE: u8 = 0x03;

pub const STAT_USER_BITS: u8 = 0xF8;

/// The bits that read as one in the sound registers 0xFF10..=0xFF3F, by the
/// register's offset from 0xFF10.
#[verifier::opaque]
pub open spec fn spec_audio_mask(i: u8) -> u8 {
    if i == 0 {
        0x80
    } else if i == 1 || i == 6 {
        0x3F
    } else if i == 2 || i == 7 || i == 17 || i == 18 || i == 20 || i == 21 {
        0x00
    } else if i == 4 || i == 9 || i == 14 || i == 19 {
        0xBF
    } else if i == 10 {
        0x7F
    } else if i == 12 {
        0x9F
    } else if i == 22 {
        0x70
    } else if i < 32 {
        0xFF
    } else {
        0x00
    }
}

pub fn audio_mask(i: u8) -> (r: u8)
    ensures
        r == spec_audio_mask(i),
{
    proof {
        reveal(spec_audio_mask);
    }
    if i == 0 {
        0x80
    } else if i == 1 || i == 6 {
        0x3F
    } else if i == 2 || i == 7 || i == 17 || i == 18 || i == 20 || i == 21 {
        0x00
    } else if i == 4 || i == 9 || i == 14 || i == 19 {
        0xBF
    } else if i == 10 {
        0x7F
    } else if i == 12 {
        0x9F
    } else if i == 22 {
        0x70
    } else if i < 32 {
        0xFF
    } else {
        0x00
    }
}

impl GbView {
    /// The index in video RAM of an address in 0x8000..=0x9FFF: in color
    /// mode the selected bank, else the first.
    pub open spec fn vram_index(self, addr: u16) -> int {
        addr - 0x8000 + (if self.cgb.mode {
            self.cgb.vram_bank * 0x2000
        } else {
            0
        })
    }

    /// The working-RAM bank seen at 0xD000..=0xDFFF: in color mode the low
    /// three bits of the bank register, with 0 standing for 1; else bank 1.
    pub open spec fn wram_bank(self) -> int {
        if self.cgb.mode && self.cgb.wram_bank % 8 != 0 {
            (self.cgb.wram_bank % 8) as int
        } else {
            1
        }
    }

    /// The index in working RAM of an address in 0xC000..=0xFDFF, the echo
    /// range folded onto the range it mirrors.
    pub open spec fn wram_index(self, addr: u16) -> int {
        let off = (addr - 0xC000) % 0x2000;
        if off < 0x1000 {
            off
        } else {
            off - 0x1000 + self.wram_bank() * 0x1000
        }
    }

    /// What a read of the I/O page gives, by the register's offset from
    /// 0xFF00.
    #[verifier::opaque]
    pub open spec fn read_io(self, reg: u8) -> u8 {
        if 0x10 <= reg <= 0x3F {
            self.hram_io[reg as int] | spec_audio_mask((reg - 0x10) as u8)
        } else if self.cgb.mode && reg == 0x4D {
            (self.cgb.double_speed * 128 + self.cgb.double_speed_prep) as u8
        } else if self.cgb.mode && reg == 0x4F {
            self.cgb.vram_bank | 0xFE
        } else if self.cgb.mode && reg == 0x51 {
            (self.cgb.dma_source / 256) as u8
        } else if self.cgb.mode && reg == 0x52 {
            ((self.cgb.dma_source % 256) as u8) & 0xF0
        } else if self.cgb.mode && reg == 0x53 {
            (self.cgb.dma_dest / 256) as u8
        } else if self.cgb.mode && reg == 0x54 {
            ((self.cgb.dma_dest % 256) as u8) & 0xF0
        } else if self.cgb.mode && reg == 0x55 {
            ((self.cgb.dma_active * 128) as u8) | self.cgb.dma_size.wrapping_sub(1)
        } else if self.cgb.mode && reg == 0x68 {
            (self.cgb.bg_palette_id + self.cgb.bg_palette_inc * 128) as u8
        } else if self.cgb.mode && reg == 0x69 {
            self.cgb_bg_palette[self.cgb.bg_palette_id as int]
        } else if self.cgb.mode && reg == 0x6A {
            (self.cgb.oam_palette_id + self.cgb.oam_palette_inc * 128) as u8
        } else if self.cgb.mode && reg == 0x6B {
            self.cgb_oam_palette[self.cgb.oam_palette_id as int]
        } else if self.cgb.mode && reg == 0x70 {
            self.cgb.wram_bank
        } else {
            self.hram_io[reg as int]
        }
    }

    /// Whether the boot ROM overlays the address.
    pub open spec fn bootrom_maps(self, addr: u16) -> bool {
        self.bootrom && self.hram_io[IO_BANK as int] == 0 && addr < 0x0100
    }

    /// What a read of `addr` gives.
    #[verifier::opaque]
    pub open spec fn read(self, addr: u16) -> u8 {
        if addr < ROM_N_ADDR {
            if self.bootrom_maps(addr) {
                byte_at(self.host.bootrom, addr as int)
            } else {
                byte_at(self.host.rom, addr as int)
            }
        } else if addr < VRAM_ADDR {
            byte_at(self.host.rom, self.cart.spec_rom_offset(addr))
        } else if addr < 0xA000 {
            self.vram[self.vram_index(addr)]
        } else if addr < WRAM_0_ADDR {
            let t = self.cart.spec_ram_target(addr);
            match t.kind {
                RamKind::Rtc => self.cart.rtc_latched.spec_get(t.reg),
                RamKind::Ram => byte_at(self.host.cart_ram, t.offset as int),
                RamKind::Open => 0xFF,
            }
        } else if addr < OAM_ADDR {
            self.wram[self.wram_index(addr)]
        } else if addr < UNUSED_ADDR {
            self.oam[addr - OAM_ADDR]
        } else if addr < IO_ADDR {
            0xFF
        } else {
            self.read_io((addr - IO_ADDR) as u8)
        }
    }
}

/// The joypad register after a write: the written byte, with the lines of
/// the selected half of the button matrix brought in.
#[verifier::opaque]
pub open spec fn spec_joyp_compose(val: u8, joypad: u8) -> u8 {
    if val & 0x10 == 0 {
        val | (joypad >> 4)
    } else {
        val | (joypad & 0x0F)
    }
}

pub fn joyp_compose(val: u8, joypad: u8) -> (r: u8)
    ensures
        r == spec_joyp_compose(val, joypad),
{
    proof {
        reveal(spec_joyp_compose);
    }
    if val & 0x10 == 0 {
        val | (joypad >> 4)
    } else {
        val | (joypad & 0x0F)
    }
}

/// The status register with its two mode bits replaced.
pub open spec fn spec_stat_with_mode(stat: u8, mode: u8) -> u8 {
    (stat & !STAT_MODE) | mode
}

pub fn stat_with_mode(stat: u8, mode: u8) -> (r: u8)
    ensures
        r == spec_stat_with_mode(stat, mode),
{
    (stat & !STAT_MODE) | mode
}

/// A color of the color palettes, from its two bytes, with the red and the
/// blue field exchanged.
pub open spec fn spec_fix_color(lo: u8, hi: u8) -> u16 {
    let c = (((hi as u16) << 8) | (lo as u16)) as u16;
    ((c & 0x7C00) >> 10) | (c & 0x03E0) | ((c & 0x001F) << 10)
}

pub fn fix_color(lo: u8, hi: u8) -> (r: u16)
    ensures
        r == spec_fix_color(lo, hi),
{
    let c: u16 = ((hi as u16) << 8) | (lo as u16);
    ((c & 0x7C00) >> 10) | (c & 0x03E0) | ((c & 0x001F) << 10)
}

/// The palette index after a write to the data register: one further,
/// wrapping at 64, where the index is set to move on.
#[verifier::opaque]
pub open spec fn spec_next_palette_id(id: u8, inc: u8) -> u8 {
    if inc != 0 {
        ((id + 1) % 0x40) as u8
    } else {
        id
    }
}

pub fn next_palette_id(id: u8, inc: u8) -> (r: u8)
    requires
        id < 0x40,
    ensures
        r == spec_next_palette_id(id, inc),
        r < 0x40,
{
    proof {
        reveal(spec_next_palette_id);
    }
    if inc != 0 {
        (id + 1) % 0x40
    } else {
        id
    }
}

/// The four shades that a monochrome palette register selects, at `base`
/// and the three entries after it.
pub open spec fn spec_palette_set(pal: Seq<u8>, base: int, val: u8) -> Seq<u8> {
    pal.update(base, val & 0x03).update(base + 1, (val >> 2) & 0x03).update(
        base + 2,
        (val >> 4) & 0x03,
    ).update(base + 3, (val >> 6) & 0x03)
}

impl GbView {
    pub open spec fn with_cart(self, cart: Cart) -> GbView {
        GbView { cart, ..self }
    }

    pub open spec fn with_cgb(self, cgb: Cgb) -> GbView {
        GbView { cgb, ..self }
    }

    /// The console after a write to the cartridge RAM window
    /// 0xA000..=0xBFFF.  An MBC2 stores the low nibble only.
    #[verifier::opaque]
    pub open spec fn write_cart_ram(self, addr: u16, val: u8) -> GbView {
        let t = self.cart.spec_ram_target(addr);
        match t.kind {
            RamKind::Rtc => self.with_cart(
                Cart { rtc_real: self.cart.rtc_real.spec_put(t.reg, val), ..self.cart },
            ),
            RamKind::Ram => GbView {
                host: self.host.ram_written(
                    t.offset as int,
                    if self.cart.mbc == Mbc::Mbc2 {
                        val % 16
                    } else {
                        val
                    },
                ),
                ..self
            },
            RamKind::Open => self,
        }
    }

    /// The console after a write below 0xFE00: to the bank controller, to
    /// video RAM, to the cartridge RAM window or to working RAM.
    #[verifier::opaque]
    pub open spec fn write_low(self, addr: u16, val: u8) -> GbView {
        if addr < VRAM_ADDR {
            self.with_cart(self.cart.spec_control(addr, val))
        } else if addr < 0xA000 {
            GbView { vram: self.vram.update(self.vram_index(addr), val), ..self }
        } else if addr < WRAM_0_ADDR {
            self.write_cart_ram(addr, val)
        } else {
            GbView { wram: self.wram.update(self.wram_index(addr), val), ..self }
        }
    }

    /// The console after bytes `i..n` of a block were copied, one after the
    /// other, from `src` (wrapping in 16 bits) to `dst`.
    pub open spec fn block_copy(self, src: int, dst: int, i: int, n: int) -> GbView
        decreases n - i,
    {
        if i >= n {
            self
        } else {
            self.write_low((dst + i) as u16, self.read(((src + i) % 0x10000) as u16)).block_copy(
                src,
                dst,
                i + 1,
                n,
            )
        }
    }

    /// The console after a write to the LCD control register.  Switching the
    /// LCD on blanks the first frame; switching it off puts the renderer
    /// back to the start of line 0.
    #[verifier::opaque]
    pub open spec fn write_lcdc(self, val: u8) -> GbView {
        let was_on = self.hram_io[IO_LCDC as int] & LCDC_ENABLE != 0;
        let now_on = val & LCDC_ENABLE != 0;
        let s = self.with_io(IO_LCDC as int, val);
        if !was_on && now_on {
            GbView { lcd_blank: true, ..s }
        } else if was_on && !now_on {
            GbView {
                hram_io: s.hram_io.update(
                    IO_STAT as int,
                    spec_stat_with_mode(s.hram_io[IO_STAT as int], 0),
                ).update(IO_LY as int, 0),
                counter: Count { lcd_count: 0, ..s.counter },
                ..s
            }
        } else {
            s
        }
    }

    /// The source page of an OAM transfer.
    pub open spec fn dma_page(self, val: u8) -> u8 {
        if self.cgb.mode {
            val % 0xF1
        } else {
            val
        }
    }

    /// The console after a write to the OAM transfer register: 160 bytes
    /// are copied from the source page into OAM at once.
    #[verifier::opaque]
    pub open spec fn write_dma(self, val: u8) -> GbView {
        let page = self.dma_page(val);
        let s = self.with_io(IO_DMA as int, page);
        GbView { oam: Seq::new(OAM_SIZE as nat, |i: int| s.read((page * 256 + i) as u16)), ..s }
    }

    /// The console after a general-purpose transfer of color mode: the
    /// blocks that the length register counts are moved at once, and the
    /// transfer registers move on.
    #[verifier::opaque]
    pub open spec fn hdma_general(self) -> GbView {
        let len = (self.cgb.dma_size * 16) as u16;
        let copied = self.block_copy(
            self.cgb.spec_hdma_src() as int,
            self.cgb.spec_hdma_dst() as int,
            0,
            len as int,
        );
        copied.with_cgb(copied.cgb.spec_hdma_advanced(len, 0))
    }

    /// The console after a write to the transfer-start register of color
    /// mode.  A general-purpose transfer is done at once, a per-line
    /// transfer is armed.
    #[verifier::opaque]
    pub open spec fn write_hdma(self, val: u8) -> GbView {
        let s = self.with_cgb(self.cgb.spec_hdma_begin(val));
        let t = if self.cgb.dma_active != 0 && val / 128 == 0 {
            s.hdma_general()
        } else {
            s
        };
        t.with_cgb(t.cgb.spec_hdma_end(val))
    }

    /// The console after a write to the data register of the background
    /// color palettes: the byte is stored, the color it belongs to is
    /// rebuilt, and the index moves on where it is set to do so.
    #[verifier::opaque]
    pub open spec fn write_bg_palette_data(self, val: u8) -> GbView {
        let id = self.cgb.bg_palette_id as int;
        let pal = self.cgb_bg_palette.update(id, val);
        let even = id - id % 2;
        GbView {
            cgb_bg_palette: pal,
            fix_palette: self.fix_palette.update(id / 2, spec_fix_color(pal[even], pal[even + 1])),
            cgb: Cgb {
                bg_palette_id: spec_next_palette_id(id as u8, self.cgb.bg_palette_inc),
                ..self.cgb
            },
            ..self
        }
    }

    /// The console after a write to the data register of the sprite color
    /// palettes.
    #[verifier::opaque]
    pub open spec fn write_oam_palette_data(self, val: u8) -> GbView {
        let id = self.cgb.oam_palette_id as int;
        let pal = self.cgb_oam_palette.update(id, val);
        let even = id - id % 2;
        GbView {
            cgb_oam_palette: pal,
            fix_palette: self.fix_palette.update(
                0x20 + id / 2,
                spec_fix_color(pal[even], pal[even + 1]),
            ),
            cgb: Cgb {
                oam_palette_id: spec_next_palette_id(id as u8, self.cgb.oam_palette_inc),
                ..self.cgb
            },
            ..self
        }
    }

    /// The console after a write to one of the registers that only color
    /// mode has.
    #[verifier::opaque]
    pub open spec fn write_cgb(self, reg: u8, val: u8) -> GbView {
        if reg == 0x55 {
            self.write_hdma(val)
        } else if reg == 0x56 {
            self.with_io(0x56, val)
        } else if reg == 0x69 {
            self.write_bg_palette_data(val)
        } else if reg == 0x6B {
            self.write_oam_palette_data(val)
        } else {
            self.with_cgb(self.cgb.spec_write_reg(reg, val))
        }
    }

    /// Whether a write to the register is a plain store.
    pub open spec fn io_is_plain(reg: u8) -> bool {
        (0x80 <= reg) || (0x10 <= reg <= 0x3F) || reg == 0x01 || reg == 0x02 || reg == 0x05 || reg
            == 0x06 || reg == 0x07 || reg == 0x42 || reg == 0x43 || reg == 0x45 || reg == 0x4A
            || reg == 0x4B
    }

    /// The console after a write to one of the three monochrome palette
    /// registers: the register is stored and the shades it selects are
    /// rebuilt.
    #[verifier::opaque]
    pub open spec fn write_palette(self, reg: u8, val: u8) -> GbView {
        if reg == 0x47 {
            GbView {
                bg_palette: spec_palette_set(self.bg_palette, 0, val),
                ..self.with_io(IO_BGP as int, val)
            }
        } else if reg == 0x48 {
            GbView {
                sp_palette: spec_palette_set(self.sp_palette, 0, val),
                ..self.with_io(IO_OBP0 as int, val)
            }
        } else {
            GbView {
                sp_palette: spec_palette_set(self.sp_palette, 4, val),
                ..self.with_io(IO_OBP1 as int, val)
            }
        }
    }

    /// The byte that a write to a register without side effects on other
    /// state stores in it: the joypad register takes in the button lines,
    /// the divider is cleared, the interrupt request register keeps its
    /// unused bits set, the status register keeps its mode bits, and the
    /// boot ROM switch can only be set.
    #[verifier::opaque]
    pub open spec fn io_stored(self, reg: u8, val: u8) -> u8 {
        if reg == 0x00 {
            spec_joyp_compose(val, self.direct.joypad)
        } else if reg == 0x04 {
            0
        } else if reg == 0x0F {
            val | 0xE0
        } else if reg == 0x41 {
            (val & STAT_USER_BITS) | (self.hram_io[IO_STAT as int] & STAT_MODE)
        } else if reg == 0x50 {
            0x01
        } else {
            val
        }
    }

    /// Whether a write to the register only stores a byte in it.
    pub open spec fn io_is_store(reg: u8) -> bool {
        GbView::io_is_plain(reg) || reg == 0x00 || reg == 0x04 || reg == 0x0F || reg == 0x41
            || reg == 0x50
    }

    /// The console after a write to the I/O page, by the register's offset
    /// from 0xFF00.
    #[verifier::opaque]
    pub open spec fn write_io(self, reg: u8, val: u8) -> GbView {
        if GbView::io_is_store(reg) {
            self.with_io(reg as int, self.io_stored(reg, val))
        } else if reg == 0x40 {
            self.write_lcdc(val)
        } else if reg == 0x46 {
            self.write_dma(val)
        } else if reg == 0x47 || reg == 0x48 || reg == 0x49 {
            self.write_palette(reg, val)
        } else if self.cgb.mode {
            self.write_cgb(reg, val)
        } else {
            self
        }
    }

    /// The console after a write of `val` to `addr`.
    #[verifier::opaque]
    pub open spec fn write(self, addr: u16, val: u8) -> GbView {
        if addr < OAM_ADDR {
            self.write_low(addr, val)
        } else if addr < UNUSED_ADDR {
            GbView { oam: self.oam.update(addr - OAM_ADDR, val), ..self }
        } else if addr < IO_ADDR {
            self
        } else {
            self.write_io((addr - IO_ADDR) as u8, val)
        }
    }
}

impl GbView {
    /// A block transfer leaves the CPU's registers and flags as they are.
    pub proof fn lemma_block_copy_keeps_cpu(self, src: int, dst: int, i: int, n: int)
        ensures
            self.block_copy(src, dst, i, n).cpu_reg == self.cpu_reg,
            self.block_copy(src, dst, i, n).gb_ime == self.gb_ime,
            self.block_copy(src, dst, i, n).gb_halt == self.gb_halt,
            self.block_copy(src, dst, i, n).cgb == self.cgb,
        decreases n - i,
    {
        reveal(GbView::write_low);
        reveal(GbView::write_cart_ram);
        if i < n {
            let b = self.read(((src + i) % 0x10000) as u16);
            self.write_low((dst + i) as u16, b).lemma_block_copy_keeps_cpu(src, dst, i + 1, n);
        }
    }

    /// No write changes the CPU's registers, its halt state or the
    /// interrupt master enable.
    pub proof fn lemma_write_keeps_cpu(self, addr: u16, val: u8)
        ensures
            self.write(addr, val).cpu_reg == self.cpu_reg,
            self.write(addr, val).gb_ime == self.gb_ime,
            self.write(addr, val).gb_halt == self.gb_halt,
    {
        reveal(GbView::write);
        reveal(GbView::write_low);
        reveal(GbView::write_cart_ram);
        reveal(GbView::write_io);
        reveal(GbView::write_lcdc);
        reveal(GbView::write_dma);
        reveal(GbView::write_palette);
        reveal(GbView::write_cgb);
        reveal(GbView::write_hdma);
        reveal(GbView::hdma_general);
        reveal(GbView::write_bg_palette_data);
        reveal(GbView::write_oam_palette_data);
        let s = self.with_cgb(self.cgb.spec_hdma_begin(val));
        s.lemma_block_copy_keeps_cpu(
            s.cgb.spec_hdma_src() as int,
            s.cgb.spec_hdma_dst() as int,
            0,
            ((s.cgb.dma_size * 16) as u16) as int,
        );
    }

    /// A byte written to video RAM, working RAM, its echo, OAM or high RAM
    /// is what the next read of the address gives.
    pub proof fn lemma_write_then_read(self, addr: u16, val: u8)
        requires
            self.wf(),
            VRAM_ADDR <= addr < 0xA000 || WRAM_0_ADDR <= addr < UNUSED_ADDR || HRAM_ADDR <= addr
                < INTR_EN_ADDR,
        ensures
            self.write(addr, val).read(addr) == val,
    {
        reveal(GbView::write);
        reveal(GbView::write_low);
        reveal(GbView::write_io);
        reveal(GbView::io_stored);
        reveal(GbView::read);
        reveal(GbView::read_io);
        let after = self.write(addr, val);
        if addr < 0xA000 {
            let i = self.vram_index(addr);
            assert(0 <= i < self.vram.len());
            assert(after.vram == self.vram.update(i, val));
            assert(after.vram_index(addr) == i);
        } else if addr < OAM_ADDR {
            let i = self.wram_index(addr);
            assert(0 <= i < self.wram.len());
            assert(after.wram == self.wram.update(i, val));
            assert(after.wram_index(addr) == i);
        } else if addr < UNUSED_ADDR {
            assert(after.oam == self.oam.update(addr - OAM_ADDR, val));
        } else {
            let reg = (addr - IO_ADDR) as u8;
            assert(reg >= 0x80);
            assert(after.hram_io == self.hram_io.update(reg as int, val));
            assert(after.cgb == self.cgb);
        }
    }

    /// A byte written to working RAM below 0xDE00 is also what a read of
    /// its echo, 0x2000 higher, gives.
    pub proof fn lemma_echo_mirrors_working_ram(self, addr: u16, val: u8)
        requires
            self.wf(),
            WRAM_0_ADDR <= addr < 0xDE00,
        ensures
            self.write(addr, val).read((addr + 0x2000) as u16) == val,
    {
        reveal(GbView::write);
        reveal(GbView::write_low);
        reveal(GbView::read);
    }
}

impl<H: Host> Gb<H> {
    fn vram_index(&self, addr: u16) -> (r: usize)
        requires
            self.wf(),
            VRAM_ADDR <= addr < 0xA000,
        ensures
            r == self@.vram_index(addr),
            r < self.vram.len(),
    {
        let base: usize = (addr - VRAM_ADDR) as usize;
        if self.cgb.mode {
            base + self.cgb.vram_bank as usize * VRAM_BANK_SIZE
        } else {
            base
        }
    }

    fn wram_index(&self, addr: u16) -> (r: usize)
        requires
            self.wf(),
            WRAM_0_ADDR <= addr < OAM_ADDR,
        ensures
            r == self@.wram_index(addr),
            r < self.wram.len(),
    {
        let off: usize = ((addr - WRAM_0_ADDR) % 0x2000) as usize;
        if off < WRAM_BANK_SIZE {
            off
        } else {
            let bank: usize = if self.cgb.mode && self.cgb.wram_bank % 8 != 0 {
                (self.cgb.wram_bank % 8) as usize
            } else {
                1
            };
            off - WRAM_BANK_SIZE + bank * WRAM_BANK_SIZE
        }
    }

    fn read_io(&self, reg: u8) -> (b: u8)
        requires
            self.wf(),
        ensures
            b == self@.read_io(reg),
    {
        proof {
            reveal(GbView::read_io);
        }
        if 0x10 <= reg && reg <= 0x3F {
            return self.hram_io[reg as usize] | audio_mask(reg - 0x10);
        }
        if self.cgb.mode {
            if reg == 0x4D {
                return self.cgb.double_speed * 128 + self.cgb.double_speed_prep;
            } else if reg == 0x4F {
                return self.cgb.vram_bank | 0xFE;
            } else if reg == 0x51 {
                return (self.cgb.dma_source / 256) as u8;
            } else if reg == 0x52 {
                return ((self.cgb.dma_source % 256) as u8) & 0xF0;
            } else if reg == 0x53 {
                return (self.cgb.dma_dest / 256) as u8;
            } else if reg == 0x54 {
                return ((self.cgb.dma_dest % 256) as u8) & 0xF0;
            } else if reg == 0x55 {
                return (self.cgb.dma_active * 128) | self.cgb.dma_size.wrapping_sub(1);
            } else if reg == 0x68 {
                return self.cgb.bg_palette_id + self.cgb.bg_palette_inc * 128;
            } else if reg == 0x69 {
                return self.cgb_bg_palette[self.cgb.bg_palette_id as usize];
            } else if reg == 0x6A {
                return self.cgb.oam_palette_id + self.cgb.oam_palette_inc * 128;
            } else if reg == 0x6B {
                return self.cgb_oam_palette[self.cgb.oam_palette_id as usize];
            } else if reg == 0x70 {
                return self.cgb.wram_bank;
            }
        }
        self.hram_io[reg as usize]
    }

    /// Reads the byte at `addr`.
    pub fn read(&self, addr: u16) -> (b: u8)
        requires
            self.wf(),
        ensures
            b == self@.read(addr),
    {
        proof {
            reveal(GbView::read);
        }
        if addr < ROM_N_ADDR {
            if self.bootrom && self.hram_io[IO_BANK] == 0 && addr < 0x0100 {
                self.host.bootrom_read(addr as usize)
            } else {
                self.host.rom_read(addr as usize)
            }
        } else if addr < VRAM_ADDR {
            self.host.rom_read(self.cart.rom_offset(addr))
        } else if addr < 0xA000 {
            self.vram[self.vram_index(addr)]
        } else if addr < WRAM_0_ADDR {
            let t = self.cart.ram_target(addr);
            match t.kind {
                RamKind::Rtc => self.cart.rtc_latched.get(t.reg),
                RamKind::Ram => self.host.cart_ram_read(t.offset),
                RamKind::Open => 0xFF,
            }
        } else if addr < OAM_ADDR {
            self.wram[self.wram_index(addr)]
        } else if addr < UNUSED_ADDR {
            self.oam[(addr - OAM_ADDR) as usize]
        } else if addr < IO_ADDR {
            0xFF
        } else {
            self.read_io((addr - IO_ADDR) as u8)
        }
    }
}

impl<H: Host> Gb<H> {
    fn write_cart_ram(&mut self, addr: u16, val: u8)
        requires
            old(self).wf(),
            0xA000 <= addr < WRAM_0_ADDR,
        ensures
            final(self)@ == old(self)@.write_cart_ram(addr, val),
            final(self).wf(),
            final(self).cgb == old(self).cgb,
    {
        proof {
            reveal(GbView::write_cart_ram);
        }
        let t = self.cart.ram_target(addr);
        match t.kind {
            RamKind::Rtc => {
                self.cart.rtc_real.put(t.reg, val);
            },
            RamKind::Ram => {
                let v: u8 = if self.cart.mbc == Mbc::Mbc2 {
                    val % 16
                } else {
                    val
                };
                self.host.cart_ram_write(t.offset, v);
            },
            RamKind::Open => {},
        }
    }

    /// Writes a byte below 0xFE00.
    pub fn write_low(&mut self, addr: u16, val: u8)
        requires
            old(self).wf(),
            addr < OAM_ADDR,
        ensures
            final(self)@ == old(self)@.write_low(addr, val),
            final(self).wf(),
            final(self).cgb == old(self).cgb,
    {
        proof {
            reveal(GbView::write_low);
        }
        if addr < VRAM_ADDR {
            self.cart.control(addr, val);
        } else if addr < 0xA000 {
            let i = self.vram_index(addr);
            self.vram[i] = val;
        } else if addr < WRAM_0_ADDR {
            self.write_cart_ram(addr, val);
        } else {
            let i = self.wram_index(addr);
            self.wram[i] = val;
        }
    }

    /// Copies `n` bytes, one after the other, from `src` (wrapping in 16
    /// bits) to `dst`.
    pub(crate) fn block_copy(&mut self, src: u16, dst: u16, n: u16)
        requires
            old(self).wf(),
            dst + n <= OAM_ADDR,
        ensures
            final(self)@ == old(self)@.block_copy(src as int, dst as int, 0, n as int),
            final(self).wf(),
            final(self).cgb == old(self).cgb,
    {
        let mut i: u16 = 0;
        while i < n
            invariant
                i <= n,
                dst + n <= OAM_ADDR,
                self.wf(),
                self.cgb == old(self).cgb,
                self@.block_copy(src as int, dst as int, i as int, n as int) == old(
                    self,
                )@.block_copy(src as int, dst as int, 0, n as int),
            decreases n - i,
        {
            let b = self.read(src.wrapping_add(i));
            self.write_low(dst + i, b);
            i = i + 1;
        }
    }

    fn write_lcdc(&mut self, val: u8)
        requires
            old(self).wf(),
        ensures
            final(self)@ == old(self)@.write_lcdc(val),
            final(self).wf(),
    {
        proof {
            reveal(GbView::write_lcdc);
        }
        let was_on = self.hram_io[IO_LCDC] & LCDC_ENABLE != 0;
        let now_on = val & LCDC_ENABLE != 0;
        self.hram_io[IO_LCDC] = val;
        if !was_on && now_on {
            self.lcd_blank = true;
        } else if was_on && !now_on {
            self.hram_io[IO_STAT] = stat_with_mode(self.hram_io[IO_STAT], 0);
            self.hram_io[IO_LY] = 0;
            self.counter.lcd_count = 0;
        }
    }

    fn write_dma(&mut self, val: u8)
        requires
            old(self).wf(),
        ensures
            final(self)@ == old(self)@.write_dma(val),
            final(self).wf(),
    {
        proof {
            reveal(GbView::write_dma);
        }
        let page: u8 = if self.cgb.mode {
            val % 0xF1
        } else {
            val
        };
        self.hram_io[IO_DMA] = page;
        let base: u16 = page as u16 * 256;
        let mut buf: Vec<u8> = Vec::new();
        let mut i: usize = 0;
        while i < OAM_SIZE
            invariant
                i <= OAM_SIZE,
                self.wf(),
                base == page * 256,
                buf.len() == i,
                forall|k: int| 0 <= k < i ==> buf[k] == self@.read((page * 256 + k) as u16),
            decreases OAM_SIZE - i,
        {
            let b = self.read(base + i as u16);
            buf.push(b);
            i = i + 1;
        }
        let ghost s = self@;
        self.oam = buf;
        assert(self.oam@ =~= Seq::new(OAM_SIZE as nat, |i: int| s.read((page * 256 + i) as u16)));
    }

    fn write_palette(&mut self, reg: u8, val: u8)
        requires
            old(self).wf(),
            reg == 0x47 || reg == 0x48 || reg == 0x49,
        ensures
            final(self)@ == old(self)@.write_palette(reg, val),
            final(self).wf(),
    {
        proof {
            reveal(GbView::write_palette);
        }
        self.hram_io[reg as usize] = val;
        if reg == 0x47 {
            self.bg_palette[0] = val & 0x03;
            self.bg_palette[1] = (val >> 2) & 0x03;
            self.bg_palette[2] = (val >> 4) & 0x03;
            self.bg_palette[3] = (val >> 6) & 0x03;
        } else if reg == 0x48 {
            self.sp_palette[0] = val & 0x03;
            self.sp_palette[1] = (val >> 2) & 0x03;
            self.sp_palette[2] = (val >> 4) & 0x03;
            self.sp_palette[3] = (val >> 6) & 0x03;
        } else {
            self.sp_palette[4] = val & 0x03;
            self.sp_palette[5] = (val >> 2) & 0x03;
            self.sp_palette[6] = (val >> 4) & 0x03;
            self.sp_palette[7] = (val >> 6) & 0x03;
        }
    }

    pub(crate) fn set_cgb(&mut self, cgb: Cgb)
        requires
            old(self).wf(),
            cgb.wf(),
            cgb.mode == old(self).cgb.mode,
        ensures
            final(self)@ == old(self)@.with_cgb(cgb),
            final(self).wf(),
    {
        self.cgb = cgb;
    }

    fn hdma_general(&mut self)
        requires
            old(self).wf(),
            old(self).cgb.dma_size >= 1,
        ensures
            final(self)@ == old(self)@.hdma_general(),
            final(self).wf(),
            final(self).cgb.mode == old(self).cgb.mode,
    {
        proof {
            reveal(GbView::hdma_general);
        }
        let len: u16 = self.cgb.dma_size as u16 * 16;
        let src = self.cgb.hdma_src();
        let dst = self.cgb.hdma_dst();
        self.block_copy(src, dst, len);
        let mut c = self.cgb;
        c.hdma_advance(len, 0);
        self.set_cgb(c);
    }

    fn write_hdma(&mut self, val: u8)
        requires
            old(self).wf(),
        ensures
            final(self)@ == old(self)@.write_hdma(val),
            final(self).wf(),
            final(self).cgb.mode == old(self).cgb.mode,
    {
        proof {
            reveal(GbView::write_hdma);
        }
        let was_idle = self.cgb.dma_active != 0;
        let mut begun = self.cgb;
        begun.hdma_begin(val);
        self.set_cgb(begun);
        if was_idle && val / 128 == 0 {
            self.hdma_general();
        }
        let mut ended = self.cgb;
        ended.hdma_end(val);
        self.set_cgb(ended);
    }

    fn write_bg_palette_data(&mut self, val: u8)
        requires
            old(self).wf(),
        ensures
            final(self)@ == old(self)@.write_bg_palette_data(val),
            final(self).wf(),
    {
        proof {
            reveal(GbView::write_bg_palette_data);
        }
        let id: usize = self.cgb.bg_palette_id as usize;
        self.cgb_bg_palette[id] = val;
        let even: usize = id - id % 2;
        let color = fix_color(self.cgb_bg_palette[even], self.cgb_bg_palette[even + 1]);
        self.fix_palette[id / 2] = color;
        self.cgb.bg_palette_id = next_palette_id(self.cgb.bg_palette_id, self.cgb.bg_palette_inc);
    }

    fn write_oam_palette_data(&mut self, val: u8)
        requires
            old(self).wf(),
        ensures
            final(self)@ == old(self)@.write_oam_palette_data(val),
            final(self).wf(),
    {
        proof {
            reveal(GbView::write_oam_palette_data);
        }
        let id: usize = self.cgb.oam_palette_id as usize;
        self.cgb_oam_palette[id] = val;
        let even: usize = id - id % 2;
        let color = fix_color(self.cgb_oam_palette[even], self.cgb_oam_palette[even + 1]);
        self.fix_palette[0x20 + id / 2] = color;
        self.cgb.oam_palette_id = next_palette_id(
            self.cgb.oam_palette_id,
            self.cgb.oam_palette_inc,
        );
    }

    fn write_cgb(&mut self, reg: u8, val: u8)
        requires
            old(self).wf(),
            old(self).cgb.mode,
        ensures
            final(self)@ == old(self)@.write_cgb(reg, val),
            final(self).wf(),
    {
        proof {
            reveal(GbView::write_cgb);
        }
        if reg == 0x55 {
            self.write_hdma(val);
        } else if reg == 0x56 {
            self.hram_io[0x56] = val;
        } else if reg == 0x69 {
            self.write_bg_palette_data(val);
        } else if reg == 0x6B {
            self.write_oam_palette_data(val);
        } else {
            self.cgb.write_reg(reg, val);
        }
    }

    fn io_stored(&self, reg: u8, val: u8) -> (r: u8)
        requires
            self.wf(),
        ensures
            r == self@.io_stored(reg, val),
    {
        proof {
            reveal(GbView::io_stored);
        }
        if reg == 0x00 {
            joyp_compose(val, self.direct.joypad)
        } else if reg == 0x04 {
            0
        } else if reg == 0x0F {
            val | 0xE0
        } else if reg == 0x41 {
            (val & STAT_USER_BITS) | (self.hram_io[IO_STAT] & STAT_MODE)
        } else if reg == 0x50 {
            0x01
        } else {
            val
        }
    }

    fn io_is_store(reg: u8) -> (r: bool)
        ensures
            r == GbView::io_is_store(reg),
            r ==> reg != IO_LY,
    {
        (0x80 <= reg) || (0x10 <= reg && reg <= 0x3F) || reg == 0x01 || reg == 0x02 || reg == 0x05
            || reg == 0x06 || reg == 0x07 || reg == 0x42 || reg == 0x43 || reg == 0x45 || reg
            == 0x4A || reg == 0x4B || reg == 0x00 || reg == 0x04 || reg == 0x0F || reg == 0x41
            || reg == 0x50
    }

    fn write_io(&mut self, reg: u8, val: u8)
        requires
            old(self).wf(),
        ensures
            final(self)@ == old(self)@.write_io(reg, val),
            final(self).wf(),
    {
        proof {
            reveal(GbView::write_io);
        }
        if Self::io_is_store(reg) {
            let b = self.io_stored(reg, val);
            self.set_io(reg as usize, b);
        } else if reg == 0x40 {
            self.write_lcdc(val);
        } else if reg == 0x46 {
            self.write_dma(val);
        } else if reg == 0x47 || reg == 0x48 || reg == 0x49 {
            self.write_palette(reg, val);
        } else if self.cgb.mode {
            self.write_cgb(reg, val);
        }
    }

    /// Writes `val` to `addr`.
    pub fn write(&mut self, addr: u16, val: u8)
        requires
            old(self).wf(),
        ensures
            final(self)@ == old(self)@.write(addr, val),
            final(self).wf(),
    {
        proof {
            reveal(GbView::write);
        }
        if addr < OAM_ADDR {
            self.write_low(addr, val);
        } else if addr < UNUSED_ADDR {
            self.oam[(addr - OAM_ADDR) as usize] = val;
        } else if addr < IO_ADDR {
        } else {
            self.write_io((addr - IO_ADDR) as u8, val);
        }
    }
}

} // verus!
