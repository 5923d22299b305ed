//! Building a console from a cartridge, resetting it, and the settings the
//! host makes.

use crate::cart::{
    has_ram, mbc_of, ram_banks, ram_size, rom_banks_mask, spec_has_ram, spec_mbc_of,
    spec_ram_banks, spec_ram_size, spec_rom_banks_mask, Cart, CartRtc, Mbc, ROM_BANK_COUNT_LOC,
    ROM_CGB_FLAG, ROM_HEADER_CHECKSUM_LOC, ROM_MBC_LOC, ROM_RAM_SIZE_LOC, ROM_TITLE_START,
};
use crate::host::{byte_at, GbInitError, Host, HostModel};
use crate::regs::{CpuRegisters, Flags, Register};
use crate::state::{
    Cgb, Config, Direct, Display, Gb, GbView, HRAM_IO_SIZE, IO_BANK, IO_DIV, IO_IE, IO_IF,
    IO_JOYP, IO_LCDC, IO_LY, IO_LYC, IO_SB, IO_SC, IO_SCX, IO_SCY, IO_STAT, IO_TAC, IO_TIMA,
    IO_TMA, IO_WX, IO_WY, OAM_SIZE, VRAM_SIZE_COLOR, VRAM_SIZE_MONO, WRAM_SIZE_COLOR,
    WRAM_SIZE_MONO,
};
use crate::timer::Count;
use vstd::prelude::*;

verus! {

/// The number of header bytes that the checksum covers: 0x0134..=0x014C.
pub const HEADER_SUM_LEN: usize = 25;

/// The sum of the first `k` header bytes from 0x0134 on.
pub open spec fn header_sum(rom: Seq<u8>, k: nat) -> int
    decreases k,
{
    if k == 0 {
        0
    } else {
        header_sum(rom, (k - 1) as nat) + byte_at(rom, ROM_TITLE_START + k - 1)
    }
}

/// The header checksum as it is computed from the header: 256 minus the sum
/// of the bytes 0x0134..=0x014C plus 25, modulo 256.
pub open spec fn spec_header_checksum(rom: Seq<u8>) -> u8 {
    ((256 - (header_sum(rom, HEADER_SUM_LEN as nat) + 25) % 256) % 256) as u8
}

/// Whether the checksum stored in the header is the computed one.
pub open spec fn header_valid(rom: Seq<u8>) -> bool {
    spec_header_checksum(rom) == byte_at(rom, ROM_HEADER_CHECKSUM_LOC as int)
}

/// Whether the header names a bank controller and sizes that are supported.
pub open spec fn header_supported(rom: Seq<u8>) -> bool {
    &&& spec_mbc_of(byte_at(rom, ROM_MBC_LOC as int)) is Some
    &&& spec_rom_banks_mask(byte_at(rom, ROM_BANK_COUNT_LOC as int)) is Some
    &&& spec_ram_banks(byte_at(rom, ROM_RAM_SIZE_LOC as int)) is Some
}

/// The bank controller that the header describes.
pub open spec fn header_cart(rom: Seq<u8>) -> Cart {
    Cart {
        mbc: spec_mbc_of(byte_at(rom, ROM_MBC_LOC as int)).unwrap(),
        cart_ram: spec_has_ram(byte_at(rom, ROM_MBC_LOC as int)),
        num_rom_banks_mask: spec_rom_banks_mask(byte_at(rom, ROM_BANK_COUNT_LOC as int)).unwrap(),
        num_ram_banks: spec_ram_banks(byte_at(rom, ROM_RAM_SIZE_LOC as int)).unwrap(),
        selected_rom_bank: 1,
        cart_ram_bank: 0,
        enable_cart_ram: false,
        cart_mode_select: 0,
        rtc_latched: CartRtc::spec_zero(),
        rtc_real: CartRtc::spec_zero(),
    }
}

/// Whether the cartridge asks for color mode.
pub open spec fn header_color(rom: Seq<u8>) -> bool {
    byte_at(rom, ROM_CGB_FLAG as int) & 0x80 != 0
}

/// A memory of `n` zero bytes.
pub open spec fn zeros(n: nat) -> Seq<u8> {
    Seq::new(n, |i: int| 0u8)
}

/// The color palette memory after a reset: every color white.
pub open spec fn white_palette() -> Seq<u8> {
    Seq::new(
        0x40,
        |i: int|
            if i % 2 == 0 {
                0x7Fu8
            } else {
                0xFFu8
            },
    )
}

/// The console as it is built, before its first reset.
pub open spec fn power_on(host: HostModel, config: Config) -> GbView {
    GbView {
        cpu_reg: CpuRegisters {
            f: Flags { byte: 0 },
            a: 0,
            bc: Register { bytes: 0 },
            de: Register { bytes: 0 },
            hl: Register { bytes: 0 },
            sp: Register { bytes: 0 },
            pc: Register { bytes: 0 },
        },
        gb_halt: true,
        gb_ime: true,
        gb_frame: true,
        lcd_blank: false,
        cart: header_cart(host.rom),
        counter: Count::spec_zero(),
        idle_cycles: 4,
        display: Display::spec_new(),
        cgb: Cgb::spec_new(config.color && header_color(host.rom)),
        direct: Direct::spec_new(),
        config,
        serial: false,
        bootrom: false,
        wram: zeros(
            if config.color {
                WRAM_SIZE_COLOR as nat
            } else {
                WRAM_SIZE_MONO as nat
            },
        ),
        vram: zeros(
            if config.color {
                VRAM_SIZE_COLOR as nat
            } else {
                VRAM_SIZE_MONO as nat
            },
        ),
        oam: zeros(OAM_SIZE as nat),
        hram_io: zeros(HRAM_IO_SIZE as nat),
        bg_palette: zeros(4),
        sp_palette: zeros(8),
        cgb_bg_palette: zeros(0x40),
        cgb_oam_palette: zeros(0x40),
        fix_palette: Seq::new(0x40, |i: int| 0u16),
        host,
    }
}

/// The CPU registers after a reset without a boot ROM: the values the boot
/// ROM would leave, which differ between monochrome and color mode; the
/// half-carry and carry flags are set where the header checksum is not
/// zero.
pub open spec fn spec_reset_regs(color_mode: bool, checksum: u8) -> CpuRegisters {
    CpuRegisters {
        f: Flags::pack(true, false, checksum != 0, checksum != 0),
        a: if color_mode {
            0x11
        } else {
            0x01
        },
        bc: Register {
            bytes: if color_mode {
                0x0000
            } else {
                0x0013
            },
        },
        de: Register {
            bytes: if color_mode {
                0x0008
            } else {
                0x00D8
            },
        },
        hl: Register {
            bytes: if color_mode {
                0x007C
            } else {
                0x014D
            },
        },
        sp: Register { bytes: 0xFFFE },
        pc: Register { bytes: 0x0100 },
    }
}

/// The I/O registers after a reset.  With a boot ROM the LCD is off and
/// the boot ROM is mapped; without one the registers hold what the boot
/// ROM would leave.
pub open spec fn spec_reset_io(io: Seq<u8>, color_mode: bool, bootrom: bool) -> Seq<u8> {
    io.update(
        IO_DIV as int,
        if bootrom {
            0x00
        } else if color_mode {
            0xFF
        } else {
            0xAB
        },
    ).update(
        IO_LCDC as int,
        if bootrom {
            0x00
        } else {
            0x91
        },
    ).update(
        IO_STAT as int,
        if bootrom {
            0x84
        } else {
            0x85
        },
    ).update(
        IO_BANK as int,
        if bootrom {
            0x00
        } else {
            0x01
        },
    ).update(IO_JOYP as int, 0xCF).update(IO_SB as int, 0x00).update(
        IO_SC as int,
        if color_mode {
            0x7F
        } else {
            0x7E
        },
    ).update(IO_TIMA as int, 0x00).update(IO_TMA as int, 0x00).update(IO_TAC as int, 0xF8).update(
        IO_IF as int,
        0xE1,
    ).update(IO_SCY as int, 0x00).update(IO_SCX as int, 0x00).update(IO_LY as int, 0x00).update(
        IO_LYC as int,
        0x00,
    ).update(IO_WY as int, 0x00).update(IO_WX as int, 0x00).update(IO_IE as int, 0x00)
}

impl GbView {
    /// The console after the first part of a reset: everything but the
    /// three monochrome palette registers.
    #[verifier::opaque]
    pub open spec fn reset_state(self) -> GbView {
        GbView {
            cpu_reg: if self.bootrom {
                CpuRegisters { pc: Register { bytes: 0x0000 }, ..self.cpu_reg }
            } else {
                spec_reset_regs(
                    self.cgb.mode,
                    byte_at(self.host.rom, ROM_HEADER_CHECKSUM_LOC as int),
                )
            },
            gb_halt: false,
            gb_ime: true,
            cart: self.cart.spec_reset(),
            counter: Count::spec_zero(),
            idle_cycles: 4,
            cgb: self.cgb.spec_reset(),
            direct: Direct { joypad: 0xFF, ..self.direct },
            vram: if self.bootrom {
                self.vram
            } else {
                zeros(self.vram.len())
            },
            hram_io: spec_reset_io(self.hram_io, self.cgb.mode, self.bootrom),
            cgb_bg_palette: white_palette(),
            cgb_oam_palette: white_palette(),
            ..self
        }
    }

    /// The console after a reset: the CPU starts at 0x0100 with the
    /// registers the boot ROM would leave, or at 0x0000 where a boot ROM is
    /// installed; bank 1 is selected; the counters are zero; the I/O
    /// registers and palettes have their defaults; no button is held.
    #[verifier::opaque]
    pub open spec fn reset(self) -> GbView {
        self.reset_state().write(0xFF47, 0xFC).write(0xFF48, 0xFF).write(0xFF49, 0xFF)
    }

    /// The bytes of save RAM that the cartridge has: 512 with an MBC2, else
    /// what the header's RAM-size code says.
    pub open spec fn save_size(self) -> usize {
        if self.cart.mbc == Mbc::Mbc2 {
            0x200
        } else {
            spec_ram_size(byte_at(self.host.rom, ROM_RAM_SIZE_LOC as int))
        }
    }

    /// The sum of the first `k` bytes of the title.
    pub open spec fn title_sum(self, k: nat) -> int
        decreases k,
    {
        if k == 0 {
            0
        } else {
            self.title_sum((k - 1) as nat) + byte_at(self.host.rom, ROM_TITLE_START + k - 1)
        }
    }

    /// The number of leading bytes of the title, of its first `k`, that lie
    /// in the printable range from the space to the underscore.
    pub open spec fn title_len(self, k: nat) -> nat
        decreases k,
    {
        if k == 0 {
            0
        } else {
            let before = self.title_len((k - 1) as nat);
            let b = byte_at(self.host.rom, ROM_TITLE_START + k - 1);
            if before == k - 1 && 0x20 <= b <= 0x5F {
                k
            } else {
                before
            }
        }
    }

    /// Once the count of leading printable bytes stops growing it stays.
    pub proof fn lemma_title_len_stops(self, k: nat, n: nat)
        requires
            k < n,
            self.title_len(k) == k,
            self.title_len(k + 1) == k,
        ensures
            self.title_len(n) == k,
        decreases n,
    {
        if n > k + 1 {
            self.lemma_title_len_stops(k, (n - 1) as nat);
        }
    }

    /// The title as text: its leading printable bytes.
    pub open spec fn title(self) -> Seq<char> {
        Seq::new(
            self.title_len(16),
            |i: int| byte_at(self.host.rom, ROM_TITLE_START + i) as char,
        )
    }
}

/// `String::push` appends the character to the end of the text.
pub assume_specification[ String::push ](s: &mut String, ch: char)
    ensures
        final(s)@ == old(s)@.push(ch),
;

/// Computes the header checksum from the header.
pub fn header_checksum<H: Host>(host: &H) -> (x: u8)
    ensures
        x == spec_header_checksum(host.model().rom),
{
    let mut x: u8 = 0;
    let mut k: usize = 0;
    while k < HEADER_SUM_LEN
        invariant
            k <= HEADER_SUM_LEN,
            x == (256 - (header_sum(host.model().rom, k as nat) + k) % 256) % 256,
        decreases HEADER_SUM_LEN - k,
    {
        let b = host.rom_read(ROM_TITLE_START + k);
        proof {
            let s = header_sum(host.model().rom, k as nat) + k;
            let t = s + b + 1;
            assert(header_sum(host.model().rom, (k + 1) as nat) + (k + 1) == t);
            let r = s % 256;
            assert(s == 256 * (s / 256) + r);
            let base = x as int;
            assert(base == (256 - r) % 256);
            let step = (base + 512 - b - 1) % 256;
            let u = (r + b + 1) % 256;
            assert(r + b + 1 == 256 * ((r + b + 1) / 256) + u);
            assert(t == 256 * (s / 256 + (r + b + 1) / 256) + u);
            assert(t % 256 == u);
            if r == 0 {
                assert(base == 0);
            } else {
                assert(base == 256 - r);
            }
            assert(step == (256 - u) % 256) by {
                if r == 0 {
                    assert(base + 512 - b - 1 == 256 + (255 - b));
                    if b == 255 {
                        assert(u == 0);
                    } else {
                        assert(u == b + 1);
                    }
                } else {
                    let v = 256 - r + 512 - b - 1;
                    if r + b + 1 < 256 {
                        assert(u == r + b + 1);
                        assert(v == 512 + (256 - u));
                    } else if r + b + 1 == 256 {
                        assert(u == 0);
                        assert(v == 512);
                    } else {
                        assert(u == r + b + 1 - 256);
                        assert(v == 256 + (256 - u));
                    }
                }
            }
        }
        x = x.wrapping_sub(b).wrapping_sub(1);
        k = k + 1;
    }
    x
}

impl<H: Host> Gb<H> {
    fn reset_regs(color_mode: bool, checksum: u8) -> (r: CpuRegisters)
        ensures
            r == spec_reset_regs(color_mode, checksum),
    {
        CpuRegisters {
            f: Flags::of(true, false, checksum != 0, checksum != 0),
            a: if color_mode {
                0x11
            } else {
                0x01
            },
            bc: Register {
                bytes: if color_mode {
                    0x0000
                } else {
                    0x0013
                },
            },
            de: Register {
                bytes: if color_mode {
                    0x0008
                } else {
                    0x00D8
                },
            },
            hl: Register {
                bytes: if color_mode {
                    0x007C
                } else {
                    0x014D
                },
            },
            sp: Register { bytes: 0xFFFE },
            pc: Register { bytes: 0x0100 },
        }
    }

    fn reset_io(io: &mut Vec<u8>, color_mode: bool, bootrom: bool)
        requires
            old(io).len() == HRAM_IO_SIZE,
        ensures
            final(io)@ == spec_reset_io(old(io)@, color_mode, bootrom),
            final(io).len() == HRAM_IO_SIZE,
            final(io)@[IO_LY as int] == 0,
    {
        io[IO_DIV] = if bootrom {
            0x00
        } else if color_mode {
            0xFF
        } else {
            0xAB
        };
        io[IO_LCDC] = if bootrom {
            0x00
        } else {
            0x91
        };
        io[IO_STAT] = if bootrom {
            0x84
        } else {
            0x85
        };
        io[IO_BANK] = if bootrom {
            0x00
        } else {
            0x01
        };
        io[IO_JOYP] = 0xCF;
        io[IO_SB] = 0x00;
        io[IO_SC] = if color_mode {
            0x7F
        } else {
            0x7E
        };
        io[IO_TIMA] = 0x00;
        io[IO_TMA] = 0x00;
        io[IO_TAC] = 0xF8;
        io[IO_IF] = 0xE1;
        io[IO_SCY] = 0x00;
        io[IO_SCX] = 0x00;
        io[IO_LY] = 0x00;
        io[IO_LYC] = 0x00;
        io[IO_WY] = 0x00;
        io[IO_WX] = 0x00;
        io[IO_IE] = 0x00;
    }

    /// A memory of `n` zero bytes.
    fn zeroed(n: usize) -> (v: Vec<u8>)
        ensures
            v@ == zeros(n as nat),
    {
        let mut v: Vec<u8> = Vec::new();
        let mut i: usize = 0;
        while i < n
            invariant
                i <= n,
                v.len() == i,
                forall|k: int| 0 <= k < i ==> v[k] == 0u8,
            decreases n - i,
        {
            v.push(0);
            i = i + 1;
        }
        assert(v@ =~= zeros(n as nat));
        v
    }

    fn white() -> (v: Vec<u8>)
        ensures
            v@ == white_palette(),
    {
        let mut v: Vec<u8> = Vec::new();
        let mut i: usize = 0;
        while i < 0x40
            invariant
                i <= 0x40,
                v.len() == i,
                forall|k: int|
                    0 <= k < i ==> v[k] == (if k % 2 == 0 {
                        0x7Fu8
                    } else {
                        0xFFu8
                    }),
            decreases 0x40 - i,
        {
            v.push(if i % 2 == 0 { 0x7F } else { 0xFF });
            i = i + 1;
        }
        assert(v@ =~= white_palette());
        v
    }

    fn reset_state(&mut self)
        requires
            old(self).wf(),
        ensures
            final(self)@ == old(self)@.reset_state(),
            final(self).wf(),
    {
        proof {
            reveal(GbView::reset_state);
        }
        if self.bootrom {
            self.cpu_reg.pc.bytes = 0x0000;
        } else {
            let checksum = self.host.rom_read(ROM_HEADER_CHECKSUM_LOC);
            self.cpu_reg = Self::reset_regs(self.cgb.mode, checksum);
            self.vram = Self::zeroed(self.vram.len());
        }
        self.gb_halt = false;
        self.gb_ime = true;
        self.cart.reset();
        self.counter = Count::new();
        self.idle_cycles = 4;
        let mode = self.cgb.mode;
        self.cgb = Cgb::new(mode);
        self.cgb.wram_bank = 1;
        self.cgb.dma_active = 1;
        self.direct.joypad = 0xFF;
        Self::reset_io(&mut self.hram_io, mode, self.bootrom);
        self.cgb_bg_palette = Self::white();
        self.cgb_oam_palette = Self::white();
    }

    /// Resets the console.
    pub fn gb_reset(&mut self)
        requires
            old(self).wf(),
        ensures
            final(self)@ == old(self)@.reset(),
            final(self).wf(),
    {
        proof {
            reveal(GbView::reset);
        }
        self.reset_state();
        self.write(0xFF47, 0xFC);
        self.write(0xFF48, 0xFF);
        self.write(0xFF49, 0xFF);
    }

    /// Builds a console for the cartridge that the host holds, and resets
    /// it.  A header whose checksum is not the computed one is refused, and
    /// so is a header that names a bank controller or a size that is not
    /// supported.
    pub fn new(host: H, config: Config) -> (r: Result<Gb<H>, GbInitError>)
        ensures
            !header_valid(host.model().rom) ==> r is Err && r->Err_0
                == GbInitError::GbInitInvalidChecksum,
            header_valid(host.model().rom) && !header_supported(host.model().rom) ==> r is Err
                && r->Err_0 == GbInitError::GbInitCartridgeUnsupported,
            header_valid(host.model().rom) && header_supported(host.model().rom) ==> r is Ok
                && r->Ok_0@ == power_on(host.model(), config).reset() && r->Ok_0.wf(),
    {
        let x = header_checksum(&host);
        if x != host.rom_read(ROM_HEADER_CHECKSUM_LOC) {
            return Err(GbInitError::GbInitInvalidChecksum);
        }
        let kind = host.rom_read(ROM_MBC_LOC);
        let mbc = match mbc_of(kind) {
            Some(m) => m,
            None => {
                return Err(GbInitError::GbInitCartridgeUnsupported);
            },
        };
        let mask = match rom_banks_mask(host.rom_read(ROM_BANK_COUNT_LOC)) {
            Some(m) => m,
            None => {
                return Err(GbInitError::GbInitCartridgeUnsupported);
            },
        };
        let banks = match ram_banks(host.rom_read(ROM_RAM_SIZE_LOC)) {
            Some(b) => b,
            None => {
                return Err(GbInitError::GbInitCartridgeUnsupported);
            },
        };
        let mode = config.color && host.rom_read(ROM_CGB_FLAG) & 0x80 != 0;
        let fix: Vec<u16> = crate::init::zeroed16();
        let mut gb = Gb {
            cpu_reg: CpuRegisters::new(),
            gb_halt: true,
            gb_ime: true,
            gb_frame: true,
            lcd_blank: false,
            cart: Cart::new(mbc, has_ram(kind), mask, banks),
            counter: Count::new(),
            idle_cycles: 4,
            display: Display::new(),
            cgb: Cgb::new(mode),
            direct: Direct::new(),
            config,
            serial: false,
            bootrom: false,
            wram: Self::zeroed(
                if config.color {
                    WRAM_SIZE_COLOR
                } else {
                    WRAM_SIZE_MONO
                },
            ),
            vram: Self::zeroed(
                if config.color {
                    VRAM_SIZE_COLOR
                } else {
                    VRAM_SIZE_MONO
                },
            ),
            oam: Self::zeroed(OAM_SIZE),
            hram_io: Self::zeroed(HRAM_IO_SIZE),
            bg_palette: Self::zeroed(4),
            sp_palette: Self::zeroed(8),
            cgb_bg_palette: Self::zeroed(0x40),
            cgb_oam_palette: Self::zeroed(0x40),
            fix_palette: fix,
            host,
        };
        proof {
            assert(gb@ == power_on(host.model(), config));
        }
        gb.gb_reset();
        Ok(gb)
    }

    /// The bytes of save RAM that the cartridge has.
    pub fn get_save_size(&self) -> (n: usize)
        ensures
            n == self@.save_size(),
    {
        if self.cart.mbc == Mbc::Mbc2 {
            0x200
        } else {
            ram_size(self.host.rom_read(ROM_RAM_SIZE_LOC))
        }
    }

    /// The sum of the sixteen bytes of the title, modulo 256.
    pub fn gb_colour_hash(&self) -> (x: u8)
        ensures
            x == self@.title_sum(16) % 256,
    {
        let mut x: u8 = 0;
        let mut k: usize = 0;
        while k < 16
            invariant
                k <= 16,
                x == self@.title_sum(k as nat) % 256,
                self@.title_sum(k as nat) >= 0,
            decreases 16 - k,
        {
            let b = self.host.rom_read(ROM_TITLE_START + k);
            proof {
                let s = self@.title_sum(k as nat);
                assert(s == 256 * (s / 256) + s % 256);
                let w = s % 256 + b;
                if w < 256 {
                    assert(s + b == 256 * (s / 256) + w);
                } else {
                    assert(s + b == 256 * (s / 256 + 1) + (w - 256));
                }
            }
            x = x.wrapping_add(b);
            k = k + 1;
        }
        x
    }

    /// The title of the cartridge: the bytes of the title field up to the
    /// first one outside the range from the space to the underscore.
    pub fn gb_get_rom_name(&self) -> (name: String)
        ensures
            name@ == self@.title(),
    {
        let mut name = String::new();
        let mut k: usize = 0;
        let mut open = true;
        while k < 16 && open
            invariant
                k <= 16,
                open ==> self@.title_len(k as nat) == k,
                !open ==> k < 16 && self@.title_len(k as nat) == k && self@.title_len(
                    (k + 1) as nat,
                ) == k,
                name@.len() == k,
                forall|i: int|
                    0 <= i < k ==> name@[i] == byte_at(self@.host.rom, ROM_TITLE_START + i) as char,
            decreases 16 - k + (if open { 1int } else { 0 }),
        {
            let b = self.host.rom_read(ROM_TITLE_START + k);
            if 0x20 <= b && b <= 0x5F {
                name.push(b as char);
                k = k + 1;
            } else {
                open = false;
            }
        }
        proof {
            if !open {
                self@.lemma_title_len_stops(k as nat, 16);
            }
            assert(name@ =~= self@.title());
        }
        name
    }

    /// Installs the host as the receiver of scanlines, and starts the
    /// policies of frame skipping and interlacing that the console was
    /// configured with.
    pub fn gb_init_lcd(&mut self)
        requires
            old(self).wf(),
        ensures
            final(self)@ == (GbView {
                display: Display {
                    lcd_draw_line: true,
                    interlace_count: false,
                    frame_skip_count: false,
                    window_clear: 0,
                    wy: 0,
                },
                direct: Direct {
                    interlace: old(self)@.config.interlace,
                    frame_skip: old(self)@.config.frame_skip,
                    ..old(self)@.direct
                },
                ..old(self)@
            }),
            final(self).wf(),
    {
        self.display.lcd_draw_line = true;
        self.direct.interlace = self.config.interlace;
        self.display.interlace_count = false;
        self.direct.frame_skip = self.config.frame_skip;
        self.display.frame_skip_count = false;
        self.display.window_clear = 0;
        self.display.wy = 0;
    }

    /// Connects the serial link to the host.
    pub fn gb_init_serial(&mut self)
        requires
            old(self).wf(),
        ensures
            final(self)@ == (GbView { serial: true, ..old(self)@ }),
            final(self).wf(),
    {
        self.serial = true;
    }

    /// Maps the host's boot ROM; it shows from the next reset on.
    pub fn gb_set_bootrom(&mut self)
        requires
            old(self).wf(),
        ensures
            final(self)@ == (GbView { bootrom: true, ..old(self)@ }),
            final(self).wf(),
    {
        self.bootrom = true;
    }

    /// Sets the cartridge clock: seconds, minutes, hours, and the day of the
    /// year, whose ninth bit goes to the day byte.
    pub fn gb_set_rtc(&mut self, sec: u8, min: u8, hour: u8, yday: u16)
        requires
            old(self).wf(),
        ensures
            final(self)@ == (GbView {
                cart: Cart {
                    rtc_real: CartRtc {
                        sec,
                        min,
                        hour,
                        yday: (yday % 256) as u8,
                        high: (yday / 256) as u8,
                    },
                    ..old(self)@.cart
                },
                ..old(self)@
            }),
            final(self).wf(),
    {
        let rtc = CartRtc {
            sec,
            min,
            hour,
            yday: (yday % 256) as u8,
            high: (yday / 256) as u8,
        };
        self.cart.rtc_real = rtc;
    }

    /// Sets the buttons held down, one bit each: A, B, Select, Start,
    /// Right, Left, Up, Down from bit 0 up, a set bit for a button held.
    pub fn set_joypad(&mut self, joypad: u8)
        requires
            old(self).wf(),
        ensures
            final(self)@ == (GbView {
                direct: Direct { joypad: !joypad, ..old(self)@.direct },
                ..old(self)@
            }),
            final(self).wf(),
    {
        self.direct.joypad = !joypad;
    }

    /// The 64 colors of color mode, as the renderer's color indices select
    /// them.
    pub fn get_palette(&self) -> (p: &Vec<u16>)
        ensures
            p@ == self@.fix_palette,
    {
        &self.fix_palette
    }

    /// The host.
    pub fn get_context(&self) -> (h: &H)
        ensures
            h.model() == self@.host,
    {
        &self.host
    }
}

/// Sixty-four zero colors.
pub fn zeroed16() -> (v: Vec<u16>)
    ensures
        v@ == Seq::new(0x40, |i: int| 0u16),
{
    let mut v: Vec<u16> = Vec::new();
    let mut i: usize = 0;
    while i < 0x40
        invariant
            i <= 0x40,
            v.len() == i,
            forall|k: int| 0 <= k < i ==> v[k] == 0u16,
        decreases 0x40 - i,
    {
        v.push(0);
        i = i + 1;
    }
    assert(v@ =~= Seq::new(0x40, |i: int| 0u16));
    v
}

} // verus!
