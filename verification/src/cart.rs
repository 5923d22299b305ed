//! The cartridge: header fields, the bank controller and the real-time clock.

use vstd::prelude::*;

verus! {

pub const ROM_BANK_SIZE: usize = 0x4000;

pub const CRAM_BANK_SIZE: usize = 0x2000;

/// The first byte of the title, which is sixteen bytes long, and the other
/// header fields.
pub const ROM_TITLE_START: usize = 0x0134;

pub const ROM_CGB_FLAG: usize = 0x0143;

pub const ROM_MBC_LOC: usize = 0x0147;

pub const ROM_BANK_COUNT_LOC: usize = 0x0148;

pub const ROM_RAM_SIZE_LOC: usize = 0x0149;

pub const ROM_HEADER_CHECKSUM_LOC: usize = 0x014D;

/// The kinds of bank controller that are emulated.
#[derive(Clone, Copy, Debug, PartialEq, Eq, Structural)]
pub enum Mbc {
    Mbc0,
    Mbc1,
    Mbc2,
    Mbc3,
    Mbc5,
}

/// The controller named by the header's cartridge-type byte, if it is one of
/// the supported ones.
pub open spec fn spec_mbc_of(code: u8) -> Option<Mbc> {
    if code == 0x00 || code == 0x08 || code == 0x09 || code == 0x0B || code == 0x0C || code
        == 0x0D {
        Some(Mbc::Mbc0)
    } else if 0x01 <= code <= 0x03 {
        Some(Mbc::Mbc1)
    } else if code == 0x05 || code == 0x06 {
        Some(Mbc::Mbc2)
    } else if 0x0F <= code <= 0x13 {
        Some(Mbc::Mbc3)
    } else if 0x19 <= code <= 0x1E {
        Some(Mbc::Mbc5)
    } else {
        None
    }
}

/// Whether the cartridge type comes with RAM on the cartridge.
pub open spec fn spec_has_ram(code: u8) -> bool {
    code == 0x02 || code == 0x03 || code == 0x05 || code == 0x06 || code == 0x08 || code == 0x09
        || code == 0x10 || code == 0x12 || code == 0x13 || code == 0x1A || code == 0x1B
}

/// The bank mask (bank count minus one) for a ROM-size code: 2 banks for code
/// 0, doubling up to 512 banks for code 8.
pub open spec fn spec_rom_banks_mask(code: u8) -> Option<u16> {
    if code == 0 {
        Some(1u16)
    } else if code == 1 {
        Some(3u16)
    } else if code == 2 {
        Some(7u16)
    } else if code == 3 {
        Some(15u16)
    } else if code == 4 {
        Some(31u16)
    } else if code == 5 {
        Some(63u16)
    } else if code == 6 {
        Some(127u16)
    } else if code == 7 {
        Some(255u16)
    } else if code == 8 {
        Some(511u16)
    } else {
        None
    }
}

/// The number of 8 KiB RAM banks for a RAM-size code.
pub open spec fn spec_ram_banks(code: u8) -> Option<u8> {
    if code == 0 {
        Some(0u8)
    } else if code == 1 || code == 2 {
        Some(1u8)
    } else if code == 3 {
        Some(4u8)
    } else if code == 4 {
        Some(16u8)
    } else if code == 5 {
        Some(8u8)
    } else {
        None
    }
}

/// The bytes of save RAM for a RAM-size code; nothing for a code that names
/// no size.
pub open spec fn spec_ram_size(code: u8) -> usize {
    if code == 1 {
        0x800
    } else if code == 2 {
        0x2000
    } else if code == 3 {
        0x8000
    } else if code == 4 {
        0x20000
    } else if code == 5 {
        0x10000
    } else {
        0
    }
}

/// Whether `m` is a bank count minus one, for a count that is a power of two
/// from 2 to 512.
pub open spec fn is_bank_mask(m: u16) -> bool {
    m == 1 || m == 3 || m == 7 || m == 15 || m == 31 || m == 63 || m == 127 || m == 255 || m == 511
}

pub fn mbc_of(code: u8) -> (r: Option<Mbc>)
    ensures
        r == spec_mbc_of(code),
{
    if code == 0x00 || code == 0x08 || code == 0x09 || code == 0x0B || code == 0x0C || code
        == 0x0D {
        Some(Mbc::Mbc0)
    } else if 0x01 <= code && code <= 0x03 {
        Some(Mbc::Mbc1)
    } else if code == 0x05 || code == 0x06 {
        Some(Mbc::Mbc2)
    } else if 0x0F <= code && code <= 0x13 {
        Some(Mbc::Mbc3)
    } else if 0x19 <= code && code <= 0x1E {
        Some(Mbc::Mbc5)
    } else {
        None
    }
}

pub fn has_ram(code: u8) -> (r: bool)
    ensures
        r == spec_has_ram(code),
{
    code == 0x02 || code == 0x03 || code == 0x05 || code == 0x06 || code == 0x08 || code == 0x09
        || code == 0x10 || code == 0x12 || code == 0x13 || code == 0x1A || code == 0x1B
}

pub fn rom_banks_mask(code: u8) -> (r: Option<u16>)
    ensures
        r == spec_rom_banks_mask(code),
        r is Some ==> is_bank_mask(r.unwrap()),
{
    if code == 0 {
        Some(1)
    } else if code == 1 {
        Some(3)
    } else if code == 2 {
        Some(7)
    } else if code == 3 {
        Some(15)
    } else if code == 4 {
        Some(31)
    } else if code == 5 {
        Some(63)
    } else if code == 6 {
        Some(127)
    } else if code == 7 {
        Some(255)
    } else if code == 8 {
        Some(511)
    } else {
        None
    }
}

pub fn ram_banks(code: u8) -> (r: Option<u8>)
    ensures
        r == spec_ram_banks(code),
{
    if code == 0 {
        Some(0)
    } else if code == 1 || code == 2 {
        Some(1)
    } else if code == 3 {
        Some(4)
    } else if code == 4 {
        Some(16)
    } else if code == 5 {
        Some(8)
    } else {
        None
    }
}

pub fn ram_size(code: u8) -> (r: usize)
    ensures
        r == spec_ram_size(code),
{
    if code == 1 {
        0x800
    } else if code == 2 {
        0x2000
    } else if code == 3 {
        0x8000
    } else if code == 4 {
        0x20000
    } else if code == 5 {
        0x10000
    } else {
        0
    }
}

/// The five registers of the cartridge clock: seconds, minutes, hours, the
/// low eight bits of the day counter, and a byte holding the ninth day bit
/// (bit 0), the halt bit (bit 6) and the day-carry bit (bit 7).
#[derive(Clone, Copy, Debug, PartialEq, Eq, Structural)]
pub struct CartRtc {
    pub sec: u8,
    pub min: u8,
    pub hour: u8,
    pub yday: u8,
    pub high: u8,
}

pub const RTC_HALT: u8 = 0x40;

pub const RTC_DAY_CARRY: u8 = 0x80;

pub const RTC_DAY_HIGH: u8 = 0x01;

impl CartRtc {
    /// The register selected by `reg` (0 to 4).
    #[verifier::opaque]
    pub open spec fn spec_get(self, reg: u8) -> u8 {
        if reg == 0 {
            self.sec
        } else if reg == 1 {
            self.min
        } else if reg == 2 {
            self.hour
        } else if reg == 3 {
            self.yday
        } else {
            self.high
        }
    }

    /// The clock after a write to register `reg` (0 to 4): each register
    /// keeps only the bits it has.
    #[verifier::opaque]
    pub open spec fn spec_put(self, reg: u8, val: u8) -> CartRtc {
        if reg == 0 {
            CartRtc { sec: val & 0x3F, ..self }
        } else if reg == 1 {
            CartRtc { min: val & 0x3F, ..self }
        } else if reg == 2 {
            CartRtc { hour: val & 0x1F, ..self }
        } else if reg == 3 {
            CartRtc { yday: val, ..self }
        } else {
            CartRtc { high: val & 0xC1, ..self }
        }
    }

    /// The day byte after the day counter's low byte wrapped: the ninth bit
    /// toggles, and the carry bit is set when the ninth bit was set.
    pub open spec fn spec_day_wrap(high: u8) -> u8 {
        if high & RTC_DAY_HIGH != 0 {
            (high | RTC_DAY_CARRY) ^ RTC_DAY_HIGH
        } else {
            high ^ RTC_DAY_HIGH
        }
    }

    /// The clock one second later.  Seconds and minutes wrap at 60, hours at
    /// 24, the nine-bit day counter at 512; a register that holds its largest
    /// value (63, 63, 31) wraps to zero without a carry.
    #[verifier::opaque]
    pub open spec fn spec_tick(self) -> CartRtc {
        if self.sec == 63 {
            CartRtc { sec: 0, ..self }
        } else if self.sec + 1 != 60 {
            CartRtc { sec: ((self.sec + 1) % 256) as u8, ..self }
        } else if self.min == 63 {
            CartRtc { sec: 0, min: 0, ..self }
        } else if self.min + 1 != 60 {
            CartRtc { sec: 0, min: ((self.min + 1) % 256) as u8, ..self }
        } else if self.hour == 31 {
            CartRtc { sec: 0, min: 0, hour: 0, ..self }
        } else if self.hour + 1 != 24 {
            CartRtc { sec: 0, min: 0, hour: ((self.hour + 1) % 256) as u8, ..self }
        } else if self.yday != 255 {
            CartRtc { sec: 0, min: 0, hour: 0, yday: (self.yday + 1) as u8, ..self }
        } else {
            CartRtc { sec: 0, min: 0, hour: 0, yday: 0, high: CartRtc::spec_day_wrap(self.high) }
        }
    }

    /// The clock with every register zero.
    pub open spec fn spec_zero() -> CartRtc {
        CartRtc { sec: 0, min: 0, hour: 0, yday: 0, high: 0 }
    }

    pub fn new() -> (r: CartRtc)
        ensures
            r == CartRtc::spec_zero(),
    {
        CartRtc { sec: 0, min: 0, hour: 0, yday: 0, high: 0 }
    }

    pub fn get_sec(&self) -> (r: u8)
        ensures
            r == self.sec,
    {
        self.sec
    }

    pub fn get_min(&self) -> (r: u8)
        ensures
            r == self.min,
    {
        self.min
    }

    pub fn get_hour(&self) -> (r: u8)
        ensures
            r == self.hour,
    {
        self.hour
    }

    pub fn get_yday(&self) -> (r: u8)
        ensures
            r == self.yday,
    {
        self.yday
    }

    pub fn get_high(&self) -> (r: u8)
        ensures
            r == self.high,
    {
        self.high
    }

    pub fn set_sec(&mut self, b: u8)
        ensures
            *final(self) == (CartRtc { sec: b, ..*old(self) }),
    {
        self.sec = b;
    }

    pub fn set_min(&mut self, b: u8)
        ensures
            *final(self) == (CartRtc { min: b, ..*old(self) }),
    {
        self.min = b;
    }

    pub fn set_hour(&mut self, b: u8)
        ensures
            *final(self) == (CartRtc { hour: b, ..*old(self) }),
    {
        self.hour = b;
    }

    pub fn set_yday(&mut self, b: u8)
        ensures
            *final(self) == (CartRtc { yday: b, ..*old(self) }),
    {
        self.yday = b;
    }

    pub fn set_high(&mut self, b: u8)
        ensures
            *final(self) == (CartRtc { high: b, ..*old(self) }),
    {
        self.high = b;
    }

    /// Reads the register selected by `reg`.
    pub fn get(&self, reg: u8) -> (r: u8)
        ensures
            r == self.spec_get(reg),
    {
        proof {
            reveal(CartRtc::spec_get);
        }
        if reg == 0 {
            self.sec
        } else if reg == 1 {
            self.min
        } else if reg == 2 {
            self.hour
        } else if reg == 3 {
            self.yday
        } else {
            self.high
        }
    }

    /// Writes the register selected by `reg`, masked to the bits it has.
    pub fn put(&mut self, reg: u8, val: u8)
        ensures
            *final(self) == old(self).spec_put(reg, val),
    {
        proof {
            reveal(CartRtc::spec_put);
        }
        if reg == 0 {
            self.sec = val & 0x3F;
        } else if reg == 1 {
            self.min = val & 0x3F;
        } else if reg == 2 {
            self.hour = val & 0x1F;
        } else if reg == 3 {
            self.yday = val;
        } else {
            self.high = val & 0xC1;
        }
    }

    /// Advances the clock by one second.
    pub fn tick(&mut self)
        ensures
            *final(self) == old(self).spec_tick(),
    {
        proof {
            reveal(CartRtc::spec_tick);
        }
        if self.sec == 63 {
            self.sec = 0;
            return ;
        }
        self.sec = if self.sec == 255 {
            0
        } else {
            self.sec + 1
        };
        if self.sec != 60 {
            return ;
        }
        self.sec = 0;
        if self.min == 63 {
            self.min = 0;
            return ;
        }
        self.min = if self.min == 255 {
            0
        } else {
            self.min + 1
        };
        if self.min != 60 {
            return ;
        }
        self.min = 0;
        if self.hour == 31 {
            self.hour = 0;
            return ;
        }
        self.hour = if self.hour == 255 {
            0
        } else {
            self.hour + 1
        };
        if self.hour != 24 {
            return ;
        }
        self.hour = 0;
        if self.yday != 255 {
            self.yday = self.yday + 1;
            return ;
        }
        self.yday = 0;
        if self.high & RTC_DAY_HIGH != 0 {
            self.high = self.high | RTC_DAY_CARRY;
        }
        self.high = self.high ^ RTC_DAY_HIGH;
    }
}

/// The kinds of place that an access to the cartridge RAM window can reach.
#[derive(Clone, Copy, Debug, PartialEq, Eq, Structural)]
pub enum RamKind {
    /// A clock register.
    Rtc,
    /// A byte of the cartridge RAM.
    Ram,
    /// Nothing: reads give 0xFF, writes are dropped.
    Open,
}

/// Where an access to the cartridge RAM window goes: the kind of place,
/// the clock register (0 to 4) where it is one, and the offset in the
/// cartridge RAM where it is a byte of that.
#[derive(Clone, Copy, Debug, PartialEq, Eq, Structural)]
pub struct RamTarget {
    pub kind: RamKind,
    pub reg: u8,
    pub offset: usize,
}

/// The state of the bank controller.
#[derive(Clone, Copy, Debug, PartialEq, Eq, Structural)]
pub struct Cart {
    pub mbc: Mbc,
    pub cart_ram: bool,
    pub num_rom_banks_mask: u16,
    pub num_ram_banks: u8,
    pub selected_rom_bank: u16,
    pub cart_ram_bank: u8,
    pub enable_cart_ram: bool,
    pub cart_mode_select: u8,
    pub rtc_latched: CartRtc,
    pub rtc_real: CartRtc,
}

impl Cart {
    /// The invariant of the controller: the mask is that of a power-of-two
    /// bank count, the selected bank lies within it and is never bank 0, and
    /// with an MBC1 its low five bits are never all zero.
    pub open spec fn wf(self) -> bool {
        &&& is_bank_mask(self.num_rom_banks_mask)
        &&& 1 <= self.selected_rom_bank <= self.num_rom_banks_mask
        &&& self.mbc == Mbc::Mbc1 ==> self.selected_rom_bank % 32 != 0
        &&& self.cart_mode_select <= 1
    }

    /// A raw bank number brought into range: reduced modulo the bank count,
    /// then moved up by one where it would name bank 0 (for an MBC1, where
    /// its low five bits would be zero).
    #[verifier::opaque]
    pub open spec fn spec_normalize(self, raw: u16) -> u16 {
        let m = (raw % ((self.num_rom_banks_mask + 1) as u16)) as u16;
        if self.mbc == Mbc::Mbc1 {
            if m % 32 == 0 {
                (m + 1) as u16
            } else {
                m
            }
        } else if m == 0 {
            1
        } else {
            m
        }
    }

    /// The raw bank number that a write of `val` to the bank-select range
    /// asks for, before it is brought into range.
    #[verifier::opaque]
    pub open spec fn spec_raw_bank(self, high_half: bool, val: u8) -> u16 {
        match self.mbc {
            Mbc::Mbc0 => self.selected_rom_bank,
            Mbc::Mbc1 => {
                let raw = ((val % 32) + ((self.selected_rom_bank / 32) % 4) * 32) as u16;
                if raw % 32 == 0 {
                    (raw + 1) as u16
                } else {
                    raw
                }
            },
            Mbc::Mbc2 => if val % 16 == 0 {
                1
            } else {
                (val % 16) as u16
            },
            Mbc::Mbc3 => if val % 128 == 0 {
                1
            } else {
                (val % 128) as u16
            },
            Mbc::Mbc5 => if high_half {
                ((val % 2) * 256 + self.selected_rom_bank % 256) as u16
            } else {
                (((self.selected_rom_bank / 256) % 2) * 256 + val) as u16
            },
        }
    }

    /// The controller after a write to 0x0000..=0x3FFF.
    pub open spec fn spec_write_low(self, addr: u16, val: u8) -> Cart {
        let enable = val % 16 == 0x0A;
        if addr < 0x2000 && self.mbc != Mbc::Mbc0 && self.mbc != Mbc::Mbc2 && self.cart_ram {
            Cart { enable_cart_ram: enable, ..self }
        } else if self.mbc == Mbc::Mbc2 && (addr / 256) % 2 == 0 {
            Cart { enable_cart_ram: enable, ..self }
        } else {
            Cart {
                selected_rom_bank: self.spec_normalize(self.spec_raw_bank(addr >= 0x3000, val)),
                ..self
            }
        }
    }

    /// The controller after a write to 0x4000..=0x5FFF.
    pub open spec fn spec_write_bank(self, val: u8) -> Cart {
        match self.mbc {
            Mbc::Mbc1 => Cart {
                cart_ram_bank: val % 4,
                selected_rom_bank: self.spec_normalize(
                    ((val % 4) * 32 + self.selected_rom_bank % 32) as u16,
                ),
                ..self
            },
            Mbc::Mbc3 => Cart { cart_ram_bank: val, ..self },
            Mbc::Mbc5 => Cart { cart_ram_bank: val % 16, ..self },
            _ => self,
        }
    }

    /// The controller after a write to 0x6000..=0x7FFF: the mode bit is set
    /// from bit 0, and an MBC3 latches its clock when the bit goes from 0 to 1.
    pub open spec fn spec_write_mode(self, val: u8) -> Cart {
        let bit = val % 2;
        if self.mbc == Mbc::Mbc3 && bit != 0 && self.cart_mode_select == 0 {
            Cart { cart_mode_select: bit, rtc_latched: self.rtc_real, ..self }
        } else {
            Cart { cart_mode_select: bit, ..self }
        }
    }

    /// The controller after a write to the control range 0x0000..=0x7FFF.
    #[verifier::opaque]
    pub open spec fn spec_control(self, addr: u16, val: u8) -> Cart {
        if addr < 0x4000 {
            self.spec_write_low(addr, val)
        } else if addr < 0x6000 {
            self.spec_write_bank(val)
        } else {
            self.spec_write_mode(val)
        }
    }

    /// The bank seen through the switchable window 0x4000..=0x7FFF.
    pub open spec fn spec_window_bank(self) -> u16 {
        if self.mbc == Mbc::Mbc1 && self.cart_mode_select != 0 {
            self.selected_rom_bank % 32
        } else {
            self.selected_rom_bank
        }
    }

    /// The ROM offset of an address in the switchable window.
    #[verifier::opaque]
    pub open spec fn spec_rom_offset(self, addr: u16) -> int {
        addr + (self.spec_window_bank() - 1) * ROM_BANK_SIZE
    }

    /// Where an access to 0xA000..=0xBFFF goes.
    #[verifier::opaque]
    pub open spec fn spec_ram_target(self, addr: u16) -> RamTarget {
        if self.mbc == Mbc::Mbc3 && self.cart_ram_bank >= 0x08 {
            if self.cart_ram_bank <= 0x0C {
                RamTarget { kind: RamKind::Rtc, reg: (self.cart_ram_bank - 0x08) as u8, offset: 0 }
            } else {
                RamTarget { kind: RamKind::Open, reg: 0, offset: 0 }
            }
        } else if self.cart_ram && self.enable_cart_ram {
            if self.mbc == Mbc::Mbc2 {
                RamTarget { kind: RamKind::Ram, reg: 0, offset: (addr % 512) as usize }
            } else if (self.cart_mode_select != 0 || self.mbc != Mbc::Mbc1) && self.cart_ram_bank
                < self.num_ram_banks {
                RamTarget {
                    kind: RamKind::Ram,
                    reg: 0,
                    offset: (addr - 0xA000 + self.cart_ram_bank * CRAM_BANK_SIZE) as usize,
                }
            } else {
                RamTarget { kind: RamKind::Ram, reg: 0, offset: (addr - 0xA000) as usize }
            }
        } else {
            RamTarget { kind: RamKind::Open, reg: 0, offset: 0 }
        }
    }

    /// The state of a controller when the console is reset.
    pub open spec fn spec_reset(self) -> Cart {
        Cart {
            selected_rom_bank: 1,
            cart_ram_bank: 0,
            enable_cart_ram: false,
            cart_mode_select: 0,
            ..self
        }
    }

    /// Tests the invariant of the controller.
    pub fn valid(&self) -> (b: bool)
        ensures
            b == self.wf(),
    {
        let m = self.num_rom_banks_mask;
        let mask_ok = m == 1 || m == 3 || m == 7 || m == 15 || m == 31 || m == 63 || m == 127 || m
            == 255 || m == 511;
        mask_ok && 1 <= self.selected_rom_bank && self.selected_rom_bank <= m && (self.mbc
            != Mbc::Mbc1 || self.selected_rom_bank % 32 != 0) && self.cart_mode_select <= 1
    }

    /// Builds the controller from the header's fields.
    pub fn new(mbc: Mbc, cart_ram: bool, num_rom_banks_mask: u16, num_ram_banks: u8) -> (r: Cart)
        requires
            is_bank_mask(num_rom_banks_mask),
        ensures
            r.wf(),
            r == (Cart {
                mbc,
                cart_ram,
                num_rom_banks_mask,
                num_ram_banks,
                selected_rom_bank: 1,
                cart_ram_bank: 0,
                enable_cart_ram: false,
                cart_mode_select: 0,
                rtc_latched: CartRtc::spec_zero(),
                rtc_real: CartRtc::spec_zero(),
            }),
    {
        Cart {
            mbc,
            cart_ram,
            num_rom_banks_mask,
            num_ram_banks,
            selected_rom_bank: 1,
            cart_ram_bank: 0,
            enable_cart_ram: false,
            cart_mode_select: 0,
            rtc_latched: CartRtc::new(),
            rtc_real: CartRtc::new(),
        }
    }

    /// Selects bank 1, bank 0 of the RAM, RAM disabled, mode 0.
    pub fn reset(&mut self)
        requires
            old(self).wf(),
        ensures
            *final(self) == old(self).spec_reset(),
            final(self).wf(),
    {
        self.selected_rom_bank = 1;
        self.cart_ram_bank = 0;
        self.enable_cart_ram = false;
        self.cart_mode_select = 0;
    }

    fn normalize(&self, raw: u16) -> (r: u16)
        requires
            is_bank_mask(self.num_rom_banks_mask),
        ensures
            r == self.spec_normalize(raw),
            1 <= r <= self.num_rom_banks_mask,
            self.mbc == Mbc::Mbc1 ==> r % 32 != 0,
    {
        proof {
            reveal(Cart::spec_normalize);
        }
        let m: u16 = raw % (self.num_rom_banks_mask + 1);
        if self.mbc == Mbc::Mbc1 {
            if m % 32 == 0 {
                m + 1
            } else {
                m
            }
        } else if m == 0 {
            1
        } else {
            m
        }
    }

    fn raw_bank(&self, high_half: bool, val: u8) -> (r: u16)
        ensures
            r == self.spec_raw_bank(high_half, val),
    {
        proof {
            reveal(Cart::spec_raw_bank);
        }
        match self.mbc {
            Mbc::Mbc0 => self.selected_rom_bank,
            Mbc::Mbc1 => {
                let raw: u16 = (val % 32) as u16 + ((self.selected_rom_bank / 32) % 4) * 32;
                if raw % 32 == 0 {
                    raw + 1
                } else {
                    raw
                }
            },
            Mbc::Mbc2 => if val % 16 == 0 {
                1
            } else {
                (val % 16) as u16
            },
            Mbc::Mbc3 => if val % 128 == 0 {
                1
            } else {
                (val % 128) as u16
            },
            Mbc::Mbc5 => if high_half {
                (val % 2) as u16 * 256 + self.selected_rom_bank % 256
            } else {
                ((self.selected_rom_bank / 256) % 2) * 256 + val as u16
            },
        }
    }

    /// Applies a write to the control range 0x0000..=0x7FFF.
    pub fn control(&mut self, addr: u16, val: u8)
        requires
            old(self).wf(),
            addr < 0x8000,
        ensures
            *final(self) == old(self).spec_control(addr, val),
            final(self).wf(),
            final(self).mbc == old(self).mbc,
            final(self).cart_ram == old(self).cart_ram,
            final(self).num_rom_banks_mask == old(self).num_rom_banks_mask,
            final(self).num_ram_banks == old(self).num_ram_banks,
            final(self).rtc_real == old(self).rtc_real,
    {
        proof {
            reveal(Cart::spec_control);
        }
        if addr < 0x4000 {
            let enable = val % 16 == 0x0A;
            if addr < 0x2000 && self.mbc != Mbc::Mbc0 && self.mbc != Mbc::Mbc2 && self.cart_ram {
                self.enable_cart_ram = enable;
            } else if self.mbc == Mbc::Mbc2 && (addr / 256) % 2 == 0 {
                self.enable_cart_ram = enable;
            } else {
                let raw = self.raw_bank(addr >= 0x3000, val);
                let bank = self.normalize(raw);
                self.selected_rom_bank = bank;
            }
        } else if addr < 0x6000 {
            match self.mbc {
                Mbc::Mbc1 => {
                    let raw: u16 = (val % 4) as u16 * 32 + self.selected_rom_bank % 32;
                    let bank = self.normalize(raw);
                    self.cart_ram_bank = val % 4;
                    self.selected_rom_bank = bank;
                },
                Mbc::Mbc3 => {
                    self.cart_ram_bank = val;
                },
                Mbc::Mbc5 => {
                    self.cart_ram_bank = val % 16;
                },
                _ => {},
            }
        } else {
            let bit = val % 2;
            if self.mbc == Mbc::Mbc3 && bit != 0 && self.cart_mode_select == 0 {
                self.rtc_latched = self.rtc_real;
            }
            self.cart_mode_select = bit;
        }
    }

    /// The ROM offset of an address in the switchable window.
    pub fn rom_offset(&self, addr: u16) -> (r: usize)
        requires
            self.wf(),
            0x4000 <= addr < 0x8000,
        ensures
            r == self.spec_rom_offset(addr),
            r >= addr,
    {
        proof {
            reveal(Cart::spec_rom_offset);
        }
        let bank: u16 = if self.mbc == Mbc::Mbc1 && self.cart_mode_select != 0 {
            self.selected_rom_bank % 32
        } else {
            self.selected_rom_bank
        };
        addr as usize + (bank as usize - 1) * ROM_BANK_SIZE
    }

    /// Where an access to 0xA000..=0xBFFF goes.
    pub fn ram_target(&self, addr: u16) -> (r: RamTarget)
        requires
            0xA000 <= addr < 0xC000,
        ensures
            r == self.spec_ram_target(addr),
            r.reg <= 4,
    {
        proof {
            reveal(Cart::spec_ram_target);
        }
        if self.mbc == Mbc::Mbc3 && self.cart_ram_bank >= 0x08 {
            if self.cart_ram_bank <= 0x0C {
                RamTarget { kind: RamKind::Rtc, reg: self.cart_ram_bank - 0x08, offset: 0 }
            } else {
                RamTarget { kind: RamKind::Open, reg: 0, offset: 0 }
            }
        } else if self.cart_ram && self.enable_cart_ram {
            if self.mbc == Mbc::Mbc2 {
                RamTarget { kind: RamKind::Ram, reg: 0, offset: (addr % 512) as usize }
            } else if (self.cart_mode_select != 0 || self.mbc != Mbc::Mbc1) && self.cart_ram_bank
                < self.num_ram_banks {
                RamTarget {
                    kind: RamKind::Ram,
                    reg: 0,
                    offset: (addr - 0xA000) as usize + self.cart_ram_bank as usize
                        * CRAM_BANK_SIZE,
                }
            } else {
                RamTarget { kind: RamKind::Ram, reg: 0, offset: (addr - 0xA000) as usize }
            }
        } else {
            RamTarget { kind: RamKind::Open, reg: 0, offset: 0 }
        }
    }
}

/// A controller in range stays in range under every control write: the
/// selected bank is at least 1 and within the mask.
pub proof fn lemma_control_keeps_bank_in_range(c: Cart, addr: u16, val: u8)
    requires
        c.wf(),
        addr < 0x8000,
    ensures
        c.spec_control(addr, val).wf(),
        c.spec_control(addr, val).selected_rom_bank >= 1,
        c.spec_control(addr, val).spec_window_bank() >= 1,
{
    reveal(Cart::spec_normalize);
    reveal(Cart::spec_raw_bank);
    reveal(Cart::spec_control);
}

/// With an MBC1, a bank-select write whose low five bits are zero selects a
/// bank whose low five bits are 1: bank 0 is never seen through the
/// switchable window.
pub proof fn lemma_mbc1_bank_zero_coerced(c: Cart, addr: u16, val: u8)
    requires
        c.wf(),
        c.mbc == Mbc::Mbc1,
        0x2000 <= addr < 0x4000,
        val % 32 == 0,
    ensures
        c.spec_control(addr, val).selected_rom_bank % 32 == 1,
        c.spec_control(addr, val).spec_window_bank() % 32 == 1,
        c.spec_control(addr, val).spec_rom_offset(0x4000) >= 0x4000,
{
    reveal(Cart::spec_normalize);
    reveal(Cart::spec_raw_bank);
    reveal(Cart::spec_rom_offset);
    reveal(Cart::spec_control);
    let k = (c.selected_rom_bank / 32) % 4;
    let raw = c.spec_raw_bank(addr >= 0x3000, val);
    assert(raw == k * 32 + 1);
    assert(k == 0 || k == 1 || k == 2 || k == 3);
    let m = c.num_rom_banks_mask;
    if k == 0 {
        assert(raw == 1);
    } else if k == 1 {
        assert(raw == 33);
    } else if k == 2 {
        assert(raw == 65);
    } else {
        assert(raw == 97);
    }
    let r = (raw % ((m + 1) as u16)) as u16;
    assert(r % 32 == 1) by {
        if m == 1 {
            assert(r == raw % 2);
        } else if m == 3 {
            assert(r == raw % 4);
        } else if m == 7 {
            assert(r == raw % 8);
        } else if m == 15 {
            assert(r == raw % 16);
        } else if m == 31 {
            assert(r == raw % 32);
        } else if m == 63 {
            assert(r == raw % 64);
        } else if m == 127 {
            assert(r == raw % 128);
        } else if m == 255 {
            assert(r == raw % 256);
        } else {
            assert(r == raw % 512);
        }
    }
    assert(c.spec_normalize(raw) == r);
}

} // verus!
