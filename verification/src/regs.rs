//! The register file: a packed flag byte and 16-bit register pairs.

use vstd::prelude::*;

verus! {

/// The four condition flags, packed into the low nibble of one byte:
/// carry in bit 0, half-carry in bit 1, subtract in bit 2, zero in bit 3.
#[derive(Clone, Copy, Debug, PartialEq, Eq, Structural)]
pub struct Flags {
    pub byte: u8,
}

/// The byte whose only set bit, if any, is `mask`, according to `b`.
pub open spec fn flag_bit(b: bool, mask: u8) -> u8 {
    if b {
        mask
    } else {
        0
    }
}

impl Flags {
    /// The carry flag.
    pub open spec fn c(self) -> bool {
        self.byte & 1 != 0
    }

    /// The half-carry flag.
    pub open spec fn h(self) -> bool {
        self.byte & 2 != 0
    }

    /// The subtract flag.
    pub open spec fn n(self) -> bool {
        self.byte & 4 != 0
    }

    /// The zero flag.
    pub open spec fn z(self) -> bool {
        self.byte & 8 != 0
    }

    /// The flag byte that holds exactly the four given flags.
    pub open spec fn pack(z: bool, n: bool, h: bool, c: bool) -> Flags {
        Flags { byte: flag_bit(z, 8) | flag_bit(n, 4) | flag_bit(h, 2) | flag_bit(c, 1) }
    }

    /// The flags as the hardware lays them out in the F register:
    /// Z in bit 7, N in bit 6, H in bit 5, C in bit 4, low nibble zero.
    pub open spec fn spec_to_f(self) -> u8 {
        flag_bit(self.z(), 0x80) | flag_bit(self.n(), 0x40) | flag_bit(self.h(), 0x20) | flag_bit(
            self.c(),
            0x10,
        )
    }

    /// The flags read back from the hardware layout of the F register.
    pub open spec fn spec_from_f(f: u8) -> Flags {
        Flags::pack(f & 0x80 != 0, f & 0x40 != 0, f & 0x20 != 0, f & 0x10 != 0)
    }

    /// Packing four flags and reading them back gives the same four flags,
    /// and the packed byte stays within the low nibble.
    pub proof fn lemma_pack(z: bool, n: bool, h: bool, c: bool)
        ensures
            Flags::pack(z, n, h, c).z() == z,
            Flags::pack(z, n, h, c).n() == n,
            Flags::pack(z, n, h, c).h() == h,
            Flags::pack(z, n, h, c).c() == c,
            Flags::pack(z, n, h, c).byte < 16,
    {
        let zb = flag_bit(z, 8);
        let nb = flag_bit(n, 4);
        let hb = flag_bit(h, 2);
        let cb = flag_bit(c, 1);
        let p = zb | nb | hb | cb;
        assert(((p & 8 != 0) == (zb == 8)) && ((p & 4 != 0) == (nb == 4)) && ((p & 2 != 0) == (hb
            == 2)) && ((p & 1 != 0) == (cb == 1)) && p < 16) by (bit_vector)
            requires
                p == zb | nb | hb | cb,
                zb == 0 || zb == 8,
                nb == 0 || nb == 4,
                hb == 0 || hb == 2,
                cb == 0 || cb == 1,
        ;
    }

    pub fn new() -> (r: Flags)
        ensures
            r.byte == 0,
            r == Flags::pack(false, false, false, false),
            !r.z() && !r.n() && !r.h() && !r.c(),
    {
        proof {
            Flags::lemma_pack(false, false, false, false);
            assert(0u8 | 0u8 | 0u8 | 0u8 == 0u8) by (bit_vector);
        }
        Flags { byte: 0 }
    }

    /// Builds the flag byte from four booleans.
    pub fn of(z: bool, n: bool, h: bool, c: bool) -> (r: Flags)
        ensures
            r == Flags::pack(z, n, h, c),
            r.z() == z,
            r.n() == n,
            r.h() == h,
            r.c() == c,
    {
        proof {
            Flags::lemma_pack(z, n, h, c);
        }
        let zb: u8 = if z { 8 } else { 0 };
        let nb: u8 = if n { 4 } else { 0 };
        let hb: u8 = if h { 2 } else { 0 };
        let cb: u8 = if c { 1 } else { 0 };
        Flags { byte: zb | nb | hb | cb }
    }

    pub fn get_c(&self) -> (r: u8)
        ensures
            r == (if self.c() { 1u8 } else { 0u8 }),
    {
        let b = self.byte;
        proof {
            assert((b & 1) == (if b & 1 != 0 { 1u8 } else { 0u8 })) by (bit_vector);
        }
        b & 1
    }

    pub fn get_h(&self) -> (r: u8)
        ensures
            r == (if self.h() { 1u8 } else { 0u8 }),
    {
        let b = self.byte;
        proof {
            assert(((b & 2) >> 1) == (if b & 2 != 0 { 1u8 } else { 0u8 })) by (bit_vector);
        }
        (b & 2) >> 1
    }

    pub fn get_n(&self) -> (r: u8)
        ensures
            r == (if self.n() { 1u8 } else { 0u8 }),
    {
        let b = self.byte;
        proof {
            assert(((b & 4) >> 2) == (if b & 4 != 0 { 1u8 } else { 0u8 })) by (bit_vector);
        }
        (b & 4) >> 2
    }

    pub fn get_z(&self) -> (r: u8)
        ensures
            r == (if self.z() { 1u8 } else { 0u8 }),
    {
        let b = self.byte;
        proof {
            assert(((b & 8) >> 3) == (if b & 8 != 0 { 1u8 } else { 0u8 })) by (bit_vector);
        }
        (b & 8) >> 3
    }

    pub fn set_c(&mut self, b: bool)
        ensures
            *final(self) == Flags::pack(old(self).z(), old(self).n(), old(self).h(), b),
            final(self).c() == b,
            final(self).h() == old(self).h(),
            final(self).n() == old(self).n(),
            final(self).z() == old(self).z(),
    {
        let r = Flags::of(self.byte & 8 != 0, self.byte & 4 != 0, self.byte & 2 != 0, b);
        self.byte = r.byte;
    }

    pub fn set_h(&mut self, b: bool)
        ensures
            *final(self) == Flags::pack(old(self).z(), old(self).n(), b, old(self).c()),
            final(self).c() == old(self).c(),
            final(self).h() == b,
            final(self).n() == old(self).n(),
            final(self).z() == old(self).z(),
    {
        let r = Flags::of(self.byte & 8 != 0, self.byte & 4 != 0, b, self.byte & 1 != 0);
        self.byte = r.byte;
    }

    pub fn set_n(&mut self, b: bool)
        ensures
            *final(self) == Flags::pack(old(self).z(), b, old(self).h(), old(self).c()),
            final(self).c() == old(self).c(),
            final(self).h() == old(self).h(),
            final(self).n() == b,
            final(self).z() == old(self).z(),
    {
        let r = Flags::of(self.byte & 8 != 0, b, self.byte & 2 != 0, self.byte & 1 != 0);
        self.byte = r.byte;
    }

    pub fn set_z(&mut self, b: bool)
        ensures
            *final(self) == Flags::pack(b, old(self).n(), old(self).h(), old(self).c()),
            final(self).c() == old(self).c(),
            final(self).h() == old(self).h(),
            final(self).n() == old(self).n(),
            final(self).z() == b,
    {
        let r = Flags::of(b, self.byte & 4 != 0, self.byte & 2 != 0, self.byte & 1 != 0);
        self.byte = r.byte;
    }

    /// The flags in the hardware layout of the F register.
    pub fn to_f(&self) -> (r: u8)
        ensures
            r == self.spec_to_f(),
    {
        let zb: u8 = if self.byte & 8 != 0 { 0x80 } else { 0 };
        let nb: u8 = if self.byte & 4 != 0 { 0x40 } else { 0 };
        let hb: u8 = if self.byte & 2 != 0 { 0x20 } else { 0 };
        let cb: u8 = if self.byte & 1 != 0 { 0x10 } else { 0 };
        zb | nb | hb | cb
    }

    /// The flags read from the hardware layout of the F register.
    pub fn from_f(f: u8) -> (r: Flags)
        ensures
            r == Flags::spec_from_f(f),
    {
        Flags::of(f & 0x80 != 0, f & 0x40 != 0, f & 0x20 != 0, f & 0x10 != 0)
    }
}

/// A 16-bit register pair with byte accessors.
#[derive(Clone, Copy, Debug, PartialEq, Eq, Structural)]
pub struct Register {
    pub bytes: u16,
}

impl Register {
    /// The high byte.
    pub open spec fn hi(self) -> u8 {
        (self.bytes / 256) as u8
    }

    /// The low byte.
    pub open spec fn lo(self) -> u8 {
        (self.bytes % 256) as u8
    }

    /// The pair made of a high and a low byte.
    pub open spec fn join(hi: u8, lo: u8) -> Register {
        Register { bytes: (hi * 256 + lo) as u16 }
    }

    pub fn new() -> (r: Register)
        ensures
            r.bytes == 0,
    {
        Register { bytes: 0 }
    }

    pub fn get_hi(&self) -> (r: u8)
        ensures
            r == self.hi(),
    {
        (self.bytes / 256) as u8
    }

    pub fn get_lo(&self) -> (r: u8)
        ensures
            r == self.lo(),
    {
        (self.bytes % 256) as u8
    }

    pub fn set_hi(&mut self, b: u8)
        ensures
            *final(self) == Register::join(b, old(self).lo()),
            final(self).hi() == b,
            final(self).lo() == old(self).lo(),
    {
        self.bytes = (b as u16) * 256 + self.bytes % 256;
    }

    pub fn set_lo(&mut self, b: u8)
        ensures
            *final(self) == Register::join(old(self).hi(), b),
            final(self).hi() == old(self).hi(),
            final(self).lo() == b,
    {
        self.bytes = (self.bytes / 256) * 256 + b as u16;
    }
}

/// The CPU's registers: flags, accumulator, three general pairs, stack pointer
/// and program counter.
#[derive(Clone, Copy, Debug, PartialEq, Eq, Structural)]
pub struct CpuRegisters {
    pub f: Flags,
    pub a: u8,
    pub bc: Register,
    pub de: Register,
    pub hl: Register,
    pub sp: Register,
    pub pc: Register,
}

impl CpuRegisters {
    /// The 8-bit register selected by the three bits `i` of an opcode:
    /// B, C, D, E, H, L, and A for 7.  (Selector 6 names the byte at HL,
    /// which the bus supplies; here it reads as A.)
    #[verifier::opaque]
    pub open spec fn spec_get8(self, i: u8) -> u8 {
        if i == 0 {
            self.bc.hi()
        } else if i == 1 {
            self.bc.lo()
        } else if i == 2 {
            self.de.hi()
        } else if i == 3 {
            self.de.lo()
        } else if i == 4 {
            self.hl.hi()
        } else if i == 5 {
            self.hl.lo()
        } else {
            self.a
        }
    }

    /// The registers after the 8-bit register selected by `i` was set.
    #[verifier::opaque]
    pub open spec fn spec_set8(self, i: u8, v: u8) -> CpuRegisters {
        if i == 0 {
            CpuRegisters { bc: Register::join(v, self.bc.lo()), ..self }
        } else if i == 1 {
            CpuRegisters { bc: Register::join(self.bc.hi(), v), ..self }
        } else if i == 2 {
            CpuRegisters { de: Register::join(v, self.de.lo()), ..self }
        } else if i == 3 {
            CpuRegisters { de: Register::join(self.de.hi(), v), ..self }
        } else if i == 4 {
            CpuRegisters { hl: Register::join(v, self.hl.lo()), ..self }
        } else if i == 5 {
            CpuRegisters { hl: Register::join(self.hl.hi(), v), ..self }
        } else {
            CpuRegisters { a: v, ..self }
        }
    }

    /// The register pair selected by the two bits `p` of an opcode: BC, DE,
    /// HL, SP.
    #[verifier::opaque]
    pub open spec fn spec_get16(self, p: u8) -> u16 {
        if p == 0 {
            self.bc.bytes
        } else if p == 1 {
            self.de.bytes
        } else if p == 2 {
            self.hl.bytes
        } else {
            self.sp.bytes
        }
    }

    /// The registers after the pair selected by `p` was set.
    #[verifier::opaque]
    pub open spec fn spec_set16(self, p: u8, v: u16) -> CpuRegisters {
        if p == 0 {
            CpuRegisters { bc: Register { bytes: v }, ..self }
        } else if p == 1 {
            CpuRegisters { de: Register { bytes: v }, ..self }
        } else if p == 2 {
            CpuRegisters { hl: Register { bytes: v }, ..self }
        } else {
            CpuRegisters { sp: Register { bytes: v }, ..self }
        }
    }

    /// The pair that push and pop select by `p`: BC, DE, HL, and AF with the
    /// flags in their hardware layout.
    #[verifier::opaque]
    pub open spec fn spec_get_stack16(self, p: u8) -> u16 {
        if p == 0 {
            self.bc.bytes
        } else if p == 1 {
            self.de.bytes
        } else if p == 2 {
            self.hl.bytes
        } else {
            (self.a * 256 + self.f.spec_to_f()) as u16
        }
    }

    /// The registers after the pair that push and pop select by `p` was
    /// set.
    #[verifier::opaque]
    pub open spec fn spec_set_stack16(self, p: u8, v: u16) -> CpuRegisters {
        if p == 0 {
            CpuRegisters { bc: Register { bytes: v }, ..self }
        } else if p == 1 {
            CpuRegisters { de: Register { bytes: v }, ..self }
        } else if p == 2 {
            CpuRegisters { hl: Register { bytes: v }, ..self }
        } else {
            CpuRegisters { a: (v / 256) as u8, f: Flags::spec_from_f((v % 256) as u8), ..self }
        }
    }

    /// The branch condition selected by the two bits `y` of an opcode: not
    /// zero, zero, no carry, carry.
    #[verifier::opaque]
    pub open spec fn spec_cond(self, y: u8) -> bool {
        if y == 0 {
            !self.f.z()
        } else if y == 1 {
            self.f.z()
        } else if y == 2 {
            !self.f.c()
        } else {
            self.f.c()
        }
    }

    pub fn get8(&self, i: u8) -> (r: u8)
        ensures
            r == self.spec_get8(i),
    {
        proof {
            reveal(CpuRegisters::spec_get8);
        }
        if i == 0 {
            self.bc.get_hi()
        } else if i == 1 {
            self.bc.get_lo()
        } else if i == 2 {
            self.de.get_hi()
        } else if i == 3 {
            self.de.get_lo()
        } else if i == 4 {
            self.hl.get_hi()
        } else if i == 5 {
            self.hl.get_lo()
        } else {
            self.a
        }
    }

    pub fn set8(&mut self, i: u8, v: u8)
        ensures
            *final(self) == old(self).spec_set8(i, v),
    {
        proof {
            reveal(CpuRegisters::spec_set8);
        }
        if i == 0 {
            self.bc.set_hi(v);
        } else if i == 1 {
            self.bc.set_lo(v);
        } else if i == 2 {
            self.de.set_hi(v);
        } else if i == 3 {
            self.de.set_lo(v);
        } else if i == 4 {
            self.hl.set_hi(v);
        } else if i == 5 {
            self.hl.set_lo(v);
        } else {
            self.a = v;
        }
    }

    pub fn get16(&self, p: u8) -> (r: u16)
        ensures
            r == self.spec_get16(p),
    {
        proof {
            reveal(CpuRegisters::spec_get16);
        }
        if p == 0 {
            self.bc.bytes
        } else if p == 1 {
            self.de.bytes
        } else if p == 2 {
            self.hl.bytes
        } else {
            self.sp.bytes
        }
    }

    pub fn set16(&mut self, p: u8, v: u16)
        ensures
            *final(self) == old(self).spec_set16(p, v),
    {
        proof {
            reveal(CpuRegisters::spec_set16);
        }
        if p == 0 {
            self.bc.bytes = v;
        } else if p == 1 {
            self.de.bytes = v;
        } else if p == 2 {
            self.hl.bytes = v;
        } else {
            self.sp.bytes = v;
        }
    }

    pub fn get_stack16(&self, p: u8) -> (r: u16)
        ensures
            r == self.spec_get_stack16(p),
    {
        proof {
            reveal(CpuRegisters::spec_get_stack16);
        }
        if p == 0 {
            self.bc.bytes
        } else if p == 1 {
            self.de.bytes
        } else if p == 2 {
            self.hl.bytes
        } else {
            self.a as u16 * 256 + self.f.to_f() as u16
        }
    }

    pub fn set_stack16(&mut self, p: u8, v: u16)
        ensures
            *final(self) == old(self).spec_set_stack16(p, v),
    {
        proof {
            reveal(CpuRegisters::spec_set_stack16);
        }
        if p == 0 {
            self.bc.bytes = v;
        } else if p == 1 {
            self.de.bytes = v;
        } else if p == 2 {
            self.hl.bytes = v;
        } else {
            self.a = (v / 256) as u8;
            self.f = Flags::from_f((v % 256) as u8);
        }
    }

    pub fn cond(&self, y: u8) -> (r: bool)
        ensures
            r == self.spec_cond(y),
    {
        proof {
            reveal(CpuRegisters::spec_cond);
        }
        if y == 0 {
            self.f.get_z() == 0
        } else if y == 1 {
            self.f.get_z() != 0
        } else if y == 2 {
            self.f.get_c() == 0
        } else {
            self.f.get_c() != 0
        }
    }

    pub fn new() -> (r: CpuRegisters)
        ensures
            r.f.byte == 0,
            r.a == 0,
            r.bc.bytes == 0,
            r.de.bytes == 0,
            r.hl.bytes == 0,
            r.sp.bytes == 0,
            r.pc.bytes == 0,
    {
        CpuRegisters {
            f: Flags::new(),
            a: 0,
            bc: Register::new(),
            de: Register::new(),
            hl: Register::new(),
            sp: Register::new(),
            pc: Register::new(),
        }
    }
}

} // verus!
