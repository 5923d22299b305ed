//! The arithmetic and logic unit: pure functions from operands and flags to a
//! result and new flags.

use crate::regs::{flag_bit, Flags};
use vstd::prelude::*;

verus! {

/// What an 8-bit operation produces: a value and the flags after it.
#[derive(Clone, Copy, Debug, PartialEq, Eq, Structural)]
pub struct AluOut {
    pub value: u8,
    pub flags: Flags,
}

/// What a 16-bit addition produces.
#[derive(Clone, Copy, Debug, PartialEq, Eq, Structural)]
pub struct WideOut {
    pub value: u16,
    pub flags: Flags,
}

/// Addition with carry-in: carry is overflow past bit 7, half-carry is
/// overflow past bit 3.
#[verifier::opaque]
pub open spec fn spec_adc(a: u8, r: u8, cin: u8) -> AluOut {
    let sum = a + r + cin;
    AluOut {
        value: (sum % 256) as u8,
        flags: Flags::pack(sum % 256 == 0, false, (a % 16) + (r % 16) + cin > 0xF, sum > 0xFF),
    }
}

/// Subtraction with borrow-in: carry is a borrow into bit 7, half-carry a
/// borrow into bit 3.
#[verifier::opaque]
pub open spec fn spec_sbc(a: u8, r: u8, cin: u8) -> AluOut {
    let diff = a - r - cin;
    AluOut {
        value: (diff % 256) as u8,
        flags: Flags::pack(diff % 256 == 0, true, (a % 16) - (r % 16) - cin < 0, diff < 0),
    }
}

/// Comparison: the flags of a subtraction, the accumulator kept.
#[verifier::opaque]
pub open spec fn spec_cp(a: u8, r: u8) -> AluOut {
    AluOut { value: a, flags: spec_sbc(a, r, 0).flags }
}

#[verifier::opaque]
pub open spec fn spec_and(a: u8, r: u8) -> AluOut {
    AluOut { value: a & r, flags: Flags::pack(a & r == 0, false, true, false) }
}

#[verifier::opaque]
pub open spec fn spec_xor(a: u8, r: u8) -> AluOut {
    AluOut { value: a ^ r, flags: Flags::pack(a ^ r == 0, false, false, false) }
}

#[verifier::opaque]
pub open spec fn spec_or(a: u8, r: u8) -> AluOut {
    AluOut { value: a | r, flags: Flags::pack(a | r == 0, false, false, false) }
}

/// Increment: the carry flag is kept.
#[verifier::opaque]
pub open spec fn spec_inc(v: u8, f: Flags) -> AluOut {
    let r = ((v + 1) % 256) as u8;
    AluOut { value: r, flags: Flags::pack(r == 0, false, r % 16 == 0, f.c()) }
}

/// Decrement: the carry flag is kept.
#[verifier::opaque]
pub open spec fn spec_dec(v: u8, f: Flags) -> AluOut {
    let r = ((v - 1) % 256) as u8;
    AluOut { value: r, flags: Flags::pack(r == 0, true, r % 16 == 15, f.c()) }
}

/// Decimal adjustment of the accumulator after a BCD addition or subtraction.
#[verifier::opaque]
pub open spec fn spec_daa(a: u8, f: Flags) -> AluOut {
    if f.n() {
        let a1: int = if f.h() {
            (a - 6) % 256
        } else {
            a as int
        };
        let a2: int = if f.c() {
            a1 - 0x60
        } else {
            a1
        };
        let v = (a2 % 256) as u8;
        AluOut { value: v, flags: Flags::pack(v == 0, true, false, f.c()) }
    } else {
        let a1: int = if f.h() || a % 16 > 9 {
            a + 6
        } else {
            a as int
        };
        let a2: int = if f.c() || a1 > 0x9F {
            a1 + 0x60
        } else {
            a1
        };
        let v = (a2 % 256) as u8;
        AluOut { value: v, flags: Flags::pack(v == 0, false, false, f.c() || a2 > 0xFF) }
    }
}

/// 16-bit addition into HL: zero flag kept, half-carry out of bit 11, carry
/// out of bit 15.
#[verifier::opaque]
pub open spec fn spec_add16(x: u16, y: u16, f: Flags) -> WideOut {
    WideOut {
        value: ((x + y) % 0x10000) as u16,
        flags: Flags::pack(f.z(), false, (x % 0x1000) + (y % 0x1000) > 0xFFF, x + y > 0xFFFF),
    }
}

/// A byte read as a signed displacement.
pub open spec fn signed(d: u8) -> int {
    if d < 128 {
        d as int
    } else {
        d - 256
    }
}

/// An address moved by a signed displacement, wrapping in 16 bits.
#[verifier::opaque]
pub open spec fn spec_offset(base: u16, d: u8) -> u16 {
    ((base + signed(d)) % 0x10000) as u16
}

/// Stack pointer plus signed displacement: flags from the unsigned low-byte
/// addition.
#[verifier::opaque]
pub open spec fn spec_add_sp(sp: u16, d: u8) -> WideOut {
    WideOut {
        value: spec_offset(sp, d),
        flags: Flags::pack(false, false, (sp % 16) + (d % 16) > 0xF, (sp % 256) + d > 0xFF),
    }
}

/// The eight rotate-and-shift operations of the extended opcode space, in
/// opcode order.
#[derive(Clone, Copy, Debug, PartialEq, Eq, Structural)]
pub enum Shift {
    Rlc,
    Rrc,
    Rl,
    Rr,
    Sla,
    Sra,
    Swap,
    Srl,
}

/// The value a rotate or shift produces.
#[verifier::opaque]
pub open spec fn spec_shift_value(op: Shift, v: u8, cin: bool) -> u8 {
    match op {
        Shift::Rlc => (v << 1) | (v >> 7),
        Shift::Rrc => (v >> 1) | (v << 7),
        Shift::Rl => (v << 1) | flag_bit(cin, 0x01),
        Shift::Rr => (v >> 1) | flag_bit(cin, 0x80),
        Shift::Sla => v << 1,
        Shift::Sra => (v >> 1) | (v & 0x80),
        Shift::Swap => (v >> 4) | (v << 4),
        Shift::Srl => v >> 1,
    }
}

/// The bit that leaves the byte in a rotate or shift.
#[verifier::opaque]
pub open spec fn spec_shift_carry(op: Shift, v: u8) -> bool {
    match op {
        Shift::Rlc | Shift::Rl | Shift::Sla => v & 0x80 != 0,
        Shift::Rrc | Shift::Rr | Shift::Sra | Shift::Srl => v & 0x01 != 0,
        Shift::Swap => false,
    }
}

/// A rotate or shift of the extended opcode space: zero flag from the result.
#[verifier::opaque]
pub open spec fn spec_shift(op: Shift, v: u8, f: Flags) -> AluOut {
    let r = spec_shift_value(op, v, f.c());
    AluOut { value: r, flags: Flags::pack(r == 0, false, false, spec_shift_carry(op, v)) }
}

/// A rotate of the accumulator by a one-byte opcode: zero flag cleared.
#[verifier::opaque]
pub open spec fn spec_rotate_a(op: Shift, v: u8, f: Flags) -> AluOut {
    let r = spec_shift_value(op, v, f.c());
    AluOut { value: r, flags: Flags::pack(false, false, false, spec_shift_carry(op, v)) }
}

/// Bit test: zero flag set when bit `b` of `v` is clear; carry kept.
#[verifier::opaque]
pub open spec fn spec_bit(v: u8, b: u8, f: Flags) -> Flags {
    Flags::pack((v >> b) & 1 == 0, false, true, f.c())
}

#[verifier::opaque]
pub open spec fn spec_res(v: u8, b: u8) -> u8 {
    v & !(1u8 << b)
}

#[verifier::opaque]
pub open spec fn spec_set(v: u8, b: u8) -> u8 {
    v | (1u8 << b)
}

pub fn adc(a: u8, r: u8, cin: u8) -> (o: AluOut)
    requires
        cin <= 1,
    ensures
        o == spec_adc(a, r, cin),
        o.value == (a + r + cin) % 256,
        o.flags.c() == (a + r + cin > 0xFF),
        o.flags.h() == ((a % 16) + (r % 16) + cin > 0xF),
        o.flags.z() == (o.value == 0),
        !o.flags.n(),
{
    proof {
        reveal(spec_adc);
    }
    let sum: u16 = a as u16 + r as u16 + cin as u16;
    let value: u8 = (sum % 256) as u8;
    let half: bool = (a % 16) + (r % 16) + cin > 0xF;
    let flags = Flags::of(value == 0, false, half, sum > 0xFF);
    AluOut { value, flags }
}

pub fn sbc(a: u8, r: u8, cin: u8) -> (o: AluOut)
    requires
        cin <= 1,
    ensures
        o == spec_sbc(a, r, cin),
        o.value == (a - r - cin) % 256,
        o.flags.c() == (a < r + cin),
        o.flags.h() == ((a % 16) < (r % 16) + cin),
        o.flags.z() == (o.value == 0),
        o.flags.n(),
{
    proof {
        reveal(spec_sbc);
    }
    let sub: u16 = r as u16 + cin as u16;
    let borrow: bool = (a as u16) < sub;
    let wide: u16 = if borrow {
        a as u16 + 256 - sub
    } else {
        a as u16 - sub
    };
    let value: u8 = (wide % 256) as u8;
    let half: bool = (a % 16) < (r % 16) + cin;
    let flags = Flags::of(value == 0, true, half, borrow);
    AluOut { value, flags }
}

pub fn cp(a: u8, r: u8) -> (o: AluOut)
    ensures
        o == spec_cp(a, r),
        o.value == a,
        o.flags.z() == (a == r),
        o.flags.c() == (a < r),
        o.flags.n(),
{
    proof {
        reveal(spec_cp);
        reveal(spec_sbc);
    }
    let s = sbc(a, r, 0);
    AluOut { value: a, flags: s.flags }
}

pub fn and(a: u8, r: u8) -> (o: AluOut)
    ensures
        o == spec_and(a, r),
{
    proof {
        reveal(spec_and);
    }
    let value = a & r;
    AluOut { value, flags: Flags::of(value == 0, false, true, false) }
}

pub fn xor(a: u8, r: u8) -> (o: AluOut)
    ensures
        o == spec_xor(a, r),
{
    proof {
        reveal(spec_xor);
    }
    let value = a ^ r;
    AluOut { value, flags: Flags::of(value == 0, false, false, false) }
}

pub fn or(a: u8, r: u8) -> (o: AluOut)
    ensures
        o == spec_or(a, r),
{
    proof {
        reveal(spec_or);
    }
    let value = a | r;
    AluOut { value, flags: Flags::of(value == 0, false, false, false) }
}

pub fn inc(v: u8, f: Flags) -> (o: AluOut)
    ensures
        o == spec_inc(v, f),
        o.flags.c() == f.c(),
{
    proof {
        reveal(spec_inc);
    }
    let value: u8 = if v == 0xFF {
        0
    } else {
        v + 1
    };
    AluOut { value, flags: Flags::of(value == 0, false, value % 16 == 0, f.get_c() != 0) }
}

pub fn dec(v: u8, f: Flags) -> (o: AluOut)
    ensures
        o == spec_dec(v, f),
        o.flags.c() == f.c(),
{
    proof {
        reveal(spec_dec);
    }
    let value: u8 = if v == 0 {
        0xFF
    } else {
        v - 1
    };
    AluOut { value, flags: Flags::of(value == 0, true, value % 16 == 15, f.get_c() != 0) }
}

pub fn daa(a: u8, f: Flags) -> (o: AluOut)
    ensures
        o == spec_daa(a, f),
{
    proof {
        reveal(spec_daa);
    }
    let c = f.get_c() != 0;
    let h = f.get_h() != 0;
    if f.get_n() != 0 {
        let a1: u16 = if h {
            if a >= 6 {
                (a - 6) as u16
            } else {
                a as u16 + 250
            }
        } else {
            a as u16
        };
        let a2: u16 = if c {
            if a1 >= 0x60 {
                a1 - 0x60
            } else {
                a1 + 160
            }
        } else {
            a1
        };
        let value: u8 = (a2 % 256) as u8;
        AluOut { value, flags: Flags::of(value == 0, true, false, c) }
    } else {
        let a1: u16 = if h || a % 16 > 9 {
            a as u16 + 6
        } else {
            a as u16
        };
        let a2: u16 = if c || a1 > 0x9F {
            a1 + 0x60
        } else {
            a1
        };
        let value: u8 = (a2 % 256) as u8;
        AluOut { value, flags: Flags::of(value == 0, false, false, c || a2 > 0xFF) }
    }
}

pub fn add16(x: u16, y: u16, f: Flags) -> (o: WideOut)
    ensures
        o == spec_add16(x, y, f),
{
    proof {
        reveal(spec_add16);
    }
    let sum: u32 = x as u32 + y as u32;
    let value: u16 = (sum % 0x10000) as u16;
    let half: bool = (x % 0x1000) as u32 + (y % 0x1000) as u32 > 0xFFF;
    WideOut { value, flags: Flags::of(f.get_z() != 0, false, half, sum > 0xFFFF) }
}

/// Moves an address by a signed one-byte displacement, wrapping in 16 bits.
pub fn offset(base: u16, d: u8) -> (r: u16)
    ensures
        r == spec_offset(base, d),
{
    proof {
        reveal(spec_offset);
    }
    let wide: u32 = if d < 128 {
        base as u32 + d as u32
    } else {
        base as u32 + 0x10000 + d as u32 - 256
    };
    (wide % 0x10000) as u16
}

pub fn add_sp(sp: u16, d: u8) -> (o: WideOut)
    ensures
        o == spec_add_sp(sp, d),
{
    proof {
        reveal(spec_add_sp);
    }
    let half: bool = (sp % 16) + (d % 16) as u16 > 0xF;
    let carry: bool = (sp % 256) + d as u16 > 0xFF;
    WideOut { value: offset(sp, d), flags: Flags::of(false, false, half, carry) }
}

/// Computes the value and the outgoing bit of a rotate or shift.
fn shift_raw(op: Shift, v: u8, cin: bool) -> (r: (u8, bool))
    ensures
        r.0 == spec_shift_value(op, v, cin),
        r.1 == spec_shift_carry(op, v),
{
    proof {
        reveal(spec_shift_value);
        reveal(spec_shift_carry);
    }
    match op {
        Shift::Rlc => ((v << 1) | (v >> 7), v & 0x80 != 0),
        Shift::Rrc => ((v >> 1) | (v << 7), v & 0x01 != 0),
        Shift::Rl => ((v << 1) | (if cin { 0x01 } else { 0 }), v & 0x80 != 0),
        Shift::Rr => ((v >> 1) | (if cin { 0x80 } else { 0 }), v & 0x01 != 0),
        Shift::Sla => (v << 1, v & 0x80 != 0),
        Shift::Sra => ((v >> 1) | (v & 0x80), v & 0x01 != 0),
        Shift::Swap => ((v >> 4) | (v << 4), false),
        Shift::Srl => (v >> 1, v & 0x01 != 0),
    }
}

pub fn shift(op: Shift, v: u8, f: Flags) -> (o: AluOut)
    ensures
        o == spec_shift(op, v, f),
{
    proof {
        reveal(spec_shift);
    }
    let (value, carry) = shift_raw(op, v, f.get_c() != 0);
    AluOut { value, flags: Flags::of(value == 0, false, false, carry) }
}

pub fn rotate_a(op: Shift, v: u8, f: Flags) -> (o: AluOut)
    ensures
        o == spec_rotate_a(op, v, f),
{
    proof {
        reveal(spec_rotate_a);
    }
    let (value, carry) = shift_raw(op, v, f.get_c() != 0);
    AluOut { value, flags: Flags::of(false, false, false, carry) }
}

pub fn bit(v: u8, b: u8, f: Flags) -> (r: Flags)
    requires
        b < 8,
    ensures
        r == spec_bit(v, b, f),
{
    proof {
        reveal(spec_bit);
    }
    Flags::of((v >> b) & 1 == 0, false, true, f.get_c() != 0)
}

pub fn res(v: u8, b: u8) -> (r: u8)
    requires
        b < 8,
    ensures
        r == spec_res(v, b),
{
    proof {
        reveal(spec_res);
    }
    v & !(1u8 << b)
}

pub fn set(v: u8, b: u8) -> (r: u8)
    requires
        b < 8,
    ensures
        r == spec_set(v, b),
{
    proof {
        reveal(spec_set);
    }
    v | (1u8 << b)
}

/// The eight accumulator operations of the opcode space, in opcode order:
/// add, add with carry, subtract, subtract with carry, and, xor, or,
/// compare.
#[verifier::opaque]
pub open spec fn spec_alu8(y: u8, a: u8, r: u8, f: Flags) -> AluOut {
    let cin: u8 = if f.c() {
        1
    } else {
        0
    };
    if y == 0 {
        spec_adc(a, r, 0)
    } else if y == 1 {
        spec_adc(a, r, cin)
    } else if y == 2 {
        spec_sbc(a, r, 0)
    } else if y == 3 {
        spec_sbc(a, r, cin)
    } else if y == 4 {
        spec_and(a, r)
    } else if y == 5 {
        spec_xor(a, r)
    } else if y == 6 {
        spec_or(a, r)
    } else {
        spec_cp(a, r)
    }
}

pub fn alu8(y: u8, a: u8, r: u8, f: Flags) -> (o: AluOut)
    ensures
        o == spec_alu8(y, a, r, f),
{
    proof {
        reveal(spec_alu8);
    }
    let cin = f.get_c();
    if y == 0 {
        adc(a, r, 0)
    } else if y == 1 {
        adc(a, r, cin)
    } else if y == 2 {
        sbc(a, r, 0)
    } else if y == 3 {
        sbc(a, r, cin)
    } else if y == 4 {
        and(a, r)
    } else if y == 5 {
        xor(a, r)
    } else if y == 6 {
        or(a, r)
    } else {
        cp(a, r)
    }
}

/// The eight one-byte operations on the accumulator and the flags, in
/// opcode order: the four rotates, decimal adjust, complement, set carry,
/// complement carry.
#[verifier::opaque]
pub open spec fn spec_misc_a(y: u8, a: u8, f: Flags) -> AluOut {
    if y == 0 {
        spec_rotate_a(Shift::Rlc, a, f)
    } else if y == 1 {
        spec_rotate_a(Shift::Rrc, a, f)
    } else if y == 2 {
        spec_rotate_a(Shift::Rl, a, f)
    } else if y == 3 {
        spec_rotate_a(Shift::Rr, a, f)
    } else if y == 4 {
        spec_daa(a, f)
    } else if y == 5 {
        AluOut { value: !a, flags: Flags::pack(f.z(), true, true, f.c()) }
    } else if y == 6 {
        AluOut { value: a, flags: Flags::pack(f.z(), false, false, true) }
    } else {
        AluOut { value: a, flags: Flags::pack(f.z(), false, false, !f.c()) }
    }
}

pub fn misc_a(y: u8, a: u8, f: Flags) -> (o: AluOut)
    ensures
        o == spec_misc_a(y, a, f),
{
    proof {
        reveal(spec_misc_a);
    }
    let z = f.get_z() != 0;
    let c = f.get_c() != 0;
    if y == 0 {
        rotate_a(Shift::Rlc, a, f)
    } else if y == 1 {
        rotate_a(Shift::Rrc, a, f)
    } else if y == 2 {
        rotate_a(Shift::Rl, a, f)
    } else if y == 3 {
        rotate_a(Shift::Rr, a, f)
    } else if y == 4 {
        daa(a, f)
    } else if y == 5 {
        AluOut { value: !a, flags: Flags::of(z, true, true, c) }
    } else if y == 6 {
        AluOut { value: a, flags: Flags::of(z, false, false, true) }
    } else {
        AluOut { value: a, flags: Flags::of(z, false, false, !c) }
    }
}

/// The rotate or shift that the three bits `y` of an extended opcode
/// select.
pub open spec fn spec_shift_kind(y: u8) -> Shift {
    if y == 0 {
        Shift::Rlc
    } else if y == 1 {
        Shift::Rrc
    } else if y == 2 {
        Shift::Rl
    } else if y == 3 {
        Shift::Rr
    } else if y == 4 {
        Shift::Sla
    } else if y == 5 {
        Shift::Sra
    } else if y == 6 {
        Shift::Swap
    } else {
        Shift::Srl
    }
}

pub fn shift_kind(y: u8) -> (r: Shift)
    ensures
        r == spec_shift_kind(y),
{
    if y == 0 {
        Shift::Rlc
    } else if y == 1 {
        Shift::Rrc
    } else if y == 2 {
        Shift::Rl
    } else if y == 3 {
        Shift::Rr
    } else if y == 4 {
        Shift::Sla
    } else if y == 5 {
        Shift::Sra
    } else if y == 6 {
        Shift::Swap
    } else {
        Shift::Srl
    }
}

/// What an extended opcode does to its operand: the value to write back, if
/// any is written back, and the flags.
#[derive(Clone, Copy, Debug, PartialEq, Eq, Structural)]
pub struct CbOut {
    pub value: u8,
    pub flags: Flags,
    pub writeback: bool,
}

/// The extended opcode space, decoded by its two high bits `x` and the
/// three bits `y` after them: rotates and shifts, bit test (nothing written
/// back), bit reset, bit set.
#[verifier::opaque]
pub open spec fn spec_cb_apply(x: u8, y: u8, v: u8, f: Flags) -> CbOut {
    if x == 0 {
        let o = spec_shift(spec_shift_kind(y), v, f);
        CbOut { value: o.value, flags: o.flags, writeback: true }
    } else if x == 1 {
        CbOut { value: v, flags: spec_bit(v, y, f), writeback: false }
    } else if x == 2 {
        CbOut { value: spec_res(v, y), flags: f, writeback: true }
    } else {
        CbOut { value: spec_set(v, y), flags: f, writeback: true }
    }
}

pub fn cb_apply(x: u8, y: u8, v: u8, f: Flags) -> (o: CbOut)
    requires
        y < 8,
    ensures
        o == spec_cb_apply(x, y, v, f),
{
    proof {
        reveal(spec_cb_apply);
    }
    if x == 0 {
        let o = shift(shift_kind(y), v, f);
        CbOut { value: o.value, flags: o.flags, writeback: true }
    } else if x == 1 {
        CbOut { value: v, flags: bit(v, y, f), writeback: false }
    } else if x == 2 {
        CbOut { value: res(v, y), flags: f, writeback: true }
    } else {
        CbOut { value: set(v, y), flags: f, writeback: true }
    }
}

/// The cycles of an extended opcode: 8 on a register; on the byte at HL, 12
/// for a bit test and 16 for the others.
pub open spec fn spec_cb_cycles(x: u8, r: u8) -> u8 {
    if r != 6 {
        8
    } else if x == 1 {
        12
    } else {
        16
    }
}

pub fn cb_cycles(x: u8, r: u8) -> (c: u8)
    ensures
        c == spec_cb_cycles(x, r),
        c >= 8,
{
    if r != 6 {
        8
    } else if x == 1 {
        12
    } else {
        16
    }
}

} // verus!
