//! The instruction interpreter: fetch, the stack, operand access and the
//! instructions of the base opcode space.

use crate::alu::{
    add16, add_sp, alu8, dec, inc, misc_a, offset, spec_add16, spec_add_sp, spec_alu8, spec_dec,
    spec_inc, spec_misc_a, spec_offset,
};
use crate::host::Host;
use crate::regs::{CpuRegisters, Flags, Register};
use crate::state::{Cgb, Gb, GbView};
use vstd::prelude::*;

verus! {

impl GbView {
    pub open spec fn with_pc(self, pc: u16) -> GbView {
        GbView { cpu_reg: CpuRegisters { pc: Register { bytes: pc }, ..self.cpu_reg }, ..self }
    }

    pub open spec fn with_sp(self, sp: u16) -> GbView {
        GbView { cpu_reg: CpuRegisters { sp: Register { bytes: sp }, ..self.cpu_reg }, ..self }
    }

    pub open spec fn with_hl(self, hl: u16) -> GbView {
        GbView { cpu_reg: CpuRegisters { hl: Register { bytes: hl }, ..self.cpu_reg }, ..self }
    }

    pub open spec fn with_a(self, a: u8) -> GbView {
        GbView { cpu_reg: CpuRegisters { a, ..self.cpu_reg }, ..self }
    }

    pub open spec fn with_f(self, f: Flags) -> GbView {
        GbView { cpu_reg: CpuRegisters { f, ..self.cpu_reg }, ..self }
    }

    pub open spec fn with_af(self, a: u8, f: Flags) -> GbView {
        GbView { cpu_reg: CpuRegisters { a, f, ..self.cpu_reg }, ..self }
    }

    pub open spec fn with_ime(self, ime: bool) -> GbView {
        GbView { gb_ime: ime, ..self }
    }

    /// The byte at the program counter.
    #[verifier::opaque]
    pub open spec fn fetched(self) -> u8 {
        self.read(self.cpu_reg.pc.bytes)
    }

    /// The console after a byte was fetched: the program counter is one
    /// further, wrapping at the end of the address space.
    #[verifier::opaque]
    pub open spec fn after_fetch(self) -> GbView {
        self.with_pc(self.cpu_reg.pc.bytes.wrapping_add(1))
    }

    /// The 16-bit operand at the program counter, low byte first.
    #[verifier::opaque]
    pub open spec fn fetched16(self) -> u16 {
        (self.fetched() + self.after_fetch().fetched() * 256) as u16
    }

    #[verifier::opaque]
    pub open spec fn after_fetch16(self) -> GbView {
        self.after_fetch().after_fetch()
    }

    /// The console after a 16-bit value was pushed: high byte first, the
    /// stack pointer moving down by one before each byte.
    #[verifier::opaque]
    pub open spec fn push16(self, v: u16) -> GbView {
        let sp1 = self.cpu_reg.sp.bytes.wrapping_sub(1);
        let sp2 = sp1.wrapping_sub(1);
        self.with_sp(sp1).write(sp1, (v / 256) as u8).with_sp(sp2).write(sp2, (v % 256) as u8)
    }

    /// The 16-bit value on top of the stack, low byte first.
    #[verifier::opaque]
    pub open spec fn popped16(self) -> u16 {
        (self.read(self.cpu_reg.sp.bytes) + self.read(self.cpu_reg.sp.bytes.wrapping_add(1)) * 256) as u16
    }

    #[verifier::opaque]
    pub open spec fn after_pop16(self) -> GbView {
        self.with_sp(self.cpu_reg.sp.bytes.wrapping_add(2))
    }

    /// The operand that the three bits `i` of an opcode select: a register,
    /// or for 6 the byte at HL.
    #[verifier::opaque]
    pub open spec fn read_r8(self, i: u8) -> u8 {
        if i == 6 {
            self.read(self.cpu_reg.hl.bytes)
        } else {
            self.cpu_reg.spec_get8(i)
        }
    }

    /// The console after the operand that `i` selects was set.
    #[verifier::opaque]
    pub open spec fn write_r8(self, i: u8, v: u8) -> GbView {
        if i == 6 {
            self.write(self.cpu_reg.hl.bytes, v)
        } else {
            self.with_reg(self.cpu_reg.spec_set8(i, v))
        }
    }

    /// Load between two 8-bit operands.
    #[verifier::opaque]
    pub open spec fn op_ld_r_r(self, y: u8, z: u8) -> GbView {
        self.write_r8(y, self.read_r8(z))
    }

    /// An accumulator operation with the given operand.
    #[verifier::opaque]
    pub open spec fn op_alu(self, y: u8, operand: u8) -> GbView {
        let o = spec_alu8(y, self.cpu_reg.a, operand, self.cpu_reg.f);
        self.with_af(o.value, o.flags)
    }

    /// An accumulator operation with the operand that `z` selects.
    #[verifier::opaque]
    pub open spec fn op_alu_r(self, y: u8, z: u8) -> GbView {
        self.op_alu(y, self.read_r8(z))
    }

    /// An accumulator operation with an immediate operand.
    #[verifier::opaque]
    pub open spec fn op_alu_n(self, y: u8) -> GbView {
        self.after_fetch().op_alu(y, self.fetched())
    }

    /// Store the stack pointer at an immediate address, low byte first.
    #[verifier::opaque]
    pub open spec fn op_ld_nn_sp(self) -> GbView {
        let addr = self.fetched16();
        self.after_fetch16().write(addr, self.cpu_reg.sp.lo()).write(
            addr.wrapping_add(1),
            self.cpu_reg.sp.hi(),
        )
    }

    /// Stop: in color mode a requested speed switch takes place.
    #[verifier::opaque]
    pub open spec fn op_stop(self) -> GbView {
        if self.cgb.mode && self.cgb.double_speed_prep != 0 {
            self.with_cgb(
                Cgb {
                    double_speed_prep: 0,
                    double_speed: (1 - self.cgb.double_speed) as u8,
                    ..self.cgb
                },
            )
        } else {
            self
        }
    }

    /// Relative jump by a signed displacement, where it is taken.
    #[verifier::opaque]
    pub open spec fn op_jr(self, taken: bool) -> GbView {
        let s = self.after_fetch();
        if taken {
            s.with_pc(spec_offset(s.cpu_reg.pc.bytes, self.fetched()))
        } else {
            s
        }
    }

    /// Load an immediate into a register pair.
    #[verifier::opaque]
    pub open spec fn op_ld_rp_nn(self, p: u8) -> GbView {
        let s = self.after_fetch16();
        s.with_reg(s.cpu_reg.spec_set16(p, self.fetched16()))
    }

    /// Add a register pair to HL.
    #[verifier::opaque]
    pub open spec fn op_add_hl(self, p: u8) -> GbView {
        let o = spec_add16(self.cpu_reg.hl.bytes, self.cpu_reg.spec_get16(p), self.cpu_reg.f);
        self.with_hl(o.value).with_f(o.flags)
    }

    /// The address that an indirect load uses: BC, DE, or HL.
    pub open spec fn ind_addr(self, p: u8) -> u16 {
        if p == 0 {
            self.cpu_reg.bc.bytes
        } else if p == 1 {
            self.cpu_reg.de.bytes
        } else {
            self.cpu_reg.hl.bytes
        }
    }

    /// HL after an indirect load: one up for selector 2, one down for 3.
    pub open spec fn ind_hl(self, p: u8) -> u16 {
        if p == 2 {
            self.cpu_reg.hl.bytes.wrapping_add(1)
        } else if p == 3 {
            self.cpu_reg.hl.bytes.wrapping_sub(1)
        } else {
            self.cpu_reg.hl.bytes
        }
    }

    /// Store the accumulator at the address in a register pair.
    #[verifier::opaque]
    pub open spec fn op_ld_ind_a(self, p: u8) -> GbView {
        let s = self.write(self.ind_addr(p), self.cpu_reg.a);
        s.with_hl(self.ind_hl(p))
    }

    /// Load the accumulator from the address in a register pair.
    #[verifier::opaque]
    pub open spec fn op_ld_a_ind(self, p: u8) -> GbView {
        self.with_a(self.read(self.ind_addr(p))).with_hl(self.ind_hl(p))
    }

    /// Increment (`q` = 0) or decrement a register pair; no flag changes.
    #[verifier::opaque]
    pub open spec fn op_inc16(self, p: u8, q: u8) -> GbView {
        let v = self.cpu_reg.spec_get16(p);
        self.with_reg(
            self.cpu_reg.spec_set16(
                p,
                if q == 0 {
                    v.wrapping_add(1)
                } else {
                    v.wrapping_sub(1)
                },
            ),
        )
    }

    /// Increment an 8-bit operand.
    #[verifier::opaque]
    pub open spec fn op_inc_r(self, y: u8) -> GbView {
        let o = spec_inc(self.read_r8(y), self.cpu_reg.f);
        self.write_r8(y, o.value).with_f(o.flags)
    }

    /// Decrement an 8-bit operand.
    #[verifier::opaque]
    pub open spec fn op_dec_r(self, y: u8) -> GbView {
        let o = spec_dec(self.read_r8(y), self.cpu_reg.f);
        self.write_r8(y, o.value).with_f(o.flags)
    }

    /// Load an immediate into an 8-bit operand.
    #[verifier::opaque]
    pub open spec fn op_ld_r_n(self, y: u8) -> GbView {
        self.after_fetch().write_r8(y, self.fetched())
    }

    /// One of the eight one-byte operations on the accumulator and flags.
    #[verifier::opaque]
    pub open spec fn op_misc_a(self, y: u8) -> GbView {
        let o = spec_misc_a(y, self.cpu_reg.a, self.cpu_reg.f);
        self.with_af(o.value, o.flags)
    }

    /// Return, where it is taken.
    #[verifier::opaque]
    pub open spec fn op_ret(self, taken: bool) -> GbView {
        if taken {
            self.after_pop16().with_pc(self.popped16())
        } else {
            self
        }
    }

    /// Return and enable interrupts.
    #[verifier::opaque]
    pub open spec fn op_reti(self) -> GbView {
        self.op_ret(true).with_ime(true)
    }

    /// Store the accumulator in the I/O page at an immediate offset.
    #[verifier::opaque]
    pub open spec fn op_ldh_n_a(self) -> GbView {
        self.after_fetch().write((0xFF00 + self.fetched()) as u16, self.cpu_reg.a)
    }

    /// Load the accumulator from the I/O page at an immediate offset.
    #[verifier::opaque]
    pub open spec fn op_ldh_a_n(self) -> GbView {
        let s = self.after_fetch();
        s.with_a(s.read((0xFF00 + self.fetched()) as u16))
    }

    /// Store the accumulator in the I/O page at the offset in C.
    #[verifier::opaque]
    pub open spec fn op_ld_c_a(self) -> GbView {
        self.write((0xFF00 + self.cpu_reg.bc.lo()) as u16, self.cpu_reg.a)
    }

    /// Load the accumulator from the I/O page at the offset in C.
    #[verifier::opaque]
    pub open spec fn op_ld_a_c(self) -> GbView {
        self.with_a(self.read((0xFF00 + self.cpu_reg.bc.lo()) as u16))
    }

    /// Store the accumulator at an immediate address.
    #[verifier::opaque]
    pub open spec fn op_ld_nn_a(self) -> GbView {
        self.after_fetch16().write(self.fetched16(), self.cpu_reg.a)
    }

    /// Load the accumulator from an immediate address.
    #[verifier::opaque]
    pub open spec fn op_ld_a_nn(self) -> GbView {
        let s = self.after_fetch16();
        s.with_a(s.read(self.fetched16()))
    }

    /// Add a signed immediate to the stack pointer.
    #[verifier::opaque]
    pub open spec fn op_add_sp(self) -> GbView {
        let o = spec_add_sp(self.cpu_reg.sp.bytes, self.fetched());
        self.after_fetch().with_sp(o.value).with_f(o.flags)
    }

    /// Load HL with the stack pointer plus a signed immediate.
    #[verifier::opaque]
    pub open spec fn op_ld_hl_sp(self) -> GbView {
        let o = spec_add_sp(self.cpu_reg.sp.bytes, self.fetched());
        self.after_fetch().with_hl(o.value).with_f(o.flags)
    }

    /// Pop a register pair.
    #[verifier::opaque]
    pub open spec fn op_pop(self, p: u8) -> GbView {
        let s = self.after_pop16();
        s.with_reg(s.cpu_reg.spec_set_stack16(p, self.popped16()))
    }

    /// Push a register pair.
    #[verifier::opaque]
    pub open spec fn op_push(self, p: u8) -> GbView {
        self.push16(self.cpu_reg.spec_get_stack16(p))
    }

    /// Absolute jump to an immediate address, where it is taken.
    #[verifier::opaque]
    pub open spec fn op_jp(self, taken: bool) -> GbView {
        let s = self.after_fetch16();
        if taken {
            s.with_pc(self.fetched16())
        } else {
            s
        }
    }

    /// Call of an immediate address, where it is taken: the address after
    /// the instruction is pushed.
    #[verifier::opaque]
    pub open spec fn op_call(self, taken: bool) -> GbView {
        let s = self.after_fetch16();
        if taken {
            s.push16(s.cpu_reg.pc.bytes).with_pc(self.fetched16())
        } else {
            s
        }
    }

    /// Restart: a call of one of the eight fixed addresses.
    #[verifier::opaque]
    pub open spec fn op_rst(self, y: u8) -> GbView {
        self.push16(self.cpu_reg.pc.bytes).with_pc((y * 8) as u16)
    }
}

impl<H: Host> Gb<H> {
    /// Reads the byte at the program counter and moves the counter on.
    pub fn fetch(&mut self) -> (b: u8)
        requires
            old(self).wf(),
        ensures
            b == old(self)@.fetched(),
            final(self)@ == old(self)@.after_fetch(),
            final(self).wf(),
    {
        proof {
            reveal(GbView::fetched);
            reveal(GbView::after_fetch);
        }
        let pc = self.cpu_reg.pc.bytes;
        let b = self.read(pc);
        self.cpu_reg.pc.bytes = pc.wrapping_add(1);
        b
    }

    /// Reads the 16-bit operand at the program counter.
    pub fn fetch16(&mut self) -> (v: u16)
        requires
            old(self).wf(),
        ensures
            v == old(self)@.fetched16(),
            final(self)@ == old(self)@.after_fetch16(),
            final(self).wf(),
    {
        proof {
            reveal(GbView::fetched16);
            reveal(GbView::after_fetch16);
        }
        let lo = self.fetch();
        let hi = self.fetch();
        lo as u16 + hi as u16 * 256
    }

    /// Pushes a 16-bit value.
    pub fn push16(&mut self, v: u16)
        requires
            old(self).wf(),
        ensures
            final(self)@ == old(self)@.push16(v),
            final(self).wf(),
    {
        proof {
            reveal(GbView::push16);
        }
        let sp1 = self.cpu_reg.sp.bytes.wrapping_sub(1);
        let sp2 = sp1.wrapping_sub(1);
        self.cpu_reg.sp.bytes = sp1;
        self.write(sp1, (v / 256) as u8);
        self.cpu_reg.sp.bytes = sp2;
        self.write(sp2, (v % 256) as u8);
    }

    /// Pops a 16-bit value.
    pub fn pop16(&mut self) -> (v: u16)
        requires
            old(self).wf(),
        ensures
            v == old(self)@.popped16(),
            final(self)@ == old(self)@.after_pop16(),
            final(self).wf(),
    {
        proof {
            reveal(GbView::popped16);
            reveal(GbView::after_pop16);
        }
        let sp = self.cpu_reg.sp.bytes;
        let lo = self.read(sp);
        let hi = self.read(sp.wrapping_add(1));
        self.cpu_reg.sp.bytes = sp.wrapping_add(2);
        lo as u16 + hi as u16 * 256
    }

    /// Reads the operand that `i` selects.
    pub fn read_r8(&self, i: u8) -> (b: u8)
        requires
            self.wf(),
        ensures
            b == self@.read_r8(i),
    {
        proof {
            reveal(GbView::read_r8);
        }
        if i == 6 {
            self.read(self.cpu_reg.hl.bytes)
        } else {
            self.cpu_reg.get8(i)
        }
    }

    /// Sets the operand that `i` selects.
    pub fn write_r8(&mut self, i: u8, v: u8)
        requires
            old(self).wf(),
        ensures
            final(self)@ == old(self)@.write_r8(i, v),
            final(self).wf(),
    {
        proof {
            reveal(GbView::write_r8);
        }
        if i == 6 {
            self.write(self.cpu_reg.hl.bytes, v);
        } else {
            self.cpu_reg.set8(i, v);
        }
    }

    pub(crate) fn set_af(&mut self, a: u8, f: Flags)
        ensures
            final(self)@ == old(self)@.with_af(a, f),
            old(self).wf() ==> final(self).wf(),
    {
        self.cpu_reg.a = a;
        self.cpu_reg.f = f;
    }

    pub(crate) fn set_f(&mut self, f: Flags)
        ensures
            final(self)@ == old(self)@.with_f(f),
            old(self).wf() ==> final(self).wf(),
    {
        self.cpu_reg.f = f;
    }

    pub(crate) fn set_a(&mut self, a: u8)
        ensures
            final(self)@ == old(self)@.with_a(a),
            old(self).wf() ==> final(self).wf(),
    {
        self.cpu_reg.a = a;
    }

    pub(crate) fn set_pc(&mut self, pc: u16)
        ensures
            final(self)@ == old(self)@.with_pc(pc),
            old(self).wf() ==> final(self).wf(),
    {
        self.cpu_reg.pc.bytes = pc;
    }

    pub(crate) fn set_sp(&mut self, sp: u16)
        ensures
            final(self)@ == old(self)@.with_sp(sp),
            old(self).wf() ==> final(self).wf(),
    {
        self.cpu_reg.sp.bytes = sp;
    }

    pub(crate) fn set_hl(&mut self, hl: u16)
        ensures
            final(self)@ == old(self)@.with_hl(hl),
            old(self).wf() ==> final(self).wf(),
    {
        self.cpu_reg.hl.bytes = hl;
    }

    pub(crate) fn set_regs(&mut self, r: CpuRegisters)
        ensures
            final(self)@ == old(self)@.with_reg(r),
            old(self).wf() ==> final(self).wf(),
    {
        self.cpu_reg = r;
    }

    pub(crate) fn set_ime(&mut self, ime: bool)
        ensures
            final(self)@ == old(self)@.with_ime(ime),
            old(self).wf() ==> final(self).wf(),
    {
        self.gb_ime = ime;
    }

    pub(crate) fn op_ld_r_r(&mut self, y: u8, z: u8)
        requires
            old(self).wf(),
        ensures
            final(self)@ == old(self)@.op_ld_r_r(y, z),
            final(self).wf(),
    {
        proof {
            reveal(GbView::op_ld_r_r);
        }
        let v = self.read_r8(z);
        self.write_r8(y, v);
    }

    pub(crate) fn op_alu(&mut self, y: u8, operand: u8)
        requires
            old(self).wf(),
        ensures
            final(self)@ == old(self)@.op_alu(y, operand),
            final(self).wf(),
    {
        proof {
            reveal(GbView::op_alu);
        }
        let o = alu8(y, self.cpu_reg.a, operand, self.cpu_reg.f);
        self.set_af(o.value, o.flags);
    }

    pub(crate) fn op_alu_r(&mut self, y: u8, z: u8)
        requires
            old(self).wf(),
        ensures
            final(self)@ == old(self)@.op_alu_r(y, z),
            final(self).wf(),
    {
        proof {
            reveal(GbView::op_alu_r);
        }
        let v = self.read_r8(z);
        self.op_alu(y, v);
    }

    pub(crate) fn op_alu_n(&mut self, y: u8)
        requires
            old(self).wf(),
        ensures
            final(self)@ == old(self)@.op_alu_n(y),
            final(self).wf(),
    {
        proof {
            reveal(GbView::op_alu_n);
        }
        let v = self.fetch();
        self.op_alu(y, v);
    }

    pub(crate) fn op_ld_nn_sp(&mut self)
        requires
            old(self).wf(),
        ensures
            final(self)@ == old(self)@.op_ld_nn_sp(),
            final(self).wf(),
    {
        proof {
            reveal(GbView::op_ld_nn_sp);
        }
        let lo = self.cpu_reg.sp.get_lo();
        let hi = self.cpu_reg.sp.get_hi();
        let addr = self.fetch16();
        self.write(addr, lo);
        self.write(addr.wrapping_add(1), hi);
    }

    pub(crate) fn op_stop(&mut self)
        requires
            old(self).wf(),
        ensures
            final(self)@ == old(self)@.op_stop(),
            final(self).wf(),
    {
        proof {
            reveal(GbView::op_stop);
        }
        if self.cgb.mode && self.cgb.double_speed_prep != 0 {
            let speed: u8 = 1 - self.cgb.double_speed;
            self.cgb.double_speed_prep = 0;
            self.cgb.double_speed = speed;
        }
    }

    pub(crate) fn op_jr(&mut self, taken: bool)
        requires
            old(self).wf(),
        ensures
            final(self)@ == old(self)@.op_jr(taken),
            final(self).wf(),
    {
        proof {
            reveal(GbView::op_jr);
        }
        let d = self.fetch();
        if taken {
            let target = offset(self.cpu_reg.pc.bytes, d);
            self.set_pc(target);
        }
    }

    pub(crate) fn op_ld_rp_nn(&mut self, p: u8)
        requires
            old(self).wf(),
        ensures
            final(self)@ == old(self)@.op_ld_rp_nn(p),
            final(self).wf(),
    {
        proof {
            reveal(GbView::op_ld_rp_nn);
        }
        let v = self.fetch16();
        let mut r = self.cpu_reg;
        r.set16(p, v);
        self.set_regs(r);
    }

    pub(crate) fn op_add_hl(&mut self, p: u8)
        requires
            old(self).wf(),
        ensures
            final(self)@ == old(self)@.op_add_hl(p),
            final(self).wf(),
    {
        proof {
            reveal(GbView::op_add_hl);
        }
        let o = add16(self.cpu_reg.hl.bytes, self.cpu_reg.get16(p), self.cpu_reg.f);
        self.set_hl(o.value);
        self.set_f(o.flags);
    }

    pub(crate) fn ind_addr(&self, p: u8) -> (r: u16)
        ensures
            r == self@.ind_addr(p),
    {
        if p == 0 {
            self.cpu_reg.bc.bytes
        } else if p == 1 {
            self.cpu_reg.de.bytes
        } else {
            self.cpu_reg.hl.bytes
        }
    }

    pub(crate) fn ind_hl(&self, p: u8) -> (r: u16)
        ensures
            r == self@.ind_hl(p),
    {
        if p == 2 {
            self.cpu_reg.hl.bytes.wrapping_add(1)
        } else if p == 3 {
            self.cpu_reg.hl.bytes.wrapping_sub(1)
        } else {
            self.cpu_reg.hl.bytes
        }
    }

    pub(crate) fn op_ld_ind_a(&mut self, p: u8)
        requires
            old(self).wf(),
        ensures
            final(self)@ == old(self)@.op_ld_ind_a(p),
            final(self).wf(),
    {
        proof {
            reveal(GbView::op_ld_ind_a);
        }
        let addr = self.ind_addr(p);
        let hl = self.ind_hl(p);
        self.write(addr, self.cpu_reg.a);
        self.set_hl(hl);
    }

    pub(crate) fn op_ld_a_ind(&mut self, p: u8)
        requires
            old(self).wf(),
        ensures
            final(self)@ == old(self)@.op_ld_a_ind(p),
            final(self).wf(),
    {
        proof {
            reveal(GbView::op_ld_a_ind);
        }
        let addr = self.ind_addr(p);
        let hl = self.ind_hl(p);
        let v = self.read(addr);
        self.set_a(v);
        self.set_hl(hl);
    }

    pub(crate) fn op_inc16(&mut self, p: u8, q: u8)
        requires
            old(self).wf(),
        ensures
            final(self)@ == old(self)@.op_inc16(p, q),
            final(self).wf(),
    {
        proof {
            reveal(GbView::op_inc16);
        }
        let v = self.cpu_reg.get16(p);
        let w = if q == 0 {
            v.wrapping_add(1)
        } else {
            v.wrapping_sub(1)
        };
        let mut r = self.cpu_reg;
        r.set16(p, w);
        self.set_regs(r);
    }

    pub(crate) fn op_inc_r(&mut self, y: u8)
        requires
            old(self).wf(),
        ensures
            final(self)@ == old(self)@.op_inc_r(y),
            final(self).wf(),
    {
        proof {
            reveal(GbView::op_inc_r);
        }
        let o = inc(self.read_r8(y), self.cpu_reg.f);
        self.write_r8(y, o.value);
        self.set_f(o.flags);
    }

    pub(crate) fn op_dec_r(&mut self, y: u8)
        requires
            old(self).wf(),
        ensures
            final(self)@ == old(self)@.op_dec_r(y),
            final(self).wf(),
    {
        proof {
            reveal(GbView::op_dec_r);
        }
        let o = dec(self.read_r8(y), self.cpu_reg.f);
        self.write_r8(y, o.value);
        self.set_f(o.flags);
    }

    pub(crate) fn op_ld_r_n(&mut self, y: u8)
        requires
            old(self).wf(),
        ensures
            final(self)@ == old(self)@.op_ld_r_n(y),
            final(self).wf(),
    {
        proof {
            reveal(GbView::op_ld_r_n);
        }
        let v = self.fetch();
        self.write_r8(y, v);
    }

    pub(crate) fn op_misc_a(&mut self, y: u8)
        requires
            old(self).wf(),
        ensures
            final(self)@ == old(self)@.op_misc_a(y),
            final(self).wf(),
    {
        proof {
            reveal(GbView::op_misc_a);
        }
        let o = misc_a(y, self.cpu_reg.a, self.cpu_reg.f);
        self.set_af(o.value, o.flags);
    }

    pub(crate) fn op_ret(&mut self, taken: bool)
        requires
            old(self).wf(),
        ensures
            final(self)@ == old(self)@.op_ret(taken),
            final(self).wf(),
    {
        proof {
            reveal(GbView::op_ret);
        }
        if taken {
            let target = self.pop16();
            self.set_pc(target);
        }
    }

    pub(crate) fn op_reti(&mut self)
        requires
            old(self).wf(),
        ensures
            final(self)@ == old(self)@.op_reti(),
            final(self).wf(),
    {
        proof {
            reveal(GbView::op_reti);
        }
        self.op_ret(true);
        self.set_ime(true);
    }

    pub(crate) fn op_ldh_n_a(&mut self)
        requires
            old(self).wf(),
        ensures
            final(self)@ == old(self)@.op_ldh_n_a(),
            final(self).wf(),
    {
        proof {
            reveal(GbView::op_ldh_n_a);
        }
        let a = self.cpu_reg.a;
        let n = self.fetch();
        self.write(0xFF00 + n as u16, a);
    }

    pub(crate) fn op_ldh_a_n(&mut self)
        requires
            old(self).wf(),
        ensures
            final(self)@ == old(self)@.op_ldh_a_n(),
            final(self).wf(),
    {
        proof {
            reveal(GbView::op_ldh_a_n);
        }
        let n = self.fetch();
        let v = self.read(0xFF00 + n as u16);
        self.set_a(v);
    }

    pub(crate) fn op_ld_c_a(&mut self)
        requires
            old(self).wf(),
        ensures
            final(self)@ == old(self)@.op_ld_c_a(),
            final(self).wf(),
    {
        proof {
            reveal(GbView::op_ld_c_a);
        }
        let c = self.cpu_reg.bc.get_lo();
        self.write(0xFF00 + c as u16, self.cpu_reg.a);
    }

    pub(crate) fn op_ld_a_c(&mut self)
        requires
            old(self).wf(),
        ensures
            final(self)@ == old(self)@.op_ld_a_c(),
            final(self).wf(),
    {
        proof {
            reveal(GbView::op_ld_a_c);
        }
        let c = self.cpu_reg.bc.get_lo();
        let v = self.read(0xFF00 + c as u16);
        self.set_a(v);
    }

    pub(crate) fn op_ld_nn_a(&mut self)
        requires
            old(self).wf(),
        ensures
            final(self)@ == old(self)@.op_ld_nn_a(),
            final(self).wf(),
    {
        proof {
            reveal(GbView::op_ld_nn_a);
        }
        let a = self.cpu_reg.a;
        let addr = self.fetch16();
        self.write(addr, a);
    }

    pub(crate) fn op_ld_a_nn(&mut self)
        requires
            old(self).wf(),
        ensures
            final(self)@ == old(self)@.op_ld_a_nn(),
            final(self).wf(),
    {
        proof {
            reveal(GbView::op_ld_a_nn);
        }
        let addr = self.fetch16();
        let v = self.read(addr);
        self.set_a(v);
    }

    pub(crate) fn op_add_sp(&mut self)
        requires
            old(self).wf(),
        ensures
            final(self)@ == old(self)@.op_add_sp(),
            final(self).wf(),
    {
        proof {
            reveal(GbView::op_add_sp);
        }
        let sp = self.cpu_reg.sp.bytes;
        let d = self.fetch();
        let o = add_sp(sp, d);
        self.set_sp(o.value);
        self.set_f(o.flags);
    }

    pub(crate) fn op_ld_hl_sp(&mut self)
        requires
            old(self).wf(),
        ensures
            final(self)@ == old(self)@.op_ld_hl_sp(),
            final(self).wf(),
    {
        proof {
            reveal(GbView::op_ld_hl_sp);
        }
        let sp = self.cpu_reg.sp.bytes;
        let d = self.fetch();
        let o = add_sp(sp, d);
        self.set_hl(o.value);
        self.set_f(o.flags);
    }

    pub(crate) fn op_pop(&mut self, p: u8)
        requires
            old(self).wf(),
        ensures
            final(self)@ == old(self)@.op_pop(p),
            final(self).wf(),
    {
        proof {
            reveal(GbView::op_pop);
        }
        let v = self.pop16();
        let mut r = self.cpu_reg;
        r.set_stack16(p, v);
        self.set_regs(r);
    }

    pub(crate) fn op_push(&mut self, p: u8)
        requires
            old(self).wf(),
        ensures
            final(self)@ == old(self)@.op_push(p),
            final(self).wf(),
    {
        proof {
            reveal(GbView::op_push);
        }
        let v = self.cpu_reg.get_stack16(p);
        self.push16(v);
    }

    pub(crate) fn op_jp(&mut self, taken: bool)
        requires
            old(self).wf(),
        ensures
            final(self)@ == old(self)@.op_jp(taken),
            final(self).wf(),
    {
        proof {
            reveal(GbView::op_jp);
        }
        let target = self.fetch16();
        if taken {
            self.set_pc(target);
        }
    }

    pub(crate) fn op_call(&mut self, taken: bool)
        requires
            old(self).wf(),
        ensures
            final(self)@ == old(self)@.op_call(taken),
            final(self).wf(),
    {
        proof {
            reveal(GbView::op_call);
        }
        let target = self.fetch16();
        if taken {
            self.push16(self.cpu_reg.pc.bytes);
            self.set_pc(target);
        }
    }

    pub(crate) fn op_rst(&mut self, y: u8)
        requires
            old(self).wf(),
            y < 8,
        ensures
            final(self)@ == old(self)@.op_rst(y),
            final(self).wf(),
    {
        proof {
            reveal(GbView::op_rst);
        }
        self.push16(self.cpu_reg.pc.bytes);
        self.set_pc(y as u16 * 8);
    }
}

} // verus!
