//! Opcode dispatch: the base opcode space by its two high bits, the
//! extended space behind the prefix, halt and the unmapped opcodes.

use crate::alu::{cb_apply, cb_cycles, spec_cb_apply, spec_cb_cycles};
use crate::host::{GbError, Host};
use crate::state::{Gb, GbView, IO_IE, IO_LCDC, IO_SC, IO_STAT, IO_TAC};
use crate::timer::{halt_cycles, spec_halt_cycles};
use vstd::prelude::*;

verus! {

/// Whether an instruction left the interpreter able to go on.
#[derive(Clone, Copy, Debug, PartialEq, Eq, Structural)]
pub enum Trap {
    /// The instruction was executed.
    Clear,
    /// The opcode is not mapped.
    InvalidOpcode,
    /// The CPU was halted while no interrupt source is enabled.
    HaltForever,
}

/// What executing an instruction gives back: the cycles it took, and
/// whether it trapped.
#[derive(Clone, Copy, Debug, PartialEq, Eq, Structural)]
pub struct Ticks {
    pub cycles: u8,
    pub trap: Trap,
}

/// The model of executing an instruction: the console after it, the
/// cycles it took, and whether it trapped.
pub struct Step {
    pub state: GbView,
    pub cycles: u8,
    pub trap: Trap,
}

impl Step {
    /// Whether the step ended in the given state with the given result.
    pub open spec fn agrees(self, state: GbView, t: Ticks) -> bool {
        self.state == state && self.cycles == t.cycles && self.trap == t.trap
    }
}

/// The five bits of an opcode below its two high bits, split as the
/// decoding uses them.
pub open spec fn op_y(opcode: u8) -> u8 {
    (opcode / 8) % 8
}

pub open spec fn op_z(opcode: u8) -> u8 {
    opcode % 8
}

/// Whether the opcode is one of the eleven that are not mapped.
pub open spec fn is_invalid_opcode(opcode: u8) -> bool {
    opcode == 0xD3 || opcode == 0xDB || opcode == 0xDD || opcode == 0xE3 || opcode == 0xE4
        || opcode == 0xEB || opcode == 0xEC || opcode == 0xED || opcode == 0xF4 || opcode == 0xFC
        || opcode == 0xFD
}

impl GbView {
    /// A step that ended without a trap.
    pub open spec fn done(self, cycles: u8) -> Step {
        Step { state: self, cycles, trap: Trap::Clear }
    }

    /// An unmapped opcode: the fault is reported with the address of the
    /// opcode, and nothing else changes.
    #[verifier::opaque]
    pub open spec fn op_invalid(self) -> Step {
        Step {
            state: GbView {
                host: self.host.faulted(
                    GbError::GbInvalidOpcode,
                    self.cpu_reg.pc.bytes.wrapping_sub(1),
                ),
                ..self
            },
            cycles: 0,
            trap: Trap::InvalidOpcode,
        }
    }

    /// Halt.  With no interrupt source enabled nothing could ever wake the
    /// CPU: that is reported as a fault.  Else the CPU sleeps until the
    /// next event.
    #[verifier::opaque]
    pub open spec fn op_halt(self) -> Step {
        let s = GbView { gb_halt: true, ..self };
        if self.hram_io[IO_IE as int] == 0 {
            Step {
                state: GbView {
                    host: s.host.faulted(
                        GbError::GbHaltForever,
                        self.cpu_reg.pc.bytes.wrapping_sub(1),
                    ),
                    ..s
                },
                cycles: 0,
                trap: Trap::HaltForever,
            }
        } else {
            s.done(
                spec_halt_cycles(
                    self.hram_io[IO_SC as int],
                    self.hram_io[IO_TAC as int],
                    self.hram_io[IO_LCDC as int],
                    self.hram_io[IO_STAT as int],
                    self.counter,
                ),
            )
        }
    }

    /// An opcode of the extended space: the operand that its low three
    /// bits select is rotated, shifted, tested, reset or set.
    #[verifier::opaque]
    pub open spec fn op_cb(self) -> Step {
        let cbop = self.fetched();
        let s = self.after_fetch();
        let x = cbop / 64;
        let r = op_z(cbop);
        let o = spec_cb_apply(x, op_y(cbop), s.read_r8(r), s.cpu_reg.f);
        let t = if o.writeback {
            s.write_r8(r, o.value)
        } else {
            s
        };
        t.with_f(o.flags).done(spec_cb_cycles(x, r))
    }

    /// The opcodes 0x00..=0x3F with low bits 0: no operation, store of the
    /// stack pointer, stop, and the relative jumps.
    #[verifier::opaque]
    pub open spec fn exec_x0_z0(self, y: u8) -> Step {
        if y == 0 {
            self.done(4)
        } else if y == 1 {
            self.op_ld_nn_sp().done(20)
        } else if y == 2 {
            self.op_stop().done(4)
        } else if y == 3 {
            self.op_jr(true).done(12)
        } else {
            let taken = self.cpu_reg.spec_cond((y - 4) as u8);
            self.op_jr(taken).done(
                if taken {
                    12
                } else {
                    8
                },
            )
        }
    }

    /// The opcodes 0x00..=0x3F.
    #[verifier::opaque]
    pub open spec fn exec_x0(self, opcode: u8) -> Step {
        let y = op_y(opcode);
        let z = op_z(opcode);
        let mem: u8 = if y == 6 {
            12
        } else {
            4
        };
        if z == 0 {
            self.exec_x0_z0(y)
        } else if z == 1 {
            if y % 2 == 0 {
                self.op_ld_rp_nn(y / 2).done(12)
            } else {
                self.op_add_hl(y / 2).done(8)
            }
        } else if z == 2 {
            if y % 2 == 0 {
                self.op_ld_ind_a(y / 2).done(8)
            } else {
                self.op_ld_a_ind(y / 2).done(8)
            }
        } else if z == 3 {
            self.op_inc16(y / 2, y % 2).done(8)
        } else if z == 4 {
            self.op_inc_r(y).done(mem)
        } else if z == 5 {
            self.op_dec_r(y).done(mem)
        } else if z == 6 {
            self.op_ld_r_n(y).done(
                if y == 6 {
                    12
                } else {
                    8
                },
            )
        } else {
            self.op_misc_a(y).done(4)
        }
    }

    /// The opcodes 0x40..=0x7F: the loads between 8-bit operands, and halt
    /// in the place of the load from the byte at HL to itself.
    #[verifier::opaque]
    pub open spec fn exec_x1(self, opcode: u8) -> Step {
        let y = op_y(opcode);
        let z = op_z(opcode);
        if opcode == 0x76 {
            self.op_halt()
        } else {
            self.op_ld_r_r(y, z).done(
                if y == 6 || z == 6 {
                    8
                } else {
                    4
                },
            )
        }
    }

    /// The opcodes 0x80..=0xBF: the accumulator operations on an 8-bit
    /// operand.
    #[verifier::opaque]
    pub open spec fn exec_x2(self, opcode: u8) -> Step {
        let z = op_z(opcode);
        self.op_alu_r(op_y(opcode), z).done(
            if z == 6 {
                8
            } else {
                4
            },
        )
    }

    /// The opcodes 0xC0..=0xFF with low bits 0, 1 or 2.
    #[verifier::opaque]
    pub open spec fn exec_x3_low(self, y: u8, z: u8) -> Step {
        if z == 0 {
            if y < 4 {
                let taken = self.cpu_reg.spec_cond(y);
                self.op_ret(taken).done(
                    if taken {
                        20
                    } else {
                        8
                    },
                )
            } else if y == 4 {
                self.op_ldh_n_a().done(12)
            } else if y == 5 {
                self.op_add_sp().done(16)
            } else if y == 6 {
                self.op_ldh_a_n().done(12)
            } else {
                self.op_ld_hl_sp().done(12)
            }
        } else if z == 1 {
            if y % 2 == 0 {
                self.op_pop(y / 2).done(12)
            } else if y == 1 {
                self.op_ret(true).done(16)
            } else if y == 3 {
                self.op_reti().done(16)
            } else if y == 5 {
                self.with_pc(self.cpu_reg.hl.bytes).done(4)
            } else {
                self.with_sp(self.cpu_reg.hl.bytes).done(8)
            }
        } else {
            if y < 4 {
                let taken = self.cpu_reg.spec_cond(y);
                self.op_jp(taken).done(
                    if taken {
                        16
                    } else {
                        12
                    },
                )
            } else if y == 4 {
                self.op_ld_c_a().done(8)
            } else if y == 5 {
                self.op_ld_nn_a().done(16)
            } else if y == 6 {
                self.op_ld_a_c().done(8)
            } else {
                self.op_ld_a_nn().done(16)
            }
        }
    }

    /// The opcodes 0xC0..=0xFF with low bits 3 to 7.
    #[verifier::opaque]
    pub open spec fn exec_x3_high(self, y: u8, z: u8) -> Step {
        if z == 3 {
            if y == 0 {
                self.op_jp(true).done(16)
            } else if y == 1 {
                self.op_cb()
            } else if y == 6 {
                self.with_ime(false).done(4)
            } else if y == 7 {
                self.with_ime(true).done(4)
            } else {
                self.op_invalid()
            }
        } else if z == 4 {
            if y < 4 {
                let taken = self.cpu_reg.spec_cond(y);
                self.op_call(taken).done(
                    if taken {
                        24
                    } else {
                        12
                    },
                )
            } else {
                self.op_invalid()
            }
        } else if z == 5 {
            if y % 2 == 0 {
                self.op_push(y / 2).done(16)
            } else if y == 1 {
                self.op_call(true).done(24)
            } else {
                self.op_invalid()
            }
        } else if z == 6 {
            self.op_alu_n(y).done(8)
        } else {
            self.op_rst(y).done(16)
        }
    }

    /// The opcodes 0xC0..=0xFF.
    #[verifier::opaque]
    pub open spec fn exec_x3(self, opcode: u8) -> Step {
        let y = op_y(opcode);
        let z = op_z(opcode);
        if z < 3 {
            self.exec_x3_low(y, z)
        } else {
            self.exec_x3_high(y, z)
        }
    }

    /// The instruction with the given opcode, the opcode already fetched.
    #[verifier::opaque]
    pub open spec fn execute(self, opcode: u8) -> Step {
        if opcode < 0x40 {
            self.exec_x0(opcode)
        } else if opcode < 0x80 {
            self.exec_x1(opcode)
        } else if opcode < 0xC0 {
            self.exec_x2(opcode)
        } else {
            self.exec_x3(opcode)
        }
    }
}

impl GbView {
    /// An instruction traps as an unmapped opcode exactly for the eleven
    /// opcodes that are not mapped, and as a halt that nothing can end
    /// exactly for a halt while no interrupt source is enabled.  A trapping
    /// instruction takes no cycles.
    pub proof fn lemma_traps(self, opcode: u8)
        ensures
            self.execute(opcode).trap == Trap::InvalidOpcode <==> is_invalid_opcode(opcode),
            self.execute(opcode).trap == Trap::HaltForever <==> opcode == 0x76
                && self.hram_io[IO_IE as int] == 0,
            self.execute(opcode).trap != Trap::Clear ==> self.execute(opcode).cycles == 0,
    {
        reveal(GbView::execute);
        reveal(GbView::exec_x0);
        reveal(GbView::exec_x0_z0);
        reveal(GbView::exec_x1);
        reveal(GbView::exec_x2);
        reveal(GbView::exec_x3);
        reveal(GbView::exec_x3_low);
        reveal(GbView::exec_x3_high);
        reveal(GbView::op_invalid);
        reveal(GbView::op_halt);
        reveal(GbView::op_cb);
    }
}

/// The result of an instruction that did not trap.
pub fn clear(cycles: u8) -> (t: Ticks)
    ensures
        t == (Ticks { cycles, trap: Trap::Clear }),
{
    Ticks { cycles, trap: Trap::Clear }
}

impl<H: Host> Gb<H> {
    fn report(&mut self, kind: GbError, addr: u16)
        ensures
            final(self)@ == (GbView { host: old(self)@.host.faulted(kind, addr), ..old(self)@ }),
            old(self).wf() ==> final(self).wf(),
    {
        self.host.error(kind, addr);
    }

    fn set_halt(&mut self, halt: bool)
        ensures
            final(self)@ == (GbView { gb_halt: halt, ..old(self)@ }),
            old(self).wf() ==> final(self).wf(),
    {
        self.gb_halt = halt;
    }

    fn op_invalid(&mut self) -> (t: Ticks)
        requires
            old(self).wf(),
        ensures
            old(self)@.op_invalid().agrees(final(self)@, t),
            t.trap == Trap::InvalidOpcode,
            final(self).wf(),
    {
        proof {
            reveal(GbView::op_invalid);
        }
        self.report(GbError::GbInvalidOpcode, self.cpu_reg.pc.bytes.wrapping_sub(1));
        Ticks { cycles: 0, trap: Trap::InvalidOpcode }
    }

    fn op_halt(&mut self) -> (t: Ticks)
        requires
            old(self).wf(),
        ensures
            old(self)@.op_halt().agrees(final(self)@, t),
            t.trap == Trap::Clear ==> t.cycles >= 1,
            final(self).wf(),
    {
        proof {
            reveal(GbView::op_halt);
        }
        self.set_halt(true);
        if self.hram_io[IO_IE] == 0 {
            self.report(GbError::GbHaltForever, self.cpu_reg.pc.bytes.wrapping_sub(1));
            Ticks { cycles: 0, trap: Trap::HaltForever }
        } else {
            clear(
                halt_cycles(
                    self.hram_io[IO_SC],
                    self.hram_io[IO_TAC],
                    self.hram_io[IO_LCDC],
                    self.hram_io[IO_STAT],
                    self.counter,
                ),
            )
        }
    }

    fn op_cb(&mut self) -> (t: Ticks)
        requires
            old(self).wf(),
        ensures
            old(self)@.op_cb().agrees(final(self)@, t),
            t.trap == Trap::Clear ==> t.cycles >= 1,
            final(self).wf(),
    {
        proof {
            reveal(GbView::op_cb);
        }
        let cbop = self.fetch();
        let x = cbop / 64;
        let y = (cbop / 8) % 8;
        let r = cbop % 8;
        let v = self.read_r8(r);
        let o = cb_apply(x, y, v, self.cpu_reg.f);
        if o.writeback {
            self.write_r8(r, o.value);
        }
        self.set_f(o.flags);
        clear(cb_cycles(x, r))
    }

    fn exec_x0_z0(&mut self, y: u8) -> (t: Ticks)
        requires
            old(self).wf(),
            y < 8,
        ensures
            old(self)@.exec_x0_z0(y).agrees(final(self)@, t),
            t.trap == Trap::Clear ==> t.cycles >= 1,
            final(self).wf(),
    {
        proof {
            reveal(GbView::exec_x0_z0);
        }
        if y == 0 {
            clear(4)
        } else if y == 1 {
            self.op_ld_nn_sp();
            clear(20)
        } else if y == 2 {
            self.op_stop();
            clear(4)
        } else if y == 3 {
            self.op_jr(true);
            clear(12)
        } else {
            let taken = self.cpu_reg.cond(y - 4);
            self.op_jr(taken);
            clear(if taken { 12 } else { 8 })
        }
    }

    fn exec_x0(&mut self, opcode: u8) -> (t: Ticks)
        requires
            old(self).wf(),
            opcode < 0x40,
        ensures
            old(self)@.exec_x0(opcode).agrees(final(self)@, t),
            t.trap == Trap::Clear ==> t.cycles >= 1,
            final(self).wf(),
    {
        proof {
            reveal(GbView::exec_x0);
        }
        let y = (opcode / 8) % 8;
        let z = opcode % 8;
        let mem: u8 = if y == 6 {
            12
        } else {
            4
        };
        if z == 0 {
            self.exec_x0_z0(y)
        } else if z == 1 {
            if y % 2 == 0 {
                self.op_ld_rp_nn(y / 2);
                clear(12)
            } else {
                self.op_add_hl(y / 2);
                clear(8)
            }
        } else if z == 2 {
            if y % 2 == 0 {
                self.op_ld_ind_a(y / 2);
                clear(8)
            } else {
                self.op_ld_a_ind(y / 2);
                clear(8)
            }
        } else if z == 3 {
            self.op_inc16(y / 2, y % 2);
            clear(8)
        } else if z == 4 {
            self.op_inc_r(y);
            clear(mem)
        } else if z == 5 {
            self.op_dec_r(y);
            clear(mem)
        } else if z == 6 {
            self.op_ld_r_n(y);
            clear(if y == 6 { 12 } else { 8 })
        } else {
            self.op_misc_a(y);
            clear(4)
        }
    }

    fn exec_x1(&mut self, opcode: u8) -> (t: Ticks)
        requires
            old(self).wf(),
            0x40 <= opcode < 0x80,
        ensures
            old(self)@.exec_x1(opcode).agrees(final(self)@, t),
            t.trap == Trap::Clear ==> t.cycles >= 1,
            final(self).wf(),
    {
        proof {
            reveal(GbView::exec_x1);
        }
        let y = (opcode / 8) % 8;
        let z = opcode % 8;
        if opcode == 0x76 {
            self.op_halt()
        } else {
            self.op_ld_r_r(y, z);
            clear(if y == 6 || z == 6 { 8 } else { 4 })
        }
    }

    fn exec_x2(&mut self, opcode: u8) -> (t: Ticks)
        requires
            old(self).wf(),
            0x80 <= opcode < 0xC0,
        ensures
            old(self)@.exec_x2(opcode).agrees(final(self)@, t),
            t.trap == Trap::Clear ==> t.cycles >= 1,
            final(self).wf(),
    {
        proof {
            reveal(GbView::exec_x2);
        }
        let y = (opcode / 8) % 8;
        let z = opcode % 8;
        self.op_alu_r(y, z);
        clear(if z == 6 { 8 } else { 4 })
    }

    fn jump_to_hl(&mut self)
        ensures
            final(self)@ == old(self)@.with_pc(old(self)@.cpu_reg.hl.bytes),
            old(self).wf() ==> final(self).wf(),
    {
        self.cpu_reg.pc.bytes = self.cpu_reg.hl.bytes;
    }

    fn load_sp_hl(&mut self)
        ensures
            final(self)@ == old(self)@.with_sp(old(self)@.cpu_reg.hl.bytes),
            old(self).wf() ==> final(self).wf(),
    {
        self.cpu_reg.sp.bytes = self.cpu_reg.hl.bytes;
    }

    fn set_ime_flag(&mut self, ime: bool)
        ensures
            final(self)@ == old(self)@.with_ime(ime),
            old(self).wf() ==> final(self).wf(),
    {
        self.gb_ime = ime;
    }

    fn exec_x3_low(&mut self, y: u8, z: u8) -> (t: Ticks)
        requires
            old(self).wf(),
            y < 8,
            z < 3,
        ensures
            old(self)@.exec_x3_low(y, z).agrees(final(self)@, t),
            t.trap == Trap::Clear ==> t.cycles >= 1,
            final(self).wf(),
    {
        proof {
            reveal(GbView::exec_x3_low);
        }
        if z == 0 {
            if y < 4 {
                let taken = self.cpu_reg.cond(y);
                self.op_ret(taken);
                clear(if taken { 20 } else { 8 })
            } else if y == 4 {
                self.op_ldh_n_a();
                clear(12)
            } else if y == 5 {
                self.op_add_sp();
                clear(16)
            } else if y == 6 {
                self.op_ldh_a_n();
                clear(12)
            } else {
                self.op_ld_hl_sp();
                clear(12)
            }
        } else if z == 1 {
            if y % 2 == 0 {
                self.op_pop(y / 2);
                clear(12)
            } else if y == 1 {
                self.op_ret(true);
                clear(16)
            } else if y == 3 {
                self.op_reti();
                clear(16)
            } else if y == 5 {
                self.jump_to_hl();
                clear(4)
            } else {
                self.load_sp_hl();
                clear(8)
            }
        } else {
            if y < 4 {
                let taken = self.cpu_reg.cond(y);
                self.op_jp(taken);
                clear(if taken { 16 } else { 12 })
            } else if y == 4 {
                self.op_ld_c_a();
                clear(8)
            } else if y == 5 {
                self.op_ld_nn_a();
                clear(16)
            } else if y == 6 {
                self.op_ld_a_c();
                clear(8)
            } else {
                self.op_ld_a_nn();
                clear(16)
            }
        }
    }

    fn exec_x3_high(&mut self, y: u8, z: u8) -> (t: Ticks)
        requires
            old(self).wf(),
            y < 8,
            3 <= z < 8,
        ensures
            old(self)@.exec_x3_high(y, z).agrees(final(self)@, t),
            t.trap == Trap::Clear ==> t.cycles >= 1,
            final(self).wf(),
    {
        proof {
            reveal(GbView::exec_x3_high);
        }
        if z == 3 {
            if y == 0 {
                self.op_jp(true);
                clear(16)
            } else if y == 1 {
                self.op_cb()
            } else if y == 6 {
                self.set_ime_flag(false);
                clear(4)
            } else if y == 7 {
                self.set_ime_flag(true);
                clear(4)
            } else {
                self.op_invalid()
            }
        } else if z == 4 {
            if y < 4 {
                let taken = self.cpu_reg.cond(y);
                self.op_call(taken);
                clear(if taken { 24 } else { 12 })
            } else {
                self.op_invalid()
            }
        } else if z == 5 {
            if y % 2 == 0 {
                self.op_push(y / 2);
                clear(16)
            } else if y == 1 {
                self.op_call(true);
                clear(24)
            } else {
                self.op_invalid()
            }
        } else if z == 6 {
            self.op_alu_n(y);
            clear(8)
        } else {
            self.op_rst(y);
            clear(16)
        }
    }

    fn exec_x3(&mut self, opcode: u8) -> (t: Ticks)
        requires
            old(self).wf(),
            0xC0 <= opcode,
        ensures
            old(self)@.exec_x3(opcode).agrees(final(self)@, t),
            t.trap == Trap::Clear ==> t.cycles >= 1,
            final(self).wf(),
    {
        proof {
            reveal(GbView::exec_x3);
        }
        let y = (opcode / 8) % 8;
        let z = opcode % 8;
        if z < 3 {
            self.exec_x3_low(y, z)
        } else {
            self.exec_x3_high(y, z)
        }
    }

    /// Executes the instruction with the given opcode, the opcode already
    /// fetched, and returns the cycles it took.
    pub fn execute(&mut self, opcode: u8) -> (t: Ticks)
        requires
            old(self).wf(),
        ensures
            old(self)@.execute(opcode).agrees(final(self)@, t),
            t.trap == Trap::Clear ==> t.cycles >= 1,
            final(self).wf(),
    {
        proof {
            reveal(GbView::execute);
        }
        if opcode < 0x40 {
            self.exec_x0(opcode)
        } else if opcode < 0x80 {
            self.exec_x1(opcode)
        } else if opcode < 0xC0 {
            self.exec_x2(opcode)
        } else {
            self.exec_x3(opcode)
        }
    }
}

} // verus!
