//! The base cycles of the opcodes as a table, and the proof that executing
//! an instruction takes what the table says.

use crate::exec::Trap;
use crate::state::GbView;
use vstd::prelude::*;

verus! {

/// One row of the table of base cycles: the sixteen opcodes that share
/// their high four bits.
pub open spec fn cycle_row(row: u8) -> Seq<u8> {
    if row == 0 {
        seq![4u8, 12, 8, 8, 4, 4, 8, 4, 20, 8, 8, 8, 4, 4, 8, 4]
    } else if row == 1 {
        seq![4u8, 12, 8, 8, 4, 4, 8, 4, 12, 8, 8, 8, 4, 4, 8, 4]
    } else if row == 2 {
        seq![8u8, 12, 8, 8, 4, 4, 8, 4, 8, 8, 8, 8, 4, 4, 8, 4]
    } else if row == 3 {
        seq![8u8, 12, 8, 8, 12, 12, 12, 4, 8, 8, 8, 8, 4, 4, 8, 4]
    } else if row == 4 {
        seq![4u8, 4, 4, 4, 4, 4, 8, 4, 4, 4, 4, 4, 4, 4, 8, 4]
    } else if row == 5 {
        seq![4u8, 4, 4, 4, 4, 4, 8, 4, 4, 4, 4, 4, 4, 4, 8, 4]
    } else if row == 6 {
        seq![4u8, 4, 4, 4, 4, 4, 8, 4, 4, 4, 4, 4, 4, 4, 8, 4]
    } else if row == 7 {
        seq![8u8, 8, 8, 8, 8, 8, 4, 8, 4, 4, 4, 4, 4, 4, 8, 4]
    } else if row == 8 {
        seq![4u8, 4, 4, 4, 4, 4, 8, 4, 4, 4, 4, 4, 4, 4, 8, 4]
    } else if row == 9 {
        seq![4u8, 4, 4, 4, 4, 4, 8, 4, 4, 4, 4, 4, 4, 4, 8, 4]
    } else if row == 10 {
        seq![4u8, 4, 4, 4, 4, 4, 8, 4, 4, 4, 4, 4, 4, 4, 8, 4]
    } else if row == 11 {
        seq![4u8, 4, 4, 4, 4, 4, 8, 4, 4, 4, 4, 4, 4, 4, 8, 4]
    } else if row == 12 {
        seq![8u8, 12, 12, 16, 12, 16, 8, 16, 8, 16, 12, 8, 12, 24, 8, 16]
    } else if row == 13 {
        seq![8u8, 12, 12, 0, 12, 16, 8, 16, 8, 16, 12, 0, 12, 0, 8, 16]
    } else if row == 14 {
        seq![12u8, 12, 8, 0, 0, 16, 8, 16, 16, 4, 16, 0, 0, 0, 8, 16]
    } else {
        seq![12u8, 12, 8, 4, 0, 16, 8, 16, 12, 8, 16, 4, 0, 0, 8, 16]
    }
}

/// The base cycles of an opcode: what the instruction takes where it does
/// not branch.  Unmapped opcodes have none.
pub open spec fn base_cycles(opcode: u8) -> u8 {
    cycle_row(opcode / 16)[(opcode % 16) as int]
}

impl GbView {
    /// The cycles that a conditional jump, call or return adds where it is
    /// taken: 4 for a jump, 12 for a call or a return.
    pub open spec fn branch_cycles(self, opcode: u8) -> u8 {
        let y = (opcode / 8) % 8;
        if opcode == 0x20 || opcode == 0x28 || opcode == 0x30 || opcode == 0x38 {
            if self.cpu_reg.spec_cond((y - 4) as u8) {
                4
            } else {
                0
            }
        } else if opcode == 0xC2 || opcode == 0xCA || opcode == 0xD2 || opcode == 0xDA {
            if self.cpu_reg.spec_cond(y) {
                4
            } else {
                0
            }
        } else if opcode == 0xC0 || opcode == 0xC8 || opcode == 0xD0 || opcode == 0xD8 || opcode
            == 0xC4 || opcode == 0xCC || opcode == 0xD4 || opcode == 0xDC {
            if self.cpu_reg.spec_cond(y) {
                12
            } else {
                0
            }
        } else {
            0
        }
    }

    proof fn lemma_cycles_row_0(self, opcode: u8)
        requires
            opcode / 16 == 0,
            opcode != 0x76,
            opcode != 0xCB,
        ensures
            self.execute(opcode).cycles == base_cycles(opcode) + self.branch_cycles(opcode),
    {
        reveal(GbView::execute);
        reveal(GbView::exec_x0);
        reveal(GbView::exec_x0_z0);
        let row = cycle_row(0);
        assert(row[0] == 4);
        assert(row[1] == 12);
        assert(row[2] == 8);
        assert(row[3] == 8);
        assert(row[4] == 4);
        assert(row[5] == 4);
        assert(row[6] == 8);
        assert(row[7] == 4);
        assert(row[8] == 20);
        assert(row[9] == 8);
        assert(row[10] == 8);
        assert(row[11] == 8);
        assert(row[12] == 4);
        assert(row[13] == 4);
        assert(row[14] == 8);
        assert(row[15] == 4);
        let j = opcode % 16;
        assert(0 <= j < 16);
    }

    proof fn lemma_cycles_row_1(self, opcode: u8)
        requires
            opcode / 16 == 1,
            opcode != 0x76,
            opcode != 0xCB,
        ensures
            self.execute(opcode).cycles == base_cycles(opcode) + self.branch_cycles(opcode),
    {
        reveal(GbView::execute);
        reveal(GbView::exec_x0);
        reveal(GbView::exec_x0_z0);
        let row = cycle_row(1);
        assert(row[0] == 4);
        assert(row[1] == 12);
        assert(row[2] == 8);
        assert(row[3] == 8);
        assert(row[4] == 4);
        assert(row[5] == 4);
        assert(row[6] == 8);
        assert(row[7] == 4);
        assert(row[8] == 12);
        assert(row[9] == 8);
        assert(row[10] == 8);
        assert(row[11] == 8);
        assert(row[12] == 4);
        assert(row[13] == 4);
        assert(row[14] == 8);
        assert(row[15] == 4);
        let j = opcode % 16;
        assert(0 <= j < 16);
    }

    proof fn lemma_cycles_row_2(self, opcode: u8)
        requires
            opcode / 16 == 2,
            opcode != 0x76,
            opcode != 0xCB,
        ensures
            self.execute(opcode).cycles == base_cycles(opcode) + self.branch_cycles(opcode),
    {
        reveal(GbView::execute);
        reveal(GbView::exec_x0);
        reveal(GbView::exec_x0_z0);
        let row = cycle_row(2);
        assert(row[0] == 8);
        assert(row[1] == 12);
        assert(row[2] == 8);
        assert(row[3] == 8);
        assert(row[4] == 4);
        assert(row[5] == 4);
        assert(row[6] == 8);
        assert(row[7] == 4);
        assert(row[8] == 8);
        assert(row[9] == 8);
        assert(row[10] == 8);
        assert(row[11] == 8);
        assert(row[12] == 4);
        assert(row[13] == 4);
        assert(row[14] == 8);
        assert(row[15] == 4);
        let j = opcode % 16;
        assert(0 <= j < 16);
    }

    proof fn lemma_cycles_row_3(self, opcode: u8)
        requires
            opcode / 16 == 3,
            opcode != 0x76,
            opcode != 0xCB,
        ensures
            self.execute(opcode).cycles == base_cycles(opcode) + self.branch_cycles(opcode),
    {
        reveal(GbView::execute);
        reveal(GbView::exec_x0);
        reveal(GbView::exec_x0_z0);
        let row = cycle_row(3);
        assert(row[0] == 8);
        assert(row[1] == 12);
        assert(row[2] == 8);
        assert(row[3] == 8);
        assert(row[4] == 12);
        assert(row[5] == 12);
        assert(row[6] == 12);
        assert(row[7] == 4);
        assert(row[8] == 8);
        assert(row[9] == 8);
        assert(row[10] == 8);
        assert(row[11] == 8);
        assert(row[12] == 4);
        assert(row[13] == 4);
        assert(row[14] == 8);
        assert(row[15] == 4);
        let j = opcode % 16;
        assert(0 <= j < 16);
    }

    proof fn lemma_cycles_row_4(self, opcode: u8)
        requires
            opcode / 16 == 4,
            opcode != 0x76,
            opcode != 0xCB,
        ensures
            self.execute(opcode).cycles == base_cycles(opcode) + self.branch_cycles(opcode),
    {
        reveal(GbView::execute);
        reveal(GbView::exec_x1);
        let row = cycle_row(4);
        assert(row[0] == 4);
        assert(row[1] == 4);
        assert(row[2] == 4);
        assert(row[3] == 4);
        assert(row[4] == 4);
        assert(row[5] == 4);
        assert(row[6] == 8);
        assert(row[7] == 4);
        assert(row[8] == 4);
        assert(row[9] == 4);
        assert(row[10] == 4);
        assert(row[11] == 4);
        assert(row[12] == 4);
        assert(row[13] == 4);
        assert(row[14] == 8);
        assert(row[15] == 4);
        let j = opcode % 16;
        assert(0 <= j < 16);
    }

    proof fn lemma_cycles_row_5(self, opcode: u8)
        requires
            opcode / 16 == 5,
            opcode != 0x76,
            opcode != 0xCB,
        ensures
            self.execute(opcode).cycles == base_cycles(opcode) + self.branch_cycles(opcode),
    {
        reveal(GbView::execute);
        reveal(GbView::exec_x1);
        let row = cycle_row(5);
        assert(row[0] == 4);
        assert(row[1] == 4);
        assert(row[2] == 4);
        assert(row[3] == 4);
        assert(row[4] == 4);
        assert(row[5] == 4);
        assert(row[6] == 8);
        assert(row[7] == 4);
        assert(row[8] == 4);
        assert(row[9] == 4);
        assert(row[10] == 4);
        assert(row[11] == 4);
        assert(row[12] == 4);
        assert(row[13] == 4);
        assert(row[14] == 8);
        assert(row[15] == 4);
        let j = opcode % 16;
        assert(0 <= j < 16);
    }

    proof fn lemma_cycles_row_6(self, opcode: u8)
        requires
            opcode / 16 == 6,
            opcode != 0x76,
            opcode != 0xCB,
        ensures
            self.execute(opcode).cycles == base_cycles(opcode) + self.branch_cycles(opcode),
    {
        reveal(GbView::execute);
        reveal(GbView::exec_x1);
        let row = cycle_row(6);
        assert(row[0] == 4);
        assert(row[1] == 4);
        assert(row[2] == 4);
        assert(row[3] == 4);
        assert(row[4] == 4);
        assert(row[5] == 4);
        assert(row[6] == 8);
        assert(row[7] == 4);
        assert(row[8] == 4);
        assert(row[9] == 4);
        assert(row[10] == 4);
        assert(row[11] == 4);
        assert(row[12] == 4);
        assert(row[13] == 4);
        assert(row[14] == 8);
        assert(row[15] == 4);
        let j = opcode % 16;
        assert(0 <= j < 16);
    }

    proof fn lemma_cycles_row_7(self, opcode: u8)
        requires
            opcode / 16 == 7,
            opcode != 0x76,
            opcode != 0xCB,
        ensures
            self.execute(opcode).cycles == base_cycles(opcode) + self.branch_cycles(opcode),
    {
        reveal(GbView::execute);
        reveal(GbView::exec_x1);
        let row = cycle_row(7);
        assert(row[0] == 8);
        assert(row[1] == 8);
        assert(row[2] == 8);
        assert(row[3] == 8);
        assert(row[4] == 8);
        assert(row[5] == 8);
        assert(row[6] == 4);
        assert(row[7] == 8);
        assert(row[8] == 4);
        assert(row[9] == 4);
        assert(row[10] == 4);
        assert(row[11] == 4);
        assert(row[12] == 4);
        assert(row[13] == 4);
        assert(row[14] == 8);
        assert(row[15] == 4);
        let j = opcode % 16;
        assert(0 <= j < 16);
    }

    proof fn lemma_cycles_row_8(self, opcode: u8)
        requires
            opcode / 16 == 8,
            opcode != 0x76,
            opcode != 0xCB,
        ensures
            self.execute(opcode).cycles == base_cycles(opcode) + self.branch_cycles(opcode),
    {
        reveal(GbView::execute);
        reveal(GbView::exec_x2);
        let row = cycle_row(8);
        assert(row[0] == 4);
        assert(row[1] == 4);
        assert(row[2] == 4);
        assert(row[3] == 4);
        assert(row[4] == 4);
        assert(row[5] == 4);
        assert(row[6] == 8);
        assert(row[7] == 4);
        assert(row[8] == 4);
        assert(row[9] == 4);
        assert(row[10] == 4);
        assert(row[11] == 4);
        assert(row[12] == 4);
        assert(row[13] == 4);
        assert(row[14] == 8);
        assert(row[15] == 4);
        let j = opcode % 16;
        assert(0 <= j < 16);
    }

    proof fn lemma_cycles_row_9(self, opcode: u8)
        requires
            opcode / 16 == 9,
            opcode != 0x76,
            opcode != 0xCB,
        ensures
            self.execute(opcode).cycles == base_cycles(opcode) + self.branch_cycles(opcode),
    {
        reveal(GbView::execute);
        reveal(GbView::exec_x2);
        let row = cycle_row(9);
        assert(row[0] == 4);
        assert(row[1] == 4);
        assert(row[2] == 4);
        assert(row[3] == 4);
        assert(row[4] == 4);
        assert(row[5] == 4);
        assert(row[6] == 8);
        assert(row[7] == 4);
        assert(row[8] == 4);
        assert(row[9] == 4);
        assert(row[10] == 4);
        assert(row[11] == 4);
        assert(row[12] == 4);
        assert(row[13] == 4);
        assert(row[14] == 8);
        assert(row[15] == 4);
        let j = opcode % 16;
        assert(0 <= j < 16);
    }

    proof fn lemma_cycles_row_a(self, opcode: u8)
        requires
            opcode / 16 == 10,
            opcode != 0x76,
            opcode != 0xCB,
        ensures
            self.execute(opcode).cycles == base_cycles(opcode) + self.branch_cycles(opcode),
    {
        reveal(GbView::execute);
        reveal(GbView::exec_x2);
        let row = cycle_row(10);
        assert(row[0] == 4);
        assert(row[1] == 4);
        assert(row[2] == 4);
        assert(row[3] == 4);
        assert(row[4] == 4);
        assert(row[5] == 4);
        assert(row[6] == 8);
        assert(row[7] == 4);
        assert(row[8] == 4);
        assert(row[9] == 4);
        assert(row[10] == 4);
        assert(row[11] == 4);
        assert(row[12] == 4);
        assert(row[13] == 4);
        assert(row[14] == 8);
        assert(row[15] == 4);
        let j = opcode % 16;
        assert(0 <= j < 16);
    }

    proof fn lemma_cycles_row_b(self, opcode: u8)
        requires
            opcode / 16 == 11,
            opcode != 0x76,
            opcode != 0xCB,
        ensures
            self.execute(opcode).cycles == base_cycles(opcode) + self.branch_cycles(opcode),
    {
        reveal(GbView::execute);
        reveal(GbView::exec_x2);
        let row = cycle_row(11);
        assert(row[0] == 4);
        assert(row[1] == 4);
        assert(row[2] == 4);
        assert(row[3] == 4);
        assert(row[4] == 4);
        assert(row[5] == 4);
        assert(row[6] == 8);
        assert(row[7] == 4);
        assert(row[8] == 4);
        assert(row[9] == 4);
        assert(row[10] == 4);
        assert(row[11] == 4);
        assert(row[12] == 4);
        assert(row[13] == 4);
        assert(row[14] == 8);
        assert(row[15] == 4);
        let j = opcode % 16;
        assert(0 <= j < 16);
    }

    proof fn lemma_cycles_row_c(self, opcode: u8)
        requires
            opcode / 16 == 12,
            opcode != 0x76,
            opcode != 0xCB,
        ensures
            self.execute(opcode).cycles == base_cycles(opcode) + self.branch_cycles(opcode),
    {
        reveal(GbView::execute);
        reveal(GbView::exec_x3);
        reveal(GbView::exec_x3_low);
        reveal(GbView::exec_x3_high);
        reveal(GbView::op_invalid);
        let row = cycle_row(12);
        assert(row[0] == 8);
        assert(row[1] == 12);
        assert(row[2] == 12);
        assert(row[3] == 16);
        assert(row[4] == 12);
        assert(row[5] == 16);
        assert(row[6] == 8);
        assert(row[7] == 16);
        assert(row[8] == 8);
        assert(row[9] == 16);
        assert(row[10] == 12);
        assert(row[11] == 8);
        assert(row[12] == 12);
        assert(row[13] == 24);
        assert(row[14] == 8);
        assert(row[15] == 16);
        let j = opcode % 16;
        assert(0 <= j < 16);
    }

    proof fn lemma_cycles_row_d(self, opcode: u8)
        requires
            opcode / 16 == 13,
            opcode != 0x76,
            opcode != 0xCB,
        ensures
            self.execute(opcode).cycles == base_cycles(opcode) + self.branch_cycles(opcode),
    {
        reveal(GbView::execute);
        reveal(GbView::exec_x3);
        reveal(GbView::exec_x3_low);
        reveal(GbView::exec_x3_high);
        reveal(GbView::op_invalid);
        let row = cycle_row(13);
        assert(row[0] == 8);
        assert(row[1] == 12);
        assert(row[2] == 12);
        assert(row[3] == 0);
        assert(row[4] == 12);
        assert(row[5] == 16);
        assert(row[6] == 8);
        assert(row[7] == 16);
        assert(row[8] == 8);
        assert(row[9] == 16);
        assert(row[10] == 12);
        assert(row[11] == 0);
        assert(row[12] == 12);
        assert(row[13] == 0);
        assert(row[14] == 8);
        assert(row[15] == 16);
        let j = opcode % 16;
        assert(0 <= j < 16);
    }

    proof fn lemma_cycles_row_e(self, opcode: u8)
        requires
            opcode / 16 == 14,
            opcode != 0x76,
            opcode != 0xCB,
        ensures
            self.execute(opcode).cycles == base_cycles(opcode) + self.branch_cycles(opcode),
    {
        reveal(GbView::execute);
        reveal(GbView::exec_x3);
        reveal(GbView::exec_x3_low);
        reveal(GbView::exec_x3_high);
        reveal(GbView::op_invalid);
        let row = cycle_row(14);
        assert(row[0] == 12);
        assert(row[1] == 12);
        assert(row[2] == 8);
        assert(row[3] == 0);
        assert(row[4] == 0);
        assert(row[5] == 16);
        assert(row[6] == 8);
        assert(row[7] == 16);
        assert(row[8] == 16);
        assert(row[9] == 4);
        assert(row[10] == 16);
        assert(row[11] == 0);
        assert(row[12] == 0);
        assert(row[13] == 0);
        assert(row[14] == 8);
        assert(row[15] == 16);
        let j = opcode % 16;
        assert(0 <= j < 16);
    }

    proof fn lemma_cycles_row_f(self, opcode: u8)
        requires
            opcode / 16 == 15,
            opcode != 0x76,
            opcode != 0xCB,
        ensures
            self.execute(opcode).cycles == base_cycles(opcode) + self.branch_cycles(opcode),
    {
        reveal(GbView::execute);
        reveal(GbView::exec_x3);
        reveal(GbView::exec_x3_low);
        reveal(GbView::exec_x3_high);
        reveal(GbView::op_invalid);
        let row = cycle_row(15);
        assert(row[0] == 12);
        assert(row[1] == 12);
        assert(row[2] == 8);
        assert(row[3] == 4);
        assert(row[4] == 0);
        assert(row[5] == 16);
        assert(row[6] == 8);
        assert(row[7] == 16);
        assert(row[8] == 12);
        assert(row[9] == 8);
        assert(row[10] == 16);
        assert(row[11] == 4);
        assert(row[12] == 0);
        assert(row[13] == 0);
        assert(row[14] == 8);
        assert(row[15] == 16);
        let j = opcode % 16;
        assert(0 <= j < 16);
    }

    /// Every instruction but halt and the prefix of the extended opcodes
    /// takes the base cycles of its opcode, and a conditional jump, call or
    /// return that is taken takes 4, 12 and 12 more.
    pub proof fn lemma_cycles_match_table(self, opcode: u8)
        requires
            opcode != 0x76,
            opcode != 0xCB,
        ensures
            self.execute(opcode).cycles == base_cycles(opcode) + self.branch_cycles(opcode),
    {
        let row = opcode / 16;
        if row == 0 {
            self.lemma_cycles_row_0(opcode);
        } else if row == 1 {
            self.lemma_cycles_row_1(opcode);
        } else if row == 2 {
            self.lemma_cycles_row_2(opcode);
        } else if row == 3 {
            self.lemma_cycles_row_3(opcode);
        } else if row == 4 {
            self.lemma_cycles_row_4(opcode);
        } else if row == 5 {
            self.lemma_cycles_row_5(opcode);
        } else if row == 6 {
            self.lemma_cycles_row_6(opcode);
        } else if row == 7 {
            self.lemma_cycles_row_7(opcode);
        } else if row == 8 {
            self.lemma_cycles_row_8(opcode);
        } else if row == 9 {
            self.lemma_cycles_row_9(opcode);
        } else if row == 10 {
            self.lemma_cycles_row_a(opcode);
        } else if row == 11 {
            self.lemma_cycles_row_b(opcode);
        } else if row == 12 {
            self.lemma_cycles_row_c(opcode);
        } else if row == 13 {
            self.lemma_cycles_row_d(opcode);
        } else if row == 14 {
            self.lemma_cycles_row_e(opcode);
        } else {
            self.lemma_cycles_row_f(opcode);
        }
    }
}

} // verus!
