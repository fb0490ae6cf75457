//! Decoder for the narrow (16-bit) Thumb encodings. Operand fields are
//! packed into the 16-bit data payload in the per-opcode layouts that the
//! executor unpacks; where a set-flags decision depends on standing in an
//! IT block it is taken here, from the decode context.

use vstd::prelude::*;
use crate::bits::bitset;
use crate::bytecode::{ByteInstruction, InstructionContext, ItPos};
use crate::opcode::Opcode;
use crate::tag;
use crate::tag::{wf_instr, instr_wide, instr_cached};

verus! {

/// What every narrow decode guarantees: a cached, narrow, well-formed
/// operation.
pub open spec fn narrow_ok(r: ByteInstruction) -> bool {
    &&& !instr_wide(r)
    &&& instr_cached(r)
    &&& wf_instr(r)
}

fn undefined_narrow() -> (r: ByteInstruction)
    ensures
        narrow_ok(r),
{
    tag::get_narrow(Opcode::Undefined, 0)
}

/// Shift-immediate, three-register add/subtract and the eight-bit
/// move/compare/add/subtract immediates.
fn id_n_basic(hw: u32, c: InstructionContext) -> (r: ByteInstruction)
    ensures
        narrow_ok(r),
        is_mov_imm_enc(hw) ==> tag::instr_op(r) == Opcode::MovImm && tag::instr_data(r) == (hw
            & 0x7FF),
{
    proof {
        assert((hw >> 11) & 0x1F == 0b00100 ==> (((hw & 0xFF) | ((hw >> 8) & 0x7) << 8) == (hw
            & 0x7FF) && ((hw & 0x7FF) & 0xFFFF == (hw & 0x7FF)))) by (bit_vector);
    }
    let top5 = (hw >> 11) & 0x1F;
    let imm5 = (hw >> 6) & 0x1F;
    let rm = (hw >> 3) & 0x7;
    let rd = hw & 0x7;
    let imm8 = hw & 0xFF;
    let rd8 = (hw >> 8) & 0x7;

    if top5 == 0b00000 {
        if imm5 == 0 {
            let mut base = tag::get_narrow(Opcode::MovReg, rd | rm << 4 | 1 << 8);
            if c.it_pos != ItPos::Outside {
                base = tag::as_unpred_it_w(base);
            }
            return base;
        }
        return tag::get_narrow(Opcode::LslImm, rd | rm << 3 | imm5 << 6);
    }
    if top5 == 0b00001 {
        let shift_n = if imm5 == 0 {
            32
        } else {
            imm5
        };
        return tag::get_narrow(Opcode::LsrImm, rd | rm << 3 | shift_n << 6);
    }
    if top5 == 0b00010 {
        let shift_n = if imm5 == 0 {
            32
        } else {
            imm5
        };
        return tag::get_narrow(Opcode::AsrImm, rd | rm << 3 | shift_n << 6);
    }
    if top5 == 0b00011 {
        let sub_op = (hw >> 9) & 0b11;
        let rn = (hw >> 3) & 0x7;
        let rm3 = (hw >> 6) & 0x7;
        let imm3 = (hw >> 6) & 0x7;
        if sub_op == 0b00 {
            let sf: u32 = if c.it_pos == ItPos::Outside {
                1
            } else {
                0
            };
            return tag::get_narrow(Opcode::AddReg, rd | rm3 << 4 | rn << 8 | sf << 12);
        }
        if sub_op == 0b01 {
            return tag::get_narrow(Opcode::SubReg, rd | rn << 3 | rm3 << 6);
        }
        if sub_op == 0b10 {
            return tag::get_narrow(Opcode::AddImm, imm3 | rd << 8 | rn << 11);
        }
        return tag::get_narrow(Opcode::SubImm, imm3 | rd << 8 | rn << 11);
    }
    if top5 == 0b00100 {
        return tag::get_narrow(Opcode::MovImm, imm8 | rd8 << 8);
    }
    if top5 == 0b00101 {
        return tag::get_narrow(Opcode::CmpImm, imm8 | rd8 << 8);
    }
    if top5 == 0b00110 {
        return tag::get_narrow(Opcode::AddImm, imm8 | rd8 << 8 | rd8 << 11);
    }
    tag::get_narrow(Opcode::SubImm, imm8 | rd8 << 8 | rd8 << 11)
}

/// The sixteen two-register data-processing operations.
fn id_n_data_processing(hw: u32, _c: InstructionContext) -> (r: ByteInstruction)
    ensures
        narrow_ok(r),
{
    let op4 = (hw >> 6) & 0xF;
    let rm = (hw >> 3) & 0x7;
    let rdn = hw & 0x7;
    let two_reg = rdn | rm << 3;

    if op4 == 0b0000 {
        tag::get_narrow(Opcode::AndReg, two_reg)
    } else if op4 == 0b0001 {
        tag::get_narrow(Opcode::EorReg, two_reg)
    } else if op4 == 0b0010 {
        tag::get_narrow(Opcode::LslReg, two_reg)
    } else if op4 == 0b0011 {
        tag::get_narrow(Opcode::LsrReg, two_reg)
    } else if op4 == 0b0100 {
        tag::get_narrow(Opcode::AsrReg, two_reg)
    } else if op4 == 0b0101 {
        tag::get_narrow(Opcode::AdcReg, two_reg)
    } else if op4 == 0b0110 {
        tag::get_narrow(Opcode::SbcReg, two_reg)
    } else if op4 == 0b0111 {
        tag::get_narrow(Opcode::RorReg, two_reg)
    } else if op4 == 0b1000 {
        tag::get_narrow(Opcode::TstReg, two_reg)
    } else if op4 == 0b1001 {
        tag::get_narrow(Opcode::RsbImm, rdn | rm << 3)
    } else if op4 == 0b1010 {
        tag::get_narrow(Opcode::CmpReg, rdn | rm << 4)
    } else if op4 == 0b1011 {
        tag::get_narrow(Opcode::CmnReg, two_reg)
    } else if op4 == 0b1100 {
        tag::get_narrow(Opcode::OrrReg, two_reg)
    } else if op4 == 0b1101 {
        tag::get_narrow(Opcode::Mul, two_reg)
    } else if op4 == 0b1110 {
        tag::get_narrow(Opcode::BicReg, two_reg)
    } else {
        tag::get_narrow(Opcode::MvnReg, two_reg)
    }
}

/// High-register add/compare/move and the BX/BLX exchanges.
fn id_n_special_data(hw: u32, c: InstructionContext) -> (r: ByteInstruction)
    ensures
        narrow_ok(r),
{
    let op2 = (hw >> 8) & 0b11;
    let high = (hw >> 7) & 0b1;
    let rm4 = (hw >> 3) & 0xF;
    let rdn = (hw & 0x7) | high << 3;

    if op2 == 0b00 {
        let mut base = tag::get_narrow(Opcode::AddReg, rdn | rm4 << 4 | rdn << 8);
        if rdn == 15 && rm4 == 15 {
            base = tag::as_unpred_w(base);
        }
        if rdn == 15 && c.it_pos == ItPos::Within {
            base = tag::as_unpred_it_w(base);
        }
        return base;
    }
    if op2 == 0b01 {
        let mut base = tag::get_narrow(Opcode::CmpReg, rdn | rm4 << 4);
        if (rdn < 8 && rm4 < 8) || rdn == 15 || rm4 == 15 {
            base = tag::as_unpred_w(base);
        }
        return base;
    }
    if op2 == 0b10 {
        let mut base = tag::get_narrow(Opcode::MovReg, rdn | rm4 << 4);
        if rdn == 15 && c.it_pos == ItPos::Within {
            base = tag::as_unpred_it_w(base);
        }
        return base;
    }
    if high == 0 {
        let mut base = tag::get_narrow(Opcode::Bx, rm4);
        if (hw & 0x7) != 0 {
            base = tag::as_unpred_w(base);
        }
        if c.it_pos == ItPos::Within {
            base = tag::as_unpred_it_w(base);
        }
        return base;
    }
    let mut base = tag::get_narrow(Opcode::Blx, rm4);
    if (hw & 0x7) != 0 || rm4 == 15 {
        base = tag::as_unpred_w(base);
    }
    if c.it_pos == ItPos::Within {
        base = tag::as_unpred_it_w(base);
    }
    base
}

/// The miscellaneous 16-bit block: SP adjustment, compare-and-branch,
/// extend, push/pop, reverse, breakpoint, IT and hints.
fn id_n_misc(hw: u32, c: InstructionContext) -> (r: ByteInstruction)
    ensures
        narrow_ok(r),
{
    let rm = (hw >> 3) & 0x7;
    let rd = hw & 0x7;

    if (hw >> 8) & 0xF == 0b0000 {
        let imm7 = hw & 0x7F;
        if (hw >> 7) & 0b1 == 0 {
            return tag::get_narrow(Opcode::AddSpImm, (imm7 << 2) | 13 << 10);
        }
        return tag::get_narrow(Opcode::SubSpImm, imm7 << 2);
    }
    if (hw >> 8) & 0b0101 == 0b0001 {
        let nonzero = (hw >> 11) & 0b1;
        let i = (hw >> 9) & 0b1;
        let imm5 = (hw >> 3) & 0x1F;
        let rn = hw & 0x7;
        let imm7 = imm5 << 1 | i << 6;
        let mut base = tag::get_narrow(Opcode::Cbz, imm7 | rn << 7 | nonzero << 10);
        if c.it_pos != ItPos::Outside {
            base = tag::as_unpred_it_w(base);
        }
        return base;
    }
    if (hw >> 6) & 0x3FF == 0b1011001000 {
        return tag::get_narrow(Opcode::Sxth, rd | rm << 3);
    }
    if (hw >> 6) & 0x3FF == 0b1011001001 {
        return tag::get_narrow(Opcode::Sxtb, rd | rm << 3);
    }
    if (hw >> 6) & 0x3FF == 0b1011001010 {
        return tag::get_narrow(Opcode::Uxth, rd | rm << 3);
    }
    if (hw >> 6) & 0x3FF == 0b1011001011 {
        return tag::get_narrow(Opcode::Uxtb, rd | rm << 3);
    }
    if (hw >> 9) & 0x7F == 0b1011010 {
        let m = (hw >> 8) & 0b1;
        return tag::get_narrow(Opcode::Push, (hw & 0xFF) | m << 8);
    }
    if (hw >> 5) & 0x7FF == 0b10110110011 {
        return tag::get_narrow(Opcode::Cps, hw & 0x1F);
    }
    if (hw >> 6) & 0x3FF == 0b1011101000 {
        return tag::get_narrow(Opcode::Rev, rd | rm << 3);
    }
    if (hw >> 6) & 0x3FF == 0b1011101001 {
        return tag::get_narrow(Opcode::Rev16, rd | rm << 3);
    }
    if (hw >> 6) & 0x3FF == 0b1011101011 {
        return tag::get_narrow(Opcode::Revsh, rd | rm << 3);
    }
    if (hw >> 9) & 0x7F == 0b1011110 {
        let p = (hw >> 8) & 0b1;
        let mut base = tag::get_narrow(Opcode::Pop, (hw & 0xFF) | p << 8);
        if p == 1 && c.it_pos == ItPos::Within {
            base = tag::as_unpred_it_w(base);
        }
        return base;
    }
    if (hw >> 8) & 0xFF == 0b10111110 {
        return tag::get_narrow(Opcode::Bkpt, hw & 0xFF);
    }
    if (hw >> 8) & 0xFF == 0b10111111 {
        let mask = hw & 0xF;
        if mask != 0 {
            let firstcond = (hw >> 4) & 0xF;
            let mut base = tag::get_narrow(Opcode::It, hw & 0xFF);
            if firstcond == 0xF {
                base = tag::as_unpred_w(base);
            }
            if c.it_pos != ItPos::Outside {
                base = tag::as_unpred_it_w(base);
            }
            return base;
        }
        return tag::get_narrow(Opcode::Nop, 0);
    }
    undefined_narrow()
}

/// An eight-bit move-immediate encoding: `MOVS rd, #imm8`.
pub open spec fn is_mov_imm_enc(hw: u32) -> bool {
    (hw >> 11) & 0x1F == 0b00100
}

/// Decodes one 16-bit halfword under the given context.
pub fn decode_thumb_narrow(hw: u32, c: InstructionContext) -> (r: ByteInstruction)
    ensures
        narrow_ok(r),
        is_mov_imm_enc(hw) ==> tag::instr_op(r) == Opcode::MovImm && tag::instr_data(r) == (hw
            & 0x7FF),
{
    proof {
        assert((hw >> 11) & 0x1F == 0b00100 ==> (((hw & 0xFF) | ((hw >> 8) & 0x7) << 8) == (hw
            & 0x7FF) && ((hw & 0x7FF) & 0xFFFF == (hw & 0x7FF)) && (hw >> 11) & 0x1F < 0b01000))
            by (bit_vector);
    }
    let top5 = (hw >> 11) & 0x1F;
    let imm5 = (hw >> 6) & 0x1F;
    let rm = (hw >> 3) & 0x7;
    let rt = hw & 0x7;
    let rn3 = (hw >> 3) & 0x7;
    let imm8 = hw & 0xFF;
    let r8 = (hw >> 8) & 0x7;

    if top5 < 0b01000 {
        return id_n_basic(hw, c);
    }
    if top5 == 0b01000 {
        if (hw >> 10) & 0b1 == 0 {
            return id_n_data_processing(hw, c);
        }
        return id_n_special_data(hw, c);
    }
    if top5 == 0b01001 {
        return tag::get_narrow(Opcode::LdrLit, (imm8 << 2) | r8 << 10);
    }
    if top5 == 0b01010 || top5 == 0b01011 {
        let op3 = (hw >> 9) & 0x7;
        let rm3 = (hw >> 6) & 0x7;
        let three_reg = rt | rn3 << 3 | rm3 << 6;
        if op3 == 0b000 {
            return tag::get_narrow(Opcode::StrReg, three_reg);
        }
        if op3 == 0b001 {
            return tag::get_narrow(Opcode::StrhReg, three_reg);
        }
        if op3 == 0b010 {
            return tag::get_narrow(Opcode::StrbReg, three_reg);
        }
        if op3 == 0b011 {
            return tag::get_narrow(Opcode::LdrsbReg, three_reg);
        }
        if op3 == 0b100 {
            return tag::get_narrow(Opcode::LdrReg, three_reg);
        }
        if op3 == 0b101 {
            return tag::get_narrow(Opcode::LdrhReg, three_reg);
        }
        if op3 == 0b110 {
            return tag::get_narrow(Opcode::LdrbReg, three_reg);
        }
        return tag::get_narrow(Opcode::LdrshReg, three_reg);
    }
    if top5 == 0b01100 {
        return tag::get_narrow(Opcode::StrImm, imm5 | rt << 8 | rn3 << 12);
    }
    if top5 == 0b01101 {
        return tag::get_narrow(Opcode::LdrImm, imm5 | rt << 8 | rn3 << 12);
    }
    if top5 == 0b01110 {
        return tag::get_narrow(Opcode::StrbImm, rt | rn3 << 3 | imm5 << 6);
    }
    if top5 == 0b01111 {
        return tag::get_narrow(Opcode::LdrbImm, rt | rn3 << 3 | imm5 << 6);
    }
    if top5 == 0b10000 {
        return tag::get_narrow(Opcode::StrhImm, (imm5 << 1) | rt << 6 | rn3 << 9);
    }
    if top5 == 0b10001 {
        return tag::get_narrow(Opcode::LdrhImm, (imm5 << 1) | rt << 6 | rn3 << 9);
    }
    if top5 == 0b10010 {
        return tag::get_narrow(Opcode::StrImm, imm8 | r8 << 8 | 13 << 12);
    }
    if top5 == 0b10011 {
        return tag::get_narrow(Opcode::LdrImm, imm8 | r8 << 8 | 13 << 12);
    }
    if top5 == 0b10100 {
        return tag::get_narrow(Opcode::Adr, (imm8 << 2) | r8 << 10);
    }
    if top5 == 0b10101 {
        return tag::get_narrow(Opcode::AddSpImm, (imm8 << 2) | r8 << 10);
    }
    if top5 == 0b10110 || top5 == 0b10111 {
        return id_n_misc(hw, c);
    }
    if top5 == 0b11000 {
        return tag::get_narrow(Opcode::Stm, (hw & 0xFF) | r8 << 8);
    }
    if top5 == 0b11001 {
        let registers = hw & 0xFF;
        let wback: u32 = if r8 < 8 && bitset(registers, r8) {
            0
        } else {
            1
        };
        return tag::get_narrow(Opcode::Ldm, registers | r8 << 8 | wback << 11);
    }
    if top5 == 0b11010 || top5 == 0b11011 {
        let cond = (hw >> 8) & 0xF;
        if cond == 0xF {
            return tag::get_narrow(Opcode::Svc, imm8);
        }
        if cond == 0xE {
            return tag::get_narrow(Opcode::Udf, imm8);
        }
        let mut base = tag::get_narrow(Opcode::BranchCond, imm8 | cond << 8);
        if c.it_pos != ItPos::Outside {
            base = tag::as_unpred_it_w(base);
        }
        return base;
    }
    if top5 == 0b11100 {
        let mut base = tag::get_narrow(Opcode::Branch, hw & 0x7FF);
        if c.it_pos == ItPos::Within {
            base = tag::as_unpred_it_w(base);
        }
        return base;
    }
    undefined_narrow()
}

} // verus!
