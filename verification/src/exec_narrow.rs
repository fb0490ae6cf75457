//! Executor handlers for the narrow (16-bit) operations. Each handler
//! unpacks the operand fields from the 16-bit data payload in the layout
//! the decoder packed, performs the operation with the bit primitives,
//! writes back and updates the flags.

use vstd::prelude::*;
use crate::bits::{bitset, add_with_carry, sign_extend, shifted_sign_extend, word_align};
use crate::board::{Board, pc_even_kept};
use crate::cpu::Condition;
use crate::opcode::Opcode;

verus! {

broadcast use crate::bits::lemma_and_bound;

/// A 32-bit value with its bytes reversed.
pub(crate) fn rev_bytes(x: u32) -> u32 {
    (x >> 24) | ((x >> 8) & 0xFF00) | ((x << 8) & 0xFF0000) | (x << 24)
}

/// A 32-bit value with the bytes of each halfword reversed.
pub(crate) fn rev_bytes16(x: u32) -> u32 {
    ((x & 0x00FF00FF) << 8) | ((x >> 8) & 0x00FF00FF)
}

impl Board {
    pub(crate) fn execute_narrow(&mut self, opcode: Opcode, data: u32)
        requires
            old(self).inv(),
        ensures
            final(self).inv(),
            pc_even_kept(*old(self), *final(self)),
    {
        match opcode {
            Opcode::AdcReg => self.n_adc_reg(data),
            Opcode::AddImm => self.n_add_imm(data),
            Opcode::AddReg => self.n_add_reg(data),
            Opcode::AddSpImm => self.n_add_sp_imm(data),
            Opcode::Adr => self.n_adr(data),
            Opcode::AndReg => self.n_and_reg(data),
            Opcode::AsrImm => self.n_asr_imm(data),
            Opcode::AsrReg => self.n_asr_reg(data),
            Opcode::Branch => self.n_branch(data),
            Opcode::BranchCond => self.n_branch_cond(data),
            Opcode::BicReg => self.n_bic_reg(data),
            Opcode::Bkpt => self.n_bkpt(data),
            Opcode::Blx => self.n_blx_reg(data),
            Opcode::Bx => self.n_bx(data),
            Opcode::Cbz => self.n_cbz(data),
            Opcode::CmnReg => self.n_cmn_reg(data),
            Opcode::CmpImm => self.n_cmp_imm(data),
            Opcode::CmpReg => self.n_cmp_reg(data),
            Opcode::Cps => self.n_cps(data),
            Opcode::EorReg => self.n_eor_reg(data),
            Opcode::It => self.n_it(data),
            Opcode::Ldm => self.n_ldm(data),
            Opcode::LdrImm => self.n_ldr_imm(data),
            Opcode::LdrLit => self.n_ldr_lit(data),
            Opcode::LdrReg => self.n_ldr_reg(data),
            Opcode::LdrbImm => self.n_ldrb_imm(data),
            Opcode::LdrbReg => self.n_ldrb_reg(data),
            Opcode::LdrhImm => self.n_ldrh_imm(data),
            Opcode::LdrhReg => self.n_ldrh_reg(data),
            Opcode::LdrsbReg => self.n_ldrsb_reg(data),
            Opcode::LdrshReg => self.n_ldrsh_reg(data),
            Opcode::LslImm => self.n_lsl_imm(data),
            Opcode::LslReg => self.n_lsl_reg(data),
            Opcode::LsrImm => self.n_lsr_imm(data),
            Opcode::LsrReg => self.n_lsr_reg(data),
            Opcode::MovImm => self.n_mov_imm(data),
            Opcode::MovReg => self.n_mov_reg(data),
            Opcode::Mul => self.n_mul(data),
            Opcode::MvnReg => self.n_mvn_reg(data),
            Opcode::Nop => self.n_nop(data),
            Opcode::OrrReg => self.n_orr_reg(data),
            Opcode::Pop => self.n_pop(data),
            Opcode::Push => self.n_push(data),
            Opcode::Rev => self.n_rev(data),
            Opcode::Rev16 => self.n_rev16(data),
            Opcode::Revsh => self.n_revsh(data),
            Opcode::RorReg => self.n_ror_reg(data),
            Opcode::RsbImm => self.n_rsb_imm(data),
            Opcode::SbcReg => self.n_sbc_reg(data),
            Opcode::Stm => self.n_stm(data),
            Opcode::StrImm => self.n_str_imm(data),
            Opcode::StrReg => self.n_str_reg(data),
            Opcode::StrbImm => self.n_strb_imm(data),
            Opcode::StrbReg => self.n_strb_reg(data),
            Opcode::StrhImm => self.n_strh_imm(data),
            Opcode::StrhReg => self.n_strh_reg(data),
            Opcode::SubImm => self.n_sub_imm(data),
            Opcode::SubReg => self.n_sub_reg(data),
            Opcode::SubSpImm => self.n_sub_sp_imm(data),
            Opcode::Svc => self.n_svc(data),
            Opcode::Sxtb => self.n_sxtb(data),
            Opcode::Sxth => self.n_sxth(data),
            Opcode::TstReg => self.n_tst_reg(data),
            Opcode::Udf => self.n_udf(data),
            Opcode::Uxtb => self.n_uxtb(data),
            Opcode::Uxth => self.n_uxth(data),
            _ => {
                self.pending_default_handler = true;
            },
        }
    }

    fn n_adc_reg(&mut self, data: u32)
        requires
            old(self).inv(),
        ensures
            final(self).inv(),
            pc_even_kept(*old(self), *final(self)),
            crate::board::alu_wrote(*old(self), *final(self), data & 0b111, crate::bits::awc_result(crate::cpu::reg_of(old(self).cpu, data & 0b111), crate::cpu::reg_of(old(self).cpu, (data >> 3) & 0b111), crate::cpu::flag_bit(old(self).cpu.apsr.c)), old(self).cpu.itstate.state == 0, crate::bits::bit_of(crate::bits::awc_result(crate::cpu::reg_of(old(self).cpu, data & 0b111), crate::cpu::reg_of(old(self).cpu, (data >> 3) & 0b111), crate::cpu::flag_bit(old(self).cpu.apsr.c)), 31), crate::bits::awc_result(crate::cpu::reg_of(old(self).cpu, data & 0b111), crate::cpu::reg_of(old(self).cpu, (data >> 3) & 0b111), crate::cpu::flag_bit(old(self).cpu.apsr.c)) == 0, crate::bits::awc_carry(crate::cpu::reg_of(old(self).cpu, data & 0b111), crate::cpu::reg_of(old(self).cpu, (data >> 3) & 0b111), crate::cpu::flag_bit(old(self).cpu.apsr.c)), crate::bits::awc_overflow(crate::cpu::reg_of(old(self).cpu, data & 0b111), crate::cpu::reg_of(old(self).cpu, (data >> 3) & 0b111), crate::cpu::flag_bit(old(self).cpu.apsr.c))),
    {
        let rd = data & 0b111;
        let rm = (data >> 3) & 0b111;
        let (result, carry, overflow) = add_with_carry(
            self.read_reg(rd),
            self.read_reg(rm),
            self.cpu.carry(),
        );
        self.write_reg(rd, result);
        if !self.in_it_block() {
            self.set_flags_nzcv(result, carry, overflow);
        }
    }

    fn n_add_imm(&mut self, data: u32)
        requires
            old(self).inv(),
        ensures
            final(self).inv(),
            pc_even_kept(*old(self), *final(self)),
            crate::board::alu_wrote(*old(self), *final(self), (data >> 8) & 0x7, crate::bits::awc_result(crate::cpu::reg_of(old(self).cpu, (data >> 11) & 0x7), data & 0xFF, 0u32), old(self).cpu.itstate.state == 0, crate::bits::bit_of(crate::bits::awc_result(crate::cpu::reg_of(old(self).cpu, (data >> 11) & 0x7), data & 0xFF, 0u32), 31), crate::bits::awc_result(crate::cpu::reg_of(old(self).cpu, (data >> 11) & 0x7), data & 0xFF, 0u32) == 0, crate::bits::awc_carry(crate::cpu::reg_of(old(self).cpu, (data >> 11) & 0x7), data & 0xFF, 0u32), crate::bits::awc_overflow(crate::cpu::reg_of(old(self).cpu, (data >> 11) & 0x7), data & 0xFF, 0u32)),
    {
        let imm32 = data & 0xFF;
        let rn = (data >> 11) & 0x7;
        let rd = (data >> 8) & 0x7;
        let (result, carry, overflow) = add_with_carry(self.read_reg(rn), imm32, 0);
        self.write_reg(rd, result);
        if !self.in_it_block() {
            self.set_flags_nzcv(result, carry, overflow);
        }
    }

    fn n_add_reg(&mut self, data: u32)
        requires
            old(self).inv(),
        ensures
            final(self).inv(),
            pc_even_kept(*old(self), *final(self)),
            data & 0xF != 15 ==> crate::board::alu_wrote(*old(self), *final(self), data & 0xF, crate::bits::awc_result(crate::cpu::reg_of(old(self).cpu, (data >> 8) & 0xF), crate::cpu::reg_of(old(self).cpu, (data >> 4) & 0xF), 0u32), (data >> 12) > 0, crate::bits::bit_of(crate::bits::awc_result(crate::cpu::reg_of(old(self).cpu, (data >> 8) & 0xF), crate::cpu::reg_of(old(self).cpu, (data >> 4) & 0xF), 0u32), 31), crate::bits::awc_result(crate::cpu::reg_of(old(self).cpu, (data >> 8) & 0xF), crate::cpu::reg_of(old(self).cpu, (data >> 4) & 0xF), 0u32) == 0, crate::bits::awc_carry(crate::cpu::reg_of(old(self).cpu, (data >> 8) & 0xF), crate::cpu::reg_of(old(self).cpu, (data >> 4) & 0xF), 0u32), crate::bits::awc_overflow(crate::cpu::reg_of(old(self).cpu, (data >> 8) & 0xF), crate::cpu::reg_of(old(self).cpu, (data >> 4) & 0xF), 0u32)),
            data & 0xF == 15 ==> final(self).cpu.instr_pc == crate::bits::awc_result(crate::cpu::reg_of(old(self).cpu, (data >> 8) & 0xF), crate::cpu::reg_of(old(self).cpu, (data >> 4) & 0xF), 0u32) & !0b1u32,
    {
        let rd = data & 0xF;
        let rm = (data >> 4) & 0xF;
        let rn = (data >> 8) & 0xF;
        let (result, carry, overflow) = add_with_carry(self.read_reg(rn), self.read_reg(rm), 0);
        if rd == 15 {
            self.alu_write_pc(result);
        } else {
            self.write_reg(rd, result);
            if (data >> 12) > 0 {
                self.set_flags_nzcv(result, carry, overflow);
            }
        }
    }

    fn n_add_sp_imm(&mut self, data: u32)
        requires
            old(self).inv(),
        ensures
            final(self).inv(),
            pc_even_kept(*old(self), *final(self)),
            crate::board::alu_wrote(*old(self), *final(self), (data >> 10) & 0xF, vstd::wrapping::u32_specs::wrapping_add(crate::cpu::sp_of(old(self).cpu), data & 0x3FF), false, false, false, false, false),
    {
        let imm10 = data & 0x3FF;
        let rd = (data >> 10) & 0xF;
        let sp = self.read_sp();
        self.write_reg(rd, sp.wrapping_add(imm10));
    }

    fn n_adr(&mut self, data: u32)
        requires
            old(self).inv(),
        ensures
            final(self).inv(),
            pc_even_kept(*old(self), *final(self)),
            crate::board::alu_wrote(*old(self), *final(self), (data >> 10) & 0xF, vstd::wrapping::u32_specs::wrapping_add(crate::bits::align_of(old(self).cpu.registers@[15], 4), data & 0x3FF), false, false, false, false, false),
    {
        let imm10 = data & 0x3FF;
        let rd = (data >> 10) & 0xF;
        let pc = self.read_pc();
        let result = word_align(pc).wrapping_add(imm10);
        self.write_reg(rd, result);
    }

    fn n_and_reg(&mut self, data: u32)
        requires
            old(self).inv(),
        ensures
            final(self).inv(),
            pc_even_kept(*old(self), *final(self)),
            crate::board::alu_wrote(*old(self), *final(self), data & 0b111, crate::cpu::reg_of(old(self).cpu, data & 0b111) & crate::cpu::reg_of(old(self).cpu, (data >> 3) & 0b111), old(self).cpu.itstate.state == 0, crate::bits::bit_of(crate::cpu::reg_of(old(self).cpu, data & 0b111) & crate::cpu::reg_of(old(self).cpu, (data >> 3) & 0b111), 31), crate::cpu::reg_of(old(self).cpu, data & 0b111) & crate::cpu::reg_of(old(self).cpu, (data >> 3) & 0b111) == 0, old(self).cpu.apsr.c, old(self).cpu.apsr.v),
    {
        let rd = data & 0b111;
        let rm = (data >> 3) & 0b111;
        let result = self.read_reg(rd) & self.read_reg(rm);
        self.write_reg(rd, result);
        if !self.in_it_block() {
            self.set_flags_nz(result);
        }
    }

    fn n_asr_imm(&mut self, data: u32)
        requires
            old(self).inv(),
        ensures
            final(self).inv(),
            pc_even_kept(*old(self), *final(self)),
            ({ let p = (if data >> 6 == 0 { (crate::cpu::reg_of(old(self).cpu, (data >> 3) & 0x7), old(self).cpu.apsr.c) } else { crate::bits::asr_c_of(crate::cpu::reg_of(old(self).cpu, (data >> 3) & 0x7), data >> 6) }); crate::board::alu_wrote(*old(self), *final(self), data & 0x7, p.0, old(self).cpu.itstate.state == 0, crate::bits::bit_of(p.0, 31), p.0 == 0, p.1, old(self).cpu.apsr.v) }),
    {
        let rd = data & 0x7;
        let rm = (data >> 3) & 0x7;
        let shift_n = data >> 6;
        let (result, carry) = self.asr_c(self.read_reg(rm), shift_n);
        self.write_reg(rd, result);
        if !self.in_it_block() {
            self.set_flags_nzc(result, carry);
        }
    }

    fn n_asr_reg(&mut self, data: u32)
        requires
            old(self).inv(),
        ensures
            final(self).inv(),
            pc_even_kept(*old(self), *final(self)),
            ({ let p = (if crate::cpu::reg_of(old(self).cpu, (data >> 3) & 0x7) & 0xFF == 0 { (crate::cpu::reg_of(old(self).cpu, data & 0x7), old(self).cpu.apsr.c) } else { crate::bits::asr_c_of(crate::cpu::reg_of(old(self).cpu, data & 0x7), crate::cpu::reg_of(old(self).cpu, (data >> 3) & 0x7) & 0xFF) }); crate::board::alu_wrote(*old(self), *final(self), data & 0x7, p.0, old(self).cpu.itstate.state == 0, crate::bits::bit_of(p.0, 31), p.0 == 0, p.1, old(self).cpu.apsr.v) }),
    {
        let rdn = data & 0x7;
        let rm = (data >> 3) & 0x7;
        let shift_n = self.read_reg(rm) & 0xFF;
        let (result, carry) = self.asr_c(self.read_reg(rdn), shift_n);
        self.write_reg(rdn, result);
        if !self.in_it_block() {
            self.set_flags_nzc(result, carry);
        }
    }

    fn n_branch(&mut self, data: u32)
        requires
            old(self).inv(),
        ensures
            final(self).inv(),
            pc_even_kept(*old(self), *final(self)),
            final(self).cpu.instr_pc == vstd::wrapping::u32_specs::wrapping_add(old(self).cpu.registers@[15], crate::bits::sign_extend_of(data & 0x7FF, 10) << 1) & !0b1u32,
            !final(self).exclusive_monitors.is_reserved(),
    {
        let imm32 = shifted_sign_extend(data & 0x7FF, 10, 1);
        let pc = self.read_pc();
        self.branch_write_pc(pc.wrapping_add(imm32));
    }

    fn n_branch_cond(&mut self, data: u32)
        requires
            old(self).inv(),
        ensures
            final(self).inv(),
            pc_even_kept(*old(self), *final(self)),
            crate::cpu::cond_holds(old(self).cpu.apsr, crate::cpu::cond_of((data >> 8) & 0xF)) ==> final(self).cpu.instr_pc == vstd::wrapping::u32_specs::wrapping_add(old(self).cpu.registers@[15], crate::bits::sign_extend_of(data & 0xFF, 7) << 1) & !0b1u32,
            !crate::cpu::cond_holds(old(self).cpu.apsr, crate::cpu::cond_of((data >> 8) & 0xF)) ==> *final(self) == *old(self),
    {
        let cond = Condition::new((data >> 8) & 0xF);
        if self.cpu.check_condition(cond) {
            let offset = shifted_sign_extend(data & 0xFF, 7, 1);
            let pc = self.read_pc();
            self.branch_write_pc(pc.wrapping_add(offset));
        }
    }

    fn n_bic_reg(&mut self, data: u32)
        requires
            old(self).inv(),
        ensures
            final(self).inv(),
            pc_even_kept(*old(self), *final(self)),
            crate::board::alu_wrote(*old(self), *final(self), data & 0x7, crate::cpu::reg_of(old(self).cpu, data & 0x7) & !crate::cpu::reg_of(old(self).cpu, (data >> 3) & 0x7), old(self).cpu.itstate.state == 0, crate::bits::bit_of(crate::cpu::reg_of(old(self).cpu, data & 0x7) & !crate::cpu::reg_of(old(self).cpu, (data >> 3) & 0x7), 31), crate::cpu::reg_of(old(self).cpu, data & 0x7) & !crate::cpu::reg_of(old(self).cpu, (data >> 3) & 0x7) == 0, old(self).cpu.apsr.c, old(self).cpu.apsr.v),
    {
        let rdn = data & 0x7;
        let rm = (data >> 3) & 0x7;
        let result = self.read_reg(rdn) & !self.read_reg(rm);
        self.write_reg(rdn, result);
        if !self.in_it_block() {
            self.set_flags_nz(result);
        }
    }

    fn n_bkpt(&mut self, _data: u32)
        requires
            old(self).inv(),
        ensures
            final(self).inv(),
            pc_even_kept(*old(self), *final(self)),
    {
        // A debug-monitor exception would be raised here; the emulator has
        // no debug monitor, so the breakpoint falls through.
    }

    fn n_blx_reg(&mut self, data: u32)
        requires
            old(self).inv(),
        ensures
            final(self).inv(),
            pc_even_kept(*old(self), *final(self)),
            final(self).cpu.registers@ == old(self).cpu.registers@.update(
                14,
                vstd::wrapping::u32_specs::wrapping_sub(old(self).cpu.registers@[15], 2) | 0b1,
            ),
            final(self).cpu.instr_pc == crate::cpu::reg_of(old(self).cpu, data & 0xF) & !0b1u32,
    {
        let rm = data & 0xF;
        let target = self.read_reg(rm);
        let pc = self.read_pc();
        let next_instr_address = pc.wrapping_sub(2);
        self.write_lr(next_instr_address | 0b1);
        self.blx_write_pc(target);
    }

    fn n_bx(&mut self, data: u32)
        requires
            old(self).inv(),
        ensures
            final(self).inv(),
            pc_even_kept(*old(self), *final(self)),
            old(self).cpu.current_mode == crate::cpu::ExecMode::ModeThread ==> final(self).cpu.instr_pc == crate::cpu::reg_of(old(self).cpu, data & 0xF) & !0b1u32 && final(self).cpu.epsr.t == crate::bits::bit_of(crate::cpu::reg_of(old(self).cpu, data & 0xF), 0),
    {
        let rm = data & 0xF;
        let target = self.read_reg(rm);
        self.bx_write_pc(target);
    }

    fn n_cbz(&mut self, data: u32)
        requires
            old(self).inv(),
        ensures
            final(self).inv(),
            pc_even_kept(*old(self), *final(self)),
            (crate::bits::bit_of(data, 10) != (crate::cpu::reg_of(old(self).cpu, (data >> 7) & 0x7) == 0)) ==> final(self).cpu.instr_pc == vstd::wrapping::u32_specs::wrapping_add(old(self).cpu.registers@[15], data & 0x7F) & !0b1u32,
            (crate::bits::bit_of(data, 10) == (crate::cpu::reg_of(old(self).cpu, (data >> 7) & 0x7) == 0)) ==> *final(self) == *old(self),
    {
        let imm7 = data & 0x7F;
        let rn = (data >> 7) & 0x7;
        let nonzero = bitset(data, 10);
        if nonzero != (self.read_reg(rn) == 0) {
            let pc = self.read_pc();
            self.branch_write_pc(pc.wrapping_add(imm7));
        }
    }

    fn n_cmn_reg(&mut self, data: u32)
        requires
            old(self).inv(),
        ensures
            final(self).inv(),
            pc_even_kept(*old(self), *final(self)),
            crate::board::flags_wrote(*old(self), *final(self), crate::bits::bit_of(crate::bits::awc_result(crate::cpu::reg_of(old(self).cpu, data & 0x7), crate::cpu::reg_of(old(self).cpu, (data >> 3) & 0x7), 0u32), 31), crate::bits::awc_result(crate::cpu::reg_of(old(self).cpu, data & 0x7), crate::cpu::reg_of(old(self).cpu, (data >> 3) & 0x7), 0u32) == 0, crate::bits::awc_carry(crate::cpu::reg_of(old(self).cpu, data & 0x7), crate::cpu::reg_of(old(self).cpu, (data >> 3) & 0x7), 0u32), crate::bits::awc_overflow(crate::cpu::reg_of(old(self).cpu, data & 0x7), crate::cpu::reg_of(old(self).cpu, (data >> 3) & 0x7), 0u32)),
    {
        let rn = data & 0x7;
        let rm = (data >> 3) & 0x7;
        let (result, carry, overflow) = add_with_carry(self.read_reg(rn), self.read_reg(rm), 0);
        self.set_flags_nzcv(result, carry, overflow);
    }

    fn n_cmp_imm(&mut self, data: u32)
        requires
            old(self).inv(),
        ensures
            final(self).inv(),
            pc_even_kept(*old(self), *final(self)),
            crate::board::flags_wrote(*old(self), *final(self), crate::bits::bit_of(crate::bits::awc_result(crate::cpu::reg_of(old(self).cpu, (data >> 8) & 0xF), !(data & 0xFF), 1u32), 31), crate::bits::awc_result(crate::cpu::reg_of(old(self).cpu, (data >> 8) & 0xF), !(data & 0xFF), 1u32) == 0, crate::bits::awc_carry(crate::cpu::reg_of(old(self).cpu, (data >> 8) & 0xF), !(data & 0xFF), 1u32), crate::bits::awc_overflow(crate::cpu::reg_of(old(self).cpu, (data >> 8) & 0xF), !(data & 0xFF), 1u32)),
    {
        let rn = (data >> 8) & 0xF;
        let imm32 = data & 0xFF;
        let (result, carry, overflow) = add_with_carry(self.read_reg(rn), !imm32, 1);
        self.set_flags_nzcv(result, carry, overflow);
    }

    fn n_cmp_reg(&mut self, data: u32)
        requires
            old(self).inv(),
        ensures
            final(self).inv(),
            pc_even_kept(*old(self), *final(self)),
            crate::board::flags_wrote(*old(self), *final(self), crate::bits::bit_of(crate::bits::awc_result(crate::cpu::reg_of(old(self).cpu, data & 0xF), !crate::cpu::reg_of(old(self).cpu, (data >> 4) & 0xF), 1u32), 31), crate::bits::awc_result(crate::cpu::reg_of(old(self).cpu, data & 0xF), !crate::cpu::reg_of(old(self).cpu, (data >> 4) & 0xF), 1u32) == 0, crate::bits::awc_carry(crate::cpu::reg_of(old(self).cpu, data & 0xF), !crate::cpu::reg_of(old(self).cpu, (data >> 4) & 0xF), 1u32), crate::bits::awc_overflow(crate::cpu::reg_of(old(self).cpu, data & 0xF), !crate::cpu::reg_of(old(self).cpu, (data >> 4) & 0xF), 1u32)),
    {
        let rn = data & 0xF;
        let rm = (data >> 4) & 0xF;
        let (result, carry, overflow) = add_with_carry(
            self.read_reg(rn),
            !self.read_reg(rm),
            1,
        );
        self.set_flags_nzcv(result, carry, overflow);
    }

    fn n_cps(&mut self, _data: u32)
        requires
            old(self).inv(),
        ensures
            final(self).inv(),
            pc_even_kept(*old(self), *final(self)),
    {
        // Interrupt masking is outside this emulator's scope.
    }

    fn n_eor_reg(&mut self, data: u32)
        requires
            old(self).inv(),
        ensures
            final(self).inv(),
            pc_even_kept(*old(self), *final(self)),
            crate::board::alu_wrote(*old(self), *final(self), data & 0x7, crate::cpu::reg_of(old(self).cpu, data & 0x7) ^ crate::cpu::reg_of(old(self).cpu, (data >> 3) & 0x7), old(self).cpu.itstate.state == 0, crate::bits::bit_of(crate::cpu::reg_of(old(self).cpu, data & 0x7) ^ crate::cpu::reg_of(old(self).cpu, (data >> 3) & 0x7), 31), crate::cpu::reg_of(old(self).cpu, data & 0x7) ^ crate::cpu::reg_of(old(self).cpu, (data >> 3) & 0x7) == 0, old(self).cpu.apsr.c, old(self).cpu.apsr.v),
    {
        let rdn = data & 0x7;
        let rm = (data >> 3) & 0x7;
        let result = self.read_reg(rdn) ^ self.read_reg(rm);
        self.write_reg(rdn, result);
        if !self.in_it_block() {
            self.set_flags_nz(result);
        }
    }

    /// The IT operand byte is copied verbatim into the IT state.
    fn n_it(&mut self, data: u32)
        requires
            old(self).inv(),
        ensures
            final(self).inv(),
            final(self).cpu.itstate.state == data,
            pc_even_kept(*old(self), *final(self)),
    {
        self.cpu.itstate.state = data;
    }

    fn n_ldm(&mut self, data: u32)
        requires
            old(self).inv(),
        ensures
            final(self).inv(),
            pc_even_kept(*old(self), *final(self)),
    {
        let rn = (data >> 8) & 0x7;
        let registers = data & 0xFF;
        let mut address = self.read_reg(rn);
        let mut i: u32 = 0;
        while i < 8
            invariant
                self.inv(),
                i <= 8,
                self.cpu.instr_pc == old(self).cpu.instr_pc,
            decreases 8 - i,
        {
            if bitset(registers, i) {
                let v = self.read_word(address);
                self.write_reg(i, v);
                address = address.wrapping_add(4);
            }
            i = i + 1;
        }
        if bitset(data, 11) {
            self.write_reg(rn, address);
        }
    }

    fn n_ldr_imm(&mut self, data: u32)
        requires
            old(self).inv(),
        ensures
            final(self).inv(),
            pc_even_kept(*old(self), *final(self)),
            ({ let v = match crate::memory::read_u_of(old(self).memory, vstd::wrapping::u32_specs::wrapping_add(crate::cpu::reg_of(old(self).cpu, (data >> 12) & 0xF), (data & 0xFF) << 2), 4) { Ok(v) => v, Err(_) => 0u32 }; final(self).cpu.registers@ == old(self).cpu.registers@.update(((data >> 8) & 0xF) as int, v) && final(self).cpu.apsr == old(self).cpu.apsr }),
    {
        let rt = (data >> 8) & 0xF;
        let rn = (data >> 12) & 0xF;
        let imm32 = (data & 0xFF) << 2;
        let address = self.read_reg(rn).wrapping_add(imm32);
        let v = self.read_word(address);
        self.write_reg(rt, v);
    }

    fn n_ldr_lit(&mut self, data: u32)
        requires
            old(self).inv(),
        ensures
            final(self).inv(),
            pc_even_kept(*old(self), *final(self)),
    {
        let rt = (data >> 10) & 0xF;
        let imm10 = data & 0x3FF;
        let pc = self.read_pc();
        let address = word_align(pc).wrapping_add(imm10);
        let value = self.read_word(address);
        if rt == 15 {
            if (address & 0b11) == 0 {
                self.load_write_pc(value);
            } else {
                self.pending_default_handler = true;
            }
        } else {
            self.write_reg(rt, value);
        }
    }

    fn n_ldr_reg(&mut self, data: u32)
        requires
            old(self).inv(),
        ensures
            final(self).inv(),
            pc_even_kept(*old(self), *final(self)),
            ({ let v = match crate::memory::read_u_of(old(self).memory, vstd::wrapping::u32_specs::wrapping_add(crate::cpu::reg_of(old(self).cpu, (data >> 3) & 0b111), crate::cpu::reg_of(old(self).cpu, (data >> 6) & 0b111)), 4) { Ok(v) => v, Err(_) => 0u32 }; final(self).cpu.registers@ == old(self).cpu.registers@.update((data & 0b111) as int, v) && final(self).cpu.apsr == old(self).cpu.apsr }),
    {
        let rt = data & 0b111;
        let rn = (data >> 3) & 0b111;
        let rm = (data >> 6) & 0b111;
        let address = self.read_reg(rn).wrapping_add(self.read_reg(rm));
        let value = self.read_word(address);
        self.write_reg(rt, value);
    }

    fn n_ldrb_imm(&mut self, data: u32)
        requires
            old(self).inv(),
        ensures
            final(self).inv(),
            pc_even_kept(*old(self), *final(self)),
            ({ let v = match crate::memory::read_u_of(old(self).memory, vstd::wrapping::u32_specs::wrapping_add(crate::cpu::reg_of(old(self).cpu, (data >> 3) & 0x7), (data >> 6) & 0x1F), 1) { Ok(v) => v, Err(_) => 0u32 }; final(self).cpu.registers@ == old(self).cpu.registers@.update((data & 0x7) as int, v) && final(self).cpu.apsr == old(self).cpu.apsr }),
    {
        let rt = data & 0x7;
        let rn = (data >> 3) & 0x7;
        let imm5 = (data >> 6) & 0x1F;
        let address = self.read_reg(rn).wrapping_add(imm5);
        let loaded = self.read_mem_u(address, 1);
        self.write_reg(rt, loaded);
    }

    fn n_ldrb_reg(&mut self, data: u32)
        requires
            old(self).inv(),
        ensures
            final(self).inv(),
            pc_even_kept(*old(self), *final(self)),
            ({ let v = match crate::memory::read_u_of(old(self).memory, vstd::wrapping::u32_specs::wrapping_add(crate::cpu::reg_of(old(self).cpu, (data >> 3) & 0x7), crate::cpu::reg_of(old(self).cpu, (data >> 6) & 0x7)), 1) { Ok(v) => v, Err(_) => 0u32 }; final(self).cpu.registers@ == old(self).cpu.registers@.update((data & 0x7) as int, v) && final(self).cpu.apsr == old(self).cpu.apsr }),
    {
        let rt = data & 0x7;
        let rn = (data >> 3) & 0x7;
        let rm = (data >> 6) & 0x7;
        let address = self.read_reg(rn).wrapping_add(self.read_reg(rm));
        let loaded = self.read_mem_u(address, 1);
        self.write_reg(rt, loaded);
    }

    fn n_ldrh_imm(&mut self, data: u32)
        requires
            old(self).inv(),
        ensures
            final(self).inv(),
            pc_even_kept(*old(self), *final(self)),
            ({ let v = match crate::memory::read_u_of(old(self).memory, vstd::wrapping::u32_specs::wrapping_add(crate::cpu::reg_of(old(self).cpu, (data >> 9) & 0x7), data & 0x3F), 2) { Ok(v) => v, Err(_) => 0u32 }; final(self).cpu.registers@ == old(self).cpu.registers@.update(((data >> 6) & 0x7) as int, v) && final(self).cpu.apsr == old(self).cpu.apsr }),
    {
        let imm6 = data & 0x3F;
        let rt = (data >> 6) & 0x7;
        let rn = (data >> 9) & 0x7;
        let address = self.read_reg(rn).wrapping_add(imm6);
        let loaded = self.read_mem_u(address, 2);
        self.write_reg(rt, loaded);
    }

    fn n_ldrh_reg(&mut self, data: u32)
        requires
            old(self).inv(),
        ensures
            final(self).inv(),
            pc_even_kept(*old(self), *final(self)),
            ({ let v = match crate::memory::read_u_of(old(self).memory, vstd::wrapping::u32_specs::wrapping_add(crate::cpu::reg_of(old(self).cpu, (data >> 3) & 0x7), crate::cpu::reg_of(old(self).cpu, (data >> 6) & 0x7)), 2) { Ok(v) => v, Err(_) => 0u32 }; final(self).cpu.registers@ == old(self).cpu.registers@.update((data & 0x7) as int, v) && final(self).cpu.apsr == old(self).cpu.apsr }),
    {
        let rt = data & 0x7;
        let rn = (data >> 3) & 0x7;
        let rm = (data >> 6) & 0x7;
        let address = self.read_reg(rn).wrapping_add(self.read_reg(rm));
        let loaded = self.read_mem_u(address, 2);
        self.write_reg(rt, loaded);
    }

    fn n_ldrsb_reg(&mut self, data: u32)
        requires
            old(self).inv(),
        ensures
            final(self).inv(),
            pc_even_kept(*old(self), *final(self)),
            ({ let v = match crate::memory::read_u_of(old(self).memory, vstd::wrapping::u32_specs::wrapping_add(crate::cpu::reg_of(old(self).cpu, (data >> 3) & 0x7), crate::cpu::reg_of(old(self).cpu, (data >> 6) & 0x7)), 1) { Ok(v) => v, Err(_) => 0u32 }; final(self).cpu.registers@ == old(self).cpu.registers@.update((data & 0x7) as int, crate::bits::sign_extend_of(v, 7)) && final(self).cpu.apsr == old(self).cpu.apsr }),
    {
        let rt = data & 0x7;
        let rn = (data >> 3) & 0x7;
        let rm = (data >> 6) & 0x7;
        let address = self.read_reg(rn).wrapping_add(self.read_reg(rm));
        let loaded = self.read_mem_u(address, 1);
        self.write_reg(rt, sign_extend(loaded, 7));
    }

    fn n_ldrsh_reg(&mut self, data: u32)
        requires
            old(self).inv(),
        ensures
            final(self).inv(),
            pc_even_kept(*old(self), *final(self)),
            ({ let v = match crate::memory::read_u_of(old(self).memory, vstd::wrapping::u32_specs::wrapping_add(crate::cpu::reg_of(old(self).cpu, (data >> 3) & 0x7), crate::cpu::reg_of(old(self).cpu, (data >> 6) & 0x7)), 2) { Ok(v) => v, Err(_) => 0u32 }; final(self).cpu.registers@ == old(self).cpu.registers@.update((data & 0x7) as int, crate::bits::sign_extend_of(v, 15)) && final(self).cpu.apsr == old(self).cpu.apsr }),
    {
        let rt = data & 0x7;
        let rn = (data >> 3) & 0x7;
        let rm = (data >> 6) & 0x7;
        let address = self.read_reg(rn).wrapping_add(self.read_reg(rm));
        let loaded = self.read_mem_u(address, 2);
        self.write_reg(rt, sign_extend(loaded, 15));
    }

    fn n_lsl_imm(&mut self, data: u32)
        requires
            old(self).inv(),
        ensures
            final(self).inv(),
            pc_even_kept(*old(self), *final(self)),
            ({ let p = (if data >> 6 == 0 { (crate::cpu::reg_of(old(self).cpu, (data >> 3) & 0x7), old(self).cpu.apsr.c) } else { crate::bits::lsl_c_of(crate::cpu::reg_of(old(self).cpu, (data >> 3) & 0x7), data >> 6) }); crate::board::alu_wrote(*old(self), *final(self), data & 0x7, p.0, old(self).cpu.itstate.state == 0, crate::bits::bit_of(p.0, 31), p.0 == 0, p.1, old(self).cpu.apsr.v) }),
    {
        let rd = data & 0x7;
        let rm = (data >> 3) & 0x7;
        let shift_n = data >> 6;
        let (result, carry) = self.lsl_c(self.read_reg(rm), shift_n);
        self.write_reg(rd, result);
        if !self.in_it_block() {
            self.set_flags_nzc(result, carry);
        }
    }

    fn n_lsl_reg(&mut self, data: u32)
        requires
            old(self).inv(),
        ensures
            final(self).inv(),
            pc_even_kept(*old(self), *final(self)),
            ({ let p = (if crate::cpu::reg_of(old(self).cpu, (data >> 3) & 0x7) & 0xFF == 0 { (crate::cpu::reg_of(old(self).cpu, data & 0x7), old(self).cpu.apsr.c) } else { crate::bits::lsl_c_of(crate::cpu::reg_of(old(self).cpu, data & 0x7), crate::cpu::reg_of(old(self).cpu, (data >> 3) & 0x7) & 0xFF) }); crate::board::alu_wrote(*old(self), *final(self), data & 0x7, p.0, old(self).cpu.itstate.state == 0, crate::bits::bit_of(p.0, 31), p.0 == 0, p.1, old(self).cpu.apsr.v) }),
    {
        let rdn = data & 0x7;
        let rm = (data >> 3) & 0x7;
        let shift_n = self.read_reg(rm) & 0xFF;
        let (result, carry) = self.lsl_c(self.read_reg(rdn), shift_n);
        self.write_reg(rdn, result);
        if !self.in_it_block() {
            self.set_flags_nzc(result, carry);
        }
    }

    fn n_lsr_imm(&mut self, data: u32)
        requires
            old(self).inv(),
        ensures
            final(self).inv(),
            pc_even_kept(*old(self), *final(self)),
            ({ let p = (if data >> 6 == 0 { (crate::cpu::reg_of(old(self).cpu, (data >> 3) & 0x7), old(self).cpu.apsr.c) } else { crate::bits::lsr_c_of(crate::cpu::reg_of(old(self).cpu, (data >> 3) & 0x7), data >> 6) }); crate::board::alu_wrote(*old(self), *final(self), data & 0x7, p.0, old(self).cpu.itstate.state == 0, crate::bits::bit_of(p.0, 31), p.0 == 0, p.1, old(self).cpu.apsr.v) }),
    {
        let rd = data & 0x7;
        let rm = (data >> 3) & 0x7;
        let shift_n = data >> 6;
        let (result, carry) = self.lsr_c(self.read_reg(rm), shift_n);
        self.write_reg(rd, result);
        if !self.in_it_block() {
            self.set_flags_nzc(result, carry);
        }
    }

    fn n_lsr_reg(&mut self, data: u32)
        requires
            old(self).inv(),
        ensures
            final(self).inv(),
            pc_even_kept(*old(self), *final(self)),
            ({ let p = (if crate::cpu::reg_of(old(self).cpu, (data >> 3) & 0x7) & 0xFF == 0 { (crate::cpu::reg_of(old(self).cpu, data & 0x7), old(self).cpu.apsr.c) } else { crate::bits::lsr_c_of(crate::cpu::reg_of(old(self).cpu, data & 0x7), crate::cpu::reg_of(old(self).cpu, (data >> 3) & 0x7) & 0xFF) }); crate::board::alu_wrote(*old(self), *final(self), data & 0x7, p.0, old(self).cpu.itstate.state == 0, crate::bits::bit_of(p.0, 31), p.0 == 0, p.1, old(self).cpu.apsr.v) }),
    {
        let rdn = data & 0x7;
        let rm = (data >> 3) & 0x7;
        let shift_n = self.read_reg(rm) & 0xFF;
        let (result, carry) = self.lsr_c(self.read_reg(rdn), shift_n);
        self.write_reg(rdn, result);
        if !self.in_it_block() {
            self.set_flags_nzc(result, carry);
        }
    }

    /// The eight-bit immediate lands in the destination register;
    /// outside an IT block the negative and zero flags follow it.
    fn n_mov_imm(&mut self, data: u32)
        requires
            old(self).inv(),
        ensures
            final(self).inv(),
            pc_even_kept(*old(self), *final(self)),
            final(self).cpu.registers@ == old(self).cpu.registers@.update(
                ((data >> 8) & 0x7) as int,
                data & 0xFF,
            ),
            old(self).cpu.itstate.state == 0 ==> final(self).cpu.apsr.z == (data & 0xFF == 0),
    {
        let rd = (data >> 8) & 0x7;
        let imm8 = data & 0xFF;
        self.write_reg(rd, imm8);
        if !self.in_it_block() {
            self.set_flags_nz(imm8);
        }
    }

    fn n_mov_reg(&mut self, data: u32)
        requires
            old(self).inv(),
        ensures
            final(self).inv(),
            pc_even_kept(*old(self), *final(self)),
            data & 0xF != 15 ==> crate::board::alu_wrote(*old(self), *final(self), data & 0xF, crate::cpu::reg_of(old(self).cpu, (data >> 4) & 0xF), crate::bits::bit_of(data, 8), crate::bits::bit_of(crate::cpu::reg_of(old(self).cpu, (data >> 4) & 0xF), 31), crate::cpu::reg_of(old(self).cpu, (data >> 4) & 0xF) == 0, old(self).cpu.apsr.c, old(self).cpu.apsr.v),
            data & 0xF == 15 ==> final(self).cpu.instr_pc == crate::cpu::reg_of(old(self).cpu, (data >> 4) & 0xF) & !0b1u32,
    {
        let rd = data & 0xF;
        let rm = (data >> 4) & 0xF;
        let setflags = bitset(data, 8);
        let result = self.read_reg(rm);
        if rd == 15 {
            self.alu_write_pc(result);
        } else {
            self.write_reg(rd, result);
            if setflags {
                self.set_flags_nz(result);
            }
        }
    }

    fn n_mul(&mut self, data: u32)
        requires
            old(self).inv(),
        ensures
            final(self).inv(),
            pc_even_kept(*old(self), *final(self)),
            crate::board::alu_wrote(*old(self), *final(self), data & 0x7, vstd::wrapping::u32_specs::wrapping_mul(crate::cpu::reg_of(old(self).cpu, data & 0x7), crate::cpu::reg_of(old(self).cpu, (data >> 3) & 0x7)), old(self).cpu.itstate.state == 0, crate::bits::bit_of(vstd::wrapping::u32_specs::wrapping_mul(crate::cpu::reg_of(old(self).cpu, data & 0x7), crate::cpu::reg_of(old(self).cpu, (data >> 3) & 0x7)), 31), vstd::wrapping::u32_specs::wrapping_mul(crate::cpu::reg_of(old(self).cpu, data & 0x7), crate::cpu::reg_of(old(self).cpu, (data >> 3) & 0x7)) == 0, old(self).cpu.apsr.c, old(self).cpu.apsr.v),
    {
        let rdm = data & 0x7;
        let rn = (data >> 3) & 0x7;
        let result = self.read_reg(rdm).wrapping_mul(self.read_reg(rn));
        self.write_reg(rdm, result);
        if !self.in_it_block() {
            self.set_flags_nz(result);
        }
    }

    fn n_mvn_reg(&mut self, data: u32)
        requires
            old(self).inv(),
        ensures
            final(self).inv(),
            pc_even_kept(*old(self), *final(self)),
            crate::board::alu_wrote(*old(self), *final(self), data & 0x7, !crate::cpu::reg_of(old(self).cpu, (data >> 3) & 0x7), old(self).cpu.itstate.state == 0, crate::bits::bit_of(!crate::cpu::reg_of(old(self).cpu, (data >> 3) & 0x7), 31), !crate::cpu::reg_of(old(self).cpu, (data >> 3) & 0x7) == 0, old(self).cpu.apsr.c, old(self).cpu.apsr.v),
    {
        let rd = data & 0x7;
        let rm = (data >> 3) & 0x7;
        let result = !self.read_reg(rm);
        self.write_reg(rd, result);
        if !self.in_it_block() {
            self.set_flags_nz(result);
        }
    }

    fn n_nop(&mut self, _data: u32)
        requires
            old(self).inv(),
        ensures
            final(self).inv(),
            pc_even_kept(*old(self), *final(self)),
    {
    }

    fn n_orr_reg(&mut self, data: u32)
        requires
            old(self).inv(),
        ensures
            final(self).inv(),
            pc_even_kept(*old(self), *final(self)),
            crate::board::alu_wrote(*old(self), *final(self), data & 0x7, crate::cpu::reg_of(old(self).cpu, data & 0x7) | crate::cpu::reg_of(old(self).cpu, (data >> 3) & 0x7), old(self).cpu.itstate.state == 0, crate::bits::bit_of(crate::cpu::reg_of(old(self).cpu, data & 0x7) | crate::cpu::reg_of(old(self).cpu, (data >> 3) & 0x7), 31), crate::cpu::reg_of(old(self).cpu, data & 0x7) | crate::cpu::reg_of(old(self).cpu, (data >> 3) & 0x7) == 0, old(self).cpu.apsr.c, old(self).cpu.apsr.v),
    {
        let rdn = data & 0x7;
        let rm = (data >> 3) & 0x7;
        let result = self.read_reg(rdn) | self.read_reg(rm);
        self.write_reg(rdn, result);
        if !self.in_it_block() {
            self.set_flags_nz(result);
        }
    }

    fn n_pop(&mut self, data: u32)
        requires
            old(self).inv(),
        ensures
            final(self).inv(),
            pc_even_kept(*old(self), *final(self)),
    {
        let mut address = self.read_sp();
        let mut i: u32 = 0;
        while i < 8
            invariant
                self.inv(),
                i <= 8,
                pc_even_kept(*old(self), *self),
            decreases 8 - i,
        {
            if bitset(data, i) {
                let v = self.read_mem_a(address, 4);
                self.write_reg(i, v);
                address = address.wrapping_add(4);
            }
            i = i + 1;
        }
        if bitset(data, 8) {
            let v = self.read_mem_a(address, 4);
            self.load_write_pc(v);
            address = address.wrapping_add(4);
        }
        self.write_sp(address);
    }

    fn n_push(&mut self, data: u32)
        requires
            old(self).inv(),
        ensures
            final(self).inv(),
            pc_even_kept(*old(self), *final(self)),
    {
        let mut address = self.read_sp();
        if bitset(data, 8) {
            address = address.wrapping_sub(4);
            let lr = self.read_lr();
            self.write_word(address, lr);
        }
        let mut i: u32 = 8;
        while i > 0
            invariant
                self.inv(),
                i <= 8,
                self.cpu.instr_pc == old(self).cpu.instr_pc,
            decreases i,
        {
            i = i - 1;
            if bitset(data, i) {
                address = address.wrapping_sub(4);
                let v = self.read_reg(i);
                self.write_word(address, v);
            }
        }
        self.write_sp(address);
    }

    fn n_rev(&mut self, data: u32)
        requires
            old(self).inv(),
        ensures
            final(self).inv(),
            pc_even_kept(*old(self), *final(self)),
    {
        let rd = data & 0x7;
        let rm = (data >> 3) & 0x7;
        let result = rev_bytes(self.read_reg(rm));
        self.write_reg(rd, result);
    }

    fn n_rev16(&mut self, data: u32)
        requires
            old(self).inv(),
        ensures
            final(self).inv(),
            pc_even_kept(*old(self), *final(self)),
    {
        let rd = data & 0x7;
        let rm = (data >> 3) & 0x7;
        let result = rev_bytes16(self.read_reg(rm));
        self.write_reg(rd, result);
    }

    fn n_revsh(&mut self, data: u32)
        requires
            old(self).inv(),
        ensures
            final(self).inv(),
            pc_even_kept(*old(self), *final(self)),
    {
        let rd = data & 0x7;
        let rm = (data >> 3) & 0x7;
        let val = self.read_reg(rm);
        let result = shifted_sign_extend(val, 7, 8) | ((val >> 8) & 0xFF);
        self.write_reg(rd, result);
    }

    fn n_ror_reg(&mut self, data: u32)
        requires
            old(self).inv(),
        ensures
            final(self).inv(),
            pc_even_kept(*old(self), *final(self)),
            ({ let sn = crate::cpu::reg_of(old(self).cpu, (data >> 3) & 0x7) & 0xFF; let p = if sn == 0 { (crate::cpu::reg_of(old(self).cpu, data & 0x7), old(self).cpu.apsr.c) } else { (crate::bits::ror_of(crate::cpu::reg_of(old(self).cpu, data & 0x7), sn), crate::bits::bit_of(crate::bits::ror_of(crate::cpu::reg_of(old(self).cpu, data & 0x7), sn), 31)) }; crate::board::alu_wrote(*old(self), *final(self), data & 0x7, p.0, old(self).cpu.itstate.state == 0, crate::bits::bit_of(p.0, 31), p.0 == 0, p.1, old(self).cpu.apsr.v) }),
    {
        let rdn = data & 0x7;
        let rm = (data >> 3) & 0x7;
        let shift_n = self.read_reg(rm) & 0xFF;
        let (result, carry) = self.ror_c(self.read_reg(rdn), shift_n);
        self.write_reg(rdn, result);
        if !self.in_it_block() {
            self.set_flags_nzc(result, carry);
        }
    }

    fn n_rsb_imm(&mut self, data: u32)
        requires
            old(self).inv(),
        ensures
            final(self).inv(),
            pc_even_kept(*old(self), *final(self)),
            crate::board::alu_wrote(*old(self), *final(self), data & 0x7, crate::bits::awc_result(!crate::cpu::reg_of(old(self).cpu, (data >> 3) & 0x7), 0u32, 1u32), old(self).cpu.itstate.state == 0, crate::bits::bit_of(crate::bits::awc_result(!crate::cpu::reg_of(old(self).cpu, (data >> 3) & 0x7), 0u32, 1u32), 31), crate::bits::awc_result(!crate::cpu::reg_of(old(self).cpu, (data >> 3) & 0x7), 0u32, 1u32) == 0, crate::bits::awc_carry(!crate::cpu::reg_of(old(self).cpu, (data >> 3) & 0x7), 0u32, 1u32), crate::bits::awc_overflow(!crate::cpu::reg_of(old(self).cpu, (data >> 3) & 0x7), 0u32, 1u32)),
    {
        let rd = data & 0x7;
        let rn = (data >> 3) & 0x7;
        let (result, carry, overflow) = add_with_carry(!self.read_reg(rn), 0, 1);
        self.write_reg(rd, result);
        if !self.in_it_block() {
            self.set_flags_nzcv(result, carry, overflow);
        }
    }

    fn n_sbc_reg(&mut self, data: u32)
        requires
            old(self).inv(),
        ensures
            final(self).inv(),
            pc_even_kept(*old(self), *final(self)),
            crate::board::alu_wrote(*old(self), *final(self), data & 0b111, crate::bits::awc_result(crate::cpu::reg_of(old(self).cpu, data & 0b111), !crate::cpu::reg_of(old(self).cpu, (data >> 3) & 0b111), crate::cpu::flag_bit(old(self).cpu.apsr.c)), old(self).cpu.itstate.state == 0, crate::bits::bit_of(crate::bits::awc_result(crate::cpu::reg_of(old(self).cpu, data & 0b111), !crate::cpu::reg_of(old(self).cpu, (data >> 3) & 0b111), crate::cpu::flag_bit(old(self).cpu.apsr.c)), 31), crate::bits::awc_result(crate::cpu::reg_of(old(self).cpu, data & 0b111), !crate::cpu::reg_of(old(self).cpu, (data >> 3) & 0b111), crate::cpu::flag_bit(old(self).cpu.apsr.c)) == 0, crate::bits::awc_carry(crate::cpu::reg_of(old(self).cpu, data & 0b111), !crate::cpu::reg_of(old(self).cpu, (data >> 3) & 0b111), crate::cpu::flag_bit(old(self).cpu.apsr.c)), crate::bits::awc_overflow(crate::cpu::reg_of(old(self).cpu, data & 0b111), !crate::cpu::reg_of(old(self).cpu, (data >> 3) & 0b111), crate::cpu::flag_bit(old(self).cpu.apsr.c))),
    {
        let rdn = data & 0b111;
        let rm = (data >> 3) & 0b111;
        let (result, carry, overflow) = add_with_carry(
            self.read_reg(rdn),
            !self.read_reg(rm),
            self.cpu.carry(),
        );
        self.write_reg(rdn, result);
        if !self.in_it_block() {
            self.set_flags_nzcv(result, carry, overflow);
        }
    }

    fn n_stm(&mut self, data: u32)
        requires
            old(self).inv(),
        ensures
            final(self).inv(),
            pc_even_kept(*old(self), *final(self)),
    {
        let rn = (data >> 8) & 0x7;
        let registers = data & 0xFF;
        let mut address = self.read_reg(rn);
        let mut i: u32 = 0;
        while i < 8
            invariant
                self.inv(),
                i <= 8,
                self.cpu.instr_pc == old(self).cpu.instr_pc,
            decreases 8 - i,
        {
            if bitset(registers, i) {
                let v = self.read_reg(i);
                self.write_word(address, v);
                address = address.wrapping_add(4);
            }
            i = i + 1;
        }
        self.write_reg(rn, address);
    }

    fn n_str_imm(&mut self, data: u32)
        requires
            old(self).inv(),
        ensures
            final(self).inv(),
            pc_even_kept(*old(self), *final(self)),
            final(self).cpu == old(self).cpu,
    {
        let imm32 = (data & 0xFF) << 2;
        let rt = (data >> 8) & 0xF;
        let rn = (data >> 12) & 0xF;
        let address = self.read_reg(rn).wrapping_add(imm32);
        let v = self.read_reg(rt);
        self.write_word(address, v);
    }

    fn n_str_reg(&mut self, data: u32)
        requires
            old(self).inv(),
        ensures
            final(self).inv(),
            pc_even_kept(*old(self), *final(self)),
            final(self).cpu == old(self).cpu,
    {
        let rt = data & 0b111;
        let rn = (data >> 3) & 0b111;
        let rm = (data >> 6) & 0b111;
        let address = self.read_reg(rn).wrapping_add(self.read_reg(rm));
        let v = self.read_reg(rt);
        self.write_mem_u(address, 4, v);
    }

    fn n_strb_imm(&mut self, data: u32)
        requires
            old(self).inv(),
        ensures
            final(self).inv(),
            pc_even_kept(*old(self), *final(self)),
            final(self).cpu == old(self).cpu,
    {
        let rt = data & 0x7;
        let rn = (data >> 3) & 0x7;
        let imm5 = (data >> 6) & 0x1F;
        let address = self.read_reg(rn).wrapping_add(imm5);
        let v = self.read_reg(rt);
        self.write_mem_u(address, 1, v);
    }

    fn n_strb_reg(&mut self, data: u32)
        requires
            old(self).inv(),
        ensures
            final(self).inv(),
            pc_even_kept(*old(self), *final(self)),
            final(self).cpu == old(self).cpu,
    {
        let rt = data & 0x7;
        let rn = (data >> 3) & 0x7;
        let rm = (data >> 6) & 0x7;
        let address = self.read_reg(rn).wrapping_add(self.read_reg(rm));
        let v = self.read_reg(rt);
        self.write_mem_u(address, 1, v);
    }

    fn n_strh_imm(&mut self, data: u32)
        requires
            old(self).inv(),
        ensures
            final(self).inv(),
            pc_even_kept(*old(self), *final(self)),
            final(self).cpu == old(self).cpu,
    {
        let imm6 = data & 0x3F;
        let rt = (data >> 6) & 0x7;
        let rn = (data >> 9) & 0x7;
        let address = self.read_reg(rn).wrapping_add(imm6);
        let v = self.read_reg(rt);
        self.write_mem_u(address, 2, v);
    }

    fn n_strh_reg(&mut self, data: u32)
        requires
            old(self).inv(),
        ensures
            final(self).inv(),
            pc_even_kept(*old(self), *final(self)),
            final(self).cpu == old(self).cpu,
    {
        let rt = data & 0x7;
        let rn = (data >> 3) & 0x7;
        let rm = (data >> 6) & 0x7;
        let address = self.read_reg(rn).wrapping_add(self.read_reg(rm));
        let v = self.read_reg(rt);
        self.write_mem_u(address, 2, v);
    }

    fn n_sub_imm(&mut self, data: u32)
        requires
            old(self).inv(),
        ensures
            final(self).inv(),
            pc_even_kept(*old(self), *final(self)),
            crate::board::alu_wrote(*old(self), *final(self), (data >> 8) & 0x7, crate::bits::awc_result(crate::cpu::reg_of(old(self).cpu, (data >> 11) & 0x7), !(data & 0xFF), 1u32), old(self).cpu.itstate.state == 0, crate::bits::bit_of(crate::bits::awc_result(crate::cpu::reg_of(old(self).cpu, (data >> 11) & 0x7), !(data & 0xFF), 1u32), 31), crate::bits::awc_result(crate::cpu::reg_of(old(self).cpu, (data >> 11) & 0x7), !(data & 0xFF), 1u32) == 0, crate::bits::awc_carry(crate::cpu::reg_of(old(self).cpu, (data >> 11) & 0x7), !(data & 0xFF), 1u32), crate::bits::awc_overflow(crate::cpu::reg_of(old(self).cpu, (data >> 11) & 0x7), !(data & 0xFF), 1u32)),
    {
        let imm32 = data & 0xFF;
        let rd = (data >> 8) & 0x7;
        let rn = (data >> 11) & 0x7;
        let (result, carry, overflow) = add_with_carry(self.read_reg(rn), !imm32, 1);
        self.write_reg(rd, result);
        if !self.in_it_block() {
            self.set_flags_nzcv(result, carry, overflow);
        }
    }

    fn n_sub_reg(&mut self, data: u32)
        requires
            old(self).inv(),
        ensures
            final(self).inv(),
            pc_even_kept(*old(self), *final(self)),
            crate::board::alu_wrote(*old(self), *final(self), data & 0x7, crate::bits::awc_result(crate::cpu::reg_of(old(self).cpu, (data >> 3) & 0x7), !crate::cpu::reg_of(old(self).cpu, (data >> 6) & 0x7), 1u32), old(self).cpu.itstate.state == 0, crate::bits::bit_of(crate::bits::awc_result(crate::cpu::reg_of(old(self).cpu, (data >> 3) & 0x7), !crate::cpu::reg_of(old(self).cpu, (data >> 6) & 0x7), 1u32), 31), crate::bits::awc_result(crate::cpu::reg_of(old(self).cpu, (data >> 3) & 0x7), !crate::cpu::reg_of(old(self).cpu, (data >> 6) & 0x7), 1u32) == 0, crate::bits::awc_carry(crate::cpu::reg_of(old(self).cpu, (data >> 3) & 0x7), !crate::cpu::reg_of(old(self).cpu, (data >> 6) & 0x7), 1u32), crate::bits::awc_overflow(crate::cpu::reg_of(old(self).cpu, (data >> 3) & 0x7), !crate::cpu::reg_of(old(self).cpu, (data >> 6) & 0x7), 1u32)),
    {
        let rd = data & 0x7;
        let rn = (data >> 3) & 0x7;
        let rm = (data >> 6) & 0x7;
        let (result, carry, overflow) = add_with_carry(
            self.read_reg(rn),
            !self.read_reg(rm),
            1,
        );
        self.write_reg(rd, result);
        if !self.in_it_block() {
            self.set_flags_nzcv(result, carry, overflow);
        }
    }

    fn n_sub_sp_imm(&mut self, data: u32)
        requires
            old(self).inv(),
        ensures
            final(self).inv(),
            pc_even_kept(*old(self), *final(self)),
            final(self).cpu.registers@ == old(self).cpu.registers@.update(13, crate::bits::awc_result(crate::cpu::sp_of(old(self).cpu), !(data & 0x1FF), 1) & !0b11u32),
            final(self).cpu.apsr == old(self).cpu.apsr,
            crate::board::cpu_frame(*old(self), *final(self)),
    {
        let imm9 = data & 0x1FF;
        let sp = self.read_sp();
        let (result, _, _) = add_with_carry(sp, !imm9, 1);
        self.write_sp(result);
    }

    fn n_svc(&mut self, _data: u32)
        requires
            old(self).inv(),
        ensures
            final(self).inv(),
            pc_even_kept(*old(self), *final(self)),
    {
        // Supervisor calls are outside this emulator's scope.
    }

    fn n_sxtb(&mut self, data: u32)
        requires
            old(self).inv(),
        ensures
            final(self).inv(),
            pc_even_kept(*old(self), *final(self)),
            crate::board::alu_wrote(*old(self), *final(self), data & 0x7, crate::bits::sign_extend_of(crate::cpu::reg_of(old(self).cpu, (data >> 3) & 0x7), 7), false, false, false, false, false),
    {
        let rd = data & 0x7;
        let rm = (data >> 3) & 0x7;
        let result = sign_extend(self.read_reg(rm), 7);
        self.write_reg(rd, result);
    }

    fn n_sxth(&mut self, data: u32)
        requires
            old(self).inv(),
        ensures
            final(self).inv(),
            pc_even_kept(*old(self), *final(self)),
            crate::board::alu_wrote(*old(self), *final(self), data & 0x7, crate::bits::sign_extend_of(crate::cpu::reg_of(old(self).cpu, (data >> 3) & 0x7), 15), false, false, false, false, false),
    {
        let rd = data & 0x7;
        let rm = (data >> 3) & 0x7;
        let result = sign_extend(self.read_reg(rm), 15);
        self.write_reg(rd, result);
    }

    fn n_tst_reg(&mut self, data: u32)
        requires
            old(self).inv(),
        ensures
            final(self).inv(),
            pc_even_kept(*old(self), *final(self)),
            ({ let v = crate::cpu::reg_of(old(self).cpu, data & 0x7) & crate::cpu::reg_of(old(self).cpu, (data >> 3) & 0x7); crate::board::flags_wrote(*old(self), *final(self), crate::bits::bit_of(v, 31), v == 0, old(self).cpu.apsr.c, old(self).cpu.apsr.v) }),
    {
        let rn = data & 0x7;
        let rm = (data >> 3) & 0x7;
        let result = self.read_reg(rn) & self.read_reg(rm);
        self.set_flags_nz(result);
    }

    fn n_udf(&mut self, _data: u32)
        requires
            old(self).inv(),
        ensures
            final(self).inv(),
            final(self).pending_default_handler,
            pc_even_kept(*old(self), *final(self)),
    {
        self.pending_default_handler = true;
    }

    fn n_uxtb(&mut self, data: u32)
        requires
            old(self).inv(),
        ensures
            final(self).inv(),
            pc_even_kept(*old(self), *final(self)),
            crate::board::alu_wrote(*old(self), *final(self), data & 0x7, crate::cpu::reg_of(old(self).cpu, (data >> 3) & 0x7) & 0xFF, false, false, false, false, false),
    {
        let rd = data & 0x7;
        let rm = (data >> 3) & 0x7;
        let result = self.read_reg(rm) & 0xFF;
        self.write_reg(rd, result);
    }

    fn n_uxth(&mut self, data: u32)
        requires
            old(self).inv(),
        ensures
            final(self).inv(),
            pc_even_kept(*old(self), *final(self)),
            crate::board::alu_wrote(*old(self), *final(self), data & 0x7, crate::cpu::reg_of(old(self).cpu, (data >> 3) & 0x7) & 0xFFFF, false, false, false, false, false),
    {
        let rd = data & 0x7;
        let rm = (data >> 3) & 0x7;
        let result = self.read_reg(rm) & 0xFFFF;
        self.write_reg(rd, result);
    }
}

} // verus!
