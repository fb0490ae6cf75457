//! Executor handlers for the wide (32-bit) operations. Operand fields are
//! unpacked from the data and extra payloads in the decoder's layouts;
//! modified immediates arrive pre-expanded with their carry spill in the
//! data payload's low nibble.

use vstd::prelude::*;
use crate::bits::{
    bitset,
    add_with_carry,
    sign_extend,
    shifted_sign_extend,
    word_align,
    bit_field_clear,
    bit_field_insert,
    split_u64,
};
use crate::board::{Board, pc_even_kept};
use crate::cpu::Condition;
use crate::opcode::Opcode;

verus! {

broadcast use crate::bits::lemma_and_bound;

/// The shift-kind constraint the barrel shifter needs, for the operations
/// whose extra payload carries a shift specification.
pub open spec fn shift_payload_ok(extra: u32) -> bool {
    extra & 0b111 <= 4
}

/// Signed division truncating toward zero, computed by sign and
/// magnitude over the wrapped representations.
pub(crate) open spec fn sdiv_of(n: u32, m: u32) -> u32 {
    let un = if crate::bits::bit_of(n, 31) {
        vstd::wrapping::u32_specs::wrapping_sub(0, n)
    } else {
        n
    };
    let um = if crate::bits::bit_of(m, 31) {
        vstd::wrapping::u32_specs::wrapping_sub(0, m)
    } else {
        m
    };
    let q = un / um;
    if crate::bits::bit_of(n, 31) != crate::bits::bit_of(m, 31) {
        vstd::wrapping::u32_specs::wrapping_sub(0, q)
    } else {
        q
    }
}

/// Full 64-bit product of two unsigned words.
fn widening_umul(a: u32, b: u32) -> (r: u64)
    ensures
        r == a * b,
        r <= 0xFFFF_FFFE_0000_0001u64,
{
    proof {
        assert(a * b <= 0xFFFF_FFFE_0000_0001u64) by (nonlinear_arith)
            requires
                a <= 0xFFFF_FFFF,
                b <= 0xFFFF_FFFF,
        ;
    }
    (a as u64) * (b as u64)
}

/// Full 64-bit product of two words read as two's-complement.
fn widening_smul(a: u32, b: u32) -> (r: u64)
    ensures
        r == ((a as i32) * (b as i32)) as u64,
{
    let sa = a as i32;
    let sb = b as i32;
    proof {
        assert((sa as int) * (sb as int) <= i64::MAX && (sa as int) * (sb as int) >= i64::MIN)
            by (nonlinear_arith)
            requires
                i32::MIN <= sa <= i32::MAX,
                i32::MIN <= sb <= i32::MAX,
        ;
    }
    let p = (sa as i64) * (sb as i64);
    p as u64
}

impl Board {
    pub(crate) fn execute_wide(&mut self, opcode: Opcode, data: u32, extra: u32)
        requires
            old(self).inv(),
            match opcode {
                Opcode::AdcReg | Opcode::AddReg | Opcode::AndReg | Opcode::BicReg
                    | Opcode::CmnReg | Opcode::CmpReg | Opcode::EorReg | Opcode::MvnReg
                    | Opcode::OrnReg | Opcode::OrrReg | Opcode::Pkhbt | Opcode::RsbReg
                    | Opcode::SbcReg | Opcode::SubReg | Opcode::TeqReg | Opcode::TstReg
                    => shift_payload_ok(extra),
                _ => true,
            },
        ensures
            final(self).inv(),
            pc_even_kept(*old(self), *final(self)),
    {
        match opcode {
            Opcode::AdcImm => self.w_adc_imm(data, extra),
            Opcode::AdcReg => self.w_adc_reg(data, extra),
            Opcode::AddImm => self.w_add_imm(data, extra),
            Opcode::AddReg => self.w_add_reg(data, extra),
            Opcode::Adr => self.w_adr(data, extra),
            Opcode::AndImm => self.w_and_imm(data, extra),
            Opcode::AndReg => self.w_and_reg(data, extra),
            Opcode::AsrImm => self.w_asr_imm(data, extra),
            Opcode::AsrReg => self.w_asr_reg(data, extra),
            Opcode::Branch => self.w_branch(data, extra),
            Opcode::BranchCond => self.w_branch_cond(data, extra),
            Opcode::Bfc => self.w_bfc(data, extra),
            Opcode::Bfi => self.w_bfi(data, extra),
            Opcode::BicImm => self.w_bic_imm(data, extra),
            Opcode::BicReg => self.w_bic_reg(data, extra),
            Opcode::Bl => self.w_bl(data, extra),
            Opcode::Clrex => self.w_clrex(data, extra),
            Opcode::Clz => self.w_clz(data, extra),
            Opcode::CmnImm => self.w_cmn_imm(data, extra),
            Opcode::CmnReg => self.w_cmn_reg(data, extra),
            Opcode::CmpImm => self.w_cmp_imm(data, extra),
            Opcode::CmpReg => self.w_cmp_reg(data, extra),
            Opcode::EorImm => self.w_eor_imm(data, extra),
            Opcode::EorReg => self.w_eor_reg(data, extra),
            Opcode::Ldm => self.w_ldm(data, extra),
            Opcode::Ldmdb => self.w_ldmdb(data, extra),
            Opcode::LdrImm => self.w_ldr_imm(data, extra),
            Opcode::LdrLit => self.w_ldr_lit(data, extra),
            Opcode::LdrReg => self.w_ldr_reg(data, extra),
            Opcode::LdrbImm => self.w_ldrb_imm(data, extra),
            Opcode::LdrbReg => self.w_ldrb_reg(data, extra),
            Opcode::LdrhImm => self.w_ldrh_imm(data, extra),
            Opcode::LdrhReg => self.w_ldrh_reg(data, extra),
            Opcode::LdrsbReg => self.w_ldrsb_reg(data, extra),
            Opcode::LdrsbImm => self.w_ldrsb_imm(data, extra),
            Opcode::LdrshImm => self.w_ldrsh_imm(data, extra),
            Opcode::LdrshReg => self.w_ldrsh_reg(data, extra),
            Opcode::Ldrex => self.w_ldrex(data, extra),
            Opcode::LslImm => self.w_lsl_imm(data, extra),
            Opcode::LslReg => self.w_lsl_reg(data, extra),
            Opcode::LsrImm => self.w_lsr_imm(data, extra),
            Opcode::LsrReg => self.w_lsr_reg(data, extra),
            Opcode::Mla => self.w_mla(data, extra),
            Opcode::Mls => self.w_mls(data, extra),
            Opcode::MovImm => self.w_mov_imm(data, extra),
            Opcode::MovReg => self.w_mov_reg(data, extra),
            Opcode::Movt => self.w_movt(data, extra),
            Opcode::Mul => self.w_mul(data, extra),
            Opcode::MvnImm => self.w_mvn_imm(data, extra),
            Opcode::MvnReg => self.w_mvn_reg(data, extra),
            Opcode::Nop => self.w_nop(data, extra),
            Opcode::OrnImm => self.w_orn_imm(data, extra),
            Opcode::OrnReg => self.w_orn_reg(data, extra),
            Opcode::OrrImm => self.w_orr_imm(data, extra),
            Opcode::OrrReg => self.w_orr_reg(data, extra),
            Opcode::Pkhbt => self.w_pkhbt(data, extra),
            Opcode::Pop => self.w_pop(data, extra),
            Opcode::Push => self.w_push(data, extra),
            Opcode::Qadd => self.w_qadd(data, extra),
            Opcode::Qsub => self.w_qsub(data, extra),
            Opcode::Rbit => self.w_rbit(data, extra),
            Opcode::Rev => self.w_rev(data, extra),
            Opcode::Rev16 => self.w_rev16(data, extra),
            Opcode::Revsh => self.w_revsh(data, extra),
            Opcode::RorImm => self.w_ror_imm(data, extra),
            Opcode::RorReg => self.w_ror_reg(data, extra),
            Opcode::Rrx => self.w_rrx(data, extra),
            Opcode::RsbImm => self.w_rsb_imm(data, extra),
            Opcode::RsbReg => self.w_rsb_reg(data, extra),
            Opcode::SbcImm => self.w_sbc_imm(data, extra),
            Opcode::SbcReg => self.w_sbc_reg(data, extra),
            Opcode::Sdiv => self.w_sdiv(data, extra),
            Opcode::Smlal => self.w_smlal(data, extra),
            Opcode::Smull => self.w_smull(data, extra),
            Opcode::Stm => self.w_stm(data, extra),
            Opcode::Stmdb => self.w_stmdb(data, extra),
            Opcode::StrImm => self.w_str_imm(data, extra),
            Opcode::StrReg => self.w_str_reg(data, extra),
            Opcode::StrbImm => self.w_strb_imm(data, extra),
            Opcode::StrbReg => self.w_strb_reg(data, extra),
            Opcode::StrhImm => self.w_strh_imm(data, extra),
            Opcode::StrhReg => self.w_strh_reg(data, extra),
            Opcode::Strex => self.w_strex(data, extra),
            Opcode::SubImm => self.w_sub_imm(data, extra),
            Opcode::SubReg => self.w_sub_reg(data, extra),
            Opcode::Tbb => self.w_tbb(data, extra),
            Opcode::TeqImm => self.w_teq_imm(data, extra),
            Opcode::TeqReg => self.w_teq_reg(data, extra),
            Opcode::TstImm => self.w_tst_imm(data, extra),
            Opcode::TstReg => self.w_tst_reg(data, extra),
            Opcode::Udf => self.w_udf(data, extra),
            Opcode::Udiv => self.w_udiv(data, extra),
            Opcode::Umaal => self.w_umaal(data, extra),
            Opcode::Umlal => self.w_umlal(data, extra),
            Opcode::Umull => self.w_umull(data, extra),
            _ => {
                self.pending_default_handler = true;
            },
        }
    }

    fn w_adc_imm(&mut self, data: u32, extra: u32)
        requires
            old(self).inv(),
        ensures
            final(self).inv(),
            pc_even_kept(*old(self), *final(self)),
            crate::board::alu_wrote(*old(self), *final(self), (data >> 4) & 0xF, crate::bits::awc_result(crate::cpu::reg_of(old(self).cpu, (data >> 8) & 0xF), (data << 30 | extra), crate::cpu::flag_bit(old(self).cpu.apsr.c)), crate::bits::bit_of(data, 12), crate::bits::bit_of(crate::bits::awc_result(crate::cpu::reg_of(old(self).cpu, (data >> 8) & 0xF), (data << 30 | extra), crate::cpu::flag_bit(old(self).cpu.apsr.c)), 31), crate::bits::awc_result(crate::cpu::reg_of(old(self).cpu, (data >> 8) & 0xF), (data << 30 | extra), crate::cpu::flag_bit(old(self).cpu.apsr.c)) == 0, crate::bits::awc_carry(crate::cpu::reg_of(old(self).cpu, (data >> 8) & 0xF), (data << 30 | extra), crate::cpu::flag_bit(old(self).cpu.apsr.c)), crate::bits::awc_overflow(crate::cpu::reg_of(old(self).cpu, (data >> 8) & 0xF), (data << 30 | extra), crate::cpu::flag_bit(old(self).cpu.apsr.c))),
    {
        let imm32 = data << 30 | extra;
        let rd = (data >> 4) & 0xF;
        let rn = (data >> 8) & 0xF;
        let (result, carry, overflow) = self.add_with_carry_w_c(self.read_reg(rn), imm32);
        self.write_reg(rd, result);
        if bitset(data, 12) {
            self.set_flags_nzcv(result, carry, overflow);
        }
    }

    fn w_adc_reg(&mut self, data: u32, extra: u32)
        requires
            old(self).inv(),
            shift_payload_ok(extra),
        ensures
            final(self).inv(),
            pc_even_kept(*old(self), *final(self)),
            crate::board::alu_wrote(*old(self), *final(self), data & 0xF, crate::bits::awc_result(crate::cpu::reg_of(old(self).cpu, (data >> 4) & 0xF), (crate::bits::shift_c_of(crate::cpu::reg_of(old(self).cpu, (data >> 8) & 0xF), extra & 0b111, extra >> 3, crate::cpu::flag_bit(old(self).cpu.apsr.c)).0), crate::cpu::flag_bit(old(self).cpu.apsr.c)), crate::bits::bit_of(data, 12), crate::bits::bit_of(crate::bits::awc_result(crate::cpu::reg_of(old(self).cpu, (data >> 4) & 0xF), (crate::bits::shift_c_of(crate::cpu::reg_of(old(self).cpu, (data >> 8) & 0xF), extra & 0b111, extra >> 3, crate::cpu::flag_bit(old(self).cpu.apsr.c)).0), crate::cpu::flag_bit(old(self).cpu.apsr.c)), 31), crate::bits::awc_result(crate::cpu::reg_of(old(self).cpu, (data >> 4) & 0xF), (crate::bits::shift_c_of(crate::cpu::reg_of(old(self).cpu, (data >> 8) & 0xF), extra & 0b111, extra >> 3, crate::cpu::flag_bit(old(self).cpu.apsr.c)).0), crate::cpu::flag_bit(old(self).cpu.apsr.c)) == 0, crate::bits::awc_carry(crate::cpu::reg_of(old(self).cpu, (data >> 4) & 0xF), (crate::bits::shift_c_of(crate::cpu::reg_of(old(self).cpu, (data >> 8) & 0xF), extra & 0b111, extra >> 3, crate::cpu::flag_bit(old(self).cpu.apsr.c)).0), crate::cpu::flag_bit(old(self).cpu.apsr.c)), crate::bits::awc_overflow(crate::cpu::reg_of(old(self).cpu, (data >> 4) & 0xF), (crate::bits::shift_c_of(crate::cpu::reg_of(old(self).cpu, (data >> 8) & 0xF), extra & 0b111, extra >> 3, crate::cpu::flag_bit(old(self).cpu.apsr.c)).0), crate::cpu::flag_bit(old(self).cpu.apsr.c))),
    {
        let rd = data & 0xF;
        let rn = (data >> 4) & 0xF;
        let rm = (data >> 8) & 0xF;
        let setflags = bitset(data, 12);
        let shift_t = extra & 0b111;
        let shift_n = extra >> 3;
        let shifted = self.get_shifted_register(self.read_reg(rm), shift_t, shift_n);
        let (result, carry, overflow) = self.add_with_carry_w_c(self.read_reg(rn), shifted);
        self.write_reg(rd, result);
        if setflags {
            self.set_flags_nzcv(result, carry, overflow);
        }
    }

    fn w_add_imm(&mut self, data: u32, extra: u32)
        requires
            old(self).inv(),
        ensures
            final(self).inv(),
            pc_even_kept(*old(self), *final(self)),
            crate::board::alu_wrote(*old(self), *final(self), (data >> 4) & 0xF, crate::bits::awc_result(crate::cpu::reg_of(old(self).cpu, (data >> 8) & 0xF), (data << 30 | extra), 0u32), crate::bits::bit_of(data, 12), crate::bits::bit_of(crate::bits::awc_result(crate::cpu::reg_of(old(self).cpu, (data >> 8) & 0xF), (data << 30 | extra), 0u32), 31), crate::bits::awc_result(crate::cpu::reg_of(old(self).cpu, (data >> 8) & 0xF), (data << 30 | extra), 0u32) == 0, crate::bits::awc_carry(crate::cpu::reg_of(old(self).cpu, (data >> 8) & 0xF), (data << 30 | extra), 0u32), crate::bits::awc_overflow(crate::cpu::reg_of(old(self).cpu, (data >> 8) & 0xF), (data << 30 | extra), 0u32)),
    {
        let imm32 = data << 30 | extra;
        let rd = (data >> 4) & 0xF;
        let rn = (data >> 8) & 0xF;
        let (result, carry, overflow) = add_with_carry(self.read_reg(rn), imm32, 0);
        self.write_reg(rd, result);
        if bitset(data, 12) {
            self.set_flags_nzcv(result, carry, overflow);
        }
    }

    fn w_add_reg(&mut self, data: u32, extra: u32)
        requires
            old(self).inv(),
            shift_payload_ok(extra),
        ensures
            final(self).inv(),
            pc_even_kept(*old(self), *final(self)),
            data & 0xF != 15 ==> crate::board::alu_wrote(*old(self), *final(self), data & 0xF, crate::bits::awc_result(crate::cpu::reg_of(old(self).cpu, (data >> 4) & 0xF), (crate::bits::shift_c_of(crate::cpu::reg_of(old(self).cpu, (data >> 8) & 0xF), extra & 0b111, extra >> 3, crate::cpu::flag_bit(old(self).cpu.apsr.c)).0), 0u32), crate::bits::bit_of(data, 12), crate::bits::bit_of(crate::bits::awc_result(crate::cpu::reg_of(old(self).cpu, (data >> 4) & 0xF), (crate::bits::shift_c_of(crate::cpu::reg_of(old(self).cpu, (data >> 8) & 0xF), extra & 0b111, extra >> 3, crate::cpu::flag_bit(old(self).cpu.apsr.c)).0), 0u32), 31), crate::bits::awc_result(crate::cpu::reg_of(old(self).cpu, (data >> 4) & 0xF), (crate::bits::shift_c_of(crate::cpu::reg_of(old(self).cpu, (data >> 8) & 0xF), extra & 0b111, extra >> 3, crate::cpu::flag_bit(old(self).cpu.apsr.c)).0), 0u32) == 0, crate::bits::awc_carry(crate::cpu::reg_of(old(self).cpu, (data >> 4) & 0xF), (crate::bits::shift_c_of(crate::cpu::reg_of(old(self).cpu, (data >> 8) & 0xF), extra & 0b111, extra >> 3, crate::cpu::flag_bit(old(self).cpu.apsr.c)).0), 0u32), crate::bits::awc_overflow(crate::cpu::reg_of(old(self).cpu, (data >> 4) & 0xF), (crate::bits::shift_c_of(crate::cpu::reg_of(old(self).cpu, (data >> 8) & 0xF), extra & 0b111, extra >> 3, crate::cpu::flag_bit(old(self).cpu.apsr.c)).0), 0u32)),
            data & 0xF == 15 ==> final(self).cpu.instr_pc == crate::bits::awc_result(crate::cpu::reg_of(old(self).cpu, (data >> 4) & 0xF), crate::bits::shift_c_of(crate::cpu::reg_of(old(self).cpu, (data >> 8) & 0xF), extra & 0b111, extra >> 3, crate::cpu::flag_bit(old(self).cpu.apsr.c)).0, 0u32) & !0b1u32,
    {
        let rd = data & 0xF;
        let rn = (data >> 4) & 0xF;
        let rm = (data >> 8) & 0xF;
        let setflags = bitset(data, 12);
        let shift_t = extra & 0b111;
        let shift_n = extra >> 3;
        let shifted = self.get_shifted_register(self.read_reg(rm), shift_t, shift_n);
        let (result, carry, overflow) = add_with_carry(self.read_reg(rn), shifted, 0);
        if rd == 15 {
            self.alu_write_pc(result);
        } else {
            self.write_reg(rd, result);
            if setflags {
                self.set_flags_nzcv(result, carry, overflow);
            }
        }
    }

    fn w_adr(&mut self, data: u32, extra: u32)
        requires
            old(self).inv(),
        ensures
            final(self).inv(),
            pc_even_kept(*old(self), *final(self)),
            crate::board::alu_wrote(*old(self), *final(self), data & 0xF, vstd::wrapping::u32_specs::wrapping_add(crate::bits::align_of(old(self).cpu.registers@[15], 4), crate::bits::sign_extend_of(extra, 12)), false, false, false, false, false),
    {
        let rd = data & 0xF;
        let imm32 = sign_extend(extra, 12);
        let pc = self.read_pc();
        let result = word_align(pc).wrapping_add(imm32);
        self.write_reg(rd, result);
    }

    fn w_and_imm(&mut self, data: u32, extra: u32)
        requires
            old(self).inv(),
        ensures
            final(self).inv(),
            pc_even_kept(*old(self), *final(self)),
            crate::board::alu_wrote(*old(self), *final(self), (data >> 4) & 0xF, (crate::cpu::reg_of(old(self).cpu, (data >> 8) & 0xF) & (data << 30 | extra)), crate::bits::bit_of(data, 12), crate::bits::bit_of((crate::cpu::reg_of(old(self).cpu, (data >> 8) & 0xF) & (data << 30 | extra)), 31), (crate::cpu::reg_of(old(self).cpu, (data >> 8) & 0xF) & (data << 30 | extra)) == 0, crate::board::spill_carry(data, old(self).cpu.apsr.c), old(self).cpu.apsr.v),
    {
        let imm32 = data << 30 | extra;
        let rd = (data >> 4) & 0xF;
        let rn = (data >> 8) & 0xF;
        let result = self.read_reg(rn) & imm32;
        self.write_reg(rd, result);
        if bitset(data, 12) {
            self.set_flags_nz_alt_c(result, data);
        }
    }

    fn w_and_reg(&mut self, data: u32, extra: u32)
        requires
            old(self).inv(),
            shift_payload_ok(extra),
        ensures
            final(self).inv(),
            pc_even_kept(*old(self), *final(self)),
            ({ let p = crate::bits::shift_c_of(crate::cpu::reg_of(old(self).cpu, (data >> 8) & 0xF), extra & 0b111, extra >> 3, crate::cpu::flag_bit(old(self).cpu.apsr.c)); let v = (crate::cpu::reg_of(old(self).cpu, (data >> 4) & 0xF) & p.0); crate::board::alu_wrote(*old(self), *final(self), data & 0xF, v, crate::bits::bit_of(data, 12), crate::bits::bit_of(v, 31), v == 0, p.1, old(self).cpu.apsr.v) }),
    {
        let rd = data & 0xF;
        let rn = (data >> 4) & 0xF;
        let rm = (data >> 8) & 0xF;
        let setflags = bitset(data, 12);
        let shift_t = extra & 0b111;
        let shift_n = extra >> 3;
        let (shifted, carry) = self.get_shift_with_carry(self.read_reg(rm), shift_t, shift_n);
        let result = self.read_reg(rn) & shifted;
        self.write_reg(rd, result);
        if setflags {
            self.set_flags_nzc(result, carry);
        }
    }

    fn w_asr_imm(&mut self, data: u32, extra: u32)
        requires
            old(self).inv(),
        ensures
            final(self).inv(),
            pc_even_kept(*old(self), *final(self)),
            ({ let p = (if extra == 0 { (crate::cpu::reg_of(old(self).cpu, (data >> 4) & 0xF), old(self).cpu.apsr.c) } else { crate::bits::asr_c_of(crate::cpu::reg_of(old(self).cpu, (data >> 4) & 0xF), extra) }); crate::board::alu_wrote(*old(self), *final(self), data & 0xF, p.0, crate::bits::bit_of(data, 8), crate::bits::bit_of(p.0, 31), p.0 == 0, p.1, old(self).cpu.apsr.v) }),
    {
        let rd = data & 0xF;
        let rm = (data >> 4) & 0xF;
        let setflags = bitset(data, 8);
        let (result, carry) = self.asr_c(self.read_reg(rm), extra);
        self.write_reg(rd, result);
        if setflags {
            self.set_flags_nzc(result, carry);
        }
    }

    fn w_asr_reg(&mut self, data: u32, extra: u32)
        requires
            old(self).inv(),
        ensures
            final(self).inv(),
            pc_even_kept(*old(self), *final(self)),
            ({ let p = (if crate::cpu::reg_of(old(self).cpu, extra & 0xF) & 0xFF == 0 { (crate::cpu::reg_of(old(self).cpu, (data >> 4) & 0xF), old(self).cpu.apsr.c) } else { crate::bits::asr_c_of(crate::cpu::reg_of(old(self).cpu, (data >> 4) & 0xF), crate::cpu::reg_of(old(self).cpu, extra & 0xF) & 0xFF) }); crate::board::alu_wrote(*old(self), *final(self), data & 0xF, p.0, crate::bits::bit_of(data, 8), crate::bits::bit_of(p.0, 31), p.0 == 0, p.1, old(self).cpu.apsr.v) }),
    {
        let rd = data & 0xF;
        let rn = (data >> 4) & 0xF;
        let setflags = bitset(data, 8);
        let rm = extra & 0xF;
        let shift_n = self.read_reg(rm) & 0xFF;
        let (result, carry) = self.asr_c(self.read_reg(rn), shift_n);
        self.write_reg(rd, result);
        if setflags {
            self.set_flags_nzc(result, carry);
        }
    }

    fn w_branch(&mut self, _data: u32, extra: u32)
        requires
            old(self).inv(),
        ensures
            final(self).inv(),
            pc_even_kept(*old(self), *final(self)),
            final(self).cpu.instr_pc == vstd::wrapping::u32_specs::wrapping_add(
                old(self).cpu.registers@[15],
                crate::bits::sign_extend_of(extra & 0xFF_FFFF, 23) << 1,
            ) & !0b1u32,
            !final(self).exclusive_monitors.is_reserved(),
    {
        let imm32 = shifted_sign_extend(extra & 0xFF_FFFF, 23, 1);
        let pc = self.read_pc();
        self.branch_write_pc(pc.wrapping_add(imm32));
    }

    fn w_branch_cond(&mut self, data: u32, extra: u32)
        requires
            old(self).inv(),
        ensures
            final(self).inv(),
            pc_even_kept(*old(self), *final(self)),
            crate::cpu::cond_holds(old(self).cpu.apsr, crate::cpu::cond_of(data & 0xF)) ==> final(self).cpu.instr_pc == vstd::wrapping::u32_specs::wrapping_add(old(self).cpu.registers@[15], crate::bits::sign_extend_of(extra & 0xF_FFFF, 19) << 1) & !0b1u32,
            !crate::cpu::cond_holds(old(self).cpu.apsr, crate::cpu::cond_of(data & 0xF)) ==> *final(self) == *old(self),
    {
        let cond = Condition::new(data & 0xF);
        if self.cpu.check_condition(cond) {
            let offset = shifted_sign_extend(extra & 0xF_FFFF, 19, 1);
            let pc = self.read_pc();
            self.branch_write_pc(pc.wrapping_add(offset));
        }
    }

    fn w_bfc(&mut self, data: u32, extra: u32)
        requires
            old(self).inv(),
        ensures
            final(self).inv(),
            pc_even_kept(*old(self), *final(self)),
            (extra & 0x1F) >= ((extra >> 5) & 0x1F) ==> crate::board::alu_wrote(*old(self), *final(self), data & 0xF, crate::cpu::reg_of(old(self).cpu, data & 0xF) & crate::bits::field_mask(extra & 0x1F, (extra >> 5) & 0x1F), false, false, false, false, false),
            (extra & 0x1F) < ((extra >> 5) & 0x1F) ==> final(self).pending_default_handler && final(self).cpu == old(self).cpu,
    {
        let rd = data & 0xF;
        let msbit = extra & 0x1F;
        let lsbit = (extra >> 5) & 0x1F;
        if msbit >= lsbit {
            let result = bit_field_clear(self.read_reg(rd), msbit, lsbit);
            self.write_reg(rd, result);
        } else {
            self.pending_default_handler = true;
        }
    }

    fn w_bfi(&mut self, data: u32, extra: u32)
        requires
            old(self).inv(),
        ensures
            final(self).inv(),
            pc_even_kept(*old(self), *final(self)),
            (extra & 0x1F) >= ((extra >> 5) & 0x1F) ==> crate::board::alu_wrote(*old(self), *final(self), data & 0xF, crate::bits::bit_field_insert_of(crate::cpu::reg_of(old(self).cpu, data & 0xF), crate::cpu::reg_of(old(self).cpu, (data >> 4) & 0xF), extra & 0x1F, (extra >> 5) & 0x1F), false, false, false, false, false),
            (extra & 0x1F) < ((extra >> 5) & 0x1F) ==> final(self).pending_default_handler && final(self).cpu == old(self).cpu,
    {
        let rd = data & 0xF;
        let rn = (data >> 4) & 0xF;
        let msbit = extra & 0x1F;
        let lsbit = (extra >> 5) & 0x1F;
        if msbit >= lsbit {
            let result = bit_field_insert(self.read_reg(rd), self.read_reg(rn), msbit, lsbit);
            self.write_reg(rd, result);
        } else {
            self.pending_default_handler = true;
        }
    }

    fn w_bic_imm(&mut self, data: u32, extra: u32)
        requires
            old(self).inv(),
        ensures
            final(self).inv(),
            pc_even_kept(*old(self), *final(self)),
            crate::board::alu_wrote(*old(self), *final(self), (data >> 4) & 0xF, (crate::cpu::reg_of(old(self).cpu, (data >> 8) & 0xF) & !(data << 30 | extra)), crate::bits::bit_of(data, 12), crate::bits::bit_of((crate::cpu::reg_of(old(self).cpu, (data >> 8) & 0xF) & !(data << 30 | extra)), 31), (crate::cpu::reg_of(old(self).cpu, (data >> 8) & 0xF) & !(data << 30 | extra)) == 0, crate::board::spill_carry(data, old(self).cpu.apsr.c), old(self).cpu.apsr.v),
    {
        let imm32 = data << 30 | extra;
        let rd = (data >> 4) & 0xF;
        let rn = (data >> 8) & 0xF;
        let setflags = bitset(data, 12);
        let result = self.read_reg(rn) & !imm32;
        self.write_reg(rd, result);
        if setflags {
            self.set_flags_nz_alt_c(result, data);
        }
    }

    fn w_bic_reg(&mut self, data: u32, extra: u32)
        requires
            old(self).inv(),
            shift_payload_ok(extra),
        ensures
            final(self).inv(),
            pc_even_kept(*old(self), *final(self)),
            ({ let p = crate::bits::shift_c_of(crate::cpu::reg_of(old(self).cpu, (data >> 8) & 0xF), extra & 0b111, extra >> 3, crate::cpu::flag_bit(old(self).cpu.apsr.c)); let v = (crate::cpu::reg_of(old(self).cpu, (data >> 4) & 0xF) & !p.0); crate::board::alu_wrote(*old(self), *final(self), data & 0xF, v, crate::bits::bit_of(data, 12), crate::bits::bit_of(v, 31), v == 0, p.1, old(self).cpu.apsr.v) }),
    {
        let rd = data & 0xF;
        let rn = (data >> 4) & 0xF;
        let rm = (data >> 8) & 0xF;
        let setflags = bitset(data, 12);
        let shift_t = extra & 0b111;
        let shift_n = extra >> 3;
        let (shifted, carry) = self.get_shift_with_carry(self.read_reg(rm), shift_t, shift_n);
        let result = self.read_reg(rn) & !shifted;
        self.write_reg(rd, result);
        if setflags {
            self.set_flags_nzc(result, carry);
        }
    }

    /// Branch-and-link, with the skip-or-intercept map: a call into a
    /// recognised symbol either feeds the audio sink (low halfword of r0)
    /// or is skipped entirely, LR already holding the return address.
    fn w_bl(&mut self, _data: u32, extra: u32)
        requires
            old(self).inv(),
        ensures
            final(self).inv(),
            pc_even_kept(*old(self), *final(self)),
    {
        let pc = self.read_pc();
        self.write_lr(pc | 0b1);
        let address = pc.wrapping_add(shifted_sign_extend(extra & 0xFF_FFFF, 23, 1));
        let hit = match self.branch_map.get(&address) {
            Some(name) => Some(name.clone()),
            None => None,
        };
        match hit {
            Some(name) => {
                let audio1: String = crate::elf::audio_symbol_bsp();
                let audio2: String = crate::elf::audio_symbol_plain();
                if name == audio1 || name == audio2 {
                    let sample = self.read_reg(0) & 0xFFFF;
                    self.audio_handler.handle(sample as i16);
                }
                // Any other recognised symbol is skipped: control falls
                // through to the instruction after the BL.
            },
            None => {
                self.branch_write_pc(address);
            },
        }
    }

    fn w_clrex(&mut self, _data: u32, _extra: u32)
        requires
            old(self).inv(),
        ensures
            final(self).inv(),
            !final(self).exclusive_monitors.is_reserved(),
            pc_even_kept(*old(self), *final(self)),
    {
        self.exclusive_monitors_clear();
    }

    fn w_clz(&mut self, data: u32, extra: u32)
        requires
            old(self).inv(),
        ensures
            final(self).inv(),
            pc_even_kept(*old(self), *final(self)),
            crate::board::alu_wrote(*old(self), *final(self), data & 0xF, vstd::std_specs::bits::u32_leading_zeros(crate::cpu::reg_of(old(self).cpu, extra & 0xF)), false, false, false, false, false),
    {
        let rd = data & 0xF;
        let rm = extra & 0xF;
        let count = self.read_reg(rm).leading_zeros();
        self.write_reg(rd, count);
    }

    fn w_cmn_imm(&mut self, data: u32, extra: u32)
        requires
            old(self).inv(),
        ensures
            final(self).inv(),
            pc_even_kept(*old(self), *final(self)),
            crate::board::flags_wrote(*old(self), *final(self), crate::bits::bit_of(crate::bits::awc_result(crate::cpu::reg_of(old(self).cpu, (data >> 4) & 0xF), (data << 30 | extra), 0u32), 31), crate::bits::awc_result(crate::cpu::reg_of(old(self).cpu, (data >> 4) & 0xF), (data << 30 | extra), 0u32) == 0, crate::bits::awc_carry(crate::cpu::reg_of(old(self).cpu, (data >> 4) & 0xF), (data << 30 | extra), 0u32), crate::bits::awc_overflow(crate::cpu::reg_of(old(self).cpu, (data >> 4) & 0xF), (data << 30 | extra), 0u32)),
    {
        let imm32 = data << 30 | extra;
        let rn = (data >> 4) & 0xF;
        let (result, carry, overflow) = add_with_carry(self.read_reg(rn), imm32, 0);
        self.set_flags_nzcv(result, carry, overflow);
    }

    fn w_cmn_reg(&mut self, data: u32, extra: u32)
        requires
            old(self).inv(),
            shift_payload_ok(extra),
        ensures
            final(self).inv(),
            pc_even_kept(*old(self), *final(self)),
            crate::board::flags_wrote(*old(self), *final(self), crate::bits::bit_of(crate::bits::awc_result(crate::cpu::reg_of(old(self).cpu, data & 0xF), (crate::bits::shift_c_of(crate::cpu::reg_of(old(self).cpu, (data >> 4) & 0xF), extra & 0b111, extra >> 3, crate::cpu::flag_bit(old(self).cpu.apsr.c)).0), 0u32), 31), crate::bits::awc_result(crate::cpu::reg_of(old(self).cpu, data & 0xF), (crate::bits::shift_c_of(crate::cpu::reg_of(old(self).cpu, (data >> 4) & 0xF), extra & 0b111, extra >> 3, crate::cpu::flag_bit(old(self).cpu.apsr.c)).0), 0u32) == 0, crate::bits::awc_carry(crate::cpu::reg_of(old(self).cpu, data & 0xF), (crate::bits::shift_c_of(crate::cpu::reg_of(old(self).cpu, (data >> 4) & 0xF), extra & 0b111, extra >> 3, crate::cpu::flag_bit(old(self).cpu.apsr.c)).0), 0u32), crate::bits::awc_overflow(crate::cpu::reg_of(old(self).cpu, data & 0xF), (crate::bits::shift_c_of(crate::cpu::reg_of(old(self).cpu, (data >> 4) & 0xF), extra & 0b111, extra >> 3, crate::cpu::flag_bit(old(self).cpu.apsr.c)).0), 0u32)),
    {
        let rn = data & 0xF;
        let rm = (data >> 4) & 0xF;
        let shift_t = extra & 0b111;
        let shift_n = extra >> 3;
        let shifted = self.get_shifted_register(self.read_reg(rm), shift_t, shift_n);
        let (result, carry, overflow) = add_with_carry(self.read_reg(rn), shifted, 0);
        self.set_flags_nzcv(result, carry, overflow);
    }

    fn w_cmp_imm(&mut self, data: u32, extra: u32)
        requires
            old(self).inv(),
        ensures
            final(self).inv(),
            pc_even_kept(*old(self), *final(self)),
            crate::board::flags_wrote(*old(self), *final(self), crate::bits::bit_of(crate::bits::awc_result(crate::cpu::reg_of(old(self).cpu, (data >> 4) & 0xF), !(data << 30 | extra), 1u32), 31), crate::bits::awc_result(crate::cpu::reg_of(old(self).cpu, (data >> 4) & 0xF), !(data << 30 | extra), 1u32) == 0, crate::bits::awc_carry(crate::cpu::reg_of(old(self).cpu, (data >> 4) & 0xF), !(data << 30 | extra), 1u32), crate::bits::awc_overflow(crate::cpu::reg_of(old(self).cpu, (data >> 4) & 0xF), !(data << 30 | extra), 1u32)),
    {
        let imm32 = data << 30 | extra;
        let rn = (data >> 4) & 0xF;
        let (result, carry, overflow) = add_with_carry(self.read_reg(rn), !imm32, 1);
        self.set_flags_nzcv(result, carry, overflow);
    }

    fn w_cmp_reg(&mut self, data: u32, extra: u32)
        requires
            old(self).inv(),
            shift_payload_ok(extra),
        ensures
            final(self).inv(),
            pc_even_kept(*old(self), *final(self)),
            crate::board::flags_wrote(*old(self), *final(self), crate::bits::bit_of(crate::bits::awc_result(crate::cpu::reg_of(old(self).cpu, data & 0xF), (!crate::bits::shift_c_of(crate::cpu::reg_of(old(self).cpu, (data >> 4) & 0xF), extra & 0b111, extra >> 3, crate::cpu::flag_bit(old(self).cpu.apsr.c)).0), 1u32), 31), crate::bits::awc_result(crate::cpu::reg_of(old(self).cpu, data & 0xF), (!crate::bits::shift_c_of(crate::cpu::reg_of(old(self).cpu, (data >> 4) & 0xF), extra & 0b111, extra >> 3, crate::cpu::flag_bit(old(self).cpu.apsr.c)).0), 1u32) == 0, crate::bits::awc_carry(crate::cpu::reg_of(old(self).cpu, data & 0xF), (!crate::bits::shift_c_of(crate::cpu::reg_of(old(self).cpu, (data >> 4) & 0xF), extra & 0b111, extra >> 3, crate::cpu::flag_bit(old(self).cpu.apsr.c)).0), 1u32), crate::bits::awc_overflow(crate::cpu::reg_of(old(self).cpu, data & 0xF), (!crate::bits::shift_c_of(crate::cpu::reg_of(old(self).cpu, (data >> 4) & 0xF), extra & 0b111, extra >> 3, crate::cpu::flag_bit(old(self).cpu.apsr.c)).0), 1u32)),
    {
        let rn = data & 0xF;
        let rm = (data >> 4) & 0xF;
        let shift_t = extra & 0b111;
        let shift_n = extra >> 3;
        let shifted = self.get_shifted_register(self.read_reg(rm), shift_t, shift_n);
        let (result, carry, overflow) = add_with_carry(self.read_reg(rn), !shifted, 1);
        self.set_flags_nzcv(result, carry, overflow);
    }

    fn w_eor_imm(&mut self, data: u32, extra: u32)
        requires
            old(self).inv(),
        ensures
            final(self).inv(),
            pc_even_kept(*old(self), *final(self)),
            crate::board::alu_wrote(*old(self), *final(self), (data >> 4) & 0xF, (crate::cpu::reg_of(old(self).cpu, (data >> 8) & 0xF) ^ (data << 30 | extra)), crate::bits::bit_of(data, 12), crate::bits::bit_of((crate::cpu::reg_of(old(self).cpu, (data >> 8) & 0xF) ^ (data << 30 | extra)), 31), (crate::cpu::reg_of(old(self).cpu, (data >> 8) & 0xF) ^ (data << 30 | extra)) == 0, crate::board::spill_carry(data, old(self).cpu.apsr.c), old(self).cpu.apsr.v),
    {
        let imm32 = data << 30 | extra;
        let rd = (data >> 4) & 0xF;
        let rn = (data >> 8) & 0xF;
        let setflags = bitset(data, 12);
        let result = self.read_reg(rn) ^ imm32;
        self.write_reg(rd, result);
        if setflags {
            self.set_flags_nz_alt_c(result, data);
        }
    }

    fn w_eor_reg(&mut self, data: u32, extra: u32)
        requires
            old(self).inv(),
            shift_payload_ok(extra),
        ensures
            final(self).inv(),
            pc_even_kept(*old(self), *final(self)),
            ({ let p = crate::bits::shift_c_of(crate::cpu::reg_of(old(self).cpu, (data >> 8) & 0xF), extra & 0b111, extra >> 3, crate::cpu::flag_bit(old(self).cpu.apsr.c)); let v = (crate::cpu::reg_of(old(self).cpu, (data >> 4) & 0xF) ^ p.0); crate::board::alu_wrote(*old(self), *final(self), data & 0xF, v, crate::bits::bit_of(data, 12), crate::bits::bit_of(v, 31), v == 0, p.1, old(self).cpu.apsr.v) }),
    {
        let rd = data & 0xF;
        let rn = (data >> 4) & 0xF;
        let rm = (data >> 8) & 0xF;
        let setflags = bitset(data, 12);
        let shift_t = extra & 0b111;
        let shift_n = extra >> 3;
        let (shifted, carry) = self.get_shift_with_carry(self.read_reg(rm), shift_t, shift_n);
        let result = self.read_reg(rn) ^ shifted;
        self.write_reg(rd, result);
        if setflags {
            self.set_flags_nzc(result, carry);
        }
    }

    fn w_ldm(&mut self, data: u32, extra: u32)
        requires
            old(self).inv(),
        ensures
            final(self).inv(),
            pc_even_kept(*old(self), *final(self)),
    {
        let rn = data & 0xF;
        let registers = extra;
        let wback = bitset(extra, 16);
        let mut address = self.read_reg(rn);
        let mut i: u32 = 0;
        while i < 15
            invariant
                self.inv(),
                i <= 15,
                self.cpu.instr_pc == old(self).cpu.instr_pc,
            decreases 15 - i,
        {
            if bitset(registers, i) {
                let v = self.read_word(address);
                self.write_reg(i, v);
                address = address.wrapping_add(4);
            }
            i = i + 1;
        }
        if bitset(registers, 15) {
            let v = self.read_word(address);
            self.load_write_pc(v);
        }
        if wback && !bitset(registers, rn) {
            self.write_reg(rn, address);
        }
    }

    fn w_ldmdb(&mut self, data: u32, extra: u32)
        requires
            old(self).inv(),
        ensures
            final(self).inv(),
            pc_even_kept(*old(self), *final(self)),
    {
        let rn = data & 0xF;
        let registers = extra & 0xFFFF;
        let wback = bitset(extra, 16);
        let count = crate::bits::count_ones(registers);
        let base = self.read_reg(rn);
        let mut address = base.wrapping_sub(4u32.wrapping_mul(count));
        let mut i: u32 = 0;
        while i < 15
            invariant
                self.inv(),
                i <= 15,
                self.cpu.instr_pc == old(self).cpu.instr_pc,
            decreases 15 - i,
        {
            if bitset(registers, i) {
                let v = self.read_mem_a(address, 4);
                self.write_reg(i, v);
                address = address.wrapping_add(4);
            }
            i = i + 1;
        }
        if bitset(registers, 15) {
            let v = self.read_mem_a(address, 4);
            self.load_write_pc(v);
        }
        if wback && !bitset(registers, rn) {
            let rn_val = self.read_reg(rn);
            self.write_reg(rn, rn_val.wrapping_sub(4u32.wrapping_mul(count)));
        }
    }

    fn w_ldr_imm(&mut self, data: u32, extra: u32)
        requires
            old(self).inv(),
        ensures
            final(self).inv(),
            pc_even_kept(*old(self), *final(self)),
    {
        let rt = data & 0xF;
        let rn = (data >> 4) & 0xF;
        let index = bitset(extra, 14);
        let wback = bitset(extra, 13);
        let rn_val = self.read_reg(rn);
        let offset_address = rn_val.wrapping_add(sign_extend(extra & 0x1FFF, 12));
        let address = if index {
            offset_address
        } else {
            rn_val
        };
        let value = self.read_word(address);
        if wback {
            self.write_reg(rn, offset_address);
        }
        if rt == 15 {
            if (address & 0b11) == 0 {
                self.load_write_pc(value);
            } else {
                self.pending_default_handler = true;
            }
        } else {
            self.write_reg(rt, value);
        }
    }

    fn w_ldr_lit(&mut self, data: u32, extra: u32)
        requires
            old(self).inv(),
        ensures
            final(self).inv(),
            pc_even_kept(*old(self), *final(self)),
    {
        let rt = data & 0xF;
        let pc = self.read_pc();
        let address = word_align(pc).wrapping_add(sign_extend(extra & 0x1FFF, 12));
        let value = self.read_word(address);
        if rt == 15 {
            if (address & 0b11) == 0 {
                self.load_write_pc(value);
            } else {
                self.pending_default_handler = true;
            }
        } else {
            self.write_reg(rt, value);
        }
    }

    fn w_ldr_reg(&mut self, data: u32, extra: u32)
        requires
            old(self).inv(),
        ensures
            final(self).inv(),
            pc_even_kept(*old(self), *final(self)),
    {
        let rt = data & 0xF;
        let rn = (data >> 4) & 0xF;
        let rm = extra & 0xF;
        let shift_n = (extra >> 4) & 0b11;
        let offset = self.read_reg(rm) << shift_n;
        let address = self.read_reg(rn).wrapping_add(offset);
        let value = self.read_mem_u(address, 4);
        if rt == 15 {
            if address & 0b11 != 0 {
                self.pending_default_handler = true;
            }
            self.load_write_pc(value);
        } else {
            self.write_reg(rt, value);
        }
    }

    fn w_ldrb_imm(&mut self, data: u32, extra: u32)
        requires
            old(self).inv(),
        ensures
            final(self).inv(),
            pc_even_kept(*old(self), *final(self)),
    {
        let rt = data & 0xF;
        let rn = (data >> 4) & 0xF;
        let index = bitset(extra, 14);
        let wback = bitset(extra, 13);
        let rn_val = self.read_reg(rn);
        let offset_address = rn_val.wrapping_add(sign_extend(extra & 0x1FFF, 12));
        let address = if index {
            offset_address
        } else {
            rn_val
        };
        let value = self.read_mem_u(address, 1);
        if wback {
            self.write_reg(rn, offset_address);
        }
        self.write_reg(rt, value);
    }

    fn w_ldrb_reg(&mut self, data: u32, extra: u32)
        requires
            old(self).inv(),
        ensures
            final(self).inv(),
            pc_even_kept(*old(self), *final(self)),
    {
        let rt = data & 0xF;
        let rn = (data >> 4) & 0xF;
        let rm = extra & 0xF;
        let shift_n = (extra >> 4) & 0b11;
        let offset = self.read_reg(rm) << shift_n;
        let address = self.read_reg(rn).wrapping_add(offset);
        let value = self.read_mem_u(address, 1);
        self.write_reg(rt, value);
    }

    fn w_ldrh_imm(&mut self, data: u32, extra: u32)
        requires
            old(self).inv(),
        ensures
            final(self).inv(),
            pc_even_kept(*old(self), *final(self)),
    {
        let rt = data & 0xF;
        let rn = (data >> 4) & 0xF;
        let index = bitset(extra, 14);
        let wback = bitset(extra, 13);
        let rn_val = self.read_reg(rn);
        let offset_address = rn_val.wrapping_add(sign_extend(extra & 0x1FFF, 12));
        let address = if index {
            offset_address
        } else {
            rn_val
        };
        let value = self.read_mem_u(address, 2);
        if wback {
            self.write_reg(rn, offset_address);
        }
        self.write_reg(rt, value);
    }

    fn w_ldrh_reg(&mut self, data: u32, extra: u32)
        requires
            old(self).inv(),
        ensures
            final(self).inv(),
            pc_even_kept(*old(self), *final(self)),
    {
        let rt = data & 0xF;
        let rn = (data >> 4) & 0xF;
        let rm = extra & 0xF;
        let shift_n = (extra >> 4) & 0b11;
        let offset = self.read_reg(rm) << shift_n;
        let address = self.read_reg(rn).wrapping_add(offset);
        let value = self.read_mem_u(address, 2);
        self.write_reg(rt, value);
    }

    fn w_ldrsb_reg(&mut self, data: u32, extra: u32)
        requires
            old(self).inv(),
        ensures
            final(self).inv(),
            pc_even_kept(*old(self), *final(self)),
    {
        let rt = data & 0xF;
        let rn = (data >> 4) & 0xF;
        let rm = extra & 0xF;
        let shift_n = (extra >> 4) & 0b11;
        let offset = self.read_reg(rm) << shift_n;
        let address = self.read_reg(rn).wrapping_add(offset);
        let value = self.read_mem_u(address, 1);
        self.write_reg(rt, sign_extend(value & 0xFF, 7));
    }

    fn w_ldrsb_imm(&mut self, data: u32, extra: u32)
        requires
            old(self).inv(),
        ensures
            final(self).inv(),
            pc_even_kept(*old(self), *final(self)),
    {
        let rt = data & 0xF;
        let rn = (data >> 4) & 0xF;
        let index = bitset(extra, 14);
        let wback = bitset(extra, 13);
        let rn_val = self.read_reg(rn);
        let offset_address = rn_val.wrapping_add(sign_extend(extra & 0x1FFF, 12));
        let address = if index {
            offset_address
        } else {
            rn_val
        };
        let value = self.read_mem_u(address, 1);
        if wback {
            self.write_reg(rn, offset_address);
        }
        self.write_reg(rt, sign_extend(value & 0xFF, 7));
    }

    fn w_ldrsh_imm(&mut self, data: u32, extra: u32)
        requires
            old(self).inv(),
        ensures
            final(self).inv(),
            pc_even_kept(*old(self), *final(self)),
    {
        let rt = data & 0xF;
        let rn = (data >> 4) & 0xF;
        let index = bitset(extra, 14);
        let wback = bitset(extra, 13);
        let rn_val = self.read_reg(rn);
        let offset_address = rn_val.wrapping_add(sign_extend(extra & 0x1FFF, 12));
        let address = if index {
            offset_address
        } else {
            rn_val
        };
        let value = self.read_mem_u(address, 2);
        if wback {
            self.write_reg(rn, offset_address);
        }
        self.write_reg(rt, sign_extend(value & 0xFFFF, 15));
    }

    fn w_ldrsh_reg(&mut self, data: u32, extra: u32)
        requires
            old(self).inv(),
        ensures
            final(self).inv(),
            pc_even_kept(*old(self), *final(self)),
    {
        let rt = data & 0xF;
        let rn = (data >> 4) & 0xF;
        let rm = extra & 0xF;
        let shift_n = (extra >> 4) & 0b11;
        let offset = self.read_reg(rm) << shift_n;
        let address = self.read_reg(rn).wrapping_add(offset);
        let value = self.read_mem_u(address, 2);
        self.write_reg(rt, sign_extend(value & 0xFFFF, 15));
    }

    fn w_ldrex(&mut self, data: u32, extra: u32)
        requires
            old(self).inv(),
        ensures
            final(self).inv(),
            final(self).exclusive_monitors.is_reserved(),
            pc_even_kept(*old(self), *final(self)),
    {
        let rt = data & 0xF;
        let imm10 = extra & 0x3FF;
        let rn = (extra >> 10) & 0xF;
        let address = self.read_reg(rn).wrapping_add(imm10);
        self.set_exclusive_monitors(address, 4);
        let v = self.read_mem_a(address, 4);
        self.write_reg(rt, v);
    }

    fn w_lsl_imm(&mut self, data: u32, extra: u32)
        requires
            old(self).inv(),
        ensures
            final(self).inv(),
            pc_even_kept(*old(self), *final(self)),
            ({ let p = (if extra == 0 { (crate::cpu::reg_of(old(self).cpu, (data >> 4) & 0xF), old(self).cpu.apsr.c) } else { crate::bits::lsl_c_of(crate::cpu::reg_of(old(self).cpu, (data >> 4) & 0xF), extra) }); crate::board::alu_wrote(*old(self), *final(self), data & 0xF, p.0, crate::bits::bit_of(data, 8), crate::bits::bit_of(p.0, 31), p.0 == 0, p.1, old(self).cpu.apsr.v) }),
    {
        let rd = data & 0xF;
        let rm = (data >> 4) & 0xF;
        let setflags = bitset(data, 8);
        let (result, carry) = self.lsl_c(self.read_reg(rm), extra);
        self.write_reg(rd, result);
        if setflags {
            self.set_flags_nzc(result, carry);
        }
    }

    fn w_lsl_reg(&mut self, data: u32, extra: u32)
        requires
            old(self).inv(),
        ensures
            final(self).inv(),
            pc_even_kept(*old(self), *final(self)),
            ({ let p = (if crate::cpu::reg_of(old(self).cpu, extra & 0xF) & 0xFF == 0 { (crate::cpu::reg_of(old(self).cpu, (data >> 4) & 0xF), old(self).cpu.apsr.c) } else { crate::bits::lsl_c_of(crate::cpu::reg_of(old(self).cpu, (data >> 4) & 0xF), crate::cpu::reg_of(old(self).cpu, extra & 0xF) & 0xFF) }); crate::board::alu_wrote(*old(self), *final(self), data & 0xF, p.0, crate::bits::bit_of(data, 8), crate::bits::bit_of(p.0, 31), p.0 == 0, p.1, old(self).cpu.apsr.v) }),
    {
        let rd = data & 0xF;
        let rn = (data >> 4) & 0xF;
        let setflags = bitset(data, 8);
        let rm = extra & 0xF;
        let shift_n = self.read_reg(rm) & 0xFF;
        let (result, carry) = self.lsl_c(self.read_reg(rn), shift_n);
        self.write_reg(rd, result);
        if setflags {
            self.set_flags_nzc(result, carry);
        }
    }

    fn w_lsr_imm(&mut self, data: u32, extra: u32)
        requires
            old(self).inv(),
        ensures
            final(self).inv(),
            pc_even_kept(*old(self), *final(self)),
            ({ let p = (if extra == 0 { (crate::cpu::reg_of(old(self).cpu, (data >> 4) & 0xF), old(self).cpu.apsr.c) } else { crate::bits::lsr_c_of(crate::cpu::reg_of(old(self).cpu, (data >> 4) & 0xF), extra) }); crate::board::alu_wrote(*old(self), *final(self), data & 0xF, p.0, crate::bits::bit_of(data, 8), crate::bits::bit_of(p.0, 31), p.0 == 0, p.1, old(self).cpu.apsr.v) }),
    {
        let rd = data & 0xF;
        let rm = (data >> 4) & 0xF;
        let setflags = bitset(data, 8);
        let (result, carry) = self.lsr_c(self.read_reg(rm), extra);
        self.write_reg(rd, result);
        if setflags {
            self.set_flags_nzc(result, carry);
        }
    }

    fn w_lsr_reg(&mut self, data: u32, extra: u32)
        requires
            old(self).inv(),
        ensures
            final(self).inv(),
            pc_even_kept(*old(self), *final(self)),
            ({ let p = (if crate::cpu::reg_of(old(self).cpu, extra & 0xF) & 0xFF == 0 { (crate::cpu::reg_of(old(self).cpu, (data >> 4) & 0xF), old(self).cpu.apsr.c) } else { crate::bits::lsr_c_of(crate::cpu::reg_of(old(self).cpu, (data >> 4) & 0xF), crate::cpu::reg_of(old(self).cpu, extra & 0xF) & 0xFF) }); crate::board::alu_wrote(*old(self), *final(self), data & 0xF, p.0, crate::bits::bit_of(data, 8), crate::bits::bit_of(p.0, 31), p.0 == 0, p.1, old(self).cpu.apsr.v) }),
    {
        let rd = data & 0xF;
        let rn = (data >> 4) & 0xF;
        let setflags = bitset(data, 8);
        let rm = extra & 0xF;
        let shift_n = self.read_reg(rm) & 0xFF;
        let (result, carry) = self.lsr_c(self.read_reg(rn), shift_n);
        self.write_reg(rd, result);
        if setflags {
            self.set_flags_nzc(result, carry);
        }
    }

    fn w_mla(&mut self, data: u32, extra: u32)
        requires
            old(self).inv(),
        ensures
            final(self).inv(),
            pc_even_kept(*old(self), *final(self)),
            crate::board::alu_wrote(*old(self), *final(self), data & 0xF, vstd::wrapping::u32_specs::wrapping_add(vstd::wrapping::u32_specs::wrapping_mul(crate::cpu::reg_of(old(self).cpu, (data >> 4) & 0xF), crate::cpu::reg_of(old(self).cpu, extra & 0xF)), crate::cpu::reg_of(old(self).cpu, (extra >> 4) & 0xF)), false, false, false, false, false),
    {
        let rd = data & 0xF;
        let rn = (data >> 4) & 0xF;
        let rm = extra & 0xF;
        let ra = (extra >> 4) & 0xF;
        let op1 = self.read_reg(rn);
        let op2 = self.read_reg(rm);
        let addend = self.read_reg(ra);
        let result = op1.wrapping_mul(op2).wrapping_add(addend);
        self.write_reg(rd, result);
    }

    fn w_mls(&mut self, data: u32, extra: u32)
        requires
            old(self).inv(),
        ensures
            final(self).inv(),
            pc_even_kept(*old(self), *final(self)),
            crate::board::alu_wrote(*old(self), *final(self), data & 0xF, vstd::wrapping::u32_specs::wrapping_sub(crate::cpu::reg_of(old(self).cpu, (extra >> 4) & 0xF), vstd::wrapping::u32_specs::wrapping_mul(crate::cpu::reg_of(old(self).cpu, (data >> 4) & 0xF), crate::cpu::reg_of(old(self).cpu, extra & 0xF))), false, false, false, false, false),
    {
        let rd = data & 0xF;
        let rn = (data >> 4) & 0xF;
        let rm = extra & 0xF;
        let ra = (extra >> 4) & 0xF;
        let op1 = self.read_reg(rn);
        let op2 = self.read_reg(rm);
        let addend = self.read_reg(ra);
        let result = addend.wrapping_sub(op1.wrapping_mul(op2));
        self.write_reg(rd, result);
    }

    fn w_mov_imm(&mut self, data: u32, extra: u32)
        requires
            old(self).inv(),
        ensures
            final(self).inv(),
            pc_even_kept(*old(self), *final(self)),
            crate::board::alu_wrote(*old(self), *final(self), (data >> 4) & 0xF, (data << 30 | extra), crate::bits::bit_of(data, 8), crate::bits::bit_of((data << 30 | extra), 31), (data << 30 | extra) == 0, crate::board::spill_carry(data, old(self).cpu.apsr.c), old(self).cpu.apsr.v),
    {
        let imm32 = data << 30 | extra;
        let rd = (data >> 4) & 0xF;
        self.write_reg(rd, imm32);
        if bitset(data, 8) {
            self.set_flags_nz_alt_c(imm32, data);
        }
    }

    fn w_mov_reg(&mut self, data: u32, extra: u32)
        requires
            old(self).inv(),
        ensures
            final(self).inv(),
            pc_even_kept(*old(self), *final(self)),
    {
        let rd = data & 0xF;
        let setflags = bitset(data, 4);
        let rm = extra & 0xF;
        let result = self.read_reg(rm);
        if rd == 15 {
            self.alu_write_pc(result);
        } else {
            self.write_reg(rd, result);
            if setflags {
                self.set_flags_nz(result);
            }
        }
    }

    /// The sixteen-bit immediate replaces the top half of the
    /// destination register; the bottom half stays.
    fn w_movt(&mut self, data: u32, extra: u32)
        requires
            old(self).inv(),
        ensures
            final(self).inv(),
            pc_even_kept(*old(self), *final(self)),
            final(self).cpu.registers@ == old(self).cpu.registers@.update(
                (data & 0xF) as int,
                (extra & 0xFFFF) << 16 | (crate::cpu::reg_of(old(self).cpu, data & 0xF) & 0xFFFF),
            ),
            crate::cpu::same_but_registers(old(self).cpu, final(self).cpu),
    {
        let rd = data & 0xF;
        let imm16 = extra & 0xFFFF;
        let original = self.read_reg(rd);
        let modified = imm16 << 16 | (original & 0xFFFF);
        self.write_reg(rd, modified);
    }

    /// The low word of the product lands in the destination register.
    fn w_mul(&mut self, data: u32, extra: u32)
        requires
            old(self).inv(),
        ensures
            final(self).inv(),
            pc_even_kept(*old(self), *final(self)),
            final(self).cpu.registers@ == old(self).cpu.registers@.update(
                (data & 0xF) as int,
                ((crate::cpu::reg_of(old(self).cpu, (data >> 4) & 0xF) * crate::cpu::reg_of(
                    old(self).cpu,
                    extra & 0xF,
                )) % 0x1_0000_0000) as u32,
            ),
            crate::cpu::same_but_registers(old(self).cpu, final(self).cpu),
    {
        let rd = data & 0xF;
        let rn = (data >> 4) & 0xF;
        let rm = extra & 0xF;
        let op1 = self.read_reg(rn);
        let op2 = self.read_reg(rm);
        let result = op1.wrapping_mul(op2);
        self.write_reg(rd, result);
    }

    fn w_mvn_imm(&mut self, data: u32, extra: u32)
        requires
            old(self).inv(),
        ensures
            final(self).inv(),
            pc_even_kept(*old(self), *final(self)),
            crate::board::alu_wrote(*old(self), *final(self), (data >> 4) & 0xF, !(data << 30 | extra), crate::bits::bit_of(data, 8), crate::bits::bit_of(!(data << 30 | extra), 31), !(data << 30 | extra) == 0, crate::board::spill_carry(data, old(self).cpu.apsr.c), old(self).cpu.apsr.v),
    {
        let imm32 = data << 30 | extra;
        let rd = (data >> 4) & 0xF;
        let setflags = bitset(data, 8);
        let result = !imm32;
        self.write_reg(rd, result);
        if setflags {
            self.set_flags_nz_alt_c(result, data);
        }
    }

    fn w_mvn_reg(&mut self, data: u32, extra: u32)
        requires
            old(self).inv(),
            shift_payload_ok(extra),
        ensures
            final(self).inv(),
            pc_even_kept(*old(self), *final(self)),
    {
        let rd = data & 0xF;
        let rm = (data >> 4) & 0xF;
        let setflags = bitset(data, 8);
        let shift_t = extra & 0b111;
        let shift_n = extra >> 3;
        let (shifted, carry) = self.get_shift_with_carry(self.read_reg(rm), shift_t, shift_n);
        let result = !shifted;
        self.write_reg(rd, result);
        if setflags {
            self.set_flags_nzc(result, carry);
        }
    }

    fn w_nop(&mut self, _data: u32, _extra: u32)
        requires
            old(self).inv(),
        ensures
            final(self).inv(),
            pc_even_kept(*old(self), *final(self)),
    {
    }

    fn w_orn_imm(&mut self, data: u32, extra: u32)
        requires
            old(self).inv(),
        ensures
            final(self).inv(),
            pc_even_kept(*old(self), *final(self)),
            crate::board::alu_wrote(*old(self), *final(self), (data >> 4) & 0xF, (crate::cpu::reg_of(old(self).cpu, (data >> 8) & 0xF) | !(data << 30 | extra)), crate::bits::bit_of(data, 12), crate::bits::bit_of((crate::cpu::reg_of(old(self).cpu, (data >> 8) & 0xF) | !(data << 30 | extra)), 31), (crate::cpu::reg_of(old(self).cpu, (data >> 8) & 0xF) | !(data << 30 | extra)) == 0, crate::board::spill_carry(data, old(self).cpu.apsr.c), old(self).cpu.apsr.v),
    {
        let imm32 = data << 30 | extra;
        let rd = (data >> 4) & 0xF;
        let rn = (data >> 8) & 0xF;
        let setflags = bitset(data, 12);
        let result = self.read_reg(rn) | !imm32;
        self.write_reg(rd, result);
        if setflags {
            self.set_flags_nz_alt_c(result, data);
        }
    }

    fn w_orn_reg(&mut self, data: u32, extra: u32)
        requires
            old(self).inv(),
            shift_payload_ok(extra),
        ensures
            final(self).inv(),
            pc_even_kept(*old(self), *final(self)),
            ({ let p = crate::bits::shift_c_of(crate::cpu::reg_of(old(self).cpu, (data >> 8) & 0xF), extra & 0b111, extra >> 3, crate::cpu::flag_bit(old(self).cpu.apsr.c)); let v = (crate::cpu::reg_of(old(self).cpu, (data >> 4) & 0xF) | !p.0); crate::board::alu_wrote(*old(self), *final(self), data & 0xF, v, crate::bits::bit_of(data, 12), crate::bits::bit_of(v, 31), v == 0, p.1, old(self).cpu.apsr.v) }),
    {
        let rd = data & 0xF;
        let rn = (data >> 4) & 0xF;
        let rm = (data >> 8) & 0xF;
        let setflags = bitset(data, 12);
        let shift_t = extra & 0b111;
        let shift_n = extra >> 3;
        let (shifted, carry) = self.get_shift_with_carry(self.read_reg(rm), shift_t, shift_n);
        let result = self.read_reg(rn) | !shifted;
        self.write_reg(rd, result);
        if setflags {
            self.set_flags_nzc(result, carry);
        }
    }

    fn w_orr_imm(&mut self, data: u32, extra: u32)
        requires
            old(self).inv(),
        ensures
            final(self).inv(),
            pc_even_kept(*old(self), *final(self)),
            crate::board::alu_wrote(*old(self), *final(self), (data >> 4) & 0xF, (crate::cpu::reg_of(old(self).cpu, (data >> 8) & 0xF) | (data << 30 | extra)), crate::bits::bit_of(data, 12), crate::bits::bit_of((crate::cpu::reg_of(old(self).cpu, (data >> 8) & 0xF) | (data << 30 | extra)), 31), (crate::cpu::reg_of(old(self).cpu, (data >> 8) & 0xF) | (data << 30 | extra)) == 0, crate::board::spill_carry(data, old(self).cpu.apsr.c), old(self).cpu.apsr.v),
    {
        let imm32 = data << 30 | extra;
        let rd = (data >> 4) & 0xF;
        let rn = (data >> 8) & 0xF;
        let setflags = bitset(data, 12);
        let result = self.read_reg(rn) | imm32;
        self.write_reg(rd, result);
        if setflags {
            self.set_flags_nz_alt_c(result, data);
        }
    }

    fn w_orr_reg(&mut self, data: u32, extra: u32)
        requires
            old(self).inv(),
            shift_payload_ok(extra),
        ensures
            final(self).inv(),
            pc_even_kept(*old(self), *final(self)),
            ({ let p = crate::bits::shift_c_of(crate::cpu::reg_of(old(self).cpu, (data >> 8) & 0xF), extra & 0b111, extra >> 3, crate::cpu::flag_bit(old(self).cpu.apsr.c)); let v = (crate::cpu::reg_of(old(self).cpu, (data >> 4) & 0xF) | p.0); crate::board::alu_wrote(*old(self), *final(self), data & 0xF, v, crate::bits::bit_of(data, 12), crate::bits::bit_of(v, 31), v == 0, p.1, old(self).cpu.apsr.v) }),
    {
        let rd = data & 0xF;
        let rn = (data >> 4) & 0xF;
        let rm = (data >> 8) & 0xF;
        let setflags = bitset(data, 12);
        let shift_t = extra & 0b111;
        let shift_n = extra >> 3;
        let (shifted, carry) = self.get_shift_with_carry(self.read_reg(rm), shift_t, shift_n);
        let result = self.read_reg(rn) | shifted;
        self.write_reg(rd, result);
        if setflags {
            self.set_flags_nzc(result, carry);
        }
    }

    fn w_pkhbt(&mut self, data: u32, extra: u32)
        requires
            old(self).inv(),
            shift_payload_ok(extra),
        ensures
            final(self).inv(),
            pc_even_kept(*old(self), *final(self)),
    {
        let rd = data & 0xF;
        let rn = (data >> 4) & 0xF;
        let rm = (data >> 8) & 0xF;
        let shift_t = extra & 0b111;
        let shift_n = extra >> 3;
        let tbform = bitset(extra, 1);
        let rn_val = self.read_reg(rn);
        let operand2 = self.get_shifted_register(self.read_reg(rm), shift_t, shift_n);
        let result = if tbform {
            (rn_val & 0xFFFF_0000) | (operand2 & 0xFFFF)
        } else {
            (operand2 & 0xFFFF_0000) | (rn_val & 0xFFFF)
        };
        self.write_reg(rd, result);
    }

    fn w_pop(&mut self, data: u32, extra: u32)
        requires
            old(self).inv(),
        ensures
            final(self).inv(),
            pc_even_kept(*old(self), *final(self)),
    {
        let single_mode = bitset(data, 0);
        let mut address = self.read_sp();
        if single_mode {
            let rt = extra & 0xF;
            let result = self.read_mem_u(address, 4);
            if rt == 15 {
                self.load_write_pc(result);
            } else {
                self.write_reg(rt, result);
            }
            address = address.wrapping_add(4);
        } else {
            let registers = extra & 0xFFFF;
            let mut i: u32 = 0;
            while i < 15
                invariant
                    self.inv(),
                    i <= 15,
                    pc_even_kept(*old(self), *self),
                decreases 15 - i,
            {
                if bitset(registers, i) {
                    let v = self.read_mem_a(address, 4);
                    self.write_reg(i, v);
                    address = address.wrapping_add(4);
                }
                i = i + 1;
            }
            if bitset(registers, 15) {
                let v = self.read_mem_u(address, 4);
                self.load_write_pc(v);
                address = address.wrapping_add(4);
            }
        }
        self.write_sp(address);
    }

    fn w_push(&mut self, data: u32, extra: u32)
        requires
            old(self).inv(),
        ensures
            final(self).inv(),
            pc_even_kept(*old(self), *final(self)),
    {
        let single_mode = bitset(data, 0);
        let mut address = self.read_sp();
        if single_mode {
            let rt = extra & 0xF;
            address = address.wrapping_sub(4);
            let v = self.read_reg(rt);
            self.write_mem_u(address, 4, v);
        } else {
            let registers = extra & 0xFFFF;
            let mut i: u32 = 15;
            while i > 0
                invariant
                    self.inv(),
                    i <= 15,
                    self.cpu.instr_pc == old(self).cpu.instr_pc,
                decreases i,
            {
                i = i - 1;
                if bitset(registers, i) {
                    address = address.wrapping_sub(4);
                    let v = self.read_reg(i);
                    self.write_mem_u(address, 4, v);
                }
            }
        }
        self.write_sp(address);
    }

    fn w_qadd(&mut self, data: u32, extra: u32)
        requires
            old(self).inv(),
        ensures
            final(self).inv(),
            pc_even_kept(*old(self), *final(self)),
    {
        let rd = data & 0xF;
        let rn = (data >> 4) & 0xF;
        let rm = extra & 0xF;
        let rm_val = self.read_reg(rm) as i32;
        let rn_val = self.read_reg(rn) as i32;
        let sum: i64 = (rm_val as i64) + (rn_val as i64);
        if sum > (i32::MAX as i64) {
            self.write_reg(rd, 0x7FFF_FFFF);
            self.cpu.set_saturation_flag(true);
        } else if sum < (i32::MIN as i64) {
            self.write_reg(rd, 0x8000_0000);
            self.cpu.set_saturation_flag(true);
        } else {
            self.write_reg(rd, (sum as i32) as u32);
        }
    }

    fn w_qsub(&mut self, data: u32, extra: u32)
        requires
            old(self).inv(),
        ensures
            final(self).inv(),
            pc_even_kept(*old(self), *final(self)),
    {
        let rd = data & 0xF;
        let rn = (data >> 4) & 0xF;
        let rm = extra & 0xF;
        let rm_val = self.read_reg(rm) as i32;
        let rn_val = self.read_reg(rn) as i32;
        let diff: i64 = (rm_val as i64) - (rn_val as i64);
        if diff > (i32::MAX as i64) {
            self.write_reg(rd, 0x7FFF_FFFF);
            self.cpu.set_saturation_flag(true);
        } else if diff < (i32::MIN as i64) {
            self.write_reg(rd, 0x8000_0000);
            self.cpu.set_saturation_flag(true);
        } else {
            self.write_reg(rd, (diff as i32) as u32);
        }
    }

    fn w_rbit(&mut self, data: u32, extra: u32)
        requires
            old(self).inv(),
        ensures
            final(self).inv(),
            pc_even_kept(*old(self), *final(self)),
    {
        let rd = data & 0xF;
        let rm = extra & 0xF;
        let mut x = self.read_reg(rm);
        x = ((x & 0x5555_5555) << 1) | ((x >> 1) & 0x5555_5555);
        x = ((x & 0x3333_3333) << 2) | ((x >> 2) & 0x3333_3333);
        x = ((x & 0x0F0F_0F0F) << 4) | ((x >> 4) & 0x0F0F_0F0F);
        x = ((x & 0x00FF_00FF) << 8) | ((x >> 8) & 0x00FF_00FF);
        x = (x << 16) | (x >> 16);
        self.write_reg(rd, x);
    }

    fn w_rev(&mut self, data: u32, extra: u32)
        requires
            old(self).inv(),
        ensures
            final(self).inv(),
            pc_even_kept(*old(self), *final(self)),
    {
        let rd = data & 0xF;
        let rm = extra & 0xF;
        let result = crate::exec_narrow::rev_bytes(self.read_reg(rm));
        self.write_reg(rd, result);
    }

    fn w_rev16(&mut self, data: u32, extra: u32)
        requires
            old(self).inv(),
        ensures
            final(self).inv(),
            pc_even_kept(*old(self), *final(self)),
    {
        let rd = data & 0xF;
        let rm = extra & 0xF;
        let result = crate::exec_narrow::rev_bytes16(self.read_reg(rm));
        self.write_reg(rd, result);
    }

    fn w_revsh(&mut self, data: u32, extra: u32)
        requires
            old(self).inv(),
        ensures
            final(self).inv(),
            pc_even_kept(*old(self), *final(self)),
    {
        let rd = data & 0xF;
        let rm = extra & 0xF;
        let val = self.read_reg(rm);
        let result = shifted_sign_extend(val, 7, 8) | ((val >> 8) & 0xFF);
        self.write_reg(rd, result);
    }

    fn w_ror_imm(&mut self, data: u32, extra: u32)
        requires
            old(self).inv(),
        ensures
            final(self).inv(),
            pc_even_kept(*old(self), *final(self)),
            ({ let p = if extra == 0 { (crate::cpu::reg_of(old(self).cpu, (data >> 4) & 0xF), old(self).cpu.apsr.c) } else { (crate::bits::ror_of(crate::cpu::reg_of(old(self).cpu, (data >> 4) & 0xF), extra), crate::bits::bit_of(crate::bits::ror_of(crate::cpu::reg_of(old(self).cpu, (data >> 4) & 0xF), extra), 31)) }; crate::board::alu_wrote(*old(self), *final(self), data & 0xF, p.0, crate::bits::bit_of(data, 8), crate::bits::bit_of(p.0, 31), p.0 == 0, p.1, old(self).cpu.apsr.v) }),
    {
        let rd = data & 0xF;
        let rm = (data >> 4) & 0xF;
        let setflags = bitset(data, 8);
        let (result, carry) = self.ror_c(self.read_reg(rm), extra);
        self.write_reg(rd, result);
        if setflags {
            self.set_flags_nzc(result, carry);
        }
    }

    fn w_ror_reg(&mut self, data: u32, extra: u32)
        requires
            old(self).inv(),
        ensures
            final(self).inv(),
            pc_even_kept(*old(self), *final(self)),
            ({ let sn = crate::cpu::reg_of(old(self).cpu, extra & 0xF) & 0xFF; let p = if sn == 0 { (crate::cpu::reg_of(old(self).cpu, (data >> 4) & 0xF), old(self).cpu.apsr.c) } else { (crate::bits::ror_of(crate::cpu::reg_of(old(self).cpu, (data >> 4) & 0xF), sn), crate::bits::bit_of(crate::bits::ror_of(crate::cpu::reg_of(old(self).cpu, (data >> 4) & 0xF), sn), 31)) }; crate::board::alu_wrote(*old(self), *final(self), data & 0xF, p.0, crate::bits::bit_of(data, 8), crate::bits::bit_of(p.0, 31), p.0 == 0, p.1, old(self).cpu.apsr.v) }),
    {
        let rd = data & 0xF;
        let rn = (data >> 4) & 0xF;
        let setflags = bitset(data, 8);
        let rm = extra & 0xF;
        let shift_n = self.read_reg(rm) & 0xFF;
        let (result, carry) = self.ror_c(self.read_reg(rn), shift_n);
        self.write_reg(rd, result);
        if setflags {
            self.set_flags_nzc(result, carry);
        }
    }

    fn w_rrx(&mut self, data: u32, _extra: u32)
        requires
            old(self).inv(),
        ensures
            final(self).inv(),
            pc_even_kept(*old(self), *final(self)),
            ({ let p = crate::bits::rrx_c_of(crate::cpu::reg_of(old(self).cpu, (data >> 4) & 0xF), crate::cpu::flag_bit(old(self).cpu.apsr.c)); crate::board::alu_wrote(*old(self), *final(self), data & 0xF, p.0, crate::bits::bit_of(data, 8), crate::bits::bit_of(p.0, 31), p.0 == 0, p.1, old(self).cpu.apsr.v) }),
    {
        let rd = data & 0xF;
        let rm = (data >> 4) & 0xF;
        let setflags = bitset(data, 8);
        let (result, carry) = crate::bits::rrx_c(self.read_reg(rm), self.cpu.carry());
        self.write_reg(rd, result);
        if setflags {
            self.set_flags_nzc(result, carry);
        }
    }

    fn w_rsb_imm(&mut self, data: u32, extra: u32)
        requires
            old(self).inv(),
        ensures
            final(self).inv(),
            pc_even_kept(*old(self), *final(self)),
            crate::board::alu_wrote(*old(self), *final(self), (data >> 4) & 0xF, crate::bits::awc_result(!crate::cpu::reg_of(old(self).cpu, (data >> 8) & 0xF), (data << 30 | extra), 1u32), crate::bits::bit_of(data, 12), crate::bits::bit_of(crate::bits::awc_result(!crate::cpu::reg_of(old(self).cpu, (data >> 8) & 0xF), (data << 30 | extra), 1u32), 31), crate::bits::awc_result(!crate::cpu::reg_of(old(self).cpu, (data >> 8) & 0xF), (data << 30 | extra), 1u32) == 0, crate::bits::awc_carry(!crate::cpu::reg_of(old(self).cpu, (data >> 8) & 0xF), (data << 30 | extra), 1u32), crate::bits::awc_overflow(!crate::cpu::reg_of(old(self).cpu, (data >> 8) & 0xF), (data << 30 | extra), 1u32)),
    {
        let imm32 = data << 30 | extra;
        let rd = (data >> 4) & 0xF;
        let rn = (data >> 8) & 0xF;
        let (result, carry, overflow) = add_with_carry(!self.read_reg(rn), imm32, 1);
        self.write_reg(rd, result);
        if bitset(data, 12) {
            self.set_flags_nzcv(result, carry, overflow);
        }
    }

    fn w_rsb_reg(&mut self, data: u32, extra: u32)
        requires
            old(self).inv(),
            shift_payload_ok(extra),
        ensures
            final(self).inv(),
            pc_even_kept(*old(self), *final(self)),
            crate::board::alu_wrote(*old(self), *final(self), data & 0xF, crate::bits::awc_result(!crate::cpu::reg_of(old(self).cpu, (data >> 4) & 0xF), (crate::bits::shift_c_of(crate::cpu::reg_of(old(self).cpu, (data >> 8) & 0xF), extra & 0b111, extra >> 3, crate::cpu::flag_bit(old(self).cpu.apsr.c)).0), 1u32), crate::bits::bit_of(data, 12), crate::bits::bit_of(crate::bits::awc_result(!crate::cpu::reg_of(old(self).cpu, (data >> 4) & 0xF), (crate::bits::shift_c_of(crate::cpu::reg_of(old(self).cpu, (data >> 8) & 0xF), extra & 0b111, extra >> 3, crate::cpu::flag_bit(old(self).cpu.apsr.c)).0), 1u32), 31), crate::bits::awc_result(!crate::cpu::reg_of(old(self).cpu, (data >> 4) & 0xF), (crate::bits::shift_c_of(crate::cpu::reg_of(old(self).cpu, (data >> 8) & 0xF), extra & 0b111, extra >> 3, crate::cpu::flag_bit(old(self).cpu.apsr.c)).0), 1u32) == 0, crate::bits::awc_carry(!crate::cpu::reg_of(old(self).cpu, (data >> 4) & 0xF), (crate::bits::shift_c_of(crate::cpu::reg_of(old(self).cpu, (data >> 8) & 0xF), extra & 0b111, extra >> 3, crate::cpu::flag_bit(old(self).cpu.apsr.c)).0), 1u32), crate::bits::awc_overflow(!crate::cpu::reg_of(old(self).cpu, (data >> 4) & 0xF), (crate::bits::shift_c_of(crate::cpu::reg_of(old(self).cpu, (data >> 8) & 0xF), extra & 0b111, extra >> 3, crate::cpu::flag_bit(old(self).cpu.apsr.c)).0), 1u32)),
    {
        let rd = data & 0xF;
        let rn = (data >> 4) & 0xF;
        let rm = (data >> 8) & 0xF;
        let setflags = bitset(data, 12);
        let shift_t = extra & 0b111;
        let shift_n = extra >> 3;
        let shifted = self.get_shifted_register(self.read_reg(rm), shift_t, shift_n);
        let (result, carry, overflow) = add_with_carry(!self.read_reg(rn), shifted, 1);
        self.write_reg(rd, result);
        if setflags {
            self.set_flags_nzcv(result, carry, overflow);
        }
    }

    fn w_sbc_imm(&mut self, data: u32, extra: u32)
        requires
            old(self).inv(),
        ensures
            final(self).inv(),
            pc_even_kept(*old(self), *final(self)),
            crate::board::alu_wrote(*old(self), *final(self), (data >> 4) & 0xF, crate::bits::awc_result(crate::cpu::reg_of(old(self).cpu, (data >> 8) & 0xF), !(data << 30 | extra), crate::cpu::flag_bit(old(self).cpu.apsr.c)), crate::bits::bit_of(data, 12), crate::bits::bit_of(crate::bits::awc_result(crate::cpu::reg_of(old(self).cpu, (data >> 8) & 0xF), !(data << 30 | extra), crate::cpu::flag_bit(old(self).cpu.apsr.c)), 31), crate::bits::awc_result(crate::cpu::reg_of(old(self).cpu, (data >> 8) & 0xF), !(data << 30 | extra), crate::cpu::flag_bit(old(self).cpu.apsr.c)) == 0, crate::bits::awc_carry(crate::cpu::reg_of(old(self).cpu, (data >> 8) & 0xF), !(data << 30 | extra), crate::cpu::flag_bit(old(self).cpu.apsr.c)), crate::bits::awc_overflow(crate::cpu::reg_of(old(self).cpu, (data >> 8) & 0xF), !(data << 30 | extra), crate::cpu::flag_bit(old(self).cpu.apsr.c))),
    {
        let imm32 = data << 30 | extra;
        let rd = (data >> 4) & 0xF;
        let rn = (data >> 8) & 0xF;
        let setflags = bitset(data, 12);
        let (result, carry, overflow) = self.add_with_carry_w_c(self.read_reg(rn), !imm32);
        self.write_reg(rd, result);
        if setflags {
            self.set_flags_nzcv(result, carry, overflow);
        }
    }

    fn w_sbc_reg(&mut self, data: u32, extra: u32)
        requires
            old(self).inv(),
            shift_payload_ok(extra),
        ensures
            final(self).inv(),
            pc_even_kept(*old(self), *final(self)),
            crate::board::alu_wrote(*old(self), *final(self), data & 0xF, crate::bits::awc_result(crate::cpu::reg_of(old(self).cpu, (data >> 4) & 0xF), (!crate::bits::shift_c_of(crate::cpu::reg_of(old(self).cpu, (data >> 8) & 0xF), extra & 0b111, extra >> 3, crate::cpu::flag_bit(old(self).cpu.apsr.c)).0), crate::cpu::flag_bit(old(self).cpu.apsr.c)), crate::bits::bit_of(data, 12), crate::bits::bit_of(crate::bits::awc_result(crate::cpu::reg_of(old(self).cpu, (data >> 4) & 0xF), (!crate::bits::shift_c_of(crate::cpu::reg_of(old(self).cpu, (data >> 8) & 0xF), extra & 0b111, extra >> 3, crate::cpu::flag_bit(old(self).cpu.apsr.c)).0), crate::cpu::flag_bit(old(self).cpu.apsr.c)), 31), crate::bits::awc_result(crate::cpu::reg_of(old(self).cpu, (data >> 4) & 0xF), (!crate::bits::shift_c_of(crate::cpu::reg_of(old(self).cpu, (data >> 8) & 0xF), extra & 0b111, extra >> 3, crate::cpu::flag_bit(old(self).cpu.apsr.c)).0), crate::cpu::flag_bit(old(self).cpu.apsr.c)) == 0, crate::bits::awc_carry(crate::cpu::reg_of(old(self).cpu, (data >> 4) & 0xF), (!crate::bits::shift_c_of(crate::cpu::reg_of(old(self).cpu, (data >> 8) & 0xF), extra & 0b111, extra >> 3, crate::cpu::flag_bit(old(self).cpu.apsr.c)).0), crate::cpu::flag_bit(old(self).cpu.apsr.c)), crate::bits::awc_overflow(crate::cpu::reg_of(old(self).cpu, (data >> 4) & 0xF), (!crate::bits::shift_c_of(crate::cpu::reg_of(old(self).cpu, (data >> 8) & 0xF), extra & 0b111, extra >> 3, crate::cpu::flag_bit(old(self).cpu.apsr.c)).0), crate::cpu::flag_bit(old(self).cpu.apsr.c))),
    {
        let rd = data & 0xF;
        let rn = (data >> 4) & 0xF;
        let rm = (data >> 8) & 0xF;
        let setflags = bitset(data, 12);
        let shift_t = extra & 0b111;
        let shift_n = extra >> 3;
        let shifted = self.get_shifted_register(self.read_reg(rm), shift_t, shift_n);
        let (result, carry, overflow) = self.add_with_carry_w_c(self.read_reg(rn), !shifted);
        self.write_reg(rd, result);
        if setflags {
            self.set_flags_nzcv(result, carry, overflow);
        }
    }

    /// Signed division truncates toward zero; division by zero returns 0,
    /// the trap being disabled for SDIV.
    fn w_sdiv(&mut self, data: u32, extra: u32)
        requires
            old(self).inv(),
        ensures
            final(self).inv(),
            pc_even_kept(*old(self), *final(self)),
            crate::cpu::reg_of(old(self).cpu, extra & 0xF) == 0 ==> crate::board::alu_wrote(
                *old(self),
                *final(self),
                data & 0xF,
                0u32,
                false,
                false,
                false,
                false,
                false,
            ) && final(self).pending_default_handler == old(self).pending_default_handler,
            crate::cpu::reg_of(old(self).cpu, extra & 0xF) != 0 ==> crate::board::alu_wrote(
                *old(self),
                *final(self),
                data & 0xF,
                sdiv_of(
                    crate::cpu::reg_of(old(self).cpu, (data >> 4) & 0xF),
                    crate::cpu::reg_of(old(self).cpu, extra & 0xF),
                ),
                false,
                false,
                false,
                false,
                false,
            ),
    {
        let rd = data & 0xF;
        let rn = (data >> 4) & 0xF;
        let rm = extra & 0xF;
        let n = self.read_reg(rn);
        let m = self.read_reg(rm);
        if m == 0 {
            self.write_reg(rd, 0);
            return;
        }
        let n_neg = bitset(n, 31);
        let m_neg = bitset(m, 31);
        let un: u32 = if n_neg {
            0u32.wrapping_sub(n)
        } else {
            n
        };
        let um: u32 = if m_neg {
            0u32.wrapping_sub(m)
        } else {
            m
        };
        let q = un / um;
        let result = if n_neg != m_neg {
            0u32.wrapping_sub(q)
        } else {
            q
        };
        self.write_reg(rd, result);
    }

    fn w_smlal(&mut self, data: u32, extra: u32)
        requires
            old(self).inv(),
        ensures
            final(self).inv(),
            pc_even_kept(*old(self), *final(self)),
            final(self).cpu.registers@ == old(self).cpu.registers@.update((extra & 0xF) as int, (vstd::wrapping::u64_specs::wrapping_add((((crate::cpu::reg_of(old(self).cpu, data & 0xF)) as i32) * ((crate::cpu::reg_of(old(self).cpu, (data >> 4) & 0xF)) as i32)) as u64, ((crate::cpu::reg_of(old(self).cpu, (extra >> 4) & 0xF) as u64) << 32) | (crate::cpu::reg_of(old(self).cpu, extra & 0xF) as u64)) & 0xFFFF_FFFF) as u32).update(((extra >> 4) & 0xF) as int, (vstd::wrapping::u64_specs::wrapping_add((((crate::cpu::reg_of(old(self).cpu, data & 0xF)) as i32) * ((crate::cpu::reg_of(old(self).cpu, (data >> 4) & 0xF)) as i32)) as u64, ((crate::cpu::reg_of(old(self).cpu, (extra >> 4) & 0xF) as u64) << 32) | (crate::cpu::reg_of(old(self).cpu, extra & 0xF) as u64)) >> 32) as u32),
            crate::cpu::same_but_registers(old(self).cpu, final(self).cpu),
    {
        let rn = data & 0xF;
        let rm = (data >> 4) & 0xF;
        let rd_lo = extra & 0xF;
        let rd_hi = (extra >> 4) & 0xF;
        let rd_lo_val = self.read_reg(rd_lo) as u64;
        let rd_hi_val = self.read_reg(rd_hi) as u64;
        let addend = (rd_hi_val << 32) | rd_lo_val;
        let prod = widening_smul(self.read_reg(rn), self.read_reg(rm));
        let result = prod.wrapping_add(addend);
        let (upper, lower) = split_u64(result);
        self.write_reg(rd_lo, lower);
        self.write_reg(rd_hi, upper);
    }

    fn w_smull(&mut self, data: u32, extra: u32)
        requires
            old(self).inv(),
        ensures
            final(self).inv(),
            pc_even_kept(*old(self), *final(self)),
            final(self).cpu.registers@ == old(self).cpu.registers@.update((extra & 0xF) as int, (((((crate::cpu::reg_of(old(self).cpu, data & 0xF)) as i32) * ((crate::cpu::reg_of(old(self).cpu, (data >> 4) & 0xF)) as i32)) as u64) & 0xFFFF_FFFF) as u32).update(((extra >> 4) & 0xF) as int, (((((crate::cpu::reg_of(old(self).cpu, data & 0xF)) as i32) * ((crate::cpu::reg_of(old(self).cpu, (data >> 4) & 0xF)) as i32)) as u64) >> 32) as u32),
            crate::cpu::same_but_registers(old(self).cpu, final(self).cpu),
    {
        let rn = data & 0xF;
        let rm = (data >> 4) & 0xF;
        let rd_lo = extra & 0xF;
        let rd_hi = (extra >> 4) & 0xF;
        let result = widening_smul(self.read_reg(rn), self.read_reg(rm));
        let (upper, lower) = split_u64(result);
        self.write_reg(rd_lo, lower);
        self.write_reg(rd_hi, upper);
    }

    fn w_stm(&mut self, data: u32, extra: u32)
        requires
            old(self).inv(),
        ensures
            final(self).inv(),
            pc_even_kept(*old(self), *final(self)),
    {
        let rn = data & 0xF;
        let registers = extra;
        let mut address = self.read_reg(rn);
        let mut i: u32 = 0;
        while i < 15
            invariant
                self.inv(),
                i <= 15,
                self.cpu.instr_pc == old(self).cpu.instr_pc,
            decreases 15 - i,
        {
            if bitset(registers, i) {
                let v = self.read_reg(i);
                self.write_word(address, v);
                address = address.wrapping_add(4);
            }
            i = i + 1;
        }
        if bitset(extra, 16) {
            self.write_reg(rn, address);
        }
    }

    fn w_stmdb(&mut self, data: u32, extra: u32)
        requires
            old(self).inv(),
        ensures
            final(self).inv(),
            pc_even_kept(*old(self), *final(self)),
    {
        let rn = data & 0xF;
        let registers = extra & 0xFFFF;
        let wback = bitset(extra, 16);
        let count = crate::bits::count_ones(registers);
        let base = self.read_reg(rn);
        let mut address = base.wrapping_sub(4u32.wrapping_mul(count));
        let mut i: u32 = 0;
        while i < 15
            invariant
                self.inv(),
                i <= 15,
                self.cpu.instr_pc == old(self).cpu.instr_pc,
            decreases 15 - i,
        {
            if bitset(registers, i) {
                let v = self.read_reg(i);
                let _ = self.memory.write_mem_a(address, 4, v);
                address = address.wrapping_add(4);
            }
            i = i + 1;
        }
        if wback {
            let rn_val = self.read_reg(rn);
            self.write_reg(rn, rn_val.wrapping_sub(4u32.wrapping_mul(count)));
        }
    }

    fn w_str_imm(&mut self, data: u32, extra: u32)
        requires
            old(self).inv(),
        ensures
            final(self).inv(),
            pc_even_kept(*old(self), *final(self)),
    {
        let rt = data & 0xF;
        let rn = (data >> 4) & 0xF;
        let rn_val = self.read_reg(rn);
        let offset_address = rn_val.wrapping_add(sign_extend(extra & 0x1FFF, 12));
        let index = bitset(extra, 14);
        let wback = bitset(extra, 13);
        let address = if index {
            offset_address
        } else {
            rn_val
        };
        let v = self.read_reg(rt);
        self.write_word(address, v);
        if wback {
            self.write_reg(rn, offset_address);
        }
    }

    fn w_str_reg(&mut self, data: u32, extra: u32)
        requires
            old(self).inv(),
        ensures
            final(self).inv(),
            pc_even_kept(*old(self), *final(self)),
            final(self).cpu == old(self).cpu,
    {
        let rt = data & 0xF;
        let rn = (data >> 4) & 0xF;
        let rm = extra & 0xF;
        let imm2 = (extra >> 4) & 0b11;
        let offset = self.read_reg(rm) << imm2;
        let address = self.read_reg(rn).wrapping_add(offset);
        let v = self.read_reg(rt);
        self.write_mem_u(address, 4, v);
    }

    fn w_strb_imm(&mut self, data: u32, extra: u32)
        requires
            old(self).inv(),
        ensures
            final(self).inv(),
            pc_even_kept(*old(self), *final(self)),
    {
        let rt = data & 0xF;
        let rn = (data >> 4) & 0xF;
        let index = bitset(extra, 14);
        let wback = bitset(extra, 13);
        let rn_val = self.read_reg(rn);
        let offset_address = rn_val.wrapping_add(sign_extend(extra & 0x1FFF, 12));
        let address = if index {
            offset_address
        } else {
            rn_val
        };
        let v = self.read_reg(rt);
        self.write_mem_u(address, 1, v);
        if wback {
            self.write_reg(rn, offset_address);
        }
    }

    fn w_strb_reg(&mut self, data: u32, extra: u32)
        requires
            old(self).inv(),
        ensures
            final(self).inv(),
            pc_even_kept(*old(self), *final(self)),
            final(self).cpu == old(self).cpu,
    {
        let rt = data & 0xF;
        let rn = (data >> 4) & 0xF;
        let rm = extra & 0xF;
        let imm2 = (extra >> 4) & 0b11;
        let offset = self.read_reg(rm) << imm2;
        let address = self.read_reg(rn).wrapping_add(offset);
        let v = self.read_reg(rt);
        self.write_mem_u(address, 1, v);
    }

    fn w_strh_imm(&mut self, data: u32, extra: u32)
        requires
            old(self).inv(),
        ensures
            final(self).inv(),
            pc_even_kept(*old(self), *final(self)),
    {
        let rt = data & 0xF;
        let rn = (data >> 4) & 0xF;
        let index = bitset(extra, 14);
        let wback = bitset(extra, 13);
        let rn_val = self.read_reg(rn);
        let offset_address = rn_val.wrapping_add(sign_extend(extra & 0x1FFF, 12));
        let address = if index {
            offset_address
        } else {
            rn_val
        };
        let v = self.read_reg(rt);
        self.write_mem_u(address, 2, v);
        if wback {
            self.write_reg(rn, offset_address);
        }
    }

    fn w_strh_reg(&mut self, data: u32, extra: u32)
        requires
            old(self).inv(),
        ensures
            final(self).inv(),
            pc_even_kept(*old(self), *final(self)),
            final(self).cpu == old(self).cpu,
    {
        let rt = data & 0xF;
        let rn = (data >> 4) & 0xF;
        let rm = extra & 0xF;
        let imm2 = (extra >> 4) & 0b11;
        let offset = self.read_reg(rm) << imm2;
        let address = self.read_reg(rn).wrapping_add(offset);
        let v = self.read_reg(rt);
        self.write_mem_u(address, 2, v);
    }

    /// Store-exclusive: succeeds (writing 0 to the status register and the
    /// value to memory) iff the monitor still holds a reservation.
    fn w_strex(&mut self, data: u32, extra: u32)
        requires
            old(self).inv(),
        ensures
            final(self).inv(),
            pc_even_kept(*old(self), *final(self)),
            ({
                let a = vstd::wrapping::u32_specs::wrapping_add(
                    crate::cpu::reg_of(old(self).cpu, (extra >> 10) & 0xF),
                    extra & 0x3FF,
                );
                &&& (a % 4 == 0 && old(self).exclusive_monitors.is_reserved() ==> final(self).cpu.registers@ == old(self).cpu.registers@.update(((data >> 4) & 0xF) as int, 0u32)
                    && !final(self).exclusive_monitors.is_reserved())
                &&& (!(a % 4 == 0 && old(self).exclusive_monitors.is_reserved()) ==> final(self).cpu.registers@ == old(self).cpu.registers@.update(((data >> 4) & 0xF) as int, 1u32)
                    && final(self).memory == old(self).memory)
            }),
    {
        let rt = data & 0xF;
        let rd = (data >> 4) & 0xF;
        let imm10 = extra & 0x3FF;
        let rn = (extra >> 10) & 0xF;
        let address = self.read_reg(rn).wrapping_add(imm10);
        if self.exclusive_monitors_pass(address, 4) {
            let v = self.read_reg(rt);
            let _ = self.memory.write_mem_a(address, 4, v);
            self.write_reg(rd, 0);
        } else {
            self.write_reg(rd, 1);
        }
    }

    fn w_sub_imm(&mut self, data: u32, extra: u32)
        requires
            old(self).inv(),
        ensures
            final(self).inv(),
            pc_even_kept(*old(self), *final(self)),
            crate::board::alu_wrote(*old(self), *final(self), (data >> 4) & 0xF, crate::bits::awc_result(crate::cpu::reg_of(old(self).cpu, (data >> 8) & 0xF), !(data << 30 | extra), 1u32), crate::bits::bit_of(data, 12), crate::bits::bit_of(crate::bits::awc_result(crate::cpu::reg_of(old(self).cpu, (data >> 8) & 0xF), !(data << 30 | extra), 1u32), 31), crate::bits::awc_result(crate::cpu::reg_of(old(self).cpu, (data >> 8) & 0xF), !(data << 30 | extra), 1u32) == 0, crate::bits::awc_carry(crate::cpu::reg_of(old(self).cpu, (data >> 8) & 0xF), !(data << 30 | extra), 1u32), crate::bits::awc_overflow(crate::cpu::reg_of(old(self).cpu, (data >> 8) & 0xF), !(data << 30 | extra), 1u32)),
    {
        let imm32 = data << 30 | extra;
        let rd = (data >> 4) & 0xF;
        let rn = (data >> 8) & 0xF;
        let (result, carry, overflow) = add_with_carry(self.read_reg(rn), !imm32, 1);
        self.write_reg(rd, result);
        if bitset(data, 12) {
            self.set_flags_nzcv(result, carry, overflow);
        }
    }

    fn w_sub_reg(&mut self, data: u32, extra: u32)
        requires
            old(self).inv(),
            shift_payload_ok(extra),
        ensures
            final(self).inv(),
            pc_even_kept(*old(self), *final(self)),
            crate::board::alu_wrote(*old(self), *final(self), data & 0xF, crate::bits::awc_result(crate::cpu::reg_of(old(self).cpu, (data >> 4) & 0xF), (!crate::bits::shift_c_of(crate::cpu::reg_of(old(self).cpu, (data >> 8) & 0xF), extra & 0b111, extra >> 3, crate::cpu::flag_bit(old(self).cpu.apsr.c)).0), 1u32), crate::bits::bit_of(data, 12), crate::bits::bit_of(crate::bits::awc_result(crate::cpu::reg_of(old(self).cpu, (data >> 4) & 0xF), (!crate::bits::shift_c_of(crate::cpu::reg_of(old(self).cpu, (data >> 8) & 0xF), extra & 0b111, extra >> 3, crate::cpu::flag_bit(old(self).cpu.apsr.c)).0), 1u32), 31), crate::bits::awc_result(crate::cpu::reg_of(old(self).cpu, (data >> 4) & 0xF), (!crate::bits::shift_c_of(crate::cpu::reg_of(old(self).cpu, (data >> 8) & 0xF), extra & 0b111, extra >> 3, crate::cpu::flag_bit(old(self).cpu.apsr.c)).0), 1u32) == 0, crate::bits::awc_carry(crate::cpu::reg_of(old(self).cpu, (data >> 4) & 0xF), (!crate::bits::shift_c_of(crate::cpu::reg_of(old(self).cpu, (data >> 8) & 0xF), extra & 0b111, extra >> 3, crate::cpu::flag_bit(old(self).cpu.apsr.c)).0), 1u32), crate::bits::awc_overflow(crate::cpu::reg_of(old(self).cpu, (data >> 4) & 0xF), (!crate::bits::shift_c_of(crate::cpu::reg_of(old(self).cpu, (data >> 8) & 0xF), extra & 0b111, extra >> 3, crate::cpu::flag_bit(old(self).cpu.apsr.c)).0), 1u32)),
    {
        let rd = data & 0xF;
        let rn = (data >> 4) & 0xF;
        let rm = (data >> 8) & 0xF;
        let setflags = bitset(data, 12);
        let shift_t = extra & 0b111;
        let shift_n = extra >> 3;
        let shifted = self.get_shifted_register(self.read_reg(rm), shift_t, shift_n);
        let (result, carry, overflow) = add_with_carry(self.read_reg(rn), !shifted, 1);
        self.write_reg(rd, result);
        if setflags {
            self.set_flags_nzcv(result, carry, overflow);
        }
    }

    /// Table branch: a byte or halfword offset read at `rn + rm` (times
    /// two for the halfword form) doubles into a forward branch.
    fn w_tbb(&mut self, data: u32, extra: u32)
        requires
            old(self).inv(),
        ensures
            final(self).inv(),
            pc_even_kept(*old(self), *final(self)),
    {
        let rn = data & 0xF;
        let is_tbh = bitset(data, 4);
        let rm = extra & 0xF;
        let rn_val = self.read_reg(rn);
        let rm_val = self.read_reg(rm);
        let halfwords = if is_tbh {
            self.read_mem_u(rn_val.wrapping_add(rm_val << 1), 2)
        } else {
            self.read_mem_u(rn_val.wrapping_add(rm_val), 1)
        };
        let pc = self.read_pc();
        self.branch_write_pc(pc.wrapping_add(halfwords.wrapping_mul(2)));
    }

    fn w_teq_imm(&mut self, data: u32, extra: u32)
        requires
            old(self).inv(),
        ensures
            final(self).inv(),
            pc_even_kept(*old(self), *final(self)),
            ({ let v = crate::cpu::reg_of(old(self).cpu, (data >> 4) & 0xF) ^ (data << 30 | extra); crate::board::flags_wrote(*old(self), *final(self), crate::bits::bit_of(v, 31), v == 0, crate::board::spill_carry(data, old(self).cpu.apsr.c), old(self).cpu.apsr.v) }),
    {
        let imm32 = data << 30 | extra;
        let rn = (data >> 4) & 0xF;
        let result = self.read_reg(rn) ^ imm32;
        self.set_flags_nz_alt_c(result, data);
    }

    fn w_teq_reg(&mut self, data: u32, extra: u32)
        requires
            old(self).inv(),
            shift_payload_ok(extra),
        ensures
            final(self).inv(),
            pc_even_kept(*old(self), *final(self)),
            ({ let p = crate::bits::shift_c_of(crate::cpu::reg_of(old(self).cpu, (data >> 4) & 0xF), extra & 0b111, extra >> 3, crate::cpu::flag_bit(old(self).cpu.apsr.c)); let v = crate::cpu::reg_of(old(self).cpu, data & 0xF) ^ p.0; crate::board::flags_wrote(*old(self), *final(self), crate::bits::bit_of(v, 31), v == 0, p.1, old(self).cpu.apsr.v) }),
    {
        let rn = data & 0xF;
        let rm = (data >> 4) & 0xF;
        let shift_t = extra & 0b111;
        let shift_n = extra >> 3;
        let (shifted, carry) = self.get_shift_with_carry(self.read_reg(rm), shift_t, shift_n);
        let result = self.read_reg(rn) ^ shifted;
        self.set_flags_nzc(result, carry);
    }

    fn w_tst_imm(&mut self, data: u32, extra: u32)
        requires
            old(self).inv(),
        ensures
            final(self).inv(),
            pc_even_kept(*old(self), *final(self)),
            ({ let v = crate::cpu::reg_of(old(self).cpu, (data >> 4) & 0xF) & (data << 30 | extra); crate::board::flags_wrote(*old(self), *final(self), crate::bits::bit_of(v, 31), v == 0, crate::board::spill_carry(data, old(self).cpu.apsr.c), old(self).cpu.apsr.v) }),
    {
        let imm32 = data << 30 | extra;
        let rn = (data >> 4) & 0xF;
        let result = self.read_reg(rn) & imm32;
        self.set_flags_nz_alt_c(result, data);
    }

    fn w_tst_reg(&mut self, data: u32, extra: u32)
        requires
            old(self).inv(),
            shift_payload_ok(extra),
        ensures
            final(self).inv(),
            pc_even_kept(*old(self), *final(self)),
            ({ let p = crate::bits::shift_c_of(crate::cpu::reg_of(old(self).cpu, (data >> 4) & 0xF), extra & 0b111, extra >> 3, crate::cpu::flag_bit(old(self).cpu.apsr.c)); let v = crate::cpu::reg_of(old(self).cpu, data & 0xF) & p.0; crate::board::flags_wrote(*old(self), *final(self), crate::bits::bit_of(v, 31), v == 0, p.1, old(self).cpu.apsr.v) }),
    {
        let rn = data & 0xF;
        let rm = (data >> 4) & 0xF;
        let shift_t = extra & 0b111;
        let shift_n = extra >> 3;
        let (shifted, carry) = self.get_shift_with_carry(self.read_reg(rm), shift_t, shift_n);
        let result = self.read_reg(rn) & shifted;
        self.set_flags_nzc(result, carry);
    }

    fn w_udf(&mut self, _data: u32, _extra: u32)
        requires
            old(self).inv(),
        ensures
            final(self).inv(),
            final(self).pending_default_handler,
            pc_even_kept(*old(self), *final(self)),
    {
        self.pending_default_handler = true;
    }

    /// Unsigned division; division by zero raises the usage fault, the
    /// trap being enabled for UDIV.
    fn w_udiv(&mut self, data: u32, extra: u32)
        requires
            old(self).inv(),
        ensures
            final(self).inv(),
            pc_even_kept(*old(self), *final(self)),
            crate::cpu::reg_of(old(self).cpu, extra & 0xF) == 0 ==> final(self).pending_default_handler && final(self).cpu == old(self).cpu,
            crate::cpu::reg_of(old(self).cpu, extra & 0xF) != 0 ==> crate::board::alu_wrote(
                *old(self),
                *final(self),
                data & 0xF,
                (crate::cpu::reg_of(old(self).cpu, (data >> 4) & 0xF) as int / crate::cpu::reg_of(
                    old(self).cpu,
                    extra & 0xF,
                ) as int) as u32,
                false,
                false,
                false,
                false,
                false,
            ) && final(self).pending_default_handler == old(self).pending_default_handler,
    {
        let rd = data & 0xF;
        let rn = (data >> 4) & 0xF;
        let rm = extra & 0xF;
        let m = self.read_reg(rm);
        if m == 0 {
            self.pending_default_handler = true;
            return;
        }
        let n = self.read_reg(rn);
        let result = n / m;
        self.write_reg(rd, result);
    }

    fn w_umaal(&mut self, data: u32, extra: u32)
        requires
            old(self).inv(),
        ensures
            final(self).inv(),
            pc_even_kept(*old(self), *final(self)),
            final(self).cpu.registers@ == old(self).cpu.registers@.update(((extra >> 4) & 0xF) as int, (((((crate::cpu::reg_of(old(self).cpu, data & 0xF)) * (crate::cpu::reg_of(old(self).cpu, (data >> 4) & 0xF))) + crate::cpu::reg_of(old(self).cpu, extra & 0xF) + crate::cpu::reg_of(old(self).cpu, (extra >> 4) & 0xF)) as u64) >> 32) as u32).update((extra & 0xF) as int, (((((crate::cpu::reg_of(old(self).cpu, data & 0xF)) * (crate::cpu::reg_of(old(self).cpu, (data >> 4) & 0xF))) + crate::cpu::reg_of(old(self).cpu, extra & 0xF) + crate::cpu::reg_of(old(self).cpu, (extra >> 4) & 0xF)) as u64) & 0xFFFF_FFFF) as u32),
            crate::cpu::same_but_registers(old(self).cpu, final(self).cpu),
    {
        let rn = data & 0xF;
        let rm = (data >> 4) & 0xF;
        let rd_lo = extra & 0xF;
        let rd_hi = (extra >> 4) & 0xF;
        let prod = widening_umul(self.read_reg(rn), self.read_reg(rm));
        let lo = self.read_reg(rd_lo) as u64;
        let hi = self.read_reg(rd_hi) as u64;
        let result = prod + lo + hi;
        let (upper, lower) = split_u64(result);
        self.write_reg(rd_hi, upper);
        self.write_reg(rd_lo, lower);
    }

    fn w_umlal(&mut self, data: u32, extra: u32)
        requires
            old(self).inv(),
        ensures
            final(self).inv(),
            pc_even_kept(*old(self), *final(self)),
            final(self).cpu.registers@ == old(self).cpu.registers@.update(((extra >> 4) & 0xF) as int, (vstd::wrapping::u64_specs::wrapping_add(((crate::cpu::reg_of(old(self).cpu, data & 0xF)) * (crate::cpu::reg_of(old(self).cpu, (data >> 4) & 0xF))) as u64, ((crate::cpu::reg_of(old(self).cpu, (extra >> 4) & 0xF) as u64) << 32) | (crate::cpu::reg_of(old(self).cpu, extra & 0xF) as u64)) >> 32) as u32).update((extra & 0xF) as int, (vstd::wrapping::u64_specs::wrapping_add(((crate::cpu::reg_of(old(self).cpu, data & 0xF)) * (crate::cpu::reg_of(old(self).cpu, (data >> 4) & 0xF))) as u64, ((crate::cpu::reg_of(old(self).cpu, (extra >> 4) & 0xF) as u64) << 32) | (crate::cpu::reg_of(old(self).cpu, extra & 0xF) as u64)) & 0xFFFF_FFFF) as u32),
            crate::cpu::same_but_registers(old(self).cpu, final(self).cpu),
    {
        let rn = data & 0xF;
        let rm = (data >> 4) & 0xF;
        let rd_lo = extra & 0xF;
        let rd_hi = (extra >> 4) & 0xF;
        let rd_lo_val = self.read_reg(rd_lo) as u64;
        let rd_hi_val = self.read_reg(rd_hi) as u64;
        let addend = (rd_hi_val << 32) | rd_lo_val;
        let prod = widening_umul(self.read_reg(rn), self.read_reg(rm));
        let result = prod.wrapping_add(addend);
        let (upper, lower) = split_u64(result);
        self.write_reg(rd_hi, upper);
        self.write_reg(rd_lo, lower);
    }

    /// The unsigned 64-bit product lands split across the two
    /// destination registers: the high word carries the product divided
    /// by two to the thirty-second, the low word the remainder.
    fn w_umull(&mut self, data: u32, extra: u32)
        requires
            old(self).inv(),
        ensures
            final(self).inv(),
            pc_even_kept(*old(self), *final(self)),
            final(self).cpu.registers@ == old(self).cpu.registers@.update(
                ((extra >> 4) & 0xF) as int,
                ((crate::cpu::reg_of(old(self).cpu, data & 0xF) * crate::cpu::reg_of(
                    old(self).cpu,
                    (data >> 4) & 0xF,
                )) / 0x1_0000_0000) as u32,
            ).update(
                (extra & 0xF) as int,
                ((crate::cpu::reg_of(old(self).cpu, data & 0xF) * crate::cpu::reg_of(
                    old(self).cpu,
                    (data >> 4) & 0xF,
                )) % 0x1_0000_0000) as u32,
            ),
            crate::cpu::same_but_registers(old(self).cpu, final(self).cpu),
    {
        let rn = data & 0xF;
        let rm = (data >> 4) & 0xF;
        let rd_lo = extra & 0xF;
        let rd_hi = (extra >> 4) & 0xF;
        let result = widening_umul(self.read_reg(rn), self.read_reg(rm));
        let (upper, lower) = split_u64(result);
        proof {
            vstd::arithmetic::div_mod::lemma_fundamental_div_mod_converse(
                result as int,
                0x1_0000_0000,
                upper as int,
                lower as int,
            );
        }
        self.write_reg(rd_hi, upper);
        self.write_reg(rd_lo, lower);
    }
}

} // verus!
