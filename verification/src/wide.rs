//! Decoder for the wide (32-bit) Thumb-2 encodings. The input word carries
//! the first halfword in its top half and the second in its bottom half;
//! the decode is a total function of that word and the IT position, so the
//! result is safely cacheable by program counter.

use vstd::prelude::*;
use crate::bits::{bitset, count_ones};
use crate::bytecode::{ByteInstruction, InstructionContext, ItPos};
use crate::opcode::Opcode;
use crate::tag;
use crate::tag::{wf_instr, instr_wide, instr_cached};

verus! {

broadcast use crate::bits::lemma_and_bound;

type Context = InstructionContext;

/// An unsigned long multiply encoding: `UMULL rd_lo, rd_hi, rn, rm`.
pub open spec fn is_umull_enc(word: u32) -> bool {
    (word >> 20) == 0b1111_1011_1010 && (word >> 4) & 0xF == 0
}

/// A branch-with-link encoding, T1: `BL <label>`.
pub open spec fn is_bl_enc(word: u32) -> bool {
    (word >> 27) == 0b11110 && (word >> 15) & 1 == 1 && (word >> 12) & 0b101 == 0b101
}

/// The 24-bit branch offset field of a BL encoding, as the decoder packs
/// it: `imm11`, `imm10`, then the unfolded `i2`/`i1`/`s` bits.
pub open spec fn bl_imm24_of(word: u32) -> u32 {
    (word & 0x7FF) | ((word >> 16) & 0x3FF) << 11 | (!(((word >> 11) & 1) ^ ((word >> 26) & 1))
        & 0b1) << 21 | (!(((word >> 13) & 1) ^ ((word >> 26) & 1)) & 0b1) << 22 | ((word >> 26) & 1)
        << 23
}

/// The UMULL encoding routes into the long-multiply family.
proof fn lemma_route_umull(word: u32)
    ensures
        is_umull_enc(word) ==> (word >> 27) & 0b11 == 0b11,
        is_umull_enc(word) ==> ((word >> 20) & 0b111_1111) & (1u32 << 6) == 0,
        is_umull_enc(word) ==> ((word >> 20) & 0b111_1111) & (1u32 << 5) != 0,
        is_umull_enc(word) ==> ((word >> 20) & 0b111_1111) & (1u32 << 4) != 0,
        is_umull_enc(word) ==> ((word >> 20) & 0b111_1111) & (1u32 << 3) != 0,
{
    assert((word >> 20) == 0b1111_1011_1010 ==> (word >> 27) & 0b11 == 0b11) by (bit_vector);
    assert((word >> 20) == 0b1111_1011_1010 ==> ((word >> 20) & 0b111_1111) & (1u32 << 6) == 0)
        by (bit_vector);
    assert((word >> 20) == 0b1111_1011_1010 ==> ((word >> 20) & 0b111_1111) & (1u32 << 5) != 0)
        by (bit_vector);
    assert((word >> 20) == 0b1111_1011_1010 ==> ((word >> 20) & 0b111_1111) & (1u32 << 4) != 0)
        by (bit_vector);
    assert((word >> 20) == 0b1111_1011_1010 ==> ((word >> 20) & 0b111_1111) & (1u32 << 3) != 0)
        by (bit_vector);
}

/// Inside the long-multiply family, UMULL's fields and their packing.
proof fn lemma_umull_payload(word: u32)
    ensures
        is_umull_enc(word) ==> (word >> 20) & 0b111 == 0b010,
        ((word >> 16) & 0xF | (word & 0xF) << 4) & 0xFFFF == ((word >> 16) & 0xF | (word & 0xF)
            << 4),
        ((word >> 12) & 0xF | ((word >> 8) & 0xF) << 4) & 0x3FFF_FFFF == ((word >> 12) & 0xF | ((
        word >> 8) & 0xF) << 4),
{
    assert((word >> 20) == 0b1111_1011_1010 ==> (word >> 20) & 0b111 == 0b010) by (bit_vector);
    assert(((word >> 16) & 0xF | (word & 0xF) << 4) & 0xFFFF == ((word >> 16) & 0xF | (word & 0xF)
        << 4)) by (bit_vector);
    assert(((word >> 12) & 0xF | ((word >> 8) & 0xF) << 4) & 0x3FFF_FFFF == ((word >> 12) & 0xF | ((
    word >> 8) & 0xF) << 4)) by (bit_vector);
}

/// The BL encoding routes into the branch-and-miscellaneous family.
proof fn lemma_route_bl(word: u32)
    ensures
        is_bl_enc(word) ==> (word >> 27) & 0b11 == 0b10,
        is_bl_enc(word) ==> word & (1u32 << 15) != 0,
{
    assert((word >> 27) == 0b11110 ==> (word >> 27) & 0b11 == 0b10) by (bit_vector);
    assert((word >> 15) & 1 == 1 ==> word & (1u32 << 15) != 0) by (bit_vector);
}

/// Inside the branch family, BL's routing bits and the fit of its packed
/// offset in the 30-bit extra payload.
proof fn lemma_bl_payload(word: u32)
    ensures
        is_bl_enc(word) ==> ((word >> 12) & 0b111) & 0b101 == 0b101,
        is_bl_enc(word) ==> ((word >> 12) & 0b111) != 0b010,
        bl_imm24_of(word) & 0x3FFF_FFFF == bl_imm24_of(word),
{
    assert((word >> 12) & 0b101 == 0b101 ==> ((word >> 12) & 0b111) & 0b101 == 0b101)
        by (bit_vector);
    assert((word >> 12) & 0b101 == 0b101 ==> ((word >> 12) & 0b111) != 0b010) by (bit_vector);
    assert(bl_imm24_of(word) & 0x3FFF_FFFF == bl_imm24_of(word)) by (bit_vector);
}

/// The set-flags bit of a wide data-processing encoding, as a field.
pub open spec fn sflag(word: u32) -> u32 {
    if crate::bits::bit_of(word, 20) {
        1u32
    } else {
        0u32
    }
}

/// The shared register payload of the shifted-register family:
/// `rd | rn<<4 | rm<<8 | setflags<<12`.
pub open spec fn dpsr_data(word: u32) -> u32 {
    (word >> 8) & 0xF | ((word >> 16) & 0xF) << 4 | (word & 0xF) << 8 | sflag(word) << 12
}

/// The comparison form of the shared payload: `rn | rm<<4`.
pub open spec fn dpsr_data_comp(word: u32) -> u32 {
    (dpsr_data(word) >> 4) & 0xFF
}

/// The two-operand form: `rd | rm<<4 | setflags<<8`.
pub open spec fn dpsr_data_alt(word: u32) -> u32 {
    (word >> 8) & 0xF | (word & 0xF) << 4 | sflag(word) << 8
}

/// The packed shift payload of the shifted-register family.
pub open spec fn dpsr_shift(word: u32) -> u32 {
    let s = imm_shift_of((word >> 4) & 0b11, (word >> 6) & 0b11 | (word & (0b111u32 << 12)) >> 10);
    s.0 | s.1 << 3
}

/// The shared data payload of the modified-immediate family:
/// `rd<<4 | rn<<8 | setflags<<12 | spill`.
pub open spec fn dpmi_data(word: u32) -> u32 {
    ((word >> 8) & 0xF) << 4 | ((word >> 16) & 0xF) << 8 | sflag(word) << 12 | modified_imm_spill(
        word,
    )
}

/// The expansion as the extra payload: its top two bits are already in
/// the spill.
pub open spec fn dpmi_extra(word: u32) -> u32 {
    modified_imm_full(word) & !(0b11u32 << 30)
}

/// The two selector fields of the miscellaneous-operations sub-family of
/// the wide register data-processing space, or an out-of-range marker
/// when the word routes elsewhere.
pub open spec fn dpr_misc_sel(word: u32) -> (u32, u32) {
    let op1 = (word >> 20) & 0xF;
    let op2 = (word >> 4) & 0xF;
    if (word >> 12) & 0xF == 0b1111 && op1 >> 2 == 0b10 && op2 >> 2 == 0b10 {
        (op1 & 0b11, op2 & 0b11)
    } else {
        (0xFu32, 0xFu32)
    }
}

/// What every wide decode guarantees: a cached, wide, well-formed
/// operation.
pub open spec fn wide_ok(r: ByteInstruction) -> bool {
    &&& instr_wide(r)
    &&& instr_cached(r)
    &&& wf_instr(r)
}

/// Splits a wide word into the eleven architectural families and decodes
/// within the chosen one.
pub fn decode_thumb_wide(word: u32, c: InstructionContext) -> (r: ByteInstruction)
    ensures
        wide_ok(r),
        is_umull_enc(word) ==> tag::instr_op(r) == Opcode::Umull && tag::instr_data(r) == ((word
            >> 16) & 0xF | (word & 0xF) << 4) && tag::instr_extra(r) == ((word >> 12) & 0xF | ((
        word >> 8) & 0xF) << 4),
        is_bl_enc(word) ==> tag::instr_op(r) == Opcode::Bl && tag::instr_extra(r) == bl_imm24_of(
            word,
        ),
{
    proof {
        lemma_route_umull(word);
        lemma_route_bl(word);
    }
    let op2 = (word >> 20) & 0b111_1111;
    match (word >> 27) & 0b11 {
        0b01 => {
            if bitset(op2, 6) {
                id_coprocessor_instr(word, c)
            } else if bitset(op2, 5) {
                id_data_processing_shifted_register(word, c)
            } else if bitset(op2, 2) {
                id_ldr_str_dual(word, c)
            } else {
                id_ldr_str_multiple(word, c)
            }
        }
        0b10 => {
            if bitset(word, 15) {
                id_branch_and_misc(word, c)
            } else if bitset(op2, 5) {
                id_data_proc_plain_binary_immediate(word, c)
            } else {
                id_data_proc_modified_immediate(word, c)
            }
        }
        0b11 => {
            if bitset(op2, 6) {
                id_coprocessor_instr(word, c)
            } else if bitset(op2, 5) {
                if bitset(op2, 4) {
                    if bitset(op2, 3) {
                        id_long_multiply_div(word, c)
                    } else {
                        id_multiply_diff(word, c)
                    }
                } else {
                    id_data_proc_register(word, c)
                }
            } else if (op2 & 0b1110001) == 0 {
                id_store_single(word, c)
            } else {
                match op2 & 0b111 {
                    0b001 => id_load_byte(word, c),
                    0b011 => id_load_half_word(word, c),
                    0b101 => id_load_word(word, c),
                    _ => tag::get_undefined_wide(word),
                }
            }
        }
        _ => tag::get_undefined_wide(word),
    }
}

fn id_coprocessor_instr(word: u32, _c: Context) -> (r: ByteInstruction)
    ensures
        wide_ok(r),
{
    let op1 = (word >> 20) & 0x3F;
    let op = (word >> 4) & 0b1;

    let p = (word >> 24) & 0b1;
    let w = (word >> 21) & 0b1;
    let rn = (word >> 16) & 0xF;
    let crd = (word >> 12) & 0xF;

    if (op1 & 0b10_0001 == 0b00_0000) && (op1 & 0b11_1010 != 0b00_0000) {
        let mut base = tag::get_wide(Opcode::Stc, 0, 0);
        if rn == 15 {
            base = tag::as_unpred_w(base);
        }
        return base;
    }
    if (op1 & 0b10_0001 == 0b00_0001) && (op1 & 0b11_1010 != 0b00_0000) {
        let mut base = tag::get_wide(
            if rn == 15 {
                Opcode::LdcLit
            } else {
                Opcode::LdcImm
            },
            0,
            0,
        );
        if rn == 15 && (w == 1 || p == 1) {
            base = tag::as_unpred_w(base);
        }
        return base;
    }
    if op1 == 0b00_0100 {
        let rt = crd;
        let rt2 = rn;
        let mut base = tag::get_wide(Opcode::Mcrr, 0, 0);
        if rt == 15 || rt2 == 15 || rt == 13 || rt2 == 13 {
            base = tag::as_unpred_w(base);
        }
        return base;
    }
    if op1 == 0b00_0101 {
        let rt = crd;
        let rt2 = rn;
        let mut base = tag::get_wide(Opcode::Mrrc, 0, 0);
        if rt == 15 || rt2 == 15 || rt == rt2 || rt == 13 || rt2 == 13 {
            base = tag::as_unpred_w(base);
        }
        return base;
    }
    if (op1 & 0b11_0000 == 0b10_0000) && op == 0 {
        return tag::get_wide(Opcode::Cdp, 0, 0);
    }
    if (op1 & 0b11_0001 == 0b10_000) && op == 1 {
        let rt = crd;
        let mut base = tag::get_wide(Opcode::Mcr, 0, 0);
        if rt == 15 || rt == 13 {
            base = tag::as_unpred_w(base);
        }
        return base;
    }
    if (op1 & 0b11_0001 == 0b10_001) && op == 1 {
        let rt = crd;
        let mut base = tag::get_wide(Opcode::Mrc, 0, 0);
        if rt == 13 {
            base = tag::as_unpred_w(base);
        }
        return base;
    }
    tag::get_undefined_wide(word)
}

/// The canonical shift of an encoded (type, immediate) pair: LSR/ASR
/// with a zero immediate mean a shift of 32; type three with a zero
/// immediate is RRX by one, with a nonzero immediate ROR by it.
pub open spec fn imm_shift_of(initial_t: u32, initial_n: u32) -> (u32, u32) {
    if initial_t == 0b11 {
        if initial_n == 0 {
            (0b11u32, 1u32)
        } else {
            (0b100u32, initial_n)
        }
    } else if initial_n == 0 && (initial_t == 0b01 || initial_t == 0b10) {
        (initial_t, 32u32)
    } else {
        (initial_t, initial_n)
    }
}

/// Takes the encoded shift type and five-bit immediate and returns the
/// canonical shift kind (LSL/LSR/ASR/RRX/ROR as 0..4) and amount.
fn decode_imm_shift(initial_t: u32, initial_n: u32) -> (r: (u32, u32))
    requires
        initial_t <= 3,
    ensures
        r == imm_shift_of(initial_t, initial_n),
        r.0 <= 4,
{
    let shift_n = if initial_n == 0 && (initial_t == 0b01 || initial_t == 0b10) {
        32
    } else {
        initial_n
    };
    if initial_t == 0b11 {
        if initial_n == 0 {
            (0b11, 1)
        } else {
            (0b100, shift_n)
        }
    } else {
        (initial_t, shift_n)
    }
}

fn id_data_processing_shifted_register(word: u32, _c: Context) -> (r: ByteInstruction)
    ensures
        wide_ok(r),
        (word >> 21) & 0xF == 0b0000 && (word >> 8) & 0xF == 15 ==> tag::decodes_to(
            r,
            Opcode::TstReg,
            dpsr_data_comp(word),
            dpsr_shift(word),
        ),
        (word >> 21) & 0xF == 0b0000 && (word >> 8) & 0xF != 15 ==> tag::decodes_to(
            r,
            Opcode::AndReg,
            dpsr_data(word),
            dpsr_shift(word),
        ),
        (word >> 21) & 0xF == 0b0001 ==> tag::decodes_to(
            r,
            Opcode::BicReg,
            dpsr_data(word),
            dpsr_shift(word),
        ),
        (word >> 21) & 0xF == 0b0010 && (word >> 16) & 0xF != 15 ==> tag::decodes_to(
            r,
            Opcode::OrrReg,
            dpsr_data(word),
            dpsr_shift(word),
        ),
        (word >> 21) & 0xF == 0b0011 && (word >> 16) & 0xF == 15 ==> tag::decodes_to(
            r,
            Opcode::MvnReg,
            dpsr_data_alt(word),
            dpsr_shift(word),
        ),
        (word >> 21) & 0xF == 0b0011 && (word >> 16) & 0xF != 15 ==> tag::decodes_to(
            r,
            Opcode::OrnReg,
            dpsr_data(word),
            dpsr_shift(word),
        ),
        (word >> 21) & 0xF == 0b0100 && (word >> 8) & 0xF == 15 ==> tag::decodes_to(
            r,
            Opcode::TeqReg,
            dpsr_data_comp(word),
            dpsr_shift(word),
        ),
        (word >> 21) & 0xF == 0b0100 && (word >> 8) & 0xF != 15 ==> tag::decodes_to(
            r,
            Opcode::EorReg,
            dpsr_data(word),
            dpsr_shift(word),
        ),
        (word >> 21) & 0xF == 0b1000 && (word >> 8) & 0xF == 15 ==> tag::decodes_to(
            r,
            Opcode::CmnReg,
            dpsr_data_comp(word),
            dpsr_shift(word),
        ),
        (word >> 21) & 0xF == 0b1000 && (word >> 8) & 0xF != 15 ==> tag::decodes_to(
            r,
            Opcode::AddReg,
            dpsr_data(word),
            dpsr_shift(word),
        ),
        (word >> 21) & 0xF == 0b1010 ==> tag::decodes_to(
            r,
            Opcode::AdcReg,
            dpsr_data(word),
            dpsr_shift(word),
        ),
        (word >> 21) & 0xF == 0b1011 ==> tag::decodes_to(
            r,
            Opcode::SbcReg,
            dpsr_data(word),
            dpsr_shift(word),
        ),
        (word >> 21) & 0xF == 0b1101 && (word >> 8) & 0xF == 15 ==> tag::decodes_to(
            r,
            Opcode::CmpReg,
            dpsr_data_comp(word),
            dpsr_shift(word),
        ),
        (word >> 21) & 0xF == 0b1101 && (word >> 8) & 0xF != 15 ==> tag::decodes_to(
            r,
            Opcode::SubReg,
            dpsr_data(word),
            dpsr_shift(word),
        ),
        (word >> 21) & 0xF == 0b1110 ==> tag::decodes_to(
            r,
            Opcode::RsbReg,
            dpsr_data(word),
            dpsr_shift(word),
        ),
{
    let rn = (word >> 16) & 0xF;
    let rd = (word >> 8) & 0xF;
    let rm = word & 0xF;
    let setflags = bitset(word, 20);
    let sf: u32 = if setflags {
        1
    } else {
        0
    };

    let default_data = rd | rn << 4 | rm << 8 | sf << 12;
    let default_data_comp = (default_data >> 4) & 0xFF;
    let default_data_alt = rd | rm << 4 | sf << 8;

    let (shift_t, shift_n) = decode_imm_shift(
        (word >> 4) & 0b11,
        (word >> 6) & 0b11 | (word & (0b111 << 12)) >> 10,
    );
    let pro_extra = shift_t | shift_n << 3;
    proof {
        tag::lemma_shift_payload_wf(shift_t, shift_n);
    }

    let mut instr = match (word >> 21) & 0xF {
        0b0000 => {
            let mut base = if rd == 15 {
                tag::get_wide(Opcode::TstReg, default_data_comp, pro_extra)
            } else {
                tag::get_wide(Opcode::AndReg, default_data, pro_extra)
            };
            if rd == 13 || (rd == 15 && !setflags) || (rn == 13 || rn == 15) || (rm == 13 || rm
                == 15) {
                base = tag::as_unpred_w(base);
            }
            base
        }
        0b0001 => {
            let mut base = tag::get_wide(Opcode::BicReg, default_data, pro_extra);
            if rd == 13 || rd == 15 || rn == 13 || rn == 15 || rm == 13 || rm == 15 {
                base = tag::as_unpred_w(base);
            }
            base
        }
        0b0010 => {
            if rn == 15 {
                if shift_t == 0 && shift_n == 0 {
                    let mut base = tag::get_wide(
                        Opcode::MovReg,
                        (word & (1 << 20)) >> 16 | (word >> 8) & 0xF,
                        word & 0xF,
                    );
                    if rd == 15 || rm == 15 || (rd == 13 && rm == 13) || (setflags && (rd == 13
                        || rm == 13)) {
                        base = tag::as_unpred_w(base);
                    }
                    base
                } else {
                    let opcode = if shift_t == 0b00 {
                        Opcode::LslImm
                    } else if shift_t == 0b01 {
                        Opcode::LsrImm
                    } else if shift_t == 0b10 {
                        Opcode::AsrImm
                    } else if shift_t == 0b11 {
                        Opcode::Rrx
                    } else {
                        Opcode::RorImm
                    };
                    let mut base = tag::get_wide(opcode, rd | rm << 4 | sf << 8, shift_n);
                    if rd == 13 || rd == 15 || rm == 13 || rm == 15 {
                        base = tag::as_unpred_w(base);
                    }
                    base
                }
            } else {
                let mut base = tag::get_wide(Opcode::OrrReg, default_data, pro_extra);
                if rd == 13 || rd == 15 || rn == 13 || rm == 13 || rm == 15 {
                    base = tag::as_unpred_w(base);
                }
                base
            }
        }
        0b0011 => {
            let mut base = if rn == 15 {
                tag::get_wide(Opcode::MvnReg, default_data_alt, pro_extra)
            } else {
                tag::get_wide(Opcode::OrnReg, default_data, pro_extra)
            };
            if rd == 13 || rd == 15 || rm == 13 || rm == 15 || rn == 13 {
                base = tag::as_unpred_w(base);
            }
            base
        }
        0b0100 => {
            let mut base = if rd == 15 {
                tag::get_wide(Opcode::TeqReg, default_data_comp, pro_extra)
            } else {
                tag::get_wide(Opcode::EorReg, default_data, pro_extra)
            };
            if rd == 13 || (rd == 15 && !setflags) || rn == 13 || rn == 15 || rm == 13 || rm
                == 15 {
                base = tag::as_unpred_w(base);
            }
            base
        }
        0b0110 => {
            let mut base = if setflags || bitset(word, 4) {
                tag::get_undefined_wide(word)
            } else {
                tag::get_wide(Opcode::Pkhbt, default_data, pro_extra)
            };
            if rd == 13 || rd == 15 || rn == 13 || rn == 15 || rm == 13 || rm == 15 {
                base = tag::as_unpred_w(base);
            }
            base
        }
        0b1000 => {
            let mut base = if rd == 15 {
                tag::get_wide(Opcode::CmnReg, default_data_comp, pro_extra)
            } else {
                tag::get_wide(Opcode::AddReg, default_data, pro_extra)
            };
            if rd == 13 || (rd == 15 && !setflags) || rn == 15 || rm == 13 || rm == 15 {
                base = tag::as_unpred_w(base);
            }
            base
        }
        0b1010 => {
            let mut base = tag::get_wide(Opcode::AdcReg, default_data, pro_extra);
            if rd == 13 || rd == 15 || rn == 13 || rn == 15 || rm == 13 || rm == 15 {
                base = tag::as_unpred_w(base);
            }
            base
        }
        0b1011 => {
            let mut base = tag::get_wide(Opcode::SbcReg, default_data, pro_extra);
            if rd == 13 || rd == 15 || rn == 13 || rn == 15 || rm == 13 || rm == 15 {
                base = tag::as_unpred_w(base);
            }
            base
        }
        0b1101 => {
            let mut base = if rd == 15 {
                tag::get_wide(Opcode::CmpReg, default_data_comp, pro_extra)
            } else {
                tag::get_wide(Opcode::SubReg, default_data, pro_extra)
            };
            if rd == 13 || (rd == 15 && !setflags) || rn == 15 || rm == 13 || rm == 15 {
                base = tag::as_unpred_w(base);
            }
            base
        }
        0b1110 => {
            let mut base = tag::get_wide(Opcode::RsbReg, default_data, pro_extra);
            if rd == 13 || rd == 15 || rn == 13 || rn == 15 || rm == 13 || rm == 15 {
                base = tag::as_unpred_w(base);
            }
            base
        }
        _ => tag::get_undefined_wide(word),
    };

    if bitset(word, 15) {
        instr = tag::as_unpred_w(instr);
    }
    instr
}

fn id_ldr_str_dual(word: u32, c: Context) -> (r: ByteInstruction)
    ensures
        wide_ok(r),
        (word >> 23) & 0b11 == 0b00 && (word >> 20) & 0b11 == 0b00 ==> tag::decodes_to(
            r,
            Opcode::Strex,
            (word >> 12) & 0xF | ((word >> 8) & 0xF) << 4,
            ((word >> 16) & 0xF) << 10 | (word & 0xFF) << 2,
        ),
        (word >> 23) & 0b11 == 0b00 && (word >> 20) & 0b11 == 0b01 ==> tag::decodes_to(
            r,
            Opcode::Ldrex,
            ((word >> 12) & 0xF | ((word >> 8) & 0xF) << 4) & 0xF,
            ((word >> 16) & 0xF) << 10 | (word & 0xFF) << 2,
        ),
        (word >> 23) & 0b11 == 0b01 && (word >> 20) & 0b11 == 0b01 && ((word >> 4) & 0xF == 0b0000
            || (word >> 4) & 0xF == 0b0001) ==> tag::decodes_to(
            r,
            Opcode::Tbb,
            (word >> 16) & 0xF | ((word >> 4) & 0b1) << 4,
            word & 0xF,
        ),
        (word >> 23) & 0b11 == 0b01 && (word >> 20) & 0b11 == 0b01 && (word >> 4) & 0xF == 0b0100
            ==> tag::decodes_to(r, Opcode::Ldrexb, (word >> 12) & 0xF, (word >> 16) & 0xF),
        (word >> 23) & 0b11 == 0b01 && (word >> 20) & 0b11 == 0b01 && (word >> 4) & 0xF == 0b0101
            ==> tag::decodes_to(r, Opcode::Ldrexh, (word >> 12) & 0xF, (word >> 16) & 0xF),
{
    let op1 = (word >> 23) & 0b11;
    let op2 = (word >> 20) & 0b11;
    let op3 = (word >> 4) & 0xF;

    let imm8 = word & 0xFF;
    let rd = (word >> 8) & 0xF;
    let rt = (word >> 12) & 0xF;
    let rn = (word >> 16) & 0xF;

    let rt2 = rd;
    let p = (word >> 24) & 0b1;
    let u = (word >> 23) & 0b1;
    let w = (word >> 21) & 0b1;

    let default_data = rt | rd << 4;
    let default_extra = rn << 10 | imm8 << 2;

    if op1 == 0b00 && op2 == 0b00 {
        let mut base = tag::get_wide(Opcode::Strex, default_data, default_extra);
        if (rd == 13 || rd == 15) || (rt == 13 || rt == 15) || rn == 15 || rd == rn || rd == rt {
            base = tag::as_unpred_w(base);
        }
        return base;
    }
    if op1 == 0b00 && op2 == 0b01 {
        let mut base = tag::get_wide(Opcode::Ldrex, default_data & 0xF, default_extra);
        if rd != 15 || (rt == 13 || rt == 15) || rn == 15 {
            base = tag::as_unpred_w(base);
        }
        return base;
    }
    if (op2 == 0b10 && (op1 == 0b00 || op1 == 0b01 || op1 == 0b10 || op1 == 0b11)) || (op2 == 0b00
        && op1 == 0b10) {
        let data = default_data | p << 10 | u << 9 | w << 8;
        let mut base = tag::get_wide(Opcode::StrdImm, data, default_extra);
        if (w > 0 && (rn == rt || rn == rt2)) || (rn == 15 || (rt == 13 || rt == 15) || (rt2 == 13
            || rt2 == 15)) {
            base = tag::as_unpred_w(base);
        }
        return base;
    }
    if (op2 == 0b11 && (op1 == 0b00 || op1 == 0b01 || op1 == 0b10 || op1 == 0b11)) || (op2 == 0b01
        && (op1 == 0b10 || op1 == 0b11)) {
        let data = default_data | p << 10 | u << 9 | w << 8;
        let mut base = tag::get_wide(Opcode::LdrdImm, data, default_extra);
        if (w > 0 && (rn == rt || rn == rt2)) || (rn == 15 || (rt == 13 || rt == 15) || (rt2 == 13
            || rt2 == 15)) {
            base = tag::as_unpred_w(base);
        }
        return base;
    }
    if op1 == 0b01 && op2 == 0b00 && op3 == 0b0100 {
        let rdb = word & 0xF;
        let mut base = tag::get_wide(Opcode::Strexb, default_data & 0xF | rdb << 4, rn);
        if (rdb == 13 || rdb == 15) || (rt == 13 || rt == 15) || rn == 15 || rdb == rn || rdb
            == rt {
            base = tag::as_unpred_w(base);
        }
        return base;
    }
    if op1 == 0b01 && op2 == 0b00 && op3 == 0b0101 {
        let rdh = word & 0xF;
        let mut base = tag::get_wide(Opcode::Strexh, default_data & 0xF | rdh << 4, rn);
        if (rdh == 13 || rdh == 15) || (rt == 13 || rt == 15) || rn == 15 || rdh == rn || rdh
            == rt {
            base = tag::as_unpred_w(base);
        }
        return base;
    }
    if op1 == 0b01 && op2 == 0b01 {
        if op3 == 0b0000 || op3 == 0b0001 {
            let rm = word & 0xF;
            let h = (word >> 4) & 0b1;
            let mut base = tag::get_wide(Opcode::Tbb, rn | h << 4, rm);
            if rn == 13 || (rm == 13 || rm == 15) {
                base = tag::as_unpred_w(base);
            }
            if c.it_pos == ItPos::Within {
                base = tag::as_unpred_it_w(base);
            }
            return base;
        }
        if op3 == 0b0100 {
            let mut base = tag::get_wide(Opcode::Ldrexb, rt, rn);
            if (rt == 13 || rt == 15) || rn == 15 || rd != 15 || (word & 0xF) != 15 {
                base = tag::as_unpred_w(base);
            }
            return base;
        }
        if op3 == 0b0101 {
            let mut base = tag::get_wide(Opcode::Ldrexh, rt, rn);
            if (rt == 13 || rt == 15) || rn == 15 || rd != 15 || (word & 0xF) != 15 {
                base = tag::as_unpred_w(base);
            }
            return base;
        }
        return tag::get_undefined_wide(word);
    }
    tag::get_undefined_wide(word)
}

fn id_ldr_str_multiple(word: u32, c: Context) -> (r: ByteInstruction)
    ensures
        wide_ok(r),
        (word >> 23) & 0b11 == 0b01 && (word >> 20) & 0b1 == 0 ==> tag::decodes_to(
            r,
            Opcode::Stm,
            (word >> 16) & 0xF,
            (word & 0xFFFF) | ((word >> 21) & 0b1) << 16,
        ),
        (word >> 23) & 0b11 == 0b01 && (word >> 20) & 0b1 == 1 && ((word >> 16) & 0xF | ((word
            >> 21) & 0b1) << 4) != 0b11101 ==> tag::decodes_to(
            r,
            Opcode::Ldm,
            (word >> 16) & 0xF,
            (word & 0xFFFF) | ((word >> 21) & 0b1) << 16,
        ),
        (word >> 23) & 0b11 == 0b01 && (word >> 20) & 0b1 == 1 && ((word >> 16) & 0xF | ((word
            >> 21) & 0b1) << 4) == 0b11101 ==> tag::decodes_to(r, Opcode::Pop, 0, word & 0xFFFF),
        (word >> 23) & 0b11 == 0b10 && (word >> 20) & 0b1 == 0 && ((word >> 16) & 0xF | ((word
            >> 21) & 0b1) << 4) != 0b11101 ==> tag::decodes_to(
            r,
            Opcode::Stmdb,
            (word >> 16) & 0xF,
            (word & 0xFFFF) | ((word >> 21) & 0b1) << 16,
        ),
        (word >> 23) & 0b11 == 0b10 && (word >> 20) & 0b1 == 0 && ((word >> 16) & 0xF | ((word
            >> 21) & 0b1) << 4) == 0b11101 ==> tag::decodes_to(r, Opcode::Push, 0, word & 0xFFFF),
        (word >> 23) & 0b11 == 0b10 && (word >> 20) & 0b1 == 1 ==> tag::decodes_to(
            r,
            Opcode::Ldmdb,
            (word >> 16) & 0xF,
            (word & 0xFFFF) | ((word >> 21) & 0b1) << 16,
        ),
{
    let op1 = (word >> 23) & 0b11;
    let w = (word >> 21) & 0b1;
    let l = (word >> 20) & 0b1;
    let rn = (word >> 16) & 0xF;

    let wrn = (rn | w << 4) == 0b11101;
    let registers = word & 0xFFFF;
    let p = (word >> 15) & 0b1;
    let m = (word >> 14) & 0b1;
    let reg_count = count_ones(registers);

    if op1 == 0b01 && l == 0 {
        let mut base = tag::get_wide(Opcode::Stm, rn, registers | w << 16);
        if bitset(word, 13) || bitset(word, 15) || rn == 15 || reg_count < 2 || (w == 1 && rn < 16
            && bitset(registers, rn)) {
            base = tag::as_unpred_w(base);
        }
        return base;
    }
    if op1 == 0b01 && l == 1 && !wrn {
        let mut base = tag::get_wide(Opcode::Ldm, rn, registers | w << 16);
        if bitset(word, 13) || rn == 15 || reg_count < 2 || (p == 1 && m == 1) || (w == 1 && rn < 16
            && bitset(registers, rn)) {
            base = tag::as_unpred_w(base);
        }
        if bitset(registers, 15) && c.it_pos == ItPos::Within {
            base = tag::as_unpred_it_w(base);
        }
        return base;
    }
    if op1 == 0b01 && l == 1 && wrn {
        let mut base = tag::get_wide(Opcode::Pop, 0, registers);
        if bitset(word, 13) || reg_count < 2 || (p == 1 && m == 1) {
            base = tag::as_unpred_w(base);
        }
        if bitset(registers, 15) && c.it_pos == ItPos::Within {
            base = tag::as_unpred_it_w(base);
        }
        return base;
    }
    if op1 == 0b10 && l == 0 && !wrn {
        let mut base = tag::get_wide(Opcode::Stmdb, rn, registers | w << 16);
        if bitset(word, 15) || bitset(word, 13) || rn == 15 || reg_count < 2 || (w == 1 && rn < 16
            && bitset(registers, rn)) {
            base = tag::as_unpred_w(base);
        }
        return base;
    }
    if op1 == 0b10 && l == 0 && wrn {
        let mut base = tag::get_wide(Opcode::Push, 0, registers);
        if bitset(word, 15) || bitset(word, 13) || reg_count < 2 {
            base = tag::as_unpred_w(base);
        }
        return base;
    }
    if op1 == 0b10 && l == 1 {
        let mut base = tag::get_wide(Opcode::Ldmdb, rn, registers | w << 16);
        if bitset(word, 13) || rn == 15 || reg_count < 2 || (p == 1 && m == 1) || (w == 1 && rn < 16
            && bitset(registers, rn)) {
            base = tag::as_unpred_w(base);
        }
        if bitset(registers, 15) && c.it_pos == ItPos::Within {
            base = tag::as_unpred_it_w(base);
        }
        return base;
    }
    tag::get_undefined_wide(word)
}

fn id_branch_and_misc(word: u32, c: Context) -> (r: ByteInstruction)
    ensures
        wide_ok(r),
        is_bl_enc(word) ==> tag::instr_op(r) == Opcode::Bl && tag::instr_extra(r) == bl_imm24_of(
            word,
        ),
{
    proof {
        lemma_bl_payload(word);
    }
    let op = (word >> 20) & 0x7F;
    let op1 = (word >> 12) & 0b111;

    let sysm = word & 0xFF;
    let mask = (word >> 10) & 0b11;
    let rn = (word >> 16) & 0xF;
    let rd = (word >> 8) & 0xF;
    let imm11 = word & 0x7FF;
    let j1 = (word >> 13) & 0b1;
    let j2 = (word >> 11) & 0b1;
    let s = (word >> 26) & 0b1;
    let i1 = !(j1 ^ s) & 0b1;
    let i2 = !(j2 ^ s) & 0b1;
    let imm10 = (word >> 16) & 0x3FF;
    let imm24 = imm11 | imm10 << 11 | i2 << 21 | i1 << 22 | s << 23;

    if (op1 & 0b101) == 0b000 {
        if (op & 0b0111000) != 0b0111000 {
            let imm6 = (word >> 16) & 0x3F;
            let cond = (word >> 22) & 0xF;
            let imm20 = imm11 | imm6 << 11 | j1 << 17 | j2 << 18 | s << 19;
            let mut base = tag::get_wide(Opcode::BranchCond, cond, imm20);
            if c.it_pos != ItPos::Outside {
                base = tag::as_unpred_it_w(base);
            }
            return base;
        }
        if (op & 0b1111110) == 0b0111110 {
            let mut base = tag::get_wide(Opcode::Msr, rn, sysm | mask << 8);
            if bitset(word, 20) || bitset(word, 13) || bitset(word, 9) || bitset(word, 8) {
                base = tag::as_unpred_w(base);
            }
            if mask == 0b00 || (mask != 0b10 && !(sysm <= 3)) || (rn == 13 || rn == 15) {
                base = tag::as_unpred_w(base);
            }
            if !(sysm <= 3 || (5 <= sysm && sysm <= 9) || (16 <= sysm && sysm <= 20)) {
                base = tag::as_unpred_w(base);
            }
            return base;
        }
        let option = word & 0xF;
        if op == 0b0111010 {
            let hint_op2 = word & 0xFF;
            if op1 != 0b000 {
                return tag::get_undefined_wide(word);
            }
            let mut base = if hint_op2 == 0b0000_0000 {
                tag::get_wide(Opcode::Nop, 0, 0)
            } else if hint_op2 == 0b0000_0001 {
                tag::get_wide(Opcode::Yield, 0, 0)
            } else if hint_op2 == 0b0000_0010 {
                tag::get_wide(Opcode::Wfe, 0, 0)
            } else if hint_op2 == 0b0000_0011 {
                tag::get_wide(Opcode::Wfi, 0, 0)
            } else if hint_op2 == 0b0000_0100 {
                tag::get_wide(Opcode::Sev, 0, 0)
            } else if hint_op2 == 0b0001_0100 {
                let mut inner = tag::get_wide(Opcode::Csdb, 0, 0);
                if c.it_pos != ItPos::Outside {
                    inner = tag::as_unpred_it_w(inner);
                }
                inner
            } else if 0b1111_0000 <= hint_op2 && hint_op2 <= 0b1111_1111 {
                tag::get_wide(Opcode::Dbg, option, 0)
            } else {
                return tag::get_wide(Opcode::Nop, 0, 0);
            };
            if (word >> 11) & 0b1111_00_1_0_1 != 0b1111_00_0_0_0 {
                base = tag::as_unpred_w(base);
            }
            return base;
        }
        if op == 0b0111011 {
            let opc = (word >> 4) & 0xF;
            let mut base = if opc == 0b0010 {
                let mut inner = tag::get_wide(Opcode::Clrex, 0, 0);
                if option != 0b1111 {
                    inner = tag::as_unpred_w(inner);
                }
                inner
            } else if opc == 0b0100 && option != 0b0000 && option != 0b0100 {
                tag::get_wide(Opcode::Dsb, option, 0)
            } else if opc == 0b0100 && option == 0b0000 {
                let mut inner = tag::get_wide(Opcode::Ssbb, 0, 0);
                if c.it_pos != ItPos::Outside {
                    inner = tag::as_unpred_w(inner);
                }
                inner
            } else if opc == 0b0100 && option == 0b0100 {
                let mut inner = tag::get_wide(Opcode::Pssbb, 0, 0);
                if c.it_pos != ItPos::Outside {
                    inner = tag::as_unpred_w(inner);
                }
                inner
            } else if opc == 0b0101 {
                tag::get_wide(Opcode::Dmb, 0, 0)
            } else if opc == 0b0110 {
                let mut inner = tag::get_wide(Opcode::Isb, option, 0);
                if c.it_pos != ItPos::Outside {
                    inner = tag::as_unpred_w(inner);
                }
                inner
            } else {
                return tag::get_undefined_wide(word);
            };
            if (word >> 8) & 0b1111_00_1_0_1111 != 0b1111_00_0_0_1111 {
                base = tag::as_unpred_w(base);
            }
            return base;
        }
        if (op & 0b1111110) == 0b01111110 {
            let mut base = tag::get_wide(Opcode::Mrs, rd, sysm);
            if bitset(word, 20) || bitset(word, 13) || rn != 0b1111 {
                base = tag::as_unpred_w(base);
            }
            if rd == 13 || rd == 15 {
                base = tag::as_unpred_w(base);
            }
            if !(sysm <= 3 || (5 <= sysm && sysm <= 9) || (16 <= sysm && sysm <= 20)) {
                base = tag::as_unpred_w(base);
            }
            return base;
        }
    }
    if op1 == 0b010 && op == 0b1111111 {
        let imm4 = (word >> 16) & 0xF;
        let imm12 = word & 0xFFF;
        let imm16 = imm12 | imm4 << 12;
        return tag::get_wide(Opcode::Udf, imm16, 0);
    }
    if (op1 & 0b101) == 0b001 {
        let mut base = tag::get_wide(Opcode::Branch, 0, imm24);
        if c.it_pos == ItPos::Within {
            base = tag::as_unpred_it_w(base);
        }
        return base;
    }
    if (op1 & 0b101) == 0b101 {
        let mut base = tag::get_wide(Opcode::Bl, 0, imm24);
        if c.it_pos == ItPos::Within {
            base = tag::as_unpred_it_w(base);
        }
        return base;
    }
    tag::get_undefined_wide(word)
}

fn id_data_proc_plain_binary_immediate(word: u32, _c: Context) -> (r: ByteInstruction)
    ensures
        wide_ok(r),
{
    let rd = (word >> 8) & 0xF;
    let rn = (word >> 16) & 0xF;

    let imm8 = word & 0xFF;
    let imm3 = (word >> 12) & 0x7;
    let imm2 = (word >> 6) & 0x3;
    let i = (word >> 26) & 0x1;

    let imm12 = imm8 | imm3 << 8 | i << 11;
    let imm5 = imm2 | imm3 << 2;
    let sat_imm5 = word & 0x1F;
    let shift_n = imm5;

    let sel = (word >> 20) & 0x1F;
    if sel == 0b00000 {
        let mut base = if rn == 15 {
            tag::get_wide(Opcode::Adr, rd, imm12)
        } else {
            tag::get_wide(Opcode::AddImm, rd << 4 | rn << 8, imm12)
        };
        if rd == 13 || rd == 15 {
            base = tag::as_unpred_w(base);
        }
        return base;
    }
    if sel == 0b00100 {
        let mut base = tag::get_wide(Opcode::MovImm, rd << 4, (word & (0xF << 16)) >> 4 | imm12);
        if rd == 13 || rd == 15 {
            base = tag::as_unpred_w(base);
        }
        return base;
    }
    if sel == 0b01010 {
        let mut base = if rn == 15 {
            tag::get_wide(Opcode::Adr, rd, get_negated_simm13(imm12))
        } else {
            tag::get_wide(Opcode::SubImm, rd << 4 | rn << 8, imm12)
        };
        if rd == 13 || rd == 15 {
            base = tag::as_unpred_w(base);
        }
        return base;
    }
    if sel == 0b01100 {
        let mut base = tag::get_wide(Opcode::Movt, rd, (word & (0xF << 16)) >> 4 | imm12);
        if rd == 13 || rd == 15 {
            base = tag::as_unpred_w(base);
        }
        return base;
    }
    if sel == 0b10010 && imm5 != 0 {
        let saturate_to = (sat_imm5 & 0xF) + 1;
        let mut base = tag::get_wide(Opcode::Ssat16, rd | rn << 4, saturate_to);
        if bitset(word, 26) || bitset(word, 5) || bitset(word, 4) || (rd == 13 || rd == 15) || (rn
            == 13 || rn == 15) {
            base = tag::as_unpred_w(base);
        }
        return base;
    }
    if sel == 0b10000 || sel == 0b10010 {
        let sh = (word & (0b1 << 21)) >> 20;
        let saturate_to = sat_imm5 + 1;
        let mut base = tag::get_wide(Opcode::Ssat, rd | rn << 4, shift_n << 7 | sh << 6 | saturate_to);
        if bitset(word, 26) || bitset(word, 5) || (rd == 13 || rd == 15) || (rn == 13 || rn
            == 15) {
            base = tag::as_unpred_w(base);
        }
        return base;
    }
    if sel == 0b10100 {
        let widthm1 = sat_imm5;
        let lsbit = imm5;
        let mut base = tag::get_wide(Opcode::Sbfx, rd | rn << 4, widthm1 | lsbit << 5);
        if bitset(word, 26) || bitset(word, 5) || (rd == 13 || rd == 15) || (rn == 13 || rn
            == 15) {
            base = tag::as_unpred_w(base);
        }
        return base;
    }
    if sel == 0b10110 && rn != 15 {
        let msbit = sat_imm5;
        let lsbit = shift_n;
        let mut base = tag::get_wide(Opcode::Bfi, rd | rn << 4, msbit | lsbit << 5);
        if bitset(word, 26) || bitset(word, 15) || bitset(word, 5) || (rd == 13 || rd == 15) || (rn
            == 13 || rn == 15) {
            base = tag::as_unpred_w(base);
        }
        return base;
    }
    if sel == 0b10110 && rn == 15 {
        let msbit = sat_imm5;
        let lsbit = imm5;
        let mut base = tag::get_wide(Opcode::Bfc, rd, msbit | lsbit << 5);
        if bitset(word, 26) || bitset(word, 5) || (rd == 13 || rd == 15) {
            base = tag::as_unpred_w(base);
        }
        return base;
    }
    if sel == 0b11010 && imm5 != 0 {
        let saturate_to = sat_imm5 & 0xF;
        let mut base = tag::get_wide(Opcode::Usat16, rd | rn << 4, saturate_to);
        if bitset(word, 26) || bitset(word, 5) || bitset(word, 4) || (rd == 13 || rd == 15) || (rn
            == 13 || rn == 15) {
            base = tag::as_unpred_w(base);
        }
        return base;
    }
    if sel == 0b11000 || sel == 0b11010 {
        let sh = (word & (0b1 << 21)) >> 20;
        let saturate_to = sat_imm5;
        let mut base = tag::get_wide(Opcode::Usat, rd | rn << 4, shift_n << 6 | sh << 5 | saturate_to);
        if bitset(word, 26) || bitset(word, 5) || (rd == 13 || rd == 15) || (rn == 13 || rn
            == 15) {
            base = tag::as_unpred_w(base);
        }
        return base;
    }
    if sel == 0b11100 {
        let widthm1 = sat_imm5;
        let lsbit = imm5;
        let mut base = tag::get_wide(Opcode::Ubfx, rd | rn << 4, widthm1 | lsbit << 5);
        if bitset(word, 26) || bitset(word, 5) || (rd == 13 || rd == 15) || (rn == 13 || rn
            == 15) {
            base = tag::as_unpred_w(base);
        }
        return base;
    }
    tag::get_undefined_wide(word)
}

/// Expands the Thumb-2 modified constant: a replicated byte or a shifted
/// eight-bit value with an implicit leading one. The top two bits of the
/// expansion spill into the returned tag byte along with the carry
/// semantic: bit 3 set means a fresh carry, whose value is bit 2.
/// The full 32-bit value of a Thumb-2 modified constant: one of the four
/// byte-replication patterns, or an eight-bit value with an implicit
/// leading one rotated into place.
pub open spec fn modified_imm_full(word: u32) -> u32 {
    let base = word & 0xFF;
    if !crate::bits::bit_of(word, 26) && !crate::bits::bit_of(word, 14) {
        let pattern = (word >> 12) & 0b11;
        if pattern == 0b00 {
            base
        } else if pattern == 0b01 {
            base | base << 16
        } else if pattern == 0b10 {
            (base | base << 16) << 8
        } else {
            base | base << 8 | base << 16 | base << 24
        }
    } else {
        let encoded_shift = ((word >> 7) & 0b1) | ((word >> 12) & 0b111) << 1 | ((word >> 26)
            & 0b1) << 4;
        (base | 1u32 << 7) << (0x20 - encoded_shift) as u32
    }
}

/// The spill nibble beside the expansion: its low two bits carry the
/// expansion's top two bits; bit 3 set means the expansion installs a
/// fresh carry, held in bit 2 (the expansion's sign bit).
pub open spec fn modified_imm_spill(word: u32) -> u32 {
    let full = modified_imm_full(word);
    if !crate::bits::bit_of(word, 26) && !crate::bits::bit_of(word, 14) {
        full >> 30
    } else {
        (0b1000u32 | (if crate::bits::bit_of(full, 31) {
            0b0100u32
        } else {
            0u32
        })) | (full >> 30)
    }
}

fn thumb_expand_imm_c_alt(word: u32) -> (r: (u32, u32))
    ensures
        r.0 == modified_imm_spill(word),
        r.1 == modified_imm_full(word) & !(0b11u32 << 30),
        r.1 < 0x4000_0000,
{
    let full: u32;
    let spill: u32;
    let base = word & 0xFF;
    if !bitset(word, 26) && !bitset(word, 14) {
        let pattern = (word >> 12) & 0b11;
        full = if pattern == 0b00 {
            base
        } else if pattern == 0b01 {
            base | base << 16
        } else if pattern == 0b10 {
            (base | base << 16) << 8
        } else {
            base | base << 8 | base << 16 | base << 24
        };
        spill = full >> 30;
    } else {
        let i = (word >> 26) & 0b1;
        let imm3 = (word >> 12) & 0b111;
        let a = (word >> 7) & 0b1;
        let encoded_shift = a | imm3 << 1 | i << 4;
        proof {
            assert(((word >> 26) & 0b1 != 0 || (word >> 14) & 0b1 != 0) ==> 1 <= (((word >> 7)
                & 0b1) | ((word >> 12) & 0b111) << 1 | ((word >> 26) & 0b1) << 4) < 32)
                by (bit_vector);
            assert(crate::bits::bit_of(word, 26) == ((word >> 26) & 0b1 != 0)
                && crate::bits::bit_of(word, 14) == ((word >> 14) & 0b1 != 0)) by (bit_vector);
        }
        full = (base | 1 << 7) << (0x20 - encoded_shift);
        spill = (0b1000u32 | (if bitset(full, 31) {
            0b0100u32
        } else {
            0u32
        })) | (full >> 30);
    }
    let masked = full & !(0b11u32 << 30);
    proof {
        assert(full & !(0b11u32 << 30) < 0x4000_0000) by (bit_vector);
    }
    (spill, masked)
}

fn id_data_proc_modified_immediate(word: u32, _c: Context) -> (r: ByteInstruction)
    ensures
        wide_ok(r),
        (word >> 21) & 0xF == 0b0000 && (word >> 8) & 0xF == 15 ==> tag::decodes_to(
            r,
            Opcode::TstImm,
            (word & (0xFu32 << 16)) >> 12 | modified_imm_spill(word),
            dpmi_extra(word),
        ),
        (word >> 21) & 0xF == 0b0000 && (word >> 8) & 0xF != 15 ==> tag::decodes_to(
            r,
            Opcode::AndImm,
            dpmi_data(word),
            dpmi_extra(word),
        ),
        (word >> 21) & 0xF == 0b0001 ==> tag::decodes_to(
            r,
            Opcode::BicImm,
            dpmi_data(word),
            dpmi_extra(word),
        ),
        (word >> 21) & 0xF == 0b0010 && (word >> 16) & 0xF == 15 ==> tag::decodes_to(
            r,
            Opcode::MovImm,
            (word & (1u32 << 20)) >> 12 | (word & (0xFu32 << 8)) >> 4 | modified_imm_spill(word),
            dpmi_extra(word),
        ),
        (word >> 21) & 0xF == 0b0010 && (word >> 16) & 0xF != 15 ==> tag::decodes_to(
            r,
            Opcode::OrrImm,
            dpmi_data(word),
            dpmi_extra(word),
        ),
        (word >> 21) & 0xF == 0b0011 && (word >> 16) & 0xF == 15 ==> tag::decodes_to(
            r,
            Opcode::MvnImm,
            (word & (1u32 << 20)) >> 12 | (word & (0xFu32 << 8)) >> 4 | modified_imm_spill(word),
            dpmi_extra(word),
        ),
        (word >> 21) & 0xF == 0b0011 && (word >> 16) & 0xF != 15 ==> tag::decodes_to(
            r,
            Opcode::OrnImm,
            dpmi_data(word),
            dpmi_extra(word),
        ),
        (word >> 21) & 0xF == 0b0100 && (word >> 8) & 0xF == 15 ==> tag::decodes_to(
            r,
            Opcode::TeqImm,
            (word & (0xFu32 << 16)) >> 12 | modified_imm_spill(word),
            dpmi_extra(word),
        ),
        (word >> 21) & 0xF == 0b0100 && (word >> 8) & 0xF != 15 ==> tag::decodes_to(
            r,
            Opcode::EorImm,
            dpmi_data(word),
            dpmi_extra(word),
        ),
        (word >> 21) & 0xF == 0b1000 && (word >> 8) & 0xF == 15 ==> tag::decodes_to(
            r,
            Opcode::CmnImm,
            (word & (0xFu32 << 16)) >> 12 | modified_imm_spill(word),
            dpmi_extra(word),
        ),
        (word >> 21) & 0xF == 0b1000 && (word >> 8) & 0xF != 15 ==> tag::decodes_to(
            r,
            Opcode::AddImm,
            dpmi_data(word),
            dpmi_extra(word),
        ),
        (word >> 21) & 0xF == 0b1010 ==> tag::decodes_to(
            r,
            Opcode::AdcImm,
            dpmi_data(word),
            dpmi_extra(word),
        ),
        (word >> 21) & 0xF == 0b1011 ==> tag::decodes_to(
            r,
            Opcode::SbcImm,
            dpmi_data(word),
            dpmi_extra(word),
        ),
        (word >> 21) & 0xF == 0b1101 && (word >> 8) & 0xF == 15 ==> tag::decodes_to(
            r,
            Opcode::CmpImm,
            (word & (0xFu32 << 16)) >> 12 | modified_imm_spill(word),
            dpmi_extra(word),
        ),
        (word >> 21) & 0xF == 0b1101 && (word >> 8) & 0xF != 15 ==> tag::decodes_to(
            r,
            Opcode::SubImm,
            dpmi_data(word),
            dpmi_extra(word),
        ),
        (word >> 21) & 0xF == 0b1110 ==> tag::decodes_to(
            r,
            Opcode::RsbImm,
            dpmi_data(word),
            dpmi_extra(word),
        ),
{
    let rn = (word >> 16) & 0xF;
    let rd = (word >> 8) & 0xF;
    let setflags = bitset(word, 20);
    let sf: u32 = if setflags {
        1
    } else {
        0
    };
    let (spill, extra) = thumb_expand_imm_c_alt(word);
    let default_w_spill = rd << 4 | rn << 8 | sf << 12 | spill;

    let sel = (word >> 21) & 0b1111;
    if sel == 0b0000 {
        let mut base = if rd == 15 {
            tag::get_wide(Opcode::TstImm, (word & (0xF << 16)) >> 12 | spill, extra)
        } else {
            tag::get_wide(Opcode::AndImm, default_w_spill, extra)
        };
        if (rn == 13 || rn == 15) || rd == 13 || (rd == 15 && !setflags) {
            base = tag::as_unpred_w(base);
        }
        return base;
    }
    if sel == 0b0001 {
        let mut base = tag::get_wide(Opcode::BicImm, default_w_spill, extra);
        if rd == 13 || rd == 15 || rn == 13 || rn == 15 {
            base = tag::as_unpred_w(base);
        }
        return base;
    }
    if sel == 0b0010 {
        let mut base = if rn == 15 {
            tag::get_wide(
                Opcode::MovImm,
                (word & (1 << 20)) >> 12 | (word & (0xF << 8)) >> 4 | spill,
                extra,
            )
        } else {
            tag::get_wide(Opcode::OrrImm, default_w_spill, extra)
        };
        if rd == 13 || rd == 15 || rn == 13 {
            base = tag::as_unpred_w(base);
        }
        return base;
    }
    if sel == 0b0011 {
        let mut base = if rn == 15 {
            tag::get_wide(
                Opcode::MvnImm,
                (word & (1 << 20)) >> 12 | (word & (0xF << 8)) >> 4 | spill,
                extra,
            )
        } else {
            tag::get_wide(Opcode::OrnImm, default_w_spill, extra)
        };
        if rd == 13 || rd == 15 || rn == 13 {
            base = tag::as_unpred_w(base);
        }
        return base;
    }
    if sel == 0b0100 {
        let mut base = if rd == 15 {
            tag::get_wide(Opcode::TeqImm, (word & (0xF << 16)) >> 12 | spill, extra)
        } else {
            tag::get_wide(Opcode::EorImm, default_w_spill, extra)
        };
        if rn == 13 || rn == 15 || rd == 13 || (rd == 15 && !setflags) {
            base = tag::as_unpred_w(base);
        }
        return base;
    }
    if sel == 0b1000 {
        let mut base = if rd == 15 {
            tag::get_wide(Opcode::CmnImm, (word & (0xF << 16)) >> 12 | spill, extra)
        } else {
            tag::get_wide(Opcode::AddImm, default_w_spill, extra)
        };
        if rn == 15 || rd == 13 || (rd == 15 && !setflags) {
            base = tag::as_unpred_w(base);
        }
        return base;
    }
    if sel == 0b1010 {
        let mut base = tag::get_wide(Opcode::AdcImm, default_w_spill, extra);
        if rd == 13 || rd == 15 || rn == 13 || rn == 15 {
            base = tag::as_unpred_w(base);
        }
        return base;
    }
    if sel == 0b1011 {
        let mut base = tag::get_wide(Opcode::SbcImm, default_w_spill, extra);
        if rd == 13 || rd == 15 || rn == 13 || rn == 15 {
            base = tag::as_unpred_w(base);
        }
        return base;
    }
    if sel == 0b1101 {
        let mut base = if rd == 15 {
            tag::get_wide(Opcode::CmpImm, (word & (0xF << 16)) >> 12 | spill, extra)
        } else {
            tag::get_wide(Opcode::SubImm, default_w_spill, extra)
        };
        if rn == 15 || rd == 13 || (rd == 15 && !setflags) {
            base = tag::as_unpred_w(base);
        }
        return base;
    }
    if sel == 0b1110 {
        let mut base = tag::get_wide(Opcode::RsbImm, default_w_spill, extra);
        if rd == 13 || rd == 15 || rn == 13 || rn == 15 {
            base = tag::as_unpred_w(base);
        }
        return base;
    }
    tag::get_undefined_wide(word)
}

fn id_long_multiply_div(word: u32, _c: Context) -> (r: ByteInstruction)
    ensures
        wide_ok(r),
        is_umull_enc(word) ==> tag::instr_op(r) == Opcode::Umull && tag::instr_data(r) == ((word
            >> 16) & 0xF | (word & 0xF) << 4) && tag::instr_extra(r) == ((word >> 12) & 0xF | ((
        word >> 8) & 0xF) << 4),
        (word >> 20) & 0b111 == 0b000 && (word >> 4) & 0xF == 0b0000 ==> tag::decodes_to(
            r,
            Opcode::Smull,
            (word >> 16) & 0xF | (word & 0xF) << 4,
            (word >> 12) & 0xF | ((word >> 8) & 0xF) << 4,
        ),
        (word >> 20) & 0b111 == 0b001 && (word >> 4) & 0xF == 0b1111 ==> tag::decodes_to(
            r,
            Opcode::Sdiv,
            (word >> 8) & 0xF | ((word >> 16) & 0xF) << 4,
            word & 0xF,
        ),
        (word >> 20) & 0b111 == 0b010 && (word >> 4) & 0xF == 0b0000 ==> tag::decodes_to(
            r,
            Opcode::Umull,
            (word >> 16) & 0xF | (word & 0xF) << 4,
            (word >> 12) & 0xF | ((word >> 8) & 0xF) << 4,
        ),
        (word >> 20) & 0b111 == 0b011 && (word >> 4) & 0xF == 0b1111 ==> tag::decodes_to(
            r,
            Opcode::Udiv,
            (word >> 8) & 0xF | ((word >> 16) & 0xF) << 4,
            word & 0xF,
        ),
        (word >> 20) & 0b111 == 0b100 && (word >> 4) & 0xF == 0b0000 ==> tag::decodes_to(
            r,
            Opcode::Smlal,
            (word >> 16) & 0xF | (word & 0xF) << 4,
            (word >> 12) & 0xF | ((word >> 8) & 0xF) << 4,
        ),
        (word >> 20) & 0b111 == 0b110 && (word >> 4) & 0xF == 0b0000 ==> tag::decodes_to(
            r,
            Opcode::Umlal,
            (word >> 16) & 0xF | (word & 0xF) << 4,
            (word >> 12) & 0xF | ((word >> 8) & 0xF) << 4,
        ),
        (word >> 20) & 0b111 == 0b110 && (word >> 4) & 0xF == 0b0110 ==> tag::decodes_to(
            r,
            Opcode::Umaal,
            (word >> 16) & 0xF | (word & 0xF) << 4,
            (word >> 12) & 0xF | ((word >> 8) & 0xF) << 4,
        ),
{
    proof {
        lemma_umull_payload(word);
    }
    let rn = (word >> 16) & 0xF;
    let rm = word & 0xF;
    let op1 = (word >> 20) & 0b111;
    let op2 = (word >> 4) & 0xF;

    let rd_lo = (word >> 12) & 0xF;
    let rd_hi = (word >> 8) & 0xF;
    let rd = rd_hi;

    if op1 == 0b000 && op2 == 0b0000 {
        let mut base = tag::get_wide(Opcode::Smull, rn | rm << 4, rd_lo | rd_hi << 4);
        if (rd_lo == 13 || rd_lo == 15) || (rd_hi == 13 || rd_hi == 15) || (rn == 13 || rn == 15)
            || (rm == 13 || rm == 15) || rd_hi == rd_lo {
            base = tag::as_unpred_w(base);
        }
        return base;
    }
    if op1 == 0b001 && op2 == 0b1111 {
        let mut base = tag::get_wide(Opcode::Sdiv, rd | rn << 4, rm);
        if rd_lo != 15 || (rd == 13 || rd == 15) || (rn == 13 || rn == 15) || (rm == 13 || rm
            == 15) {
            base = tag::as_unpred_w(base);
        }
        return base;
    }
    if op1 == 0b010 && op2 == 0b0000 {
        let mut base = tag::get_wide(Opcode::Umull, rn | rm << 4, rd_lo | rd_hi << 4);
        if (rd_lo == 13 || rd_lo == 15) || (rd_hi == 13 || rd_hi == 15) || (rn == 13 || rn == 15)
            || (rm == 13 || rm == 15) || rd_hi == rd_lo {
            base = tag::as_unpred_w(base);
        }
        return base;
    }
    if op1 == 0b011 && op2 == 0b1111 {
        let mut base = tag::get_wide(Opcode::Udiv, rd | rn << 4, rm);
        if rd_lo != 15 || (rd == 13 || rd == 15) || (rn == 13 || rn == 15) || (rm == 13 || rm
            == 15) {
            base = tag::as_unpred_w(base);
        }
        return base;
    }
    if op1 == 0b100 && op2 == 0b0000 {
        let mut base = tag::get_wide(Opcode::Smlal, rn | rm << 4, rd_lo | rd_hi << 4);
        if (rd_lo == 13 || rd_lo == 15) || (rd_hi == 13 || rd_hi == 15) || (rn == 13 || rn == 15)
            || (rm == 13 || rm == 15) || rd_hi == rd_lo {
            base = tag::as_unpred_w(base);
        }
        return base;
    }
    if op1 == 0b110 && op2 == 0b0000 {
        let mut base = tag::get_wide(Opcode::Umlal, rn | rm << 4, rd_lo | rd_hi << 4);
        if (rd_lo == 13 || rd_lo == 15) || (rd_hi == 13 || rd_hi == 15) || (rn == 13 || rn == 15)
            || (rm == 13 || rm == 15) || rd_hi == rd_lo {
            base = tag::as_unpred_w(base);
        }
        return base;
    }
    if op1 == 0b110 && op2 == 0b0110 {
        let mut base = tag::get_wide(Opcode::Umaal, rn | rm << 4, rd_lo | rd_hi << 4);
        if (rd_lo == 13 || rd_lo == 15) || (rd_hi == 13 || rd_hi == 15) || (rn == 13 || rn == 15)
            || (rm == 13 || rm == 15) || rd_hi == rd_lo {
            base = tag::as_unpred_w(base);
        }
        return base;
    }
    tag::get_unimplemented_wide(word)
}

fn id_multiply_diff(word: u32, _c: Context) -> (r: ByteInstruction)
    ensures
        wide_ok(r),
        (word >> 6) & 0b11 == 0b00 && (word >> 20) & 0b111 == 0b000 && (word >> 4) & 0b11 == 0b00
            && (word >> 12) & 0xF != 15 ==> tag::decodes_to(
            r,
            Opcode::Mla,
            (word >> 8) & 0xF | ((word >> 16) & 0xF) << 4,
            word & 0xF | ((word >> 12) & 0xF) << 4,
        ),
        (word >> 6) & 0b11 == 0b00 && (word >> 20) & 0b111 == 0b000 && (word >> 4) & 0b11 == 0b00
            && (word >> 12) & 0xF == 15 ==> tag::decodes_to(
            r,
            Opcode::Mul,
            (word >> 8) & 0xF | ((word >> 16) & 0xF) << 4,
            word & 0xF,
        ),
        (word >> 6) & 0b11 == 0b00 && (word >> 20) & 0b111 == 0b000 && (word >> 4) & 0b11 == 0b01
            ==> tag::decodes_to(
            r,
            Opcode::Mls,
            (word >> 8) & 0xF | ((word >> 16) & 0xF) << 4,
            word & 0xF | ((word >> 12) & 0xF) << 4,
        ),
{
    if (word >> 6) & 0b11 != 0b00 {
        return tag::get_undefined_wide(word);
    }
    let op1 = (word >> 20) & 0b111;
    let op2 = (word >> 4) & 0b11;
    let ra = (word >> 12) & 0xF;

    let rn = (word >> 16) & 0xF;
    let rd = (word >> 8) & 0xF;
    let rm = word & 0xF;

    if op1 == 0b000 {
        if op2 == 0b00 && ra != 15 {
            let mut base = tag::get_wide(Opcode::Mla, rd | rn << 4, rm | ra << 4);
            if (rd == 13 || rd == 15) || (rn == 13 || rn == 15) || (rm == 13 || rm == 15) || ra
                == 13 {
                base = tag::as_unpred_w(base);
            }
            return base;
        }
        if op2 == 0b00 && ra == 15 {
            let mut base = tag::get_wide(Opcode::Mul, rd | rn << 4, rm);
            if (rd == 13 || rd == 15) || (rn == 13 || rn == 15) || (rm == 13 || rm == 15) {
                base = tag::as_unpred_w(base);
            }
            return base;
        }
        if op2 == 0b01 {
            let mut base = tag::get_wide(Opcode::Mls, rd | rn << 4, rm | ra << 4);
            if (rd == 13 || rd == 15) || (rn == 13 || rn == 15) || (rm == 13 || rm == 15) || (ra
                == 13 || ra == 15) {
                base = tag::as_unpred_w(base);
            }
            return base;
        }
        return tag::get_undefined_wide(word);
    }
    tag::get_unimplemented_wide(word)
}

fn id_data_proc_register(word: u32, _c: Context) -> (r: ByteInstruction)
    ensures
        wide_ok(r),
        (word >> 12) & 0xF == 0b1111 && ((word >> 20) & 0xF == 0b0000 || (word >> 20) & 0xF
            == 0b0001) && (word >> 4) & 0xF == 0b0000 ==> tag::decodes_to(
            r,
            Opcode::LslReg,
            (word >> 8) & 0xF | ((word >> 16) & 0xF) << 4 | ((word >> 20) & 0b1) << 8,
            word & 0xF,
        ),
        (word >> 12) & 0xF == 0b1111 && ((word >> 20) & 0xF == 0b0010 || (word >> 20) & 0xF
            == 0b0011) && (word >> 4) & 0xF == 0b0000 ==> tag::decodes_to(
            r,
            Opcode::LsrReg,
            (word >> 8) & 0xF | ((word >> 16) & 0xF) << 4 | ((word >> 20) & 0b1) << 8,
            word & 0xF,
        ),
        (word >> 12) & 0xF == 0b1111 && ((word >> 20) & 0xF == 0b0100 || (word >> 20) & 0xF
            == 0b0101) && (word >> 4) & 0xF == 0b0000 ==> tag::decodes_to(
            r,
            Opcode::AsrReg,
            (word >> 8) & 0xF | ((word >> 16) & 0xF) << 4 | ((word >> 20) & 0b1) << 8,
            word & 0xF,
        ),
        (word >> 12) & 0xF == 0b1111 && ((word >> 20) & 0xF == 0b0110 || (word >> 20) & 0xF
            == 0b0111) && (word >> 4) & 0xF == 0b0000 ==> tag::decodes_to(
            r,
            Opcode::RorReg,
            (word >> 8) & 0xF | ((word >> 16) & 0xF) << 4 | ((word >> 20) & 0b1) << 8,
            word & 0xF,
        ),
        dpr_misc_sel(word) == (0b00u32, 0b00u32) ==> tag::decodes_to(
            r,
            Opcode::Qadd,
            (word >> 8) & 0xF | ((word >> 16) & 0xF) << 4,
            word & 0xF,
        ),
        dpr_misc_sel(word) == (0b00u32, 0b10u32) ==> tag::decodes_to(
            r,
            Opcode::Qsub,
            (word >> 8) & 0xF | ((word >> 16) & 0xF) << 4,
            word & 0xF,
        ),
        dpr_misc_sel(word) == (0b01u32, 0b00u32) ==> tag::decodes_to(
            r,
            Opcode::Rev,
            (word >> 8) & 0xF,
            word & 0xF,
        ),
        dpr_misc_sel(word) == (0b01u32, 0b01u32) ==> tag::decodes_to(
            r,
            Opcode::Rev16,
            (word >> 8) & 0xF,
            word & 0xF,
        ),
        dpr_misc_sel(word) == (0b01u32, 0b10u32) ==> tag::decodes_to(
            r,
            Opcode::Rbit,
            (word >> 8) & 0xF,
            word & 0xF,
        ),
        dpr_misc_sel(word) == (0b01u32, 0b11u32) ==> tag::decodes_to(
            r,
            Opcode::Revsh,
            (word >> 8) & 0xF,
            word & 0xF,
        ),
        dpr_misc_sel(word) == (0b11u32, 0b00u32) ==> tag::decodes_to(
            r,
            Opcode::Clz,
            (word >> 8) & 0xF,
            word & 0xF,
        ),
{
    proof {
        assert((word >> 4) & 0xF == 0 ==> ((word >> 4) & 0xF) >> 2 == 0) by (bit_vector);
    }
    if (word >> 12) & 0xF != 0b1111 {
        return tag::get_undefined_wide(word);
    }
    let op1 = (word >> 20) & 0xF;
    let rn = (word >> 16) & 0xF;
    let op2 = (word >> 4) & 0xF;

    let rd = (word >> 8) & 0xF;
    let rm = word & 0xF;
    let s = (word >> 20) & 0b1;

    if (op1 == 0b0000 || op1 == 0b0001) && op2 == 0b0000 {
        let mut base = tag::get_wide(Opcode::LslReg, rd | rn << 4 | s << 8, rm);
        if (rd == 13 || rd == 15) || (rn == 13 || rn == 15) || (rm == 13 || rm == 15) {
            base = tag::as_unpred_w(base);
        }
        return base;
    }
    if (op1 == 0b0010 || op1 == 0b0011) && op2 == 0b0000 {
        let mut base = tag::get_wide(Opcode::LsrReg, rd | rn << 4 | s << 8, rm);
        if (rd == 13 || rd == 15) || (rn == 13 || rn == 15) || (rm == 13 || rm == 15) {
            base = tag::as_unpred_w(base);
        }
        return base;
    }
    if (op1 == 0b0100 || op1 == 0b0101) && op2 == 0b0000 {
        let mut base = tag::get_wide(Opcode::AsrReg, rd | rn << 4 | s << 8, rm);
        if (rd == 13 || rd == 15) || (rn == 13 || rn == 15) || (rm == 13 || rm == 15) {
            base = tag::as_unpred_w(base);
        }
        return base;
    }
    if (op1 == 0b0110 || op1 == 0b0111) && op2 == 0b0000 {
        let mut base = tag::get_wide(Opcode::RorReg, rd | rn << 4 | s << 8, rm);
        if (rd == 13 || rd == 15) || (rn == 13 || rn == 15) || (rm == 13 || rm == 15) {
            base = tag::as_unpred_w(base);
        }
        return base;
    }
    if (op1 >> 2 == 0b10) && (op2 >> 2 == 0b10) {
        let m1 = op1 & 0b11;
        let m2 = op2 & 0b11;
        if m1 == 0b00 && m2 == 0b00 {
            let mut base = tag::get_wide(Opcode::Qadd, rd | rn << 4, rm);
            if (rd == 13 || rd == 15) || (rn == 13 || rn == 15) || (rm == 13 || rm == 15) {
                base = tag::as_unpred_w(base);
            }
            return base;
        }
        if m1 == 0b00 && m2 == 0b01 {
            let mut base = tag::get_wide(Opcode::Qdadd, rd | rn << 4, rm);
            if (rd == 13 || rd == 15) || (rn == 13 || rn == 15) || (rm == 13 || rm == 15) {
                base = tag::as_unpred_w(base);
            }
            return base;
        }
        if m1 == 0b00 && m2 == 0b10 {
            let mut base = tag::get_wide(Opcode::Qsub, rd | rn << 4, rm);
            if (rd == 13 || rd == 15) || (rn == 13 || rn == 15) || (rm == 13 || rm == 15) {
                base = tag::as_unpred_w(base);
            }
            return base;
        }
        if m1 == 0b00 && m2 == 0b11 {
            let mut base = tag::get_wide(Opcode::Qdsub, rd | rn << 4, rm);
            if (rd == 13 || rd == 15) || (rn == 13 || rn == 15) || (rm == 13 || rm == 15) {
                base = tag::as_unpred_w(base);
            }
            return base;
        }
        if m1 == 0b01 && m2 == 0b00 {
            let mut base = tag::get_wide(Opcode::Rev, rd, rm);
            if rn != rm || (rd == 13 || rd == 15) || (rm == 13 || rm == 15) {
                base = tag::as_unpred_w(base);
            }
            return base;
        }
        if m1 == 0b01 && m2 == 0b01 {
            let mut base = tag::get_wide(Opcode::Rev16, rd, rm);
            if rn != rm || (rd == 13 || rd == 15) || (rm == 13 || rm == 15) {
                base = tag::as_unpred_w(base);
            }
            return base;
        }
        if m1 == 0b01 && m2 == 0b10 {
            let mut base = tag::get_wide(Opcode::Rbit, rd, rm);
            if rn != rm || (rd == 13 || rd == 15) || (rm == 13 || rm == 15) {
                base = tag::as_unpred_w(base);
            }
            return base;
        }
        if m1 == 0b01 && m2 == 0b11 {
            let mut base = tag::get_wide(Opcode::Revsh, rd, rm);
            if rn != rm || (rd == 13 || rd == 15) || (rm == 13 || rm == 15) {
                base = tag::as_unpred_w(base);
            }
            return base;
        }
        if m1 == 0b10 && m2 == 0b00 {
            let mut base = tag::get_wide(Opcode::Sel, rd | rn << 4, rm);
            if (rd == 13 || rd == 15) || (rn == 13 || rn == 15) || (rm == 13 || rm == 15) {
                base = tag::as_unpred_w(base);
            }
            return base;
        }
        if m1 == 0b11 && m2 == 0b00 {
            let mut base = tag::get_wide(Opcode::Clz, rd, rm);
            if rn != rm || (rd == 13 || rd == 15) || (rm == 13 || rm == 15) {
                base = tag::as_unpred_w(base);
            }
            return base;
        }
        return tag::get_undefined_wide(word);
    }
    tag::get_unimplemented_wide(word)
}

fn id_store_single(word: u32, _c: Context) -> (r: ByteInstruction)
    ensures
        wide_ok(r),
        (word >> 21) & 0x7 == 0b100 ==> tag::decodes_to(
            r,
            Opcode::StrbImm,
            (word >> 12) & 0xF | ((word >> 16) & 0xF) << 4,
            (word & 0xFFF) | 1u32 << 14,
        ),
        (word >> 21) & 0x7 == 0b000 && crate::bits::bit_of(word, 11) ==> tag::decodes_to(
            r,
            Opcode::StrbImm,
            (word >> 12) & 0xF | ((word >> 16) & 0xF) << 4,
            imm13_of(word) | ((word >> 10) & 0b1) << 14 | ((word >> 8) & 0b1) << 13,
        ),
        (word >> 21) & 0x7 == 0b000 && !crate::bits::bit_of(word, 11) ==> tag::decodes_to(
            r,
            Opcode::StrbReg,
            (word >> 12) & 0xF | ((word >> 16) & 0xF) << 4,
            word & 0xF | ((word >> 4) & 0b11) << 4,
        ),
        (word >> 21) & 0x7 == 0b101 ==> tag::decodes_to(
            r,
            Opcode::StrhImm,
            (word >> 12) & 0xF | ((word >> 16) & 0xF) << 4,
            (word & 0xFFF) | 1u32 << 14,
        ),
        (word >> 21) & 0x7 == 0b001 && crate::bits::bit_of(word, 11) ==> tag::decodes_to(
            r,
            Opcode::StrhImm,
            (word >> 12) & 0xF | ((word >> 16) & 0xF) << 4,
            imm13_of(word) | ((word >> 10) & 0b1) << 14 | ((word >> 8) & 0b1) << 13,
        ),
        (word >> 21) & 0x7 == 0b001 && !crate::bits::bit_of(word, 11) ==> tag::decodes_to(
            r,
            Opcode::StrhReg,
            (word >> 12) & 0xF | ((word >> 16) & 0xF) << 4,
            word & 0xF | ((word >> 4) & 0b11) << 4,
        ),
        (word >> 21) & 0x7 == 0b110 ==> tag::decodes_to(
            r,
            Opcode::StrImm,
            (word >> 12) & 0xF | ((word >> 16) & 0xF) << 4,
            (word & 0xFFF) | 1u32 << 14,
        ),
        (word >> 21) & 0x7 == 0b010 && crate::bits::bit_of(word, 11) && ((word >> 16) & 0xF == 13
            && (word >> 10) & 0b1 == 1 && (word >> 9) & 0b1 == 0 && (word >> 8) & 0b1 == 1 && word
            & 0xFF == 0b0000_0100) ==> tag::decodes_to(r, Opcode::Push, 1, (word >> 12) & 0xF),
        (word >> 21) & 0x7 == 0b010 && crate::bits::bit_of(word, 11) && !((word >> 16) & 0xF == 13
            && (word >> 10) & 0b1 == 1 && (word >> 9) & 0b1 == 0 && (word >> 8) & 0b1 == 1 && word
            & 0xFF == 0b0000_0100) ==> tag::decodes_to(
            r,
            Opcode::StrImm,
            (word >> 12) & 0xF | ((word >> 16) & 0xF) << 4,
            imm13_of(word) | ((word >> 10) & 0b1) << 14 | ((word >> 8) & 0b1) << 13,
        ),
        (word >> 21) & 0x7 == 0b010 && !crate::bits::bit_of(word, 11) ==> tag::decodes_to(
            r,
            Opcode::StrReg,
            (word >> 12) & 0xF | ((word >> 16) & 0xF) << 4,
            word & 0xF | ((word >> 4) & 0b11) << 4,
        ),
{
    let op1 = (word >> 21) & 0x7;
    let op2 = bitset(word, 11);

    let rn = (word >> 16) & 0xF;
    let rt = (word >> 12) & 0xF;
    let rm = word & 0xF;
    let imm12 = word & 0xFFF;
    let imm8 = word & 0xFF;
    let p = (word >> 10) & 0b1;
    let u = (word >> 9) & 0b1;
    let w = (word >> 8) & 0b1;
    let imm2 = (word >> 4) & 0b11;

    let imm13 = if u == 1 {
        imm8
    } else {
        get_negated_simm13(imm8)
    };

    if op1 == 0b100 {
        let mut base = tag::get_wide(Opcode::StrbImm, rt | rn << 4, imm12 | 1 << 14);
        if rt == 13 || rt == 15 {
            base = tag::as_unpred_w(base);
        }
        return base;
    }
    if op1 == 0b000 && op2 {
        let mut base = tag::get_wide(Opcode::StrbImm, rt | rn << 4, imm13 | p << 14 | w << 13);
        if (rt == 13 || rt == 15) || (w == 1 && rn == rt) {
            base = tag::as_unpred_w(base);
        }
        return base;
    }
    if op1 == 0b000 && !op2 {
        let mut base = tag::get_wide(Opcode::StrbReg, rt | rn << 4, rm | imm2 << 4);
        if (rt == 13 || rt == 15) || (rm == 13 || rm == 15) {
            base = tag::as_unpred_w(base);
        }
        return base;
    }
    if op1 == 0b101 {
        let mut base = tag::get_wide(Opcode::StrhImm, rt | rn << 4, imm12 | 1 << 14);
        if rt == 13 || rt == 15 {
            base = tag::as_unpred_w(base);
        }
        return base;
    }
    if op1 == 0b001 && op2 {
        let mut base = tag::get_wide(Opcode::StrhImm, rt | rn << 4, imm13 | p << 14 | w << 13);
        if (rt == 13 || rt == 15) || (w == 1 && rn == rt) {
            base = tag::as_unpred_w(base);
        }
        return base;
    }
    if op1 == 0b001 && !op2 {
        let mut base = tag::get_wide(Opcode::StrhReg, rt | rn << 4, rm | imm2 << 4);
        if (rt == 13 || rt == 15) || (rm == 13 || rm == 15) {
            base = tag::as_unpred_w(base);
        }
        return base;
    }
    if op1 == 0b110 {
        let mut base = tag::get_wide(Opcode::StrImm, rt | rn << 4, imm12 | 1 << 14);
        if rt == 15 {
            base = tag::as_unpred_w(base);
        }
        return base;
    }
    if op1 == 0b010 && op2 {
        let mut base = if rn == 13 && p == 1 && u == 0 && w == 1 && imm8 == 0b00000100 {
            tag::get_wide(Opcode::Push, 1, rt)
        } else {
            tag::get_wide(Opcode::StrImm, rt | rn << 4, imm13 | p << 14 | w << 13)
        };
        if rt == 15 || (w == 1 && rn == rt) {
            base = tag::as_unpred_w(base);
        }
        return base;
    }
    if op1 == 0b010 && !op2 {
        let mut base = tag::get_wide(Opcode::StrReg, rt | rn << 4, rm | imm2 << 4);
        if rt == 15 || (rm == 13 || rm == 15) {
            base = tag::as_unpred_w(base);
        }
        return base;
    }
    tag::get_undefined_wide(word)
}

fn id_load_byte(word: u32, _c: Context) -> (r: ByteInstruction)
    ensures
        wide_ok(r),
{
    let op1 = (word >> 23) & 0b11;
    let op2 = (word >> 6) & 0x3F;
    let rn = (word >> 16) & 0xF;
    let rt = (word >> 12) & 0xF;
    let rm = word & 0xF;
    let imm2 = (word >> 4) & 0b11;
    let imm12 = word & 0xFFF;
    let imm8 = word & 0xFF;
    let p = (word >> 10) & 0b1;
    let u = (word >> 9) & 0b1;
    let w = (word >> 8) & 0b1;
    let imm13 = if u == 1 {
        imm8
    } else {
        get_negated_simm13(imm8)
    };

    if rt == 15 {
        // Preload hints and their unallocated neighbours.
        return tag::get_unimplemented_wide(word);
    }
    if op1 == 0b01 && rn != 15 {
        let mut base = tag::get_wide(Opcode::LdrbImm, rt | rn << 4, imm12 | 1 << 14);
        if rt == 13 {
            base = tag::as_unpred_w(base);
        }
        return base;
    }
    if op1 == 0b00 && (msk(op2, 0b100100, 0b100100) || msk(op2, 0b111100, 0b110000)) && rn != 15 {
        let mut base = tag::get_wide(Opcode::LdrbImm, rt | rn << 4, imm13 | p << 14 | w << 13);
        if rt == 13 || (w == 1 && rn == rt) {
            base = tag::as_unpred_w(base);
        }
        return base;
    }
    if op1 == 0b00 && op2 == 0b000000 && rn != 15 {
        let mut base = tag::get_wide(Opcode::LdrbReg, rt | rn << 4, rm | imm2 << 4);
        if rt == 13 || rm == 13 || rm == 15 {
            base = tag::as_unpred_w(base);
        }
        return base;
    }
    if op1 == 0b10 && op2 == 0b000000 && rn != 15 {
        let mut base = tag::get_wide(Opcode::LdrsbReg, rt | rn << 4, rm | imm2 << 4);
        if rt == 13 || rm == 13 || rm == 15 {
            base = tag::as_unpred_w(base);
        }
        return base;
    }
    if op1 == 0b11 && rn != 15 {
        let mut base = tag::get_wide(Opcode::LdrsbImm, rt | rn << 4, imm12 | 1 << 14);
        if rt == 13 {
            base = tag::as_unpred_w(base);
        }
        return base;
    }
    if op1 == 0b10 && (msk(op2, 0b100100, 0b100100) || msk(op2, 0b111100, 0b110000)) && rn != 15 {
        let mut base = tag::get_wide(Opcode::LdrsbImm, rt | rn << 4, imm13 | p << 14 | w << 13);
        if rt == 13 || (w == 1 && rn == rt) {
            base = tag::as_unpred_w(base);
        }
        return base;
    }
    tag::get_unimplemented_wide(word)
}

fn id_load_half_word(word: u32, _c: Context) -> (r: ByteInstruction)
    ensures
        wide_ok(r),
{
    let op1 = (word >> 23) & 0b11;
    let op2 = (word >> 6) & 0x3F;
    let rn = (word >> 16) & 0xF;
    let rt = (word >> 12) & 0xF;
    let rm = word & 0xF;
    let imm2 = (word >> 4) & 0b11;
    let imm12 = word & 0xFFF;
    let imm8 = word & 0xFF;
    let p = (word >> 10) & 0b1;
    let u = (word >> 9) & 0b1;
    let w = (word >> 8) & 0b1;
    let imm13 = if u == 1 {
        imm8
    } else {
        get_negated_simm13(imm8)
    };

    if rt == 15 {
        return tag::get_unimplemented_wide(word);
    }
    if op1 == 0b01 && rn != 15 {
        let mut base = tag::get_wide(Opcode::LdrhImm, rt | rn << 4, imm12 | 1 << 14);
        if rt == 13 {
            base = tag::as_unpred_w(base);
        }
        return base;
    }
    if op1 == 0b00 && (msk(op2, 0b100100, 0b100100) || msk(op2, 0b111100, 0b110000)) && rn != 15 {
        let mut base = tag::get_wide(Opcode::LdrhImm, rt | rn << 4, imm13 | p << 14 | w << 13);
        if rt == 13 || (w == 1 && rn == rt) {
            base = tag::as_unpred_w(base);
        }
        return base;
    }
    if op1 == 0b00 && op2 == 0b000000 && rn != 15 {
        let mut base = tag::get_wide(Opcode::LdrhReg, rt | rn << 4, rm | imm2 << 4);
        if rt == 13 || rm == 13 || rm == 15 {
            base = tag::as_unpred_w(base);
        }
        return base;
    }
    if op1 == 0b10 && op2 == 0b000000 && rn != 15 {
        let mut base = tag::get_wide(Opcode::LdrshReg, rt | rn << 4, rm | imm2 << 4);
        if rt == 13 || rm == 13 || rm == 15 {
            base = tag::as_unpred_w(base);
        }
        return base;
    }
    if op1 == 0b11 && rn != 15 {
        let mut base = tag::get_wide(Opcode::LdrshImm, rt | rn << 4, imm12 | 1 << 14);
        if rt == 13 {
            base = tag::as_unpred_w(base);
        }
        return base;
    }
    if op1 == 0b10 && (msk(op2, 0b100100, 0b100100) || msk(op2, 0b111100, 0b110000)) && rn != 15 {
        let mut base = tag::get_wide(Opcode::LdrshImm, rt | rn << 4, imm13 | p << 14 | w << 13);
        if rt == 13 || (w == 1 && rn == rt) {
            base = tag::as_unpred_w(base);
        }
        return base;
    }
    tag::get_unimplemented_wide(word)
}

/// A 12-bit offset negated into the signed 13-bit form the executor uses.
pub open spec fn neg_simm13_of(imm12: u32) -> u32 {
    vstd::wrapping::u32_specs::wrapping_add(!(imm12 & 0xFFF), 1) & 0x1FFF
}

/// The signed 13-bit offset of an eight-bit-immediate load/store form:
/// the immediate itself when adding, its negation when subtracting.
pub open spec fn imm13_of(word: u32) -> u32 {
    if (word >> 9) & 0b1 == 1 {
        word & 0xFF
    } else {
        neg_simm13_of(word & 0xFF)
    }
}

/// Negates a 12-bit offset into the signed 13-bit form the executor uses.
fn get_negated_simm13(imm12: u32) -> (r: u32)
    ensures
        r == neg_simm13_of(imm12),
        r <= 0x1FFF,
{
    proof {
        crate::bits::lemma_and_bound((!(imm12 & 0xFFF)).wrapping_add(1), 0x1FFF);
    }
    (!(imm12 & 0xFFF)).wrapping_add(1) & 0x1FFF
}

fn id_load_word(word: u32, c: Context) -> (r: ByteInstruction)
    ensures
        wide_ok(r),
        (word >> 23) & 0b11 == 0b01 && (word >> 16) & 0xF != 15 ==> tag::decodes_to(
            r,
            Opcode::LdrImm,
            (word >> 12) & 0xF | ((word >> 16) & 0xF) << 4,
            (word & 0xFFF) | 1u32 << 14,
        ),
        (word >> 23) & 0b11 == 0b00 && (((word >> 6) & 0x3F) & 0b100100 == 0b100100 || ((word >> 6)
            & 0x3F) & 0b111100 == 0b110000) && (word >> 16) & 0xF != 15 && ((word >> 16) & 0xF
            == 13 && (word >> 10) & 0b1 == 0 && (word >> 9) & 0b1 == 1 && (word >> 8) & 0b1 == 1
            && word & 0xFF == 0b0000_0100) ==> tag::decodes_to(
            r,
            Opcode::Pop,
            1,
            (word >> 12) & 0xF,
        ),
        (word >> 23) & 0b11 == 0b00 && (((word >> 6) & 0x3F) & 0b100100 == 0b100100 || ((word >> 6)
            & 0x3F) & 0b111100 == 0b110000) && (word >> 16) & 0xF != 15 && !((word >> 16) & 0xF
            == 13 && (word >> 10) & 0b1 == 0 && (word >> 9) & 0b1 == 1 && (word >> 8) & 0b1 == 1
            && word & 0xFF == 0b0000_0100) ==> tag::decodes_to(
            r,
            Opcode::LdrImm,
            (word >> 12) & 0xF | ((word >> 16) & 0xF) << 4,
            imm13_of(word) | ((word >> 10) & 0b1) << 14 | ((word >> 8) & 0b1) << 13,
        ),
        (word >> 23) & 0b11 == 0b00 && !(((word >> 6) & 0x3F) & 0b100100 == 0b100100 || ((word
            >> 6) & 0x3F) & 0b111100 == 0b110000) && ((word >> 6) & 0x3F) & 0b111100 == 0b111000
            && (word >> 16) & 0xF != 15 ==> tag::decodes_to(
            r,
            Opcode::Ldrt,
            (word >> 12) & 0xF | ((word >> 16) & 0xF) << 4,
            word & 0xFF,
        ),
        (word >> 23) & 0b11 == 0b00 && (word >> 6) & 0x3F == 0b000000 && (word >> 16) & 0xF != 15
            ==> tag::decodes_to(
            r,
            Opcode::LdrReg,
            (word >> 12) & 0xF | ((word >> 16) & 0xF) << 4,
            word & 0xF | ((word >> 4) & 0b11) << 4,
        ),
        ((word >> 23) & 0b11 == 0b00 || (word >> 23) & 0b11 == 0b01) && (word >> 16) & 0xF == 15
            ==> tag::decodes_to(
            r,
            Opcode::LdrLit,
            (word >> 12) & 0xF,
            if crate::bits::bit_of(word, 23) {
                word & 0xFFF
            } else {
                neg_simm13_of(word & 0xFFF)
            },
        ),
{
    proof {
        assert((word >> 6) & 0x3F == 0 ==> (((word >> 6) & 0x3F) & 0b100100 == 0 && ((word >> 6)
            & 0x3F) & 0b111100 == 0)) by (bit_vector);
    }
    let op1 = (word >> 23) & 0b11;
    let op2 = (word >> 6) & 0x3F;
    let rn = (word >> 16) & 0xF;
    let rt = (word >> 12) & 0xF;

    let rm = word & 0xF;
    let imm2 = (word >> 4) & 0b11;
    let imm12 = word & 0xFFF;
    let imm8 = word & 0xFF;
    let p = (word >> 10) & 0b1;
    let u = (word >> 9) & 0b1;
    let w = (word >> 8) & 0b1;

    let imm13 = if u == 1 {
        imm8
    } else {
        get_negated_simm13(imm8)
    };

    if op1 == 0b01 && rn != 15 {
        let mut base = tag::get_wide(Opcode::LdrImm, rt | rn << 4, imm12 | 1 << 14);
        if rt == 15 && c.it_pos == ItPos::Within {
            base = tag::as_unpred_it_w(base);
        }
        return base;
    }
    if op1 == 0b00 && (msk(op2, 0b100100, 0b100100) || msk(op2, 0b111100, 0b110000)) && rn != 15 {
        let mut base = if rn == 13 && p == 0 && u == 1 && w == 1 && imm8 == 0b0000_0100 {
            tag::get_wide(Opcode::Pop, 1, rt)
        } else {
            tag::get_wide(Opcode::LdrImm, rt | rn << 4, imm13 | p << 14 | w << 13)
        };
        if w == 1 && rn == rt {
            base = tag::as_unpred_w(base);
        }
        if rt == 15 && c.it_pos == ItPos::Within {
            base = tag::as_unpred_it_w(base);
        }
        return base;
    }
    if op1 == 0b00 && msk(op2, 0b111100, 0b111000) && rn != 15 {
        let mut base = tag::get_wide(Opcode::Ldrt, rt | rn << 4, imm8);
        if rt == 13 || rt == 15 {
            base = tag::as_unpred_w(base);
        }
        return base;
    }
    if op1 == 0b00 && op2 == 0b000000 && rn != 15 {
        let mut base = tag::get_wide(Opcode::LdrReg, rt | rn << 4, rm | imm2 << 4);
        if rm == 13 || rm == 15 {
            base = tag::as_unpred_w(base);
        }
        if rt == 15 && c.it_pos == ItPos::Within {
            base = tag::as_unpred_it_w(base);
        }
        return base;
    }
    if (op1 == 0b00 || op1 == 0b01) && rn == 15 {
        let lit13 = if bitset(word, 23) {
            imm12
        } else {
            get_negated_simm13(imm12)
        };
        let mut base = tag::get_wide(Opcode::LdrLit, rt, lit13);
        if rt == 15 && c.it_pos == ItPos::Within {
            base = tag::as_unpred_it_w(base);
        }
        return base;
    }
    tag::get_undefined_wide(word)
}

fn msk(value: u32, mask: u32, expected: u32) -> (r: bool)
    ensures
        r == ((value & mask) == expected),
{
    (value & mask) == expected
}

} // verus!
