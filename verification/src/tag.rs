//! The packed intermediate-operation format. An operation is two 32-bit
//! words: the first holds the opcode tag in its top byte, the `cached`,
//! `wide`, `unpredictable` and `unpredictable-in-IT` flag bits below it,
//! and a 16-bit data payload; the second holds a 30-bit extra payload.

use vstd::prelude::*;
use crate::opcode::{Opcode, code_opcode, to_opcode};
use crate::bits::bit_of;
use crate::bytecode::ByteInstruction;

verus! {

/// The opcode tag packed into an instruction's top byte.
pub open spec fn instr_op(i: ByteInstruction) -> Opcode {
    code_opcode((i.0 >> 24) as u8)
}

/// The 16-bit data payload.
pub open spec fn instr_data(i: ByteInstruction) -> u32 {
    i.0 & 0xFFFF
}

/// The 30-bit extra payload.
pub open spec fn instr_extra(i: ByteInstruction) -> u32 {
    i.1 & 0x3FFF_FFFF
}

pub open spec fn instr_cached(i: ByteInstruction) -> bool {
    bit_of(i.0, 23)
}

pub open spec fn instr_wide(i: ByteInstruction) -> bool {
    bit_of(i.0, 22)
}

pub open spec fn instr_unpred(i: ByteInstruction) -> bool {
    bit_of(i.0, 21)
}

pub open spec fn instr_unpred_it(i: ByteInstruction) -> bool {
    bit_of(i.0, 20)
}

/// Payload well-formedness: for the wide register-shifted operations the
/// low three bits of the extra payload encode the shift kind, which the
/// barrel shifter accepts only up to 4. The decoder establishes this for
/// everything it emits and the cache preserves it.
pub open spec fn wf_instr(i: ByteInstruction) -> bool {
    if instr_wide(i) {
        match instr_op(i) {
            Opcode::AdcReg | Opcode::AddReg | Opcode::AndReg | Opcode::BicReg | Opcode::CmnReg
                | Opcode::CmpReg | Opcode::EorReg | Opcode::MvnReg | Opcode::OrnReg
                | Opcode::OrrReg | Opcode::Pkhbt | Opcode::RsbReg | Opcode::SbcReg
                | Opcode::SubReg | Opcode::TeqReg | Opcode::TstReg => instr_extra(i) & 0b111 <= 4,
            _ => true,
        }
    } else {
        true
    }
}

/// The payload an operation carries, regardless of its unpredictability
/// flags: the opcode tag and the truncated data and extra fields.
pub open spec fn decodes_to(r: ByteInstruction, op: Opcode, data: u32, extra: u32) -> bool {
    &&& instr_op(r) == op
    &&& instr_data(r) == data & 0xFFFF
    &&& instr_extra(r) == extra & 0x3FFF_FFFF
}

/// The payload agreement that every freshly built operation satisfies: the
/// data and extra arguments land truncated to their 16- and 30-bit fields.
pub open spec fn built_as(r: ByteInstruction, op: Opcode, data: u32, extra: u32, wide: bool) -> bool {
    &&& instr_op(r) == op
    &&& instr_data(r) == data & 0xFFFF
    &&& instr_extra(r) == extra & 0x3FFF_FFFF
    &&& instr_cached(r)
    &&& instr_wide(r) == wide
    &&& !instr_unpred(r)
    &&& !instr_unpred_it(r)
}

proof fn lemma_pack(code: u8, flags: u32, data: u32, extra: u32)
    requires
        flags == 0x0080_0000 || flags == 0x00C0_0000,
    ensures
        (((code as u32) << 24) | flags | (data & 0xFFFF)) >> 24 == code,
        (((code as u32) << 24) | flags | (data & 0xFFFF)) & 0xFFFF == data & 0xFFFF,
        (extra & 0x3FFF_FFFF) & 0x3FFF_FFFF == extra & 0x3FFF_FFFF,
        bit_of(((code as u32) << 24) | flags | (data & 0xFFFF), 23),
        bit_of(((code as u32) << 24) | flags | (data & 0xFFFF), 22) == (flags == 0x00C0_0000),
        !bit_of(((code as u32) << 24) | flags | (data & 0xFFFF), 21),
        !bit_of(((code as u32) << 24) | flags | (data & 0xFFFF), 20),
{
    assert(((((code as u32) << 24) | flags | (data & 0xFFFF)) >> 24 == code) && ((((code as u32)
        << 24) | flags | (data & 0xFFFF)) & 0xFFFF == data & 0xFFFF) && ((extra & 0x3FFF_FFFF)
        & 0x3FFF_FFFF == extra & 0x3FFF_FFFF) && ((((code as u32) << 24) | flags | (data & 0xFFFF))
        & (1u32 << 23) != 0) && (((((code as u32) << 24) | flags | (data & 0xFFFF)) & (1u32 << 22)
        != 0) == (flags == 0x00C0_0000)) && ((((code as u32) << 24) | flags | (data & 0xFFFF)) & (
    1u32 << 21) == 0) && ((((code as u32) << 24) | flags | (data & 0xFFFF)) & (1u32 << 20) == 0))
        by (bit_vector)
        requires
            flags == 0x0080_0000 || flags == 0x00C0_0000,
    ;
}

/// Builds a cached wide operation with the given payloads.
pub fn get_wide(op: Opcode, data: u32, extra: u32) -> (r: ByteInstruction)
    ensures
        built_as(r, op, data, extra, true),
{
    let code = crate::opcode::from_opcode(op);
    proof {
        lemma_pack(code, 0x00C0_0000, data, extra);
    }
    (((code as u32) << 24) | 0x00C0_0000 | (data & 0xFFFF), extra & 0x3FFF_FFFF)
}

/// Builds a cached narrow operation with the given data payload.
pub fn get_narrow(op: Opcode, data: u32) -> (r: ByteInstruction)
    ensures
        built_as(r, op, data, 0, false),
{
    let code = crate::opcode::from_opcode(op);
    proof {
        lemma_pack(code, 0x0080_0000, data, 0);
    }
    (((code as u32) << 24) | 0x0080_0000 | (data & 0xFFFF), 0)
}

proof fn lemma_set_flag(word: u32, bit: u32)
    requires
        bit == 20 || bit == 21,
    ensures
        (word | (1u32 << bit)) >> 24 == word >> 24,
        (word | (1u32 << bit)) & 0xFFFF == word & 0xFFFF,
        bit_of(word | (1u32 << bit), 23) == bit_of(word, 23),
        bit_of(word | (1u32 << bit), 22) == bit_of(word, 22),
        bit_of(word | (1u32 << bit), bit),
        bit != 21 ==> bit_of(word | (1u32 << bit), 21) == bit_of(word, 21),
        bit != 20 ==> bit_of(word | (1u32 << bit), 20) == bit_of(word, 20),
{
    assert(((word | (1u32 << bit)) >> 24 == word >> 24) && ((word | (1u32 << bit)) & 0xFFFF == word
        & 0xFFFF) && (((word | (1u32 << bit)) & (1u32 << 23) != 0) == (word & (1u32 << 23) != 0))
        && (((word | (1u32 << bit)) & (1u32 << 22) != 0) == (word & (1u32 << 22) != 0)) && ((word
        | (1u32 << bit)) & (1u32 << bit) != 0) && (bit != 21 ==> ((word | (1u32 << bit)) & (1u32
        << 21) != 0) == (word & (1u32 << 21) != 0)) && (bit != 20 ==> ((word | (1u32 << bit)) & (
    1u32 << 20) != 0) == (word & (1u32 << 20) != 0))) by (bit_vector)
        requires
            bit == 20 || bit == 21,
    ;
}

/// Marks an operation architecturally unpredictable.
pub fn as_unpred_w(i: ByteInstruction) -> (r: ByteInstruction)
    ensures
        instr_op(r) == instr_op(i),
        instr_data(r) == instr_data(i),
        instr_extra(r) == instr_extra(i),
        instr_cached(r) == instr_cached(i),
        instr_wide(r) == instr_wide(i),
        instr_unpred(r),
        instr_unpred_it(r) == instr_unpred_it(i),
{
    proof {
        lemma_set_flag(i.0, 21);
    }
    (i.0 | (1u32 << 21u32), i.1)
}

/// Marks an operation unpredictable when it stands inside an IT block.
pub fn as_unpred_it_w(i: ByteInstruction) -> (r: ByteInstruction)
    ensures
        instr_op(r) == instr_op(i),
        instr_data(r) == instr_data(i),
        instr_extra(r) == instr_extra(i),
        instr_cached(r) == instr_cached(i),
        instr_wide(r) == instr_wide(i),
        instr_unpred(r) == instr_unpred(i),
        instr_unpred_it(r),
{
    proof {
        lemma_set_flag(i.0, 20);
    }
    (i.0 | (1u32 << 20u32), i.1)
}

/// A wide operation that decodes as architecturally undefined.
pub fn get_undefined_wide(_word: u32) -> (r: ByteInstruction)
    ensures
        built_as(r, Opcode::Undefined, 0, 0, true),
{
    get_wide(Opcode::Undefined, 0, 0)
}

/// A wide operation for an encoding this emulator does not implement.
pub fn get_unimplemented_wide(_word: u32) -> (r: ByteInstruction)
    ensures
        built_as(r, Opcode::Unimplemented, 0, 0, true),
{
    get_wide(Opcode::Unimplemented, 0, 0)
}

pub fn has_cached(i: ByteInstruction) -> (r: bool)
    ensures
        r == instr_cached(i),
{
    crate::bits::bitset(i.0, 23)
}

pub fn is_wide(i: ByteInstruction) -> (r: bool)
    ensures
        r == instr_wide(i),
{
    crate::bits::bitset(i.0, 22)
}

pub fn is_unpredictable(i: ByteInstruction) -> (r: bool)
    ensures
        r == instr_unpred(i),
{
    crate::bits::bitset(i.0, 21)
}

pub fn is_unpredictable_in_it(i: ByteInstruction) -> (r: bool)
    ensures
        r == instr_unpred_it(i),
{
    crate::bits::bitset(i.0, 20)
}

pub fn get_opcode(i: ByteInstruction) -> (r: Opcode)
    ensures
        r == instr_op(i),
{
    to_opcode((i.0 >> 24) as u8)
}

pub fn get_data(i: ByteInstruction) -> (r: u32)
    ensures
        r == instr_data(i),
        r <= 0xFFFF,
{
    proof {
        crate::bits::lemma_and_bound(i.0, 0xFFFF);
    }
    i.0 & 0xFFFF
}

pub fn get_extra(i: ByteInstruction) -> (r: u32)
    ensures
        r == instr_extra(i),
        r <= 0x3FFF_FFFF,
{
    proof {
        crate::bits::lemma_and_bound(i.1, 0x3FFF_FFFF);
    }
    i.1 & 0x3FFF_FFFF
}

/// The shift payload of the register-shifted operations keeps its kind in
/// the low three bits even after the 30-bit truncation.
pub proof fn lemma_shift_payload_wf(shift_t: u32, shift_n: u32)
    requires
        shift_t <= 4,
    ensures
        ((shift_t | shift_n << 3) & 0x3FFF_FFFF) & 0b111 == shift_t,
        (shift_t | shift_n << 3) & 0b111 == shift_t,
{
    assert((((shift_t | shift_n << 3) & 0x3FFF_FFFF) & 0b111 == shift_t) && ((shift_t | shift_n
        << 3) & 0b111 == shift_t)) by (bit_vector)
        requires
            shift_t <= 4,
    ;
}

} // verus!
