//! The closed set of intermediate-operation tags. Each decoded instruction
//! carries one of these in the top byte of its first word; the payload
//! layout of each tag is fixed by the decoder and relied on by the executor.

use vstd::prelude::*;

verus! {

#[derive(Clone, Copy, Debug, PartialEq, Eq, Structural)]
pub enum Opcode {
    Unimplemented,
    AdcImm,
    AdcReg,
    AddImm,
    AddReg,
    AddSpImm,
    AddSpReg,
    Adr,
    AndImm,
    AndReg,
    AsrImm,
    AsrReg,
    Branch,
    BranchCond,
    Bfc,
    Bfi,
    BicImm,
    BicReg,
    Bkpt,
    Bl,
    Blx,
    Bx,
    Cbz,
    Cdp,
    Clrex,
    Clz,
    CmnImm,
    CmnReg,
    CmpImm,
    CmpReg,
    Cps,
    Csdb,
    Dbg,
    Dmb,
    Dsb,
    EorImm,
    EorReg,
    Isb,
    It,
    LdcImm,
    LdcLit,
    Ldm,
    Ldmdb,
    LdrImm,
    LdrLit,
    LdrReg,
    LdrbImm,
    LdrbReg,
    LdrdImm,
    Ldrex,
    Ldrexb,
    Ldrexh,
    LdrhImm,
    LdrhReg,
    LdrsbReg,
    LdrshReg,
    Ldrt,
    LslImm,
    LslReg,
    LsrImm,
    LsrReg,
    Mcr,
    Mcrr,
    Mla,
    Mls,
    MovImm,
    MovReg,
    Movt,
    Mrc,
    Mrrc,
    Mrs,
    Msr,
    Mul,
    MvnImm,
    MvnReg,
    Nop,
    OrnImm,
    OrnReg,
    OrrImm,
    OrrReg,
    Pkhbt,
    Pop,
    Pssbb,
    Push,
    Qadd,
    Qdadd,
    Qdsub,
    Qsub,
    Rbit,
    Rev,
    Rev16,
    Revsh,
    RorImm,
    RorReg,
    Rrx,
    RsbImm,
    RsbReg,
    SbcImm,
    SbcReg,
    Sbfx,
    Sdiv,
    Sel,
    Sev,
    Smlal,
    Smull,
    Ssat,
    Ssat16,
    Ssbb,
    Stc,
    Stm,
    Stmdb,
    StrImm,
    StrReg,
    StrbImm,
    StrbReg,
    StrhImm,
    StrhReg,
    StrdImm,
    Strex,
    Strexb,
    Strexh,
    SubImm,
    SubReg,
    SubSpImm,
    Svc,
    Sxtb,
    Sxth,
    Tbb,
    TeqImm,
    TeqReg,
    TstImm,
    TstReg,
    Ubfx,
    Udf,
    Udiv,
    Umaal,
    Umlal,
    Umull,
    Usat,
    Usat16,
    Uxtb,
    Uxth,
    Wfe,
    Wfi,
    Yield,
    Undefined,
    Other,
    LdrsbImm,
    LdrshImm,
}

/// The byte that stands for `op` in the packed instruction word.
pub open spec fn opcode_code(op: Opcode) -> u8 {
    match op {
        Opcode::Unimplemented => 0,
        Opcode::AdcImm => 1,
        Opcode::AdcReg => 2,
        Opcode::AddImm => 3,
        Opcode::AddReg => 4,
        Opcode::AddSpImm => 5,
        Opcode::AddSpReg => 6,
        Opcode::Adr => 7,
        Opcode::AndImm => 8,
        Opcode::AndReg => 9,
        Opcode::AsrImm => 10,
        Opcode::AsrReg => 11,
        Opcode::Branch => 12,
        Opcode::BranchCond => 13,
        Opcode::Bfc => 14,
        Opcode::Bfi => 15,
        Opcode::BicImm => 16,
        Opcode::BicReg => 17,
        Opcode::Bkpt => 18,
        Opcode::Bl => 19,
        Opcode::Blx => 20,
        Opcode::Bx => 21,
        Opcode::Cbz => 22,
        Opcode::Cdp => 23,
        Opcode::Clrex => 24,
        Opcode::Clz => 25,
        Opcode::CmnImm => 26,
        Opcode::CmnReg => 27,
        Opcode::CmpImm => 28,
        Opcode::CmpReg => 29,
        Opcode::Cps => 30,
        Opcode::Csdb => 31,
        Opcode::Dbg => 32,
        Opcode::Dmb => 33,
        Opcode::Dsb => 34,
        Opcode::EorImm => 35,
        Opcode::EorReg => 36,
        Opcode::Isb => 37,
        Opcode::It => 38,
        Opcode::LdcImm => 39,
        Opcode::LdcLit => 40,
        Opcode::Ldm => 41,
        Opcode::Ldmdb => 42,
        Opcode::LdrImm => 43,
        Opcode::LdrLit => 44,
        Opcode::LdrReg => 45,
        Opcode::LdrbImm => 46,
        Opcode::LdrbReg => 47,
        Opcode::LdrdImm => 48,
        Opcode::Ldrex => 49,
        Opcode::Ldrexb => 50,
        Opcode::Ldrexh => 51,
        Opcode::LdrhImm => 52,
        Opcode::LdrhReg => 53,
        Opcode::LdrsbReg => 54,
        Opcode::LdrshReg => 55,
        Opcode::Ldrt => 56,
        Opcode::LslImm => 57,
        Opcode::LslReg => 58,
        Opcode::LsrImm => 59,
        Opcode::LsrReg => 60,
        Opcode::Mcr => 61,
        Opcode::Mcrr => 62,
        Opcode::Mla => 63,
        Opcode::Mls => 64,
        Opcode::MovImm => 65,
        Opcode::MovReg => 66,
        Opcode::Movt => 67,
        Opcode::Mrc => 68,
        Opcode::Mrrc => 69,
        Opcode::Mrs => 70,
        Opcode::Msr => 71,
        Opcode::Mul => 72,
        Opcode::MvnImm => 73,
        Opcode::MvnReg => 74,
        Opcode::Nop => 75,
        Opcode::OrnImm => 76,
        Opcode::OrnReg => 77,
        Opcode::OrrImm => 78,
        Opcode::OrrReg => 79,
        Opcode::Pkhbt => 80,
        Opcode::Pop => 81,
        Opcode::Pssbb => 82,
        Opcode::Push => 83,
        Opcode::Qadd => 84,
        Opcode::Qdadd => 85,
        Opcode::Qdsub => 86,
        Opcode::Qsub => 87,
        Opcode::Rbit => 88,
        Opcode::Rev => 89,
        Opcode::Rev16 => 90,
        Opcode::Revsh => 91,
        Opcode::RorImm => 92,
        Opcode::RorReg => 93,
        Opcode::Rrx => 94,
        Opcode::RsbImm => 95,
        Opcode::RsbReg => 96,
        Opcode::SbcImm => 97,
        Opcode::SbcReg => 98,
        Opcode::Sbfx => 99,
        Opcode::Sdiv => 100,
        Opcode::Sel => 101,
        Opcode::Sev => 102,
        Opcode::Smlal => 103,
        Opcode::Smull => 104,
        Opcode::Ssat => 105,
        Opcode::Ssat16 => 106,
        Opcode::Ssbb => 107,
        Opcode::Stc => 108,
        Opcode::Stm => 109,
        Opcode::Stmdb => 110,
        Opcode::StrImm => 111,
        Opcode::StrReg => 112,
        Opcode::StrbImm => 113,
        Opcode::StrbReg => 114,
        Opcode::StrhImm => 115,
        Opcode::StrhReg => 116,
        Opcode::StrdImm => 117,
        Opcode::Strex => 118,
        Opcode::Strexb => 119,
        Opcode::Strexh => 120,
        Opcode::SubImm => 121,
        Opcode::SubReg => 122,
        Opcode::SubSpImm => 123,
        Opcode::Svc => 124,
        Opcode::Sxtb => 125,
        Opcode::Sxth => 126,
        Opcode::Tbb => 127,
        Opcode::TeqImm => 128,
        Opcode::TeqReg => 129,
        Opcode::TstImm => 130,
        Opcode::TstReg => 131,
        Opcode::Ubfx => 132,
        Opcode::Udf => 133,
        Opcode::Udiv => 134,
        Opcode::Umaal => 135,
        Opcode::Umlal => 136,
        Opcode::Umull => 137,
        Opcode::Usat => 138,
        Opcode::Usat16 => 139,
        Opcode::Uxtb => 140,
        Opcode::Uxth => 141,
        Opcode::Wfe => 142,
        Opcode::Wfi => 143,
        Opcode::Yield => 144,
        Opcode::Undefined => 145,
        Opcode::Other => 146,
        Opcode::LdrsbImm => 147,
        Opcode::LdrshImm => 148,
    }
}

/// The tag that a packed code byte stands for; bytes outside the table are
/// read as `Undefined`.
pub open spec fn code_opcode(code: u8) -> Opcode {
    match code {
        0u8 => Opcode::Unimplemented,
        1u8 => Opcode::AdcImm,
        2u8 => Opcode::AdcReg,
        3u8 => Opcode::AddImm,
        4u8 => Opcode::AddReg,
        5u8 => Opcode::AddSpImm,
        6u8 => Opcode::AddSpReg,
        7u8 => Opcode::Adr,
        8u8 => Opcode::AndImm,
        9u8 => Opcode::AndReg,
        10u8 => Opcode::AsrImm,
        11u8 => Opcode::AsrReg,
        12u8 => Opcode::Branch,
        13u8 => Opcode::BranchCond,
        14u8 => Opcode::Bfc,
        15u8 => Opcode::Bfi,
        16u8 => Opcode::BicImm,
        17u8 => Opcode::BicReg,
        18u8 => Opcode::Bkpt,
        19u8 => Opcode::Bl,
        20u8 => Opcode::Blx,
        21u8 => Opcode::Bx,
        22u8 => Opcode::Cbz,
        23u8 => Opcode::Cdp,
        24u8 => Opcode::Clrex,
        25u8 => Opcode::Clz,
        26u8 => Opcode::CmnImm,
        27u8 => Opcode::CmnReg,
        28u8 => Opcode::CmpImm,
        29u8 => Opcode::CmpReg,
        30u8 => Opcode::Cps,
        31u8 => Opcode::Csdb,
        32u8 => Opcode::Dbg,
        33u8 => Opcode::Dmb,
        34u8 => Opcode::Dsb,
        35u8 => Opcode::EorImm,
        36u8 => Opcode::EorReg,
        37u8 => Opcode::Isb,
        38u8 => Opcode::It,
        39u8 => Opcode::LdcImm,
        40u8 => Opcode::LdcLit,
        41u8 => Opcode::Ldm,
        42u8 => Opcode::Ldmdb,
        43u8 => Opcode::LdrImm,
        44u8 => Opcode::LdrLit,
        45u8 => Opcode::LdrReg,
        46u8 => Opcode::LdrbImm,
        47u8 => Opcode::LdrbReg,
        48u8 => Opcode::LdrdImm,
        49u8 => Opcode::Ldrex,
        50u8 => Opcode::Ldrexb,
        51u8 => Opcode::Ldrexh,
        52u8 => Opcode::LdrhImm,
        53u8 => Opcode::LdrhReg,
        54u8 => Opcode::LdrsbReg,
        55u8 => Opcode::LdrshReg,
        56u8 => Opcode::Ldrt,
        57u8 => Opcode::LslImm,
        58u8 => Opcode::LslReg,
        59u8 => Opcode::LsrImm,
        60u8 => Opcode::LsrReg,
        61u8 => Opcode::Mcr,
        62u8 => Opcode::Mcrr,
        63u8 => Opcode::Mla,
        64u8 => Opcode::Mls,
        65u8 => Opcode::MovImm,
        66u8 => Opcode::MovReg,
        67u8 => Opcode::Movt,
        68u8 => Opcode::Mrc,
        69u8 => Opcode::Mrrc,
        70u8 => Opcode::Mrs,
        71u8 => Opcode::Msr,
        72u8 => Opcode::Mul,
        73u8 => Opcode::MvnImm,
        74u8 => Opcode::MvnReg,
        75u8 => Opcode::Nop,
        76u8 => Opcode::OrnImm,
        77u8 => Opcode::OrnReg,
        78u8 => Opcode::OrrImm,
        79u8 => Opcode::OrrReg,
        80u8 => Opcode::Pkhbt,
        81u8 => Opcode::Pop,
        82u8 => Opcode::Pssbb,
        83u8 => Opcode::Push,
        84u8 => Opcode::Qadd,
        85u8 => Opcode::Qdadd,
        86u8 => Opcode::Qdsub,
        87u8 => Opcode::Qsub,
        88u8 => Opcode::Rbit,
        89u8 => Opcode::Rev,
        90u8 => Opcode::Rev16,
        91u8 => Opcode::Revsh,
        92u8 => Opcode::RorImm,
        93u8 => Opcode::RorReg,
        94u8 => Opcode::Rrx,
        95u8 => Opcode::RsbImm,
        96u8 => Opcode::RsbReg,
        97u8 => Opcode::SbcImm,
        98u8 => Opcode::SbcReg,
        99u8 => Opcode::Sbfx,
        100u8 => Opcode::Sdiv,
        101u8 => Opcode::Sel,
        102u8 => Opcode::Sev,
        103u8 => Opcode::Smlal,
        104u8 => Opcode::Smull,
        105u8 => Opcode::Ssat,
        106u8 => Opcode::Ssat16,
        107u8 => Opcode::Ssbb,
        108u8 => Opcode::Stc,
        109u8 => Opcode::Stm,
        110u8 => Opcode::Stmdb,
        111u8 => Opcode::StrImm,
        112u8 => Opcode::StrReg,
        113u8 => Opcode::StrbImm,
        114u8 => Opcode::StrbReg,
        115u8 => Opcode::StrhImm,
        116u8 => Opcode::StrhReg,
        117u8 => Opcode::StrdImm,
        118u8 => Opcode::Strex,
        119u8 => Opcode::Strexb,
        120u8 => Opcode::Strexh,
        121u8 => Opcode::SubImm,
        122u8 => Opcode::SubReg,
        123u8 => Opcode::SubSpImm,
        124u8 => Opcode::Svc,
        125u8 => Opcode::Sxtb,
        126u8 => Opcode::Sxth,
        127u8 => Opcode::Tbb,
        128u8 => Opcode::TeqImm,
        129u8 => Opcode::TeqReg,
        130u8 => Opcode::TstImm,
        131u8 => Opcode::TstReg,
        132u8 => Opcode::Ubfx,
        133u8 => Opcode::Udf,
        134u8 => Opcode::Udiv,
        135u8 => Opcode::Umaal,
        136u8 => Opcode::Umlal,
        137u8 => Opcode::Umull,
        138u8 => Opcode::Usat,
        139u8 => Opcode::Usat16,
        140u8 => Opcode::Uxtb,
        141u8 => Opcode::Uxth,
        142u8 => Opcode::Wfe,
        143u8 => Opcode::Wfi,
        144u8 => Opcode::Yield,
        145u8 => Opcode::Undefined,
        146u8 => Opcode::Other,
        147u8 => Opcode::LdrsbImm,
        148u8 => Opcode::LdrshImm,
        _ => Opcode::Undefined,
    }
}

pub fn from_opcode(opcode: Opcode) -> (r: u8)
    ensures
        r == opcode_code(opcode),
{
    match opcode {
        Opcode::Unimplemented => 0,
        Opcode::AdcImm => 1,
        Opcode::AdcReg => 2,
        Opcode::AddImm => 3,
        Opcode::AddReg => 4,
        Opcode::AddSpImm => 5,
        Opcode::AddSpReg => 6,
        Opcode::Adr => 7,
        Opcode::AndImm => 8,
        Opcode::AndReg => 9,
        Opcode::AsrImm => 10,
        Opcode::AsrReg => 11,
        Opcode::Branch => 12,
        Opcode::BranchCond => 13,
        Opcode::Bfc => 14,
        Opcode::Bfi => 15,
        Opcode::BicImm => 16,
        Opcode::BicReg => 17,
        Opcode::Bkpt => 18,
        Opcode::Bl => 19,
        Opcode::Blx => 20,
        Opcode::Bx => 21,
        Opcode::Cbz => 22,
        Opcode::Cdp => 23,
        Opcode::Clrex => 24,
        Opcode::Clz => 25,
        Opcode::CmnImm => 26,
        Opcode::CmnReg => 27,
        Opcode::CmpImm => 28,
        Opcode::CmpReg => 29,
        Opcode::Cps => 30,
        Opcode::Csdb => 31,
        Opcode::Dbg => 32,
        Opcode::Dmb => 33,
        Opcode::Dsb => 34,
        Opcode::EorImm => 35,
        Opcode::EorReg => 36,
        Opcode::Isb => 37,
        Opcode::It => 38,
        Opcode::LdcImm => 39,
        Opcode::LdcLit => 40,
        Opcode::Ldm => 41,
        Opcode::Ldmdb => 42,
        Opcode::LdrImm => 43,
        Opcode::LdrLit => 44,
        Opcode::LdrReg => 45,
        Opcode::LdrbImm => 46,
        Opcode::LdrbReg => 47,
        Opcode::LdrdImm => 48,
        Opcode::Ldrex => 49,
        Opcode::Ldrexb => 50,
        Opcode::Ldrexh => 51,
        Opcode::LdrhImm => 52,
        Opcode::LdrhReg => 53,
        Opcode::LdrsbReg => 54,
        Opcode::LdrshReg => 55,
        Opcode::Ldrt => 56,
        Opcode::LslImm => 57,
        Opcode::LslReg => 58,
        Opcode::LsrImm => 59,
        Opcode::LsrReg => 60,
        Opcode::Mcr => 61,
        Opcode::Mcrr => 62,
        Opcode::Mla => 63,
        Opcode::Mls => 64,
        Opcode::MovImm => 65,
        Opcode::MovReg => 66,
        Opcode::Movt => 67,
        Opcode::Mrc => 68,
        Opcode::Mrrc => 69,
        Opcode::Mrs => 70,
        Opcode::Msr => 71,
        Opcode::Mul => 72,
        Opcode::MvnImm => 73,
        Opcode::MvnReg => 74,
        Opcode::Nop => 75,
        Opcode::OrnImm => 76,
        Opcode::OrnReg => 77,
        Opcode::OrrImm => 78,
        Opcode::OrrReg => 79,
        Opcode::Pkhbt => 80,
        Opcode::Pop => 81,
        Opcode::Pssbb => 82,
        Opcode::Push => 83,
        Opcode::Qadd => 84,
        Opcode::Qdadd => 85,
        Opcode::Qdsub => 86,
        Opcode::Qsub => 87,
        Opcode::Rbit => 88,
        Opcode::Rev => 89,
        Opcode::Rev16 => 90,
        Opcode::Revsh => 91,
        Opcode::RorImm => 92,
        Opcode::RorReg => 93,
        Opcode::Rrx => 94,
        Opcode::RsbImm => 95,
        Opcode::RsbReg => 96,
        Opcode::SbcImm => 97,
        Opcode::SbcReg => 98,
        Opcode::Sbfx => 99,
        Opcode::Sdiv => 100,
        Opcode::Sel => 101,
        Opcode::Sev => 102,
        Opcode::Smlal => 103,
        Opcode::Smull => 104,
        Opcode::Ssat => 105,
        Opcode::Ssat16 => 106,
        Opcode::Ssbb => 107,
        Opcode::Stc => 108,
        Opcode::Stm => 109,
        Opcode::Stmdb => 110,
        Opcode::StrImm => 111,
        Opcode::StrReg => 112,
        Opcode::StrbImm => 113,
        Opcode::StrbReg => 114,
        Opcode::StrhImm => 115,
        Opcode::StrhReg => 116,
        Opcode::StrdImm => 117,
        Opcode::Strex => 118,
        Opcode::Strexb => 119,
        Opcode::Strexh => 120,
        Opcode::SubImm => 121,
        Opcode::SubReg => 122,
        Opcode::SubSpImm => 123,
        Opcode::Svc => 124,
        Opcode::Sxtb => 125,
        Opcode::Sxth => 126,
        Opcode::Tbb => 127,
        Opcode::TeqImm => 128,
        Opcode::TeqReg => 129,
        Opcode::TstImm => 130,
        Opcode::TstReg => 131,
        Opcode::Ubfx => 132,
        Opcode::Udf => 133,
        Opcode::Udiv => 134,
        Opcode::Umaal => 135,
        Opcode::Umlal => 136,
        Opcode::Umull => 137,
        Opcode::Usat => 138,
        Opcode::Usat16 => 139,
        Opcode::Uxtb => 140,
        Opcode::Uxth => 141,
        Opcode::Wfe => 142,
        Opcode::Wfi => 143,
        Opcode::Yield => 144,
        Opcode::Undefined => 145,
        Opcode::Other => 146,
        Opcode::LdrsbImm => 147,
        Opcode::LdrshImm => 148,
    }
}

pub fn to_opcode(bits: u8) -> (r: Opcode)
    ensures
        r == code_opcode(bits),
{
    match bits {
        0 => Opcode::Unimplemented,
        1 => Opcode::AdcImm,
        2 => Opcode::AdcReg,
        3 => Opcode::AddImm,
        4 => Opcode::AddReg,
        5 => Opcode::AddSpImm,
        6 => Opcode::AddSpReg,
        7 => Opcode::Adr,
        8 => Opcode::AndImm,
        9 => Opcode::AndReg,
        10 => Opcode::AsrImm,
        11 => Opcode::AsrReg,
        12 => Opcode::Branch,
        13 => Opcode::BranchCond,
        14 => Opcode::Bfc,
        15 => Opcode::Bfi,
        16 => Opcode::BicImm,
        17 => Opcode::BicReg,
        18 => Opcode::Bkpt,
        19 => Opcode::Bl,
        20 => Opcode::Blx,
        21 => Opcode::Bx,
        22 => Opcode::Cbz,
        23 => Opcode::Cdp,
        24 => Opcode::Clrex,
        25 => Opcode::Clz,
        26 => Opcode::CmnImm,
        27 => Opcode::CmnReg,
        28 => Opcode::CmpImm,
        29 => Opcode::CmpReg,
        30 => Opcode::Cps,
        31 => Opcode::Csdb,
        32 => Opcode::Dbg,
        33 => Opcode::Dmb,
        34 => Opcode::Dsb,
        35 => Opcode::EorImm,
        36 => Opcode::EorReg,
        37 => Opcode::Isb,
        38 => Opcode::It,
        39 => Opcode::LdcImm,
        40 => Opcode::LdcLit,
        41 => Opcode::Ldm,
        42 => Opcode::Ldmdb,
        43 => Opcode::LdrImm,
        44 => Opcode::LdrLit,
        45 => Opcode::LdrReg,
        46 => Opcode::LdrbImm,
        47 => Opcode::LdrbReg,
        48 => Opcode::LdrdImm,
        49 => Opcode::Ldrex,
        50 => Opcode::Ldrexb,
        51 => Opcode::Ldrexh,
        52 => Opcode::LdrhImm,
        53 => Opcode::LdrhReg,
        54 => Opcode::LdrsbReg,
        55 => Opcode::LdrshReg,
        56 => Opcode::Ldrt,
        57 => Opcode::LslImm,
        58 => Opcode::LslReg,
        59 => Opcode::LsrImm,
        60 => Opcode::LsrReg,
        61 => Opcode::Mcr,
        62 => Opcode::Mcrr,
        63 => Opcode::Mla,
        64 => Opcode::Mls,
        65 => Opcode::MovImm,
        66 => Opcode::MovReg,
        67 => Opcode::Movt,
        68 => Opcode::Mrc,
        69 => Opcode::Mrrc,
        70 => Opcode::Mrs,
        71 => Opcode::Msr,
        72 => Opcode::Mul,
        73 => Opcode::MvnImm,
        74 => Opcode::MvnReg,
        75 => Opcode::Nop,
        76 => Opcode::OrnImm,
        77 => Opcode::OrnReg,
        78 => Opcode::OrrImm,
        79 => Opcode::OrrReg,
        80 => Opcode::Pkhbt,
        81 => Opcode::Pop,
        82 => Opcode::Pssbb,
        83 => Opcode::Push,
        84 => Opcode::Qadd,
        85 => Opcode::Qdadd,
        86 => Opcode::Qdsub,
        87 => Opcode::Qsub,
        88 => Opcode::Rbit,
        89 => Opcode::Rev,
        90 => Opcode::Rev16,
        91 => Opcode::Revsh,
        92 => Opcode::RorImm,
        93 => Opcode::RorReg,
        94 => Opcode::Rrx,
        95 => Opcode::RsbImm,
        96 => Opcode::RsbReg,
        97 => Opcode::SbcImm,
        98 => Opcode::SbcReg,
        99 => Opcode::Sbfx,
        100 => Opcode::Sdiv,
        101 => Opcode::Sel,
        102 => Opcode::Sev,
        103 => Opcode::Smlal,
        104 => Opcode::Smull,
        105 => Opcode::Ssat,
        106 => Opcode::Ssat16,
        107 => Opcode::Ssbb,
        108 => Opcode::Stc,
        109 => Opcode::Stm,
        110 => Opcode::Stmdb,
        111 => Opcode::StrImm,
        112 => Opcode::StrReg,
        113 => Opcode::StrbImm,
        114 => Opcode::StrbReg,
        115 => Opcode::StrhImm,
        116 => Opcode::StrhReg,
        117 => Opcode::StrdImm,
        118 => Opcode::Strex,
        119 => Opcode::Strexb,
        120 => Opcode::Strexh,
        121 => Opcode::SubImm,
        122 => Opcode::SubReg,
        123 => Opcode::SubSpImm,
        124 => Opcode::Svc,
        125 => Opcode::Sxtb,
        126 => Opcode::Sxth,
        127 => Opcode::Tbb,
        128 => Opcode::TeqImm,
        129 => Opcode::TeqReg,
        130 => Opcode::TstImm,
        131 => Opcode::TstReg,
        132 => Opcode::Ubfx,
        133 => Opcode::Udf,
        134 => Opcode::Udiv,
        135 => Opcode::Umaal,
        136 => Opcode::Umlal,
        137 => Opcode::Umull,
        138 => Opcode::Usat,
        139 => Opcode::Usat16,
        140 => Opcode::Uxtb,
        141 => Opcode::Uxth,
        142 => Opcode::Wfe,
        143 => Opcode::Wfi,
        144 => Opcode::Yield,
        145 => Opcode::Undefined,
        146 => Opcode::Other,
        147 => Opcode::LdrsbImm,
        148 => Opcode::LdrshImm,
        _ => Opcode::Undefined,
    }
}

} // verus!
