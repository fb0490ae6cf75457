//! CPU state: the sixteen general registers with the hidden instruction
//! program counter, the APSR/IPSR/EPSR status words, the IT-block state
//! machine and condition evaluation.

use vstd::prelude::*;
use crate::bits::bitset;
use crate::bytecode::ItPos;

verus! {

/// The sixteen condition codes of the architecture.
#[derive(Clone, Copy, Debug, PartialEq, Eq, Structural)]
pub enum Condition {
    Equal,
    NotEqual,
    CarrySet,
    CarryClear,
    Negative,
    PosOrZero,
    Overflow,
    NotOverflow,
    UHigher,
    ULowerSame,
    SHigherSame,
    Slower,
    SHigher,
    SLowerSame,
    Always,
    Never,
}

/// The condition a four-bit code stands for.
pub open spec fn cond_of(code: u32) -> Condition {
    if code == 0b0000 {
        Condition::Equal
    } else if code == 0b0001 {
        Condition::NotEqual
    } else if code == 0b0010 {
        Condition::CarrySet
    } else if code == 0b0011 {
        Condition::CarryClear
    } else if code == 0b0100 {
        Condition::Negative
    } else if code == 0b0101 {
        Condition::PosOrZero
    } else if code == 0b0110 {
        Condition::Overflow
    } else if code == 0b0111 {
        Condition::NotOverflow
    } else if code == 0b1000 {
        Condition::UHigher
    } else if code == 0b1001 {
        Condition::ULowerSame
    } else if code == 0b1010 {
        Condition::SHigherSame
    } else if code == 0b1011 {
        Condition::Slower
    } else if code == 0b1100 {
        Condition::SHigher
    } else if code == 0b1101 {
        Condition::SLowerSame
    } else if code == 0b1110 {
        Condition::Always
    } else {
        Condition::Never
    }
}

impl Condition {
    pub fn new(code: u32) -> (r: Condition)
        requires
            code <= 0xF,
        ensures
            r == cond_of(code),
    {
        if code == 0b0000 {
            Condition::Equal
        } else if code == 0b0001 {
            Condition::NotEqual
        } else if code == 0b0010 {
            Condition::CarrySet
        } else if code == 0b0011 {
            Condition::CarryClear
        } else if code == 0b0100 {
            Condition::Negative
        } else if code == 0b0101 {
            Condition::PosOrZero
        } else if code == 0b0110 {
            Condition::Overflow
        } else if code == 0b0111 {
            Condition::NotOverflow
        } else if code == 0b1000 {
            Condition::UHigher
        } else if code == 0b1001 {
            Condition::ULowerSame
        } else if code == 0b1010 {
            Condition::SHigherSame
        } else if code == 0b1011 {
            Condition::Slower
        } else if code == 0b1100 {
            Condition::SHigher
        } else if code == 0b1101 {
            Condition::SLowerSame
        } else if code == 0b1110 {
            Condition::Always
        } else {
            Condition::Never
        }
    }
}

/// The IT-block state: the condition nibble in the high four bits of the
/// byte, the shifting mask in the low four.
#[derive(Debug)]
pub struct ItState {
    pub state: u32,
}

/// The position the state byte encodes.
pub open spec fn position_of(state: u32) -> ItPos {
    if state == 0 {
        ItPos::Outside
    } else if state & 0b111 == 0 {
        ItPos::Last
    } else {
        ItPos::Within
    }
}

/// The state after one instruction has been executed under the block.
pub open spec fn advance_of(state: u32) -> u32 {
    if state & 0b111 == 0 {
        0
    } else {
        state & (0b111u32 << 5) | (state & 0xF) << 1
    }
}

impl ItState {
    pub fn new() -> (r: ItState)
        ensures
            r.state == 0,
    {
        ItState { state: 0 }
    }

    pub fn active(&self) -> (r: bool)
        ensures
            r == (self.state != 0),
    {
        self.state != 0
    }

    /// Advance after an instruction: when the low three bits are spent the
    /// block ends; otherwise the mask shifts up one position under the
    /// preserved condition bits.
    pub fn advance(&mut self)
        ensures
            final(self).state == advance_of(old(self).state),
    {
        if (self.state & 0b111) == 0 {
            self.state = 0;
        } else {
            self.state = self.state & (0b111 << 5) | (self.state & 0xF) << 1;
        }
    }

    /// The condition currently in force: the top four bits of the state.
    pub fn condition(&self) -> (r: Condition)
        ensures
            r == cond_of((self.state >> 4) & 0xF),
    {
        proof {
            crate::bits::lemma_and_bound(self.state >> 4, 0xF);
        }
        Condition::new((self.state >> 4) & 0xF)
    }

    pub fn position(&self) -> (r: ItPos)
        ensures
            r == position_of(self.state),
    {
        if self.state == 0 {
            ItPos::Outside
        } else if (self.state & 0b111) == 0 {
            ItPos::Last
        } else {
            ItPos::Within
        }
    }

    /// How many conditionally executed instructions are still pending.
    pub fn num_remaining(&self) -> (r: u32)
        ensures
            r == (if crate::bits::bit_of(self.state, 0) {
                4u32
            } else if crate::bits::bit_of(self.state, 1) {
                3u32
            } else if crate::bits::bit_of(self.state, 2) {
                2u32
            } else if crate::bits::bit_of(self.state, 3) {
                1u32
            } else {
                0u32
            }),
    {
        if bitset(self.state, 0) {
            4
        } else if bitset(self.state, 1) {
            3
        } else if bitset(self.state, 2) {
            2
        } else if bitset(self.state, 3) {
            1
        } else {
            0
        }
    }
}

/// The IT position is consistent with the bit pattern: the block is over
/// exactly when the state is zero, and at its last slot exactly when the
/// state is nonzero with its low three bits clear.
pub proof fn lemma_it_position_consistent(state: u32)
    ensures
        (position_of(state) == ItPos::Outside) == (state == 0),
        (position_of(state) == ItPos::Last) == (state != 0 && state & 0b111 == 0),
        (position_of(state) == ItPos::Within) == (state != 0 && state & 0b111 != 0),
{
}

/// Application status flags plus the greater-or-equal SIMD nibble.
#[derive(Clone, Copy, Debug, PartialEq, Eq, Structural)]
pub struct APSR {
    pub n: bool,
    pub z: bool,
    pub c: bool,
    pub v: bool,
    pub q: bool,
    pub ge: u8,
}

impl APSR {
    pub fn new() -> (r: APSR)
        ensures
            r == (APSR { n: false, z: false, c: false, v: false, q: false, ge: 0 }),
    {
        APSR { n: false, z: false, c: false, v: false, q: false, ge: 0 }
    }
}

/// Interrupt status: the active exception number.
#[derive(Clone, Copy, Debug, PartialEq, Eq, Structural)]
pub struct IPSR {
    pub exception: u32,
}

/// Execution status: the IT/ICI bits live with the CPU's `ItState`; this
/// keeps the Thumb bit.
#[derive(Clone, Copy, Debug, PartialEq, Eq, Structural)]
pub struct EPSR {
    pub t: bool,
}

#[derive(Clone, Copy, Debug, PartialEq, Eq, Structural)]
pub struct Control {
    pub spsel: bool,
    pub n_priv: bool,
    pub fpca: bool,
}

#[derive(Clone, Copy, Debug, PartialEq, Eq, Structural)]
pub enum ExecMode {
    ModeThread,
    ModeHandler,
}

/// A plain copy of the five APSR flags.
pub struct Flags {
    pub n: bool,
    pub z: bool,
    pub c: bool,
    pub v: bool,
    pub q: bool,
}

/// Whether `cond` holds under the given flags.
pub open spec fn cond_holds(apsr: APSR, cond: Condition) -> bool {
    match cond {
        Condition::Equal => apsr.z,
        Condition::NotEqual => !apsr.z,
        Condition::CarrySet => apsr.c,
        Condition::CarryClear => !apsr.c,
        Condition::Negative => apsr.n,
        Condition::PosOrZero => !apsr.n,
        Condition::Overflow => apsr.v,
        Condition::NotOverflow => !apsr.v,
        Condition::UHigher => apsr.c && !apsr.z,
        Condition::ULowerSame => !apsr.c || apsr.z,
        Condition::SHigherSame => apsr.n == apsr.v,
        Condition::Slower => apsr.n != apsr.v,
        Condition::SHigher => !apsr.z && (apsr.n == apsr.v),
        Condition::SLowerSame => apsr.z || (apsr.n != apsr.v),
        Condition::Always => true,
        Condition::Never => false,
    }
}

/// The register file, status words and IT state of the core. Reading r15
/// through `read_reg` yields the architectural PC (`instr_pc + 4`, kept in
/// the register file by the step driver); `instr_pc` itself is the address
/// of the instruction currently executing.
pub struct CPU {
    pub registers: Vec<u32>,
    pub instr_pc: u32,
    pub sp_unpredictable: bool,
    pub sp_main: u32,
    pub sp_process: u32,
    pub apsr: APSR,
    pub ipsr: IPSR,
    pub epsr: EPSR,
    pub itstate: ItState,
    pub control: Control,
    pub current_mode: ExecMode,
}

/// Everything but the register file agrees.
pub open spec fn same_but_registers(a: CPU, b: CPU) -> bool {
    &&& a.instr_pc == b.instr_pc
    &&& a.sp_unpredictable == b.sp_unpredictable
    &&& a.sp_main == b.sp_main
    &&& a.sp_process == b.sp_process
    &&& a.apsr == b.apsr
    &&& a.ipsr == b.ipsr
    &&& a.epsr == b.epsr
    &&& a.itstate.state == b.itstate.state
    &&& a.control == b.control
    &&& a.current_mode == b.current_mode
}

/// Everything but the APSR agrees.
pub open spec fn same_but_apsr(a: CPU, b: CPU) -> bool {
    &&& a.registers@ == b.registers@
    &&& a.instr_pc == b.instr_pc
    &&& a.sp_unpredictable == b.sp_unpredictable
    &&& a.sp_main == b.sp_main
    &&& a.sp_process == b.sp_process
    &&& a.ipsr == b.ipsr
    &&& a.epsr == b.epsr
    &&& a.itstate.state == b.itstate.state
    &&& a.control == b.control
    &&& a.current_mode == b.current_mode
}

/// What the stack pointer reads as: always word-aligned.
pub open spec fn sp_of(cpu: CPU) -> u32 {
    if cpu.sp_unpredictable {
        0u32
    } else {
        cpu.registers@[13] & !0b11u32
    }
}

/// What `read_reg` yields for each register number.
pub open spec fn reg_of(cpu: CPU, reg: u32) -> u32 {
    if reg == 13 {
        sp_of(cpu)
    } else {
        cpu.registers@[reg as int]
    }
}

impl CPU {
    /// The register file always holds sixteen words.
    pub open spec fn inv(self) -> bool {
        self.registers@.len() == 16
    }

    pub fn new() -> (r: CPU)
        ensures
            r.inv(),
            forall|i: int| 0 <= i < 16 ==> r.registers@[i] == 0,
            r.instr_pc == 0,
            !r.sp_unpredictable,
            r.apsr == (APSR { n: false, z: false, c: false, v: false, q: false, ge: 0 }),
            r.ipsr.exception == 0,
            r.epsr.t,
            r.itstate.state == 0,
            r.current_mode == ExecMode::ModeThread,
    {
        let mut registers: Vec<u32> = Vec::new();
        let mut i: usize = 0;
        while i < 16
            invariant
                i <= 16,
                registers@.len() == i,
                forall|j: int| 0 <= j < i ==> registers@[j] == 0,
            decreases 16 - i,
        {
            registers.push(0);
            i = i + 1;
        }
        CPU {
            registers,
            instr_pc: 0,
            sp_unpredictable: false,
            sp_main: 0,
            sp_process: 0,
            apsr: APSR::new(),
            ipsr: IPSR { exception: 0 },
            epsr: EPSR { t: true },
            itstate: ItState::new(),
            control: Control { spsel: false, n_priv: false, fpca: false },
            current_mode: ExecMode::ModeThread,
        }
    }

    pub fn read_reg(&self, reg: u32) -> (r: u32)
        requires
            self.inv(),
            reg <= 15,
        ensures
            r == reg_of(*self, reg),
    {
        if reg == 13 {
            self.read_sp()
        } else {
            self.registers[reg as usize]
        }
    }

    /// The stack pointer reads with its low two bits clear.
    pub fn read_sp(&self) -> (r: u32)
        requires
            self.inv(),
        ensures
            r == sp_of(*self),
            r % 4 == 0,
    {
        let r = if self.sp_unpredictable {
            0
        } else {
            self.registers[13] & !0b11
        };
        proof {
            assert(forall|x: u32| #[trigger] (x & !0b11u32) % 4 == 0) by (bit_vector);
        }
        r
    }

    pub fn read_pc(&self) -> (r: u32)
        requires
            self.inv(),
        ensures
            r == self.registers@[15],
    {
        self.registers[15]
    }

    pub fn read_lr(&self) -> (r: u32)
        requires
            self.inv(),
        ensures
            r == self.registers@[14],
    {
        self.registers[14]
    }

    pub fn write_lr(&mut self, value: u32)
        requires
            old(self).inv(),
        ensures
            final(self).inv(),
            final(self).registers@ == old(self).registers@.update(14, value),
            same_but_registers(*old(self), *final(self)),
    {
        self.registers.set(14, value);
    }

    pub fn read_instruction_pc(&self) -> (r: u32)
        ensures
            r == self.instr_pc,
    {
        self.instr_pc
    }

    pub fn write_instruction_pc(&mut self, address: u32)
        requires
            old(self).inv(),
        ensures
            final(self).inv(),
            *final(self) == (CPU { instr_pc: address, ..*old(self) }),
    {
        self.instr_pc = address;
    }

    pub fn read_aligned_pc(&self) -> (r: u32)
        requires
            self.inv(),
        ensures
            r == self.registers@[15] & !0b11u32,
            r % 4 == 0,
    {
        proof {
            assert(forall|x: u32| #[trigger] (x & !0b11u32) % 4 == 0) by (bit_vector);
        }
        self.read_pc() & !0b11
    }

    /// Steps the instruction pointer over the current instruction.
    pub fn inc_pc(&mut self, wide: bool)
        requires
            old(self).inv(),
            old(self).instr_pc + 4 <= u32::MAX,
        ensures
            final(self).inv(),
            *final(self) == (CPU {
                instr_pc: (old(self).instr_pc + if wide {
                    4u32
                } else {
                    2u32
                }) as u32,
                ..*old(self)
            }),
    {
        self.instr_pc = self.instr_pc + if wide {
            4
        } else {
            2
        };
    }

    /// Publishes the architectural PC (`instr_pc + 4`) into r15 and returns
    /// the address of the instruction about to execute.
    pub fn update_instruction_address(&mut self) -> (r: u32)
        requires
            old(self).inv(),
        ensures
            final(self).inv(),
            r == old(self).instr_pc,
            final(self).registers@ == old(self).registers@.update(
                15,
                ((old(self).instr_pc + 4) % 0x1_0000_0000) as u32,
            ),
            same_but_registers(*old(self), *final(self)),
    {
        let pc15 = self.instr_pc.wrapping_add(4);
        self.registers.set(15, pc15);
        self.instr_pc
    }

    pub fn write_reg(&mut self, reg: u32, val: u32)
        requires
            old(self).inv(),
            reg <= 15,
        ensures
            final(self).inv(),
            final(self).registers@ == old(self).registers@.update(reg as int, val),
            same_but_registers(*old(self), *final(self)),
    {
        self.registers.set(reg as usize, val);
    }

    /// Writes the stack pointer with its low two bits masked off.
    pub fn write_sp(&mut self, val: u32)
        requires
            old(self).inv(),
        ensures
            final(self).inv(),
            final(self).registers@ == old(self).registers@.update(13, val & !0b11u32),
            same_but_registers(*old(self), *final(self)),
    {
        self.registers.set(13, val & !0b11);
    }

    pub fn check_condition(&self, cond: Condition) -> (r: bool)
        ensures
            r == cond_holds(self.apsr, cond),
    {
        match cond {
            Condition::Equal => self.apsr.z,
            Condition::NotEqual => !self.apsr.z,
            Condition::CarrySet => self.apsr.c,
            Condition::CarryClear => !self.apsr.c,
            Condition::Negative => self.apsr.n,
            Condition::PosOrZero => !self.apsr.n,
            Condition::Overflow => self.apsr.v,
            Condition::NotOverflow => !self.apsr.v,
            Condition::UHigher => self.apsr.c && !self.apsr.z,
            Condition::ULowerSame => !self.apsr.c || self.apsr.z,
            Condition::SHigherSame => self.apsr.n == self.apsr.v,
            Condition::Slower => self.apsr.n != self.apsr.v,
            Condition::SHigher => !self.apsr.z && (self.apsr.n == self.apsr.v),
            Condition::SLowerSame => self.apsr.z || (self.apsr.n != self.apsr.v),
            Condition::Always => true,
            Condition::Never => false,
        }
    }

    pub fn set_negative_flag(&mut self, enabled: bool)
        ensures
            final(self).apsr == (APSR { n: enabled, ..old(self).apsr }),
            same_but_apsr(*old(self), *final(self)),
    {
        self.apsr.n = enabled;
    }

    pub fn set_zero_flag(&mut self, enabled: bool)
        ensures
            final(self).apsr == (APSR { z: enabled, ..old(self).apsr }),
            same_but_apsr(*old(self), *final(self)),
    {
        self.apsr.z = enabled;
    }

    pub fn set_carry_flag(&mut self, enabled: bool)
        ensures
            final(self).apsr == (APSR { c: enabled, ..old(self).apsr }),
            same_but_apsr(*old(self), *final(self)),
    {
        self.apsr.c = enabled;
    }

    pub fn read_carry_flag(&self) -> (r: bool)
        ensures
            r == self.apsr.c,
    {
        self.apsr.c
    }

    /// The carry flag as the 0-or-1 input of `add_with_carry`.
    pub fn carry(&self) -> (r: u32)
        ensures
            r == (if self.apsr.c {
                1u32
            } else {
                0u32
            }),
            r <= 1,
    {
        if self.apsr.c {
            1
        } else {
            0
        }
    }

    pub fn set_overflow_flag(&mut self, enabled: bool)
        ensures
            final(self).apsr == (APSR { v: enabled, ..old(self).apsr }),
            same_but_apsr(*old(self), *final(self)),
    {
        self.apsr.v = enabled;
    }

    pub fn set_saturation_flag(&mut self, enabled: bool)
        ensures
            final(self).apsr == (APSR { q: enabled, ..old(self).apsr }),
            same_but_apsr(*old(self), *final(self)),
    {
        self.apsr.q = enabled;
    }

    pub fn set_thumb_mode(&mut self, enabled: bool)
        ensures
            *final(self) == (CPU { epsr: (EPSR { t: enabled }), ..*old(self) }),
    {
        self.epsr.t = enabled;
    }

    pub fn read_thumb_mode(&self) -> (r: bool)
        ensures
            r == self.epsr.t,
    {
        self.epsr.t
    }

    /// A short textual rendering of the five APSR flags.
    pub fn get_apsr_display(&self) -> String {
        let mut bytes: Vec<u8> = Vec::new();
        bytes.push(65);
        bytes.push(80);
        bytes.push(83);
        bytes.push(82);
        bytes.push(58);
        bytes.push(32);
        bytes.push(if self.apsr.n { 78 } else { 95 });
        bytes.push(if self.apsr.z { 90 } else { 95 });
        bytes.push(if self.apsr.c { 67 } else { 95 });
        bytes.push(if self.apsr.v { 86 } else { 95 });
        bytes.push(if self.apsr.q { 81 } else { 95 });
        crate::text::ascii_string(&bytes)
    }

    pub fn get_flags(&self) -> (r: Flags)
        ensures
            r.n == self.apsr.n,
            r.z == self.apsr.z,
            r.c == self.apsr.c,
            r.v == self.apsr.v,
            r.q == self.apsr.q,
    {
        Flags {
            n: self.apsr.n,
            z: self.apsr.z,
            c: self.apsr.c,
            v: self.apsr.v,
            q: self.apsr.q,
        }
    }
}

/// The combined xPSR packing of the status words.
pub open spec fn xpsr_of(cpu: CPU) -> u32 {
    (flag_bit(cpu.apsr.n) << 31 | flag_bit(cpu.apsr.z) << 30 | flag_bit(cpu.apsr.c) << 29
        | flag_bit(cpu.apsr.v) << 28 | flag_bit(cpu.apsr.q) << 27 | ((cpu.apsr.ge & 0xF) as u32)
        << 16) | (((cpu.itstate.state & 0xFF) & 0b11) << 25 | (((cpu.itstate.state & 0xFF) >> 2)
        & 0b11) << 10 | (((cpu.itstate.state & 0xFF) >> 4) & 0b1111) << 12 | flag_bit(cpu.epsr.t)
        << 24) | (cpu.ipsr.exception & 0x1FF)
}

pub open spec fn flag_bit(b: bool) -> u32 {
    if b {
        1u32
    } else {
        0u32
    }
}

impl CPU {
    pub fn read_xpsr(&self) -> (r: u32)
        ensures
            r == xpsr_of(*self),
    {
        let n: u32 = if self.apsr.n {
            1
        } else {
            0
        };
        let z: u32 = if self.apsr.z {
            1
        } else {
            0
        };
        let c: u32 = if self.apsr.c {
            1
        } else {
            0
        };
        let v: u32 = if self.apsr.v {
            1
        } else {
            0
        };
        let q: u32 = if self.apsr.q {
            1
        } else {
            0
        };
        let t: u32 = if self.epsr.t {
            1
        } else {
            0
        };
        let ge = ((self.apsr.ge & 0xF) as u32) << 16;
        let apsr = n << 31 | z << 30 | c << 29 | v << 28 | q << 27 | ge;

        let it_ici = self.itstate.state & 0xFF;
        let ici1 = (it_ici & 0b11) << 25;
        let ici2 = ((it_ici >> 2) & 0b11) << 10;
        let ici3 = ((it_ici >> 4) & 0b1111) << 12;
        let epsr = ici1 | ici2 | ici3 | (t << 24);

        let ipsr = self.ipsr.exception & 0x1FF;

        apsr | epsr | ipsr
    }
}

} // verus!
