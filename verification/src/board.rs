//! The board: CPU, memory bus, instruction cache, exclusive monitor and
//! audio sink, with the fetch-decode-execute step driver. Faults raised
//! anywhere set a sticky pending flag that the driver consumes after the
//! instruction, redirecting the program counter to the hard-fault vector.

use vstd::prelude::*;
use std::collections::HashMap;
use crate::audio::AudioHandler;
use crate::bits::{bitset, add_with_carry, shift, shift_c};
use crate::bytecode::{ByteInstruction, InstructionCache, InstructionContext, decode_thumb};
use crate::cpu::{CPU, ExecMode};
use crate::memory::{MemoryBus, MemError};
use crate::monitor::ExclusiveMonitors;
use crate::tag;
use crate::tag::{wf_instr, instr_wide};

verus! {

broadcast use crate::bits::lemma_and_bound;

/// A fetched program is stepped one instruction at a time: fetch consults
/// the cache, decodes on miss, and the executor interprets the packed
/// operation against the CPU, bus, flags and monitor.
pub struct Board {
    pub tick: u64,
    pub audio_handler: AudioHandler,
    pub instruction_cache: InstructionCache,
    pub cpu: CPU,
    pub memory: MemoryBus,
    pub branch_map: HashMap<u32, String>,
    pub exclusive_monitors: ExclusiveMonitors,
    pub pending_default_handler: bool,
}

/// Halfword alignment of the instruction pointer is never lost by a step.
pub open spec fn pc_even_kept(a: Board, b: Board) -> bool {
    a.cpu.instr_pc % 2 == 0 ==> b.cpu.instr_pc % 2 == 0
}

impl Board {
    /// The register file, the memory banks and the cache keep their fixed
    /// shapes.
    pub open spec fn inv(self) -> bool {
        &&& self.cpu.inv()
        &&& self.memory.inv()
        &&& self.instruction_cache.inv()
    }

    pub fn new() -> (r: Board)
        ensures
            r.inv(),
            forall|i: int| 0 <= i < 16 ==> r.cpu.registers@[i] == 0,
            r.cpu.instr_pc == 0,
            r.cpu.itstate.state == 0,
            !r.cpu.apsr.n && !r.cpu.apsr.z && !r.cpu.apsr.c && !r.cpu.apsr.v && !r.cpu.apsr.q,
    {
        Board {
            tick: 0,
            audio_handler: AudioHandler::new(),
            cpu: CPU::new(),
            instruction_cache: InstructionCache::new(),
            memory: MemoryBus::new(),
            branch_map: HashMap::new(),
            exclusive_monitors: ExclusiveMonitors::new(),
            pending_default_handler: false,
        }
    }

    /// Whether a fault is waiting for the step driver to route it.
    pub fn pending_fault(&self) -> bool {
        self.pending_default_handler
    }

    pub fn read_reg(&self, reg: u32) -> (r: u32)
        requires
            self.inv(),
            reg <= 15,
        ensures
            r == crate::cpu::reg_of(self.cpu, reg),
    {
        self.cpu.read_reg(reg)
    }

    pub(crate) fn write_reg(&mut self, reg: u32, val: u32)
        requires
            old(self).inv(),
            reg <= 15,
        ensures
            final(self).inv(),
            final(self).cpu.instr_pc == old(self).cpu.instr_pc,
            final(self).cpu.registers@ == old(self).cpu.registers@.update(reg as int, val),
            crate::cpu::same_but_registers(old(self).cpu, final(self).cpu),
            frame_all_but_cpu(*old(self), *final(self)),
    {
        self.cpu.write_reg(reg, val);
    }

    pub fn read_sp(&self) -> (r: u32)
        requires
            self.inv(),
        ensures
            r == crate::cpu::sp_of(self.cpu),
            r % 4 == 0,
    {
        self.cpu.read_sp()
    }

    pub(crate) fn write_sp(&mut self, value: u32)
        requires
            old(self).inv(),
        ensures
            final(self).inv(),
            final(self).cpu.instr_pc == old(self).cpu.instr_pc,
            final(self).cpu.registers@ == old(self).cpu.registers@.update(13, value & !0b11u32),
            crate::cpu::same_but_registers(old(self).cpu, final(self).cpu),
            frame_all_but_cpu(*old(self), *final(self)),
    {
        self.cpu.write_sp(value);
    }

    pub fn read_lr(&self) -> (r: u32)
        requires
            self.inv(),
        ensures
            r == self.cpu.registers@[14],
    {
        self.cpu.read_lr()
    }

    pub(crate) fn write_lr(&mut self, value: u32)
        requires
            old(self).inv(),
        ensures
            final(self).inv(),
            final(self).cpu.instr_pc == old(self).cpu.instr_pc,
            final(self).cpu.registers@ == old(self).cpu.registers@.update(14, value),
            crate::cpu::same_but_registers(old(self).cpu, final(self).cpu),
            frame_all_but_cpu(*old(self), *final(self)),
    {
        self.cpu.write_lr(value);
    }

    pub fn read_pc(&self) -> (r: u32)
        requires
            self.inv(),
        ensures
            r == self.cpu.registers@[15],
    {
        self.cpu.read_pc()
    }

    pub(crate) fn set_pc(&mut self, address: u32)
        requires
            old(self).inv(),
        ensures
            final(self).inv(),
            final(self).cpu == (crate::cpu::CPU { instr_pc: address, ..old(self).cpu }),
            frame_all_but_cpu(*old(self), *final(self)),
    {
        self.cpu.write_instruction_pc(address);
    }

    pub fn in_it_block(&self) -> (r: bool)
        ensures
            r == (self.cpu.itstate.state != 0),
    {
        self.cpu.itstate.active()
    }

    /// A bus read that collapses failure into the pending-fault flag and
    /// hands back zero, as the imprecise-fault model asks.
    pub(crate) fn read_mem_u(&mut self, address: u32, size: usize) -> (r: u32)
        requires
            old(self).inv(),
            size == 1 || size == 2 || size == 4,
        ensures
            final(self).inv(),
            final(self).cpu == old(self).cpu,
            final(self).memory == old(self).memory,
            r == (match crate::memory::read_u_of(old(self).memory, address, size as u32) {
                Ok(v) => v,
                Err(_) => 0u32,
            }),
            crate::memory::read_u_of(old(self).memory, address, size as u32) is Err ==> final(self).pending_default_handler,
            crate::memory::read_u_of(old(self).memory, address, size as u32) is Ok ==> final(self).pending_default_handler == old(self).pending_default_handler,
            frame_all_but_flag(*old(self), *final(self)),
    {
        match self.memory.read_mem_u(address, size) {
            Ok(v) => v,
            Err(_) => {
                self.pending_default_handler = true;
                0
            },
        }
    }

    pub(crate) fn read_mem_a(&mut self, address: u32, size: usize) -> (r: u32)
        requires
            old(self).inv(),
            size == 1 || size == 2 || size == 4,
        ensures
            final(self).inv(),
            final(self).cpu == old(self).cpu,
            final(self).memory == old(self).memory,
            r == (match crate::memory::read_a_of(old(self).memory, address, size as u32) {
                Ok(v) => v,
                Err(_) => 0u32,
            }),
            frame_all_but_flag(*old(self), *final(self)),
    {
        match self.memory.read_mem_a(address, size) {
            Ok(v) => v,
            Err(_) => {
                self.pending_default_handler = true;
                0
            },
        }
    }

    pub(crate) fn read_word(&mut self, address: u32) -> (r: u32)
        requires
            old(self).inv(),
        ensures
            final(self).inv(),
            final(self).cpu == old(self).cpu,
            final(self).memory == old(self).memory,
            r == (match crate::memory::read_u_of(old(self).memory, address, 4) {
                Ok(v) => v,
                Err(_) => 0u32,
            }),
            frame_all_but_flag(*old(self), *final(self)),
    {
        self.read_mem_u(address, 4)
    }

    /// A bus write with imprecise fault routing: out-of-bounds sets
    /// the pending fault, a read-only or unaligned target is dropped.
    pub(crate) fn write_mem_u(&mut self, address: u32, size: usize, value: u32)
        requires
            old(self).inv(),
            size == 1 || size == 2 || size == 4,
        ensures
            final(self).inv(),
            final(self).cpu == old(self).cpu,
            final(self).memory.flash@ == old(self).memory.flash@,
            frame_all_but_flag_mem(*old(self), *final(self)),
    {
        let r = self.memory.write_mem_u(address, size, value);
        match r {
            Ok(_) => {},
            Err(e) => {
                if e == MemError::OutOfBounds {
                    self.pending_default_handler = true;
                }
            },
        }
    }

    pub(crate) fn write_word(&mut self, address: u32, value: u32)
        requires
            old(self).inv(),
        ensures
            final(self).inv(),
            final(self).cpu == old(self).cpu,
            final(self).memory.flash@ == old(self).memory.flash@,
            frame_all_but_flag_mem(*old(self), *final(self)),
    {
        self.write_mem_u(address, 4, value);
    }

    pub(crate) fn get_shifted_register(&self, reg_val: u32, shift_t: u32, shift_n: u32) -> (r: u32)
        requires
            shift_t <= 4,
        ensures
            r == crate::bits::shift_c_of(
                reg_val,
                shift_t,
                shift_n,
                crate::cpu::flag_bit(self.cpu.apsr.c),
            ).0,
    {
        shift(reg_val, shift_t, shift_n, self.cpu.carry())
    }

    pub(crate) fn get_shift_with_carry(&self, reg_val: u32, shift_t: u32, shift_n: u32) -> (r: (
        u32,
        bool,
    ))
        requires
            shift_t <= 4,
        ensures
            r == crate::bits::shift_c_of(
                reg_val,
                shift_t,
                shift_n,
                crate::cpu::flag_bit(self.cpu.apsr.c),
            ),
    {
        shift_c(reg_val, shift_t, shift_n, self.cpu.carry())
    }

    /// LSL with the shift-by-zero pass-through keeping the current carry.
    pub(crate) fn lsl_c(&self, reg_val: u32, shift_n: u32) -> (r: (u32, bool))
        ensures
            r == (if shift_n == 0 {
                (reg_val, self.cpu.apsr.c)
            } else {
                crate::bits::lsl_c_of(reg_val, shift_n)
            }),
    {
        if shift_n == 0 {
            (reg_val, self.cpu.read_carry_flag())
        } else {
            crate::bits::lsl_c(reg_val, shift_n)
        }
    }

    pub(crate) fn lsr_c(&self, reg_val: u32, shift_n: u32) -> (r: (u32, bool))
        ensures
            r == (if shift_n == 0 {
                (reg_val, self.cpu.apsr.c)
            } else {
                crate::bits::lsr_c_of(reg_val, shift_n)
            }),
    {
        if shift_n == 0 {
            (reg_val, self.cpu.read_carry_flag())
        } else {
            crate::bits::lsr_c(reg_val, shift_n)
        }
    }

    pub(crate) fn asr_c(&self, reg_val: u32, shift_n: u32) -> (r: (u32, bool))
        ensures
            r == (if shift_n == 0 {
                (reg_val, self.cpu.apsr.c)
            } else {
                crate::bits::asr_c_of(reg_val, shift_n)
            }),
    {
        if shift_n == 0 {
            (reg_val, self.cpu.read_carry_flag())
        } else {
            crate::bits::asr_c(reg_val, shift_n)
        }
    }

    pub(crate) fn ror_c(&self, reg_val: u32, shift_n: u32) -> (r: (u32, bool))
        ensures
            r == (if shift_n == 0 {
                (reg_val, self.cpu.apsr.c)
            } else {
                (
                    crate::bits::ror_of(reg_val, shift_n),
                    crate::bits::bit_of(crate::bits::ror_of(reg_val, shift_n), 31),
                )
            }),
    {
        if shift_n == 0 {
            (reg_val, self.cpu.read_carry_flag())
        } else {
            crate::bits::ror_c(reg_val, shift_n)
        }
    }

    pub(crate) fn add_with_carry_w_c(&self, reg_val: u32, imm32: u32) -> (r: (u32, bool, bool))
        ensures
            r.0 == crate::bits::awc_result(reg_val, imm32, crate::cpu::flag_bit(self.cpu.apsr.c)),
            r.1 == crate::bits::awc_carry(reg_val, imm32, crate::cpu::flag_bit(self.cpu.apsr.c)),
            r.2 == crate::bits::awc_overflow(
                reg_val,
                imm32,
                crate::cpu::flag_bit(self.cpu.apsr.c),
            ),
    {
        add_with_carry(reg_val, imm32, self.cpu.carry())
    }

    pub(crate) fn set_flags_nz(&mut self, result: u32)
        requires
            old(self).inv(),
        ensures
            final(self).inv(),
            final(self).cpu.apsr.n == crate::bits::bit_of(result, 31),
            final(self).cpu.apsr.z == (result == 0),
            final(self).cpu.apsr.c == old(self).cpu.apsr.c,
            final(self).cpu.apsr.v == old(self).cpu.apsr.v,
            final(self).cpu.apsr.q == old(self).cpu.apsr.q,
            final(self).cpu.apsr.ge == old(self).cpu.apsr.ge,
            crate::cpu::same_but_apsr(old(self).cpu, final(self).cpu),
            frame_all_but_cpu(*old(self), *final(self)),
    {
        self.cpu.set_negative_flag(bitset(result, 31));
        self.cpu.set_zero_flag(result == 0);
    }

    pub(crate) fn set_flags_nzc(&mut self, result: u32, carry: bool)
        requires
            old(self).inv(),
        ensures
            final(self).inv(),
            final(self).cpu.apsr.n == crate::bits::bit_of(result, 31),
            final(self).cpu.apsr.z == (result == 0),
            final(self).cpu.apsr.c == carry,
            final(self).cpu.apsr.v == old(self).cpu.apsr.v,
            final(self).cpu.apsr.q == old(self).cpu.apsr.q,
            final(self).cpu.apsr.ge == old(self).cpu.apsr.ge,
            crate::cpu::same_but_apsr(old(self).cpu, final(self).cpu),
            frame_all_but_cpu(*old(self), *final(self)),
    {
        self.set_flags_nz(result);
        self.cpu.set_carry_flag(carry);
    }

    pub(crate) fn set_flags_nzcv(&mut self, result: u32, carry: bool, overflow: bool)
        requires
            old(self).inv(),
        ensures
            final(self).inv(),
            final(self).cpu.apsr.n == crate::bits::bit_of(result, 31),
            final(self).cpu.apsr.z == (result == 0),
            final(self).cpu.apsr.c == carry,
            final(self).cpu.apsr.v == overflow,
            final(self).cpu.apsr.q == old(self).cpu.apsr.q,
            final(self).cpu.apsr.ge == old(self).cpu.apsr.ge,
            crate::cpu::same_but_apsr(old(self).cpu, final(self).cpu),
            frame_all_but_cpu(*old(self), *final(self)),
    {
        self.set_flags_nzc(result, carry);
        self.cpu.set_overflow_flag(overflow);
    }

    /// N and Z from the result; C follows the modified-immediate spill
    /// nibble: no change, or a forced value from the expansion.
    pub(crate) fn set_flags_nz_alt_c(&mut self, result: u32, spill_tag: u32)
        requires
            old(self).inv(),
        ensures
            final(self).inv(),
            final(self).cpu.apsr.n == crate::bits::bit_of(result, 31),
            final(self).cpu.apsr.z == (result == 0),
            final(self).cpu.apsr.c == spill_carry(spill_tag, old(self).cpu.apsr.c),
            final(self).cpu.apsr.v == old(self).cpu.apsr.v,
            final(self).cpu.apsr.q == old(self).cpu.apsr.q,
            final(self).cpu.apsr.ge == old(self).cpu.apsr.ge,
            crate::cpu::same_but_apsr(old(self).cpu, final(self).cpu),
            frame_all_but_cpu(*old(self), *final(self)),
    {
        self.set_flags_nz(result);
        let sel = (spill_tag >> 2) & 0b11;
        if sel == 0b10 {
            self.cpu.set_carry_flag(false);
        } else if sel == 0b11 {
            self.cpu.set_carry_flag(true);
        }
    }

    /// A taken branch also drops any exclusive reservation.
    pub(crate) fn branch_to(&mut self, address: u32)
        requires
            old(self).inv(),
        ensures
            final(self).inv(),
            final(self).cpu == (crate::cpu::CPU { instr_pc: address, ..old(self).cpu }),
            !final(self).exclusive_monitors.is_reserved(),
            frame_all_but_cpu_monitor(*old(self), *final(self)),
    {
        self.exclusive_monitors_clear();
        self.set_pc(address);
    }

    /// A branch always lands halfword-aligned: bit 0 is cleared.
    pub(crate) fn branch_write_pc(&mut self, address: u32)
        requires
            old(self).inv(),
        ensures
            final(self).inv(),
            final(self).cpu == (crate::cpu::CPU { instr_pc: address & !0b1u32, ..old(self).cpu }),
            final(self).cpu.instr_pc % 2 == 0,
            !final(self).exclusive_monitors.is_reserved(),
            frame_all_but_cpu_monitor(*old(self), *final(self)),
    {
        proof {
            assert(forall|x: u32| #[trigger] (x & !0b1u32) % 2 == 0) by (bit_vector);
        }
        self.branch_to(address & !0b1);
    }

    /// Interworking branch: in handler mode a magic address returns from
    /// the exception (unimplemented: routed to the fault handler).
    pub(crate) fn bx_write_pc(&mut self, address: u32)
        requires
            old(self).inv(),
        ensures
            final(self).inv(),
            pc_even_kept(*old(self), *final(self)),
            final(self).cpu.registers@ == old(self).cpu.registers@,
            old(self).cpu.current_mode == crate::cpu::ExecMode::ModeThread ==> final(self).cpu
                == (crate::cpu::CPU {
                instr_pc: address & !0b1u32,
                epsr: (crate::cpu::EPSR { t: crate::bits::bit_of(address, 0) }),
                ..old(self).cpu
            }) && !final(self).exclusive_monitors.is_reserved(),
            frame_all_but_cpu_monitor_flag(*old(self), *final(self)),
    {
        let is_handler = match self.cpu.current_mode {
            ExecMode::ModeHandler => true,
            ExecMode::ModeThread => false,
        };
        if is_handler && (address >> 28) == 0xF {
            self.pending_default_handler = true;
        } else {
            self.blx_write_pc(address);
        }
    }

    /// Bit 0 selects the instruction set; ARM state does not exist on this
    /// profile, so a cleared bit raises the invalid-state usage fault.
    pub(crate) fn blx_write_pc(&mut self, address: u32)
        requires
            old(self).inv(),
        ensures
            final(self).inv(),
            final(self).cpu == (crate::cpu::CPU {
                instr_pc: address & !0b1u32,
                epsr: (crate::cpu::EPSR { t: crate::bits::bit_of(address, 0) }),
                ..old(self).cpu
            }),
            final(self).cpu.instr_pc % 2 == 0,
            !crate::bits::bit_of(address, 0) ==> final(self).pending_default_handler,
            crate::bits::bit_of(address, 0) ==> final(self).pending_default_handler == old(self).pending_default_handler,
            !final(self).exclusive_monitors.is_reserved(),
            frame_all_but_cpu_monitor_flag(*old(self), *final(self)),
    {
        proof {
            assert(forall|x: u32| #[trigger] (x & !0b1u32) % 2 == 0) by (bit_vector);
        }
        self.cpu.set_thumb_mode(bitset(address, 0));
        if !self.cpu.read_thumb_mode() {
            self.pending_default_handler = true;
        }
        self.branch_to(address & !0b1);
    }

    pub(crate) fn load_write_pc(&mut self, address: u32)
        requires
            old(self).inv(),
        ensures
            final(self).inv(),
            pc_even_kept(*old(self), *final(self)),
            old(self).cpu.current_mode == crate::cpu::ExecMode::ModeThread ==> final(self).cpu
                == (crate::cpu::CPU {
                instr_pc: address & !0b1u32,
                epsr: (crate::cpu::EPSR { t: crate::bits::bit_of(address, 0) }),
                ..old(self).cpu
            }) && !final(self).exclusive_monitors.is_reserved(),
            frame_all_but_cpu_monitor_flag(*old(self), *final(self)),
    {
        self.bx_write_pc(address);
    }

    pub(crate) fn alu_write_pc(&mut self, address: u32)
        requires
            old(self).inv(),
        ensures
            final(self).inv(),
            final(self).cpu == (crate::cpu::CPU { instr_pc: address & !0b1u32, ..old(self).cpu }),
            final(self).cpu.instr_pc % 2 == 0,
            !final(self).exclusive_monitors.is_reserved(),
            frame_all_but_cpu_monitor(*old(self), *final(self)),
    {
        self.branch_write_pc(address);
    }

    pub(crate) fn set_exclusive_monitors(&mut self, address: u32, length: u32)
        requires
            old(self).inv(),
        ensures
            final(self).inv(),
            final(self).cpu == old(self).cpu,
            final(self).exclusive_monitors.is_reserved(),
            frame_all_but_monitor(*old(self), *final(self)),
    {
        self.exclusive_monitors.set_exclusive_monitors(address, length);
    }

    pub(crate) fn exclusive_monitors_pass(&mut self, address: u32, length: u32) -> (r: bool)
        requires
            old(self).inv(),
            length == 1 || length == 2 || length == 4,
        ensures
            final(self).inv(),
            final(self).cpu == old(self).cpu,
            final(self).memory == old(self).memory,
            r == (address % length == 0 && old(self).exclusive_monitors.is_reserved()),
            address % length == 0 ==> !final(self).exclusive_monitors.is_reserved(),
            address % length != 0 ==> final(self).exclusive_monitors.is_reserved() == old(self).exclusive_monitors.is_reserved() && final(self).pending_default_handler,
            frame_all_but_cpu_monitor_flag(*old(self), *final(self)),
    {
        match self.exclusive_monitors.exclusive_monitors_pass(address, length) {
            Ok(passed) => passed,
            Err(_) => {
                self.pending_default_handler = true;
                false
            },
        }
    }

    pub(crate) fn exclusive_monitors_clear(&mut self)
        requires
            old(self).inv(),
        ensures
            final(self).inv(),
            final(self).cpu == old(self).cpu,
            !final(self).exclusive_monitors.is_reserved(),
            frame_all_but_monitor(*old(self), *final(self)),
    {
        self.exclusive_monitors.clear_exclusive_local();
    }

    /// Reads out a byte region for the debugger: when every byte of the
    /// region is readable the result holds exactly those bytes; as soon
    /// as any byte is unreadable the whole region comes back zeroed, as
    /// padding rather than an error.
    #[verifier::rlimit(100)]
    #[verifier::spinoff_prover]
    pub fn read_memory_region(&self, start: u32, bytes: u32) -> (r: Vec<u8>)
        requires
            self.inv(),
        ensures
            r@.len() == bytes,
            region_readable(self.memory, start, bytes) ==> forall|i: int|
                0 <= i < bytes ==> #[trigger] r@[i] == region_byte(self.memory, start, i),
            !region_readable(self.memory, start, bytes) ==> forall|i: int|
                0 <= i < bytes ==> #[trigger] r@[i] == 0u8,
    {
        let mut out: Vec<u8> = Vec::new();
        let mut i: u32 = 0;
        while i < bytes
            invariant
                self.inv(),
                i <= bytes,
                out@.len() == i,
                region_readable(self.memory, start, i),
                forall|j: int|
                    0 <= j < i ==> #[trigger] out@[j] == region_byte(self.memory, start, j),
            decreases bytes - i,
        {
            match self.memory.read_mem_u(start.wrapping_add(i), 1) {
                Ok(v) => {
                    proof {
                        assert(crate::memory::read_u_of(
                            self.memory,
                            ((start + i) % 0x1_0000_0000) as u32,
                            1,
                        ) is Ok);
                        assert forall|j: int|
                            0 <= j < i + 1 implies #[trigger] crate::memory::read_u_of(
                            self.memory,
                            ((start + j) % 0x1_0000_0000) as u32,
                            1,
                        ) is Ok by {
                            if j < i {
                                assert(region_readable(self.memory, start, i));
                            }
                        }
                    }
                    out.push((v % 256) as u8);
                },
                Err(_) => {
                    proof {
                        assert(crate::memory::read_u_of(
                            self.memory,
                            ((start + i) % 0x1_0000_0000) as u32,
                            1,
                        ) is Err);
                        assert(!region_readable(self.memory, start, bytes));
                    }
                    return zero_vec(bytes);
                },
            }
            i = i + 1;
        }
        out
    }

    fn get_default_handler(&self) -> (r: Option<u32>)
        requires
            self.inv(),
        ensures
            r == hard_fault_vector(self.memory),
    {
        match self.memory.read_mem_u(3 * 4, 4) {
            Ok(hard_fault_addr) => {
                if 0x0800_0000 <= hard_fault_addr && hard_fault_addr <= 0x0800_0000 + (
                crate::memory::FLASH_SIZE as u32) {
                    Some(hard_fault_addr)
                } else {
                    None
                }
            },
            Err(_) => None,
        }
    }

    /// Routes a pending fault: the program counter takes the hard-fault
    /// vector (bit 0 cleared), the fault flag and the exclusive
    /// reservation drop. Fails exactly when the vector word cannot be
    /// read or does not point into flash.
    fn try_goto_default_handler(&mut self) -> (r: Result<(), ()>)
        requires
            old(self).inv(),
        ensures
            final(self).inv(),
            r is Ok <==> hard_fault_vector(old(self).memory) is Some,
            r is Ok ==> final(self).cpu == (crate::cpu::CPU {
                instr_pc: hard_fault_vector(old(self).memory)->Some_0 & !0b1u32,
                ..old(self).cpu
            }) && !final(self).pending_default_handler && !final(self).exclusive_monitors.is_reserved() && final(self).memory == old(self).memory,
            r is Ok ==> final(self).cpu.instr_pc % 2 == 0,
            r is Err ==> *final(self) == *old(self),
    {
        match self.get_default_handler() {
            Some(h) => {
                self.exclusive_monitors_clear();
                self.pending_default_handler = false;
                self.branch_write_pc(h);
                Ok(())
            },
            None => Err(()),
        }
    }

    /// Fetch: publishes the architectural PC, consults the cache, decodes
    /// and installs on miss, and advances the instruction pointer past the
    /// fetched instruction. Fails when the address cannot hold code.
    fn fetch(&mut self) -> (r: Result<(ByteInstruction, bool), ()>)
        requires
            old(self).inv(),
        ensures
            final(self).inv(),
            pc_even_kept(*old(self), *final(self)),
            r matches Ok(iw) ==> wf_instr(iw.0) && iw.1 == instr_wide(iw.0),
            r matches Ok(iw) ==> final(self).cpu.instr_pc == old(self).cpu.instr_pc + (if iw.1 {
                4int
            } else {
                2int
            }),
            r matches Ok(iw) ==> crate::bytecode::cacheable(old(self).cpu.instr_pc) && final(self).instruction_cache.spec_get(old(self).cpu.instr_pc) == iw.0 && crate::tag::instr_cached(
                iw.0,
            ),
            crate::bytecode::cacheable(old(self).cpu.instr_pc) && crate::tag::instr_cached(
                old(self).instruction_cache.spec_get(old(self).cpu.instr_pc),
            ) ==> r == Ok::<(ByteInstruction, bool), ()>(
                (
                    old(self).instruction_cache.spec_get(old(self).cpu.instr_pc),
                    instr_wide(old(self).instruction_cache.spec_get(old(self).cpu.instr_pc)),
                ),
            ),
            final(self).cpu.registers@ == old(self).cpu.registers@.update(
                15,
                ((old(self).cpu.instr_pc + 4) % 0x1_0000_0000) as u32,
            ),
    {
        let pc = self.cpu.update_instruction_address();
        let cached = self.instruction_cache.get_cached(pc);
        let mut instruction: ByteInstruction = match cached {
            Some(entry) => entry,
            None => {
                return Err(());
            },
        };
        if !tag::has_cached(instruction) {
            let raw = match self.memory.get_instr_word(pc) {
                Some(w) => w,
                None => {
                    return Err(());
                },
            };
            let it_pos = self.cpu.itstate.position();
            let decoded = decode_thumb(raw, InstructionContext::new(pc, it_pos));
            instruction = decoded.0;
            if decoded.1 {
                self.instruction_cache.write_cache_wide(pc, instruction);
            } else {
                self.instruction_cache.write_cache_narrow(pc, instruction);
            }
        }
        let wide = tag::is_wide(instruction);
        self.cpu.inc_pc(wide);
        Ok((instruction, wide))
    }

    /// Execute: under an active IT block the condition gates the effect
    /// but the IT state advances regardless.
    fn execute(&mut self, instr: ByteInstruction, wide: bool)
        requires
            old(self).inv(),
            wf_instr(instr),
            wide == instr_wide(instr),
        ensures
            final(self).inv(),
            pc_even_kept(*old(self), *final(self)),
            old(self).cpu.itstate.state != 0 && !crate::cpu::cond_holds(
                old(self).cpu.apsr,
                crate::cpu::cond_of((old(self).cpu.itstate.state >> 4) & 0xF),
            ) ==> final(self).cpu == (crate::cpu::CPU {
                itstate: (crate::cpu::ItState {
                    state: crate::cpu::advance_of(old(self).cpu.itstate.state),
                }),
                ..old(self).cpu
            }) && final(self).memory == old(self).memory && final(self).instruction_cache == old(self).instruction_cache && final(self).exclusive_monitors == old(self).exclusive_monitors
                && final(self).pending_default_handler == old(self).pending_default_handler,
    {
        self.tick = self.tick.wrapping_add(1);
        let opcode = tag::get_opcode(instr);
        let data = tag::get_data(instr);
        let extra = tag::get_extra(instr);

        if self.cpu.itstate.active() {
            let cond = self.cpu.itstate.condition();
            let execute = self.cpu.check_condition(cond);
            self.cpu.itstate.advance();
            if !execute {
                return;
            }
        }
        if wide {
            self.execute_wide(opcode, data, extra);
        } else {
            self.execute_narrow(opcode, data);
        }
    }

    /// One architectural step: fetch (or fault), execute, then route any
    /// pending fault through the hard-fault vector. The hidden instruction
    /// pointer stays halfword-aligned.
    pub fn step(&mut self) -> (r: Result<(), ()>)
        requires
            old(self).inv(),
        ensures
            final(self).inv(),
            pc_even_kept(*old(self), *final(self)),
            r is Ok ==> !final(self).pending_default_handler,
    {
        match self.fetch() {
            Ok((i, w)) => {
                self.execute(i, w);
            },
            Err(_) => {
                self.pending_default_handler = true;
            },
        }
        if self.pending_default_handler {
            match self.try_goto_default_handler() {
                Ok(_) => {},
                Err(_) => {
                    return Err(());
                },
            }
        }
        Ok(())
    }

    pub fn step_n(&mut self, steps: u32) -> (r: Result<(), ()>)
        requires
            old(self).inv(),
        ensures
            final(self).inv(),
            pc_even_kept(*old(self), *final(self)),
    {
        let mut i: u32 = 0;
        while i < steps
            invariant
                self.inv(),
                pc_even_kept(*old(self), *self),
            decreases steps - i,
        {
            let r = self.step();
            if r.is_err() {
                return r;
            }
            i = i + 1;
        }
        Ok(())
    }
}

/// The CPU outside the register file and the APSR agrees, and the board
/// outside the CPU agrees: the frame of an ALU write-back.
pub(crate) open spec fn cpu_frame(a: Board, b: Board) -> bool {
    &&& b.cpu.instr_pc == a.cpu.instr_pc
    &&& b.cpu.sp_unpredictable == a.cpu.sp_unpredictable
    &&& b.cpu.sp_main == a.cpu.sp_main
    &&& b.cpu.sp_process == a.cpu.sp_process
    &&& b.cpu.ipsr == a.cpu.ipsr
    &&& b.cpu.epsr == a.cpu.epsr
    &&& b.cpu.itstate.state == a.cpu.itstate.state
    &&& b.cpu.control == a.cpu.control
    &&& b.cpu.current_mode == a.cpu.current_mode
    &&& frame_all_but_cpu(a, b)
}

/// An ALU write-back: the destination register takes `val`; when
/// `setflags` holds the N/Z/C/V flags take the given values (Q and GE
/// kept), otherwise the whole APSR is kept. Nothing else moves.
pub(crate) open spec fn alu_wrote(
    a: Board,
    b: Board,
    rd: u32,
    val: u32,
    setflags: bool,
    n: bool,
    z: bool,
    c: bool,
    v: bool,
) -> bool {
    &&& b.cpu.registers@ == a.cpu.registers@.update(rd as int, val)
    &&& b.cpu.apsr == (if setflags {
        crate::cpu::APSR { n, z, c, v, q: a.cpu.apsr.q, ge: a.cpu.apsr.ge }
    } else {
        a.cpu.apsr
    })
    &&& cpu_frame(a, b)
}

/// A comparison: the N/Z/C/V flags take the given values, the registers
/// are kept, nothing else moves.
pub(crate) open spec fn flags_wrote(a: Board, b: Board, n: bool, z: bool, c: bool, v: bool) -> bool {
    &&& b.cpu.registers@ == a.cpu.registers@
    &&& b.cpu.apsr == (crate::cpu::APSR { n, z, c, v, q: a.cpu.apsr.q, ge: a.cpu.apsr.ge })
    &&& cpu_frame(a, b)
}

/// The carry flag after a flag-setting operation on a modified immediate:
/// the spill nibble either forces a value or keeps the old carry.
pub(crate) open spec fn spill_carry(data: u32, c: bool) -> bool {
    if (data >> 2) & 0b11 == 0b10 {
        false
    } else if (data >> 2) & 0b11 == 0b11 {
        true
    } else {
        c
    }
}

/// The hard-fault vector: the word at address 12, accepted only when it
/// points into flash.
pub open spec fn hard_fault_vector(m: MemoryBus) -> Option<u32> {
    match crate::memory::read_u_of(m, 12, 4) {
        Ok(h) => if 0x0800_0000 <= h <= 0x0800_0000 + crate::memory::FLASH_SIZE {
            Some(h)
        } else {
            Option::None
        },
        Err(_) => Option::None,
    }
}

/// Every byte of the region reads successfully on the bus.
pub open spec fn region_readable(m: MemoryBus, start: u32, bytes: u32) -> bool {
    forall|i: int|
        0 <= i < bytes ==> #[trigger] crate::memory::read_u_of(
            m,
            ((start + i) % 0x1_0000_0000) as u32,
            1,
        ) is Ok
}

/// The byte the bus yields at offset `i` of the region.
pub open spec fn region_byte(m: MemoryBus, start: u32, i: int) -> u8 {
    match crate::memory::read_u_of(m, ((start + i) % 0x1_0000_0000) as u32, 1) {
        Ok(v) => (v % 256) as u8,
        Err(_) => 0u8,
    }
}

fn zero_vec(bytes: u32) -> (r: Vec<u8>)
    ensures
        r@.len() == bytes,
        forall|i: int| 0 <= i < bytes ==> #[trigger] r@[i] == 0u8,
{
    let mut out: Vec<u8> = Vec::new();
    let mut i: u32 = 0;
    while i < bytes
        invariant
            i <= bytes,
            out@.len() == i,
            forall|j: int| 0 <= j < i ==> #[trigger] out@[j] == 0u8,
        decreases bytes - i,
    {
        out.push(0);
        i = i + 1;
    }
    out
}

/// Everything outside the CPU agrees.
pub(crate) open spec fn frame_all_but_cpu(a: Board, b: Board) -> bool {
    &&& a.tick == b.tick
    &&& a.audio_handler.sender == b.audio_handler.sender
    &&& a.audio_handler.samples == b.audio_handler.samples
    &&& a.instruction_cache == b.instruction_cache
    &&& a.memory == b.memory
    &&& a.branch_map@ == b.branch_map@
    &&& a.exclusive_monitors == b.exclusive_monitors
    &&& a.pending_default_handler == b.pending_default_handler
}

/// Everything outside the CPU and the exclusive monitor agrees.
pub(crate) open spec fn frame_all_but_cpu_monitor(a: Board, b: Board) -> bool {
    &&& a.tick == b.tick
    &&& a.audio_handler.sender == b.audio_handler.sender
    &&& a.audio_handler.samples == b.audio_handler.samples
    &&& a.instruction_cache == b.instruction_cache
    &&& a.memory == b.memory
    &&& a.branch_map@ == b.branch_map@
    &&& a.pending_default_handler == b.pending_default_handler
}

/// Everything outside the CPU, the monitor and the fault flag agrees.
pub(crate) open spec fn frame_all_but_cpu_monitor_flag(a: Board, b: Board) -> bool {
    &&& a.tick == b.tick
    &&& a.audio_handler.sender == b.audio_handler.sender
    &&& a.audio_handler.samples == b.audio_handler.samples
    &&& a.instruction_cache == b.instruction_cache
    &&& a.memory == b.memory
    &&& a.branch_map@ == b.branch_map@
}

/// Everything outside the CPU and the fault flag agrees.
pub(crate) open spec fn frame_all_but_cpu_flag(a: Board, b: Board) -> bool {
    &&& a.tick == b.tick
    &&& a.audio_handler.sender == b.audio_handler.sender
    &&& a.audio_handler.samples == b.audio_handler.samples
    &&& a.instruction_cache == b.instruction_cache
    &&& a.memory == b.memory
    &&& a.branch_map@ == b.branch_map@
    &&& a.exclusive_monitors == b.exclusive_monitors
}

/// Everything outside the fault flag agrees (reads may fault).
pub(crate) open spec fn frame_all_but_flag(a: Board, b: Board) -> bool {
    &&& a.tick == b.tick
    &&& a.audio_handler.sender == b.audio_handler.sender
    &&& a.audio_handler.samples == b.audio_handler.samples
    &&& a.instruction_cache == b.instruction_cache
    &&& a.branch_map@ == b.branch_map@
    &&& a.exclusive_monitors == b.exclusive_monitors
}

/// Everything outside the fault flag and the memory agrees.
pub(crate) open spec fn frame_all_but_flag_mem(a: Board, b: Board) -> bool {
    &&& a.tick == b.tick
    &&& a.audio_handler.sender == b.audio_handler.sender
    &&& a.audio_handler.samples == b.audio_handler.samples
    &&& a.instruction_cache == b.instruction_cache
    &&& a.cpu == b.cpu
    &&& a.branch_map@ == b.branch_map@
    &&& a.exclusive_monitors == b.exclusive_monitors
}

/// Everything outside the exclusive monitor agrees.
pub(crate) open spec fn frame_all_but_monitor(a: Board, b: Board) -> bool {
    &&& a.tick == b.tick
    &&& a.audio_handler.sender == b.audio_handler.sender
    &&& a.audio_handler.samples == b.audio_handler.samples
    &&& a.instruction_cache == b.instruction_cache
    &&& a.cpu == b.cpu
    &&& a.memory == b.memory
    &&& a.branch_map@ == b.branch_map@
    &&& a.pending_default_handler == b.pending_default_handler
}

} // verus!
