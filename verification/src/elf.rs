//! Program load: an ELF image arrives as bytes; its loadable segments are
//! copied into flash, special symbols are entered into the skip-or-
//! intercept map, and the core registers take their reset values from the
//! vector table.

use vstd::prelude::*;
use crate::board::Board;
use crate::memory::FLASH_SIZE;

verus! {

broadcast use crate::bits::lemma_and_bound;

/// One program header, as plain values.
pub struct Segment {
    pub p_type: u32,
    pub vaddr: u64,
    pub paddr: u64,
    pub offset: u64,
    pub filesz: u64,
}

/// The only program-header type the loader accepts.
pub const PT_LOAD_TYPE: u32 = 1;

/// Relies on goblin's Elf::parse: yields the program headers and the
/// symbol table of the image as plain values, each symbol's name resolved
/// through the string table.
#[verifier::external_body]
fn parse_elf_image(bytes: &Vec<u8>) -> (r: Result<(Vec<Segment>, Vec<(String, u64)>), ()>)
{
    let elf = match goblin::elf::Elf::parse(bytes) {
        Ok(e) => e,
        Err(_) => return Err(()),
    };
    let segments = elf.program_headers.iter().map(|h| Segment {
        p_type: h.p_type,
        vaddr: h.p_vaddr,
        paddr: h.p_paddr,
        offset: h.p_offset,
        filesz: h.p_filesz,
    }).collect();
    let symbols = elf.syms.iter().filter_map(|sym| {
        elf.strtab.get_at(sym.st_name).map(|name| (name.to_string(), sym.st_value))
    }).collect();
    Ok((segments, symbols))
}

pub(crate) fn audio_symbol_bsp() -> String {
    "BSP_AUDIO_OUT_Play_Sample".to_owned()
}

pub(crate) fn audio_symbol_plain() -> String {
    "audio_play_sample".to_owned()
}

/// The fixed allowlist of firmware symbols whose calls are intercepted:
/// the audio-sample entry feeds the audio sink, the rest are skipped.
fn special_symbols() -> Vec<String> {
    let mut v: Vec<String> = Vec::new();
    v.push("SystemInit".to_owned());
    v.push("__libc_init_array".to_owned());
    v.push("init".to_owned());
    v.push("audio_init".to_owned());
    v.push(audio_symbol_plain());
    v.push("init_joystick".to_owned());
    v.push("joystick_init_all".to_owned());
    v.push("joystick_enable_interrupts_all".to_owned());
    v.push("lcd_init".to_owned());
    v.push("lcd_write_char".to_owned());
    v.push("lcd_write_string".to_owned());
    v.push("lcd_update_display".to_owned());
    v.push("maximise_clock_speed".to_owned());
    v.push(audio_symbol_bsp());
    v
}

impl Board {
    /// Copies raw bytes into flash at an absolute flash address and drops
    /// any stale cached decodes. Succeeds exactly when the whole range
    /// lies inside flash.
    pub fn load_flash(&mut self, address: u32, bytes: &Vec<u8>) -> (r: Result<(), ()>)
        requires
            old(self).inv(),
        ensures
            final(self).inv(),
            final(self).cpu == old(self).cpu,
            r is Ok <==> (0x0800_0000 <= address && address - 0x0800_0000 + bytes@.len()
                <= FLASH_SIZE),
            r is Ok ==> forall|j: int|
                0 <= j < bytes@.len() ==> #[trigger] final(self).memory.flash@[address
                    - 0x0800_0000 + j] == bytes@[j],
    {
        let len = bytes.len();
        if address < 0x0800_0000 {
            return Err(());
        }
        let idx = (address - 0x0800_0000) as usize;
        if idx > FLASH_SIZE || len > FLASH_SIZE - idx {
            return Err(());
        }
        self.memory.copy_to_flash(idx, bytes, 0, len);
        self.instruction_cache.clear();
        Ok(())
    }

    /// Takes the reset values from the vector table: SP from address 0,
    /// LR forced to all-ones, and the PC (with its Thumb bit) from
    /// address 4.
    pub fn reset_registers(&mut self) -> (r: Result<(), ()>)
        requires
            old(self).inv(),
        ensures
            final(self).inv(),
            r is Ok <==> crate::memory::read_a_of(old(self).memory, 0, 4) is Ok
                && crate::memory::read_a_of(old(self).memory, 4, 4) is Ok,
            r is Ok ==> ({
                let sp = crate::memory::read_a_of(old(self).memory, 0, 4)->Ok_0;
                let pc = crate::memory::read_a_of(old(self).memory, 4, 4)->Ok_0;
                &&& final(self).cpu.registers@ == old(self).cpu.registers@.update(13, sp).update(
                    14,
                    0xFFFF_FFFFu32,
                ).update(15, pc & !0b1u32)
                &&& (old(self).cpu.current_mode == crate::cpu::ExecMode::ModeThread ==> final(self).cpu.instr_pc == pc & !0b1u32 && final(self).cpu.epsr.t == crate::bits::bit_of(
                    pc,
                    0,
                ))
                &&& final(self).memory == old(self).memory
            }),
    {
        let sp = match self.memory.read_mem_a(0x0000_0000, 4) {
            Ok(v) => v,
            Err(_) => {
                return Err(());
            },
        };
        self.cpu.write_reg(13, sp);
        self.cpu.write_reg(14, 0xFFFF_FFFF);
        let pc = match self.memory.read_mem_a(0x0000_0004, 4) {
            Ok(v) => v,
            Err(_) => {
                return Err(());
            },
        };
        self.cpu.write_reg(15, pc & !0b1);
        self.bx_write_pc(pc);
        Ok(())
    }

    /// Loads a whole ELF image: every loadable segment whose address lies
    /// in flash is copied in, the special symbols are registered, and the
    /// core is reset from the vector table.
    pub fn load_elf_image(&mut self, bytes: &Vec<u8>) -> (r: Result<(), ()>)
        requires
            old(self).inv(),
        ensures
            final(self).inv(),
            r is Ok ==> ({
                let sp = crate::memory::read_a_of(final(self).memory, 0, 4);
                let pc = crate::memory::read_a_of(final(self).memory, 4, 4);
                &&& sp is Ok
                &&& pc is Ok
                &&& final(self).cpu.registers@[13] == sp->Ok_0
                &&& final(self).cpu.registers@[14] == 0xFFFF_FFFFu32
                &&& final(self).cpu.registers@[15] == pc->Ok_0 & !0b1u32
                &&& (old(self).cpu.current_mode == crate::cpu::ExecMode::ModeThread ==> final(self).cpu.instr_pc == pc->Ok_0 & !0b1u32)
            }),
    {
        let parsed = parse_elf_image(bytes);
        let (segments, symbols) = match parsed {
            Ok(p) => p,
            Err(_) => {
                return Err(());
            },
        };

        let bytes_len = bytes.len();
        let mut si: usize = 0;
        while si < segments.len()
            invariant
                self.inv(),
                bytes_len == bytes@.len(),
                self.cpu == old(self).cpu,
            decreases segments@.len() - si,
        {
            let seg = &segments[si];
            si = si + 1;
            if seg.p_type != PT_LOAD_TYPE {
                return Err(());
            }
            if seg.vaddr < 0x0800_0000 {
                continue ;
            }
            if seg.paddr < 0x0800_0000 || seg.paddr >= 0x0800_0000 + (FLASH_SIZE as u64) {
                return Err(());
            }
            let start_index = (seg.paddr - 0x0800_0000) as usize;
            if seg.filesz > (FLASH_SIZE as u64) || start_index > FLASH_SIZE - (seg.filesz as usize)
             {
                return Err(());
            }
            if seg.offset > (bytes_len as u64) || seg.filesz > (bytes_len as u64) - seg.offset {
                return Err(());
            }
            self.memory.copy_to_flash(
                start_index,
                bytes,
                seg.offset as usize,
                seg.filesz as usize,
            );
        }

        let allow = special_symbols();
        let ghost loaded = *self;
        let mut yi: usize = 0;
        while yi < symbols.len()
            invariant
                self.inv(),
                self.cpu == loaded.cpu,
                self.memory == loaded.memory,
                loaded.cpu == old(self).cpu,
            decreases symbols@.len() - yi,
        {
            let name = &symbols[yi].0;
            let value = symbols[yi].1;
            yi = yi + 1;
            let mut ai: usize = 0;
            let mut matched = false;
            while ai < allow.len()
                invariant
                    self.inv(),
                    self.cpu == loaded.cpu,
                    self.memory == loaded.memory,
                decreases allow@.len() - ai,
            {
                if *name == allow[ai] {
                    matched = true;
                }
                ai = ai + 1;
            }
            if matched {
                let low = (value % 0x1_0000_0000) as u32;
                let address = low & !0b1;
                self.branch_map.insert(address, name.clone());
            }
        }

        self.instruction_cache.clear();
        self.reset_registers()
    }
}

} // verus!
