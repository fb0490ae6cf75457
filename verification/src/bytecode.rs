//! The decoded-instruction types shared by the decoder, the cache and the
//! executor: the packed two-word operation, the IT-block position that a
//! decode depends on, and the program-counter keyed instruction cache.

use vstd::prelude::*;
use crate::tag::{wf_instr, instr_cached};

verus! {

/// A decoded operation, packed into two 32-bit words (see `tag`).
pub type ByteInstruction = (u32, u32);

/// Where an instruction stands relative to an IT block.
#[derive(Clone, Copy, Debug, PartialEq, Eq, Structural)]
pub enum ItPos {
    Outside,
    Within,
    Last,
}

/// What a decode depends on besides the raw halfwords: the address of the
/// instruction and the IT position it executes at.
#[derive(Clone, Copy, Debug)]
pub struct InstructionContext {
    pub pc: u32,
    pub it_pos: ItPos,
}

impl InstructionContext {
    pub fn new(pc: u32, it_pos: ItPos) -> (r: InstructionContext)
        ensures
            r.pc == pc,
            r.it_pos == it_pos,
    {
        InstructionContext { pc, it_pos }
    }
}

/// Lowest flash address; code only executes out of flash.
pub const FLASH_ORIGIN: u32 = 0x0800_0000;

/// Size of the flash bank in bytes.
pub const FLASH_LENGTH: u32 = 0x0010_0000;

/// One cache slot per halfword of flash.
pub const CACHE_ENTRIES: usize = 0x0008_0000;

/// A store of decoded operations keyed by halfword-aligned flash address.
/// A slot whose `cached` bit is clear is a miss sentinel; the driver
/// decodes and installs on miss. Every slot always holds a well-formed
/// payload, so the executor can rely on what it pulls out.
pub struct InstructionCache {
    entries: Vec<ByteInstruction>,
}

/// True iff `pc` has a cache slot: halfword-aligned and within flash.
pub open spec fn cacheable(pc: u32) -> bool {
    FLASH_ORIGIN <= pc < FLASH_ORIGIN + FLASH_LENGTH && pc % 2 == 0
}

/// The slot index of a cacheable address.
pub open spec fn slot_of(pc: u32) -> int {
    (pc - FLASH_ORIGIN) / 2
}

fn blank_entries() -> (r: Vec<ByteInstruction>)
    ensures
        r@.len() == CACHE_ENTRIES,
        forall|j: int| 0 <= j < r@.len() ==> r@[j] == (0u32, 0u32),
{
    let mut entries: Vec<ByteInstruction> = Vec::new();
    let mut i: usize = 0;
    while i < CACHE_ENTRIES
        invariant
            i <= CACHE_ENTRIES,
            entries@.len() == i,
            forall|j: int| 0 <= j < i ==> entries@[j] == (0u32, 0u32),
        decreases CACHE_ENTRIES - i,
    {
        entries.push((0, 0));
        i = i + 1;
    }
    entries
}

impl InstructionCache {
    /// All slots hold well-formed payloads.
    pub closed spec fn inv(self) -> bool {
        &&& self.entries@.len() == CACHE_ENTRIES
        &&& forall|j: int| 0 <= j < self.entries@.len() ==> wf_instr(#[trigger] self.entries@[j])
    }

    /// The slot contents for a cacheable address.
    pub closed spec fn spec_get(self, pc: u32) -> ByteInstruction {
        self.entries@[slot_of(pc)]
    }

    pub fn new() -> (r: InstructionCache)
        ensures
            r.inv(),
            forall|pc: u32| cacheable(pc) ==> !instr_cached(#[trigger] r.spec_get(pc)),
    {
        let entries = blank_entries();
        proof {
            assert(0u32 & (1u32 << 22) == 0 && 0u32 & (1u32 << 23) == 0) by (bit_vector);
        }
        InstructionCache { entries }
    }

    /// Forget every cached decode, for instance when flash is reloaded.
    pub fn clear(&mut self)
        ensures
            final(self).inv(),
            forall|pc: u32| cacheable(pc) ==> !instr_cached(#[trigger] final(self).spec_get(pc)),
    {
        self.entries = blank_entries();
        proof {
            assert(0u32 & (1u32 << 22) == 0 && 0u32 & (1u32 << 23) == 0) by (bit_vector);
        }
    }

    /// Always answers: the stored operation for a cacheable address (a miss
    /// sentinel has its `cached` bit clear), or `None` for an address that
    /// has no slot and can never be cached.
    pub fn get_cached(&self, pc: u32) -> (r: Option<ByteInstruction>)
        requires
            self.inv(),
        ensures
            cacheable(pc) ==> r == Some(self.spec_get(pc)),
            !cacheable(pc) ==> r is None,
            r is Some ==> wf_instr(r->Some_0),
    {
        if FLASH_ORIGIN <= pc && pc < FLASH_ORIGIN + FLASH_LENGTH && pc % 2 == 0 {
            let idx = ((pc - FLASH_ORIGIN) / 2) as usize;
            Some(self.entries[idx])
        } else {
            None
        }
    }

    fn write_slot(&mut self, pc: u32, instr: ByteInstruction)
        requires
            old(self).inv(),
            wf_instr(instr),
        ensures
            final(self).inv(),
            cacheable(pc) ==> final(self).spec_get(pc) == instr,
            forall|q: u32|
                cacheable(q) && slot_of(q) != slot_of(pc) ==> final(self).spec_get(q) == old(
                self,
                ).spec_get(q),
            !cacheable(pc) ==> *final(self) == *old(self),
    {
        if FLASH_ORIGIN <= pc && pc < FLASH_ORIGIN + FLASH_LENGTH && pc % 2 == 0 {
            let idx = ((pc - FLASH_ORIGIN) / 2) as usize;
            self.entries.set(idx, instr);
        }
    }

    /// Installs the decode of a narrow (16-bit) instruction.
    pub fn write_cache_narrow(&mut self, pc: u32, instr: ByteInstruction)
        requires
            old(self).inv(),
            wf_instr(instr),
        ensures
            final(self).inv(),
            cacheable(pc) ==> final(self).spec_get(pc) == instr,
            forall|q: u32|
                cacheable(q) && slot_of(q) != slot_of(pc) ==> final(self).spec_get(q) == old(
                self,
                ).spec_get(q),
    {
        self.write_slot(pc, instr);
    }

    /// Installs the decode of a wide (32-bit) instruction.
    pub fn write_cache_wide(&mut self, pc: u32, instr: ByteInstruction)
        requires
            old(self).inv(),
            wf_instr(instr),
        ensures
            final(self).inv(),
            cacheable(pc) ==> final(self).spec_get(pc) == instr,
            forall|q: u32|
                cacheable(q) && slot_of(q) != slot_of(pc) ==> final(self).spec_get(q) == old(
                self,
                ).spec_get(q),
    {
        self.write_slot(pc, instr);
    }
}

/// Decodes the word fetched at an address: wide instructions use all 32
/// bits (first halfword on top), narrow ones only the top halfword. The
/// returned flag reports the width.
pub fn decode_thumb(word: u32, c: InstructionContext) -> (r: (ByteInstruction, bool))
    ensures
        wf_instr(r.0),
        crate::tag::instr_cached(r.0),
        r.1 == crate::tag::instr_wide(r.0),
        r.1 == crate::bits::is_wide_of(word),
{
    if crate::bits::is_wide_thumb(word) {
        (crate::wide::decode_thumb_wide(word, c), true)
    } else {
        (crate::narrow::decode_thumb_narrow(word >> 16, c), false)
    }
}

} // verus!
