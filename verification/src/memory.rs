//! The memory bus: address decoding into flash, the two SRAM banks and
//! the peripheral window, little-endian reads and writes of one, two or
//! four bytes, aligned and unaligned, and instruction-word fetch.

use vstd::prelude::*;
use crate::rcc::{RCC, rcc_read_of, cr_after_write};

verus! {

/// The ways a memory access can fail.
#[derive(Clone, Copy, Debug, PartialEq, Eq, Structural)]
pub enum MemError {
    OutOfBounds,
    ReadOnly,
    Unaligned,
    Unimplemented,
}

/// Where an address lands: an index into a bank, or the peripheral window
/// keeping the full address.
#[derive(Debug, PartialEq, Eq, Structural, Copy, Clone)]
pub enum Location {
    Flash(usize),
    Ram(usize),
    Ram2(usize),
    Peripheral(u32),
}

/// Little-endian value of `size` bytes of `bytes` starting at `base`.
pub open spec fn le_val(bytes: Seq<u8>, base: int, size: int) -> nat
    decreases size,
{
    if size <= 0 {
        0
    } else {
        (bytes[base] + 256 * le_val(bytes, base + 1, (size - 1) as int)) as nat
    }
}

pub proof fn lemma_le_val_bound(bytes: Seq<u8>, base: int, size: int)
    requires
        0 <= size <= 4,
    ensures
        le_val(bytes, base, size) < 0x1_0000_0000,
        size <= 3 ==> le_val(bytes, base, size) < 0x100_0000,
        size <= 2 ==> le_val(bytes, base, size) < 0x1_0000,
        size <= 1 ==> le_val(bytes, base, size) < 0x100,
    decreases size,
{
    if size > 0 {
        lemma_le_val_bound(bytes, base + 1, size - 1);
    }
}

/// Byte `i` of the little-endian encoding of `value`.
pub open spec fn byte_of(value: u32, i: int) -> u8 {
    ((value >> (8 * i) as u32) & 0xFF) as u8
}

/// Reads a little-endian value out of a bank, checking bounds.
fn read_value(bank: &Vec<u8>, base: usize, size: usize) -> (r: Result<u32, MemError>)
    requires
        size == 1 || size == 2 || size == 4,
    ensures
        base + size <= bank@.len() ==> r == Ok::<u32, MemError>(
            le_val(bank@, base as int, size as int) as u32,
        ),
        base + size > bank@.len() ==> r == Err::<u32, MemError>(MemError::OutOfBounds),
{
    let bank_len = bank.len();
    if base > bank_len || size > bank_len - base {
        return Err(MemError::OutOfBounds);
    }
    let mut result: u32 = 0;
    let mut i: usize = size;
    while i > 0
        invariant
            i <= size,
            size == 1 || size == 2 || size == 4,
            base + size <= bank@.len(),
            bank@.len() <= usize::MAX,
            result == le_val(bank@, base + i, (size - i) as int),
        decreases i,
    {
        i = i - 1;
        proof {
            lemma_le_val_bound(bank@, base + i + 1, (size - i - 1) as int);
        }
        let b = bank[base + i];
        result = result * 256 + (b as u32);
    }
    Ok(result)
}

/// Writes the low `size` bytes of `value` into a bank, little-endian,
/// checking bounds first so a failing write changes nothing.
fn write_value(value: u32, bank: &mut Vec<u8>, base: usize, size: usize) -> (r: Result<
    (),
    MemError,
>)
    requires
        size == 1 || size == 2 || size == 4,
    ensures
        final(bank)@.len() == old(bank)@.len(),
        base + size <= old(bank)@.len() ==> {
            &&& r == Ok::<(), MemError>(())
            &&& forall|j: int| 0 <= j < size ==> final(bank)@[base + j] == byte_of(value, j)
            &&& forall|j: int|
                0 <= j < old(bank)@.len() && !(base <= j < base + size) ==> final(bank)@[j] == old(
                    bank,
                )@[j]
        },
        base + size > old(bank)@.len() ==> r == Err::<(), MemError>(MemError::OutOfBounds)
            && final(bank)@ == old(bank)@,
{
    let bank_len = bank.len();
    if base > bank_len || size > bank_len - base {
        return Err(MemError::OutOfBounds);
    }
    let mut i: usize = 0;
    while i < size
        invariant
            i <= size,
            size <= 4,
            base + size <= bank@.len(),
            bank@.len() <= usize::MAX,
            bank@.len() == old(bank)@.len(),
            forall|j: int| 0 <= j < i ==> bank@[base + j] == byte_of(value, j),
            forall|j: int|
                0 <= j < bank@.len() && !(base <= j < base + i) ==> bank@[j] == old(bank)@[j],
        decreases size - i,
    {
        let b = ((value >> (8 * (i as u32))) & 0xFF) as u8;
        bank.set(base + i, b);
        i = i + 1;
    }
    Ok(())
}

/// The fixed address map: flash sits at `0x0800_0000` and is mirrored
/// (read-only) at zero and at `0x1000_0000`; main SRAM at `0x2000_0000`;
/// the peripheral window covers `0x4000_0000..=0x5FFF_FFFF`.
pub open spec fn loc_of(address: u32) -> Result<Location, MemError> {
    if address <= 0x000F_FFFF {
        Ok(Location::Flash(address as usize))
    } else if 0x0800_0000 <= address && address <= 0x080F_FFFF {
        Ok(Location::Flash((address - 0x0800_0000) as usize))
    } else if 0x1000_0000 <= address && address <= 0x1000_7FFF {
        Ok(Location::Flash((address - 0x1000_0000) as usize))
    } else if 0x2000_0000 <= address && address <= 0x2001_7FFF {
        Ok(Location::Ram((address - 0x2000_0000) as usize))
    } else if 0x4000_0000 <= address && address <= 0x5FFF_FFFF {
        Ok(Location::Peripheral(address))
    } else {
        Err(MemError::OutOfBounds)
    }
}

/// The peripheral aggregator: the bus hands it every access in the
/// peripheral window with the original address.
pub struct Peripherals {
    pub rcc: RCC,
}

pub const RCC_BASE: u32 = 0x4002_1000;

/// What a peripheral-window read yields: only the RCC block is populated.
pub open spec fn periph_read_of(p: Peripherals, address: u32, size: u32) -> Result<u32, MemError> {
    if RCC_BASE <= address && address < RCC_BASE + 0x400 {
        rcc_read_of(p.rcc, (address - RCC_BASE) as u32, size)
    } else {
        Err(MemError::Unimplemented)
    }
}

impl Peripherals {
    pub fn new() -> (r: Peripherals)
        ensures
            r.rcc == crate::rcc::rcc_reset(false),
    {
        Peripherals { rcc: RCC::new() }
    }

    pub fn read(&self, address: u32, size: u32) -> (r: Result<u32, MemError>)
        ensures
            r == periph_read_of(*self, address, size),
    {
        if RCC_BASE <= address && address < RCC_BASE + 0x400 {
            self.rcc.read(address - RCC_BASE, size)
        } else {
            Err(MemError::Unimplemented)
        }
    }

    pub fn write(&mut self, address: u32, value: u32, size: u32) -> (r: Result<(), MemError>)
        ensures
            RCC_BASE <= address && address < RCC_BASE + 0x400 ==> {
                &&& r is Ok
                &&& (address - RCC_BASE <= 0x03 ==> final(self).rcc == (RCC {
                    cr: cr_after_write(old(self).rcc.cr, value),
                    ..old(self).rcc
                }))
                &&& (address - RCC_BASE > 0x03 ==> *final(self) == *old(self))
            },
            !(RCC_BASE <= address && address < RCC_BASE + 0x400) ==> r == Err::<(), MemError>(
                MemError::Unimplemented,
            ) && *final(self) == *old(self),
    {
        if RCC_BASE <= address && address < RCC_BASE + 0x400 {
            self.rcc.write(address - RCC_BASE, value, size)
        } else {
            Err(MemError::Unimplemented)
        }
    }
}

fn filled_vec(len: usize, val: u8) -> (r: Vec<u8>)
    ensures
        r@.len() == len,
        forall|j: int| 0 <= j < len ==> r@[j] == val,
{
    let mut v: Vec<u8> = Vec::new();
    let mut i: usize = 0;
    while i < len
        invariant
            i <= len,
            v@.len() == i,
            forall|j: int| 0 <= j < i ==> v@[j] == val,
        decreases len - i,
    {
        v.push(val);
        i = i + 1;
    }
    v
}

pub const FLASH_SIZE: usize = 0x0010_0000;

pub const RAM_SIZE: usize = 0x0001_8000;

pub const RAM2_SIZE: usize = 0x0000_8000;

/// The memory system: 1 MiB of flash, 96 KiB of main SRAM, 32 KiB of
/// auxiliary SRAM and the peripheral window.
pub struct MemoryBus {
    pub flash: Vec<u8>,
    pub data: Vec<u8>,
    pub data2: Vec<u8>,
    pub peripherals: Peripherals,
}

/// What an aligned read yields.
pub open spec fn read_a_of(m: MemoryBus, address: u32, size: u32) -> Result<u32, MemError> {
    if address % size != 0 {
        Err(MemError::Unaligned)
    } else {
        match loc_of(address) {
            Ok(Location::Flash(i)) => bank_read_of(m.flash@, i as int, size as int),
            Ok(Location::Ram(i)) => bank_read_of(m.data@, i as int, size as int),
            Ok(Location::Ram2(i)) => bank_read_of(m.data2@, i as int, size as int),
            Ok(Location::Peripheral(a)) => periph_read_of(m.peripherals, a, size),
            Err(e) => Err(e),
        }
    }
}

pub open spec fn bank_read_of(bank: Seq<u8>, base: int, size: int) -> Result<u32, MemError> {
    if base + size <= bank.len() {
        Ok(le_val(bank, base, size) as u32)
    } else {
        Err(MemError::OutOfBounds)
    }
}

/// What an unaligned read yields: an aligned access goes straight through;
/// anything else is assembled from byte reads, little-endian, stopping at
/// the first failure.
pub open spec fn read_u_of(m: MemoryBus, address: u32, size: u32) -> Result<u32, MemError> {
    if address % size == 0 {
        read_a_of(m, address, size)
    } else {
        read_u_bytes_of(m, address, size, 0)
    }
}

pub open spec fn read_u_bytes_of(m: MemoryBus, address: u32, size: u32, i: u32) -> Result<
    u32,
    MemError,
>
    decreases size - i,
{
    if i >= size {
        Ok(0u32)
    } else {
        match read_a_of(m, ((address + i) % 0x1_0000_0000) as u32, 1) {
            Ok(b) => match read_u_bytes_of(m, address, size, (i + 1) as u32) {
                Ok(rest) => Ok(rest | (b << (8 * i) as u32)),
                Err(e) => Err(e),
            },
            Err(e) => Err(e),
        }
    }
}

impl MemoryBus {
    /// The three banks keep their fixed sizes.
    pub open spec fn inv(self) -> bool {
        &&& self.flash@.len() == FLASH_SIZE
        &&& self.data@.len() == RAM_SIZE
        &&& self.data2@.len() == RAM2_SIZE
    }

    pub fn new() -> (r: MemoryBus)
        ensures
            r.inv(),
            forall|j: int| 0 <= j < FLASH_SIZE ==> r.flash@[j] == 0xFF,
            forall|j: int| 0 <= j < RAM_SIZE ==> r.data@[j] == 0xFF,
            forall|j: int| 0 <= j < RAM2_SIZE ==> r.data2@[j] == 0xFF,
            r.peripherals.rcc == crate::rcc::rcc_reset(false),
    {
        MemoryBus {
            flash: filled_vec(FLASH_SIZE, 0xFF),
            data: filled_vec(RAM_SIZE, 0xFF),
            data2: filled_vec(RAM2_SIZE, 0xFF),
            peripherals: Peripherals::new(),
        }
    }

    fn address_to_physical(&self, address: u32) -> (r: Result<Location, MemError>)
        ensures
            r == loc_of(address),
    {
        if address <= 0x000F_FFFF {
            Ok(Location::Flash(address as usize))
        } else if 0x0800_0000 <= address && address <= 0x080F_FFFF {
            Ok(Location::Flash((address - 0x0800_0000) as usize))
        } else if 0x1000_0000 <= address && address <= 0x1000_7FFF {
            Ok(Location::Flash((address - 0x1000_0000) as usize))
        } else if 0x2000_0000 <= address && address <= 0x2001_7FFF {
            Ok(Location::Ram((address - 0x2000_0000) as usize))
        } else if 0x4000_0000 <= address && address <= 0x5FFF_FFFF {
            Ok(Location::Peripheral(address))
        } else {
            Err(MemError::OutOfBounds)
        }
    }

    /// An aligned read: an unaligned address faults, anything else is
    /// routed by the address map.
    pub fn read_mem_a(&self, address: u32, size: usize) -> (r: Result<u32, MemError>)
        requires
            self.inv(),
            size == 1 || size == 2 || size == 4,
        ensures
            r == read_a_of(*self, address, size as u32),
    {
        if address % (size as u32) != 0 {
            return Err(MemError::Unaligned);
        }
        match self.address_to_physical(address) {
            Ok(Location::Flash(i)) => read_value(&self.flash, i, size),
            Ok(Location::Ram(i)) => read_value(&self.data, i, size),
            Ok(Location::Ram2(i)) => read_value(&self.data2, i, size),
            Ok(Location::Peripheral(a)) => self.peripherals.read(a, size as u32),
            Err(e) => Err(e),
        }
    }

    fn read_u_bytes(&self, address: u32, size: usize, i: usize) -> (r: Result<u32, MemError>)
        requires
            self.inv(),
            size <= 4,
            i <= size,
        ensures
            r == read_u_bytes_of(*self, address, size as u32, i as u32),
        decreases size - i,
    {
        if i >= size {
            return Ok(0);
        }
        match self.read_mem_a(address.wrapping_add(i as u32), 1) {
            Ok(b) => match self.read_u_bytes(address, size, i + 1) {
                Ok(rest) => Ok(rest | (b << (8 * (i as u32)))),
                Err(e) => Err(e),
            },
            Err(e) => Err(e),
        }
    }

    /// An unaligned read: aligned accesses go straight through, the rest
    /// are assembled from byte reads (the unaligned trap is not enabled).
    pub fn read_mem_u(&self, address: u32, size: usize) -> (r: Result<u32, MemError>)
        requires
            self.inv(),
            size == 1 || size == 2 || size == 4,
        ensures
            r == read_u_of(*self, address, size as u32),
    {
        if address % (size as u32) == 0 {
            self.read_mem_a(address, size)
        } else {
            self.read_u_bytes(address, size, 0)
        }
    }

    /// A write: flash is read-only at runtime; SRAM writes land
    /// little-endian; peripheral writes go to the aggregator.
    pub fn write_mem_u(&mut self, address: u32, size: usize, value: u32) -> (r: Result<
        (),
        MemError,
    >)
        requires
            old(self).inv(),
            size == 1 || size == 2 || size == 4,
        ensures
            final(self).inv(),
            final(self).flash@ == old(self).flash@,
            match loc_of(address) {
                Ok(Location::Flash(_)) => {
                    &&& r == Err::<(), MemError>(MemError::ReadOnly)
                    &&& *final(self) == *old(self)
                },
                Ok(Location::Ram(i)) => {
                    &&& final(self).data2@ == old(self).data2@
                    &&& final(self).peripherals.rcc == old(self).peripherals.rcc
                    &&& (i + size <= RAM_SIZE ==> {
                        &&& r == Ok::<(), MemError>(())
                        &&& forall|j: int|
                            0 <= j < size ==> final(self).data@[i + j] == byte_of(value, j)
                        &&& forall|j: int|
                            0 <= j < RAM_SIZE && !(i <= j < i + size) ==> final(self).data@[j]
                                == old(self).data@[j]
                    })
                    &&& (i + size > RAM_SIZE ==> r == Err::<(), MemError>(MemError::OutOfBounds)
                        && final(self).data@ == old(self).data@)
                },
                Ok(Location::Ram2(i)) => {
                    &&& final(self).data@ == old(self).data@
                    &&& final(self).peripherals.rcc == old(self).peripherals.rcc
                    &&& (i + size <= RAM2_SIZE ==> {
                        &&& r == Ok::<(), MemError>(())
                        &&& forall|j: int|
                            0 <= j < size ==> final(self).data2@[i + j] == byte_of(value, j)
                        &&& forall|j: int|
                            0 <= j < RAM2_SIZE && !(i <= j < i + size) ==> final(self).data2@[j]
                                == old(self).data2@[j]
                    })
                    &&& (i + size > RAM2_SIZE ==> r == Err::<(), MemError>(MemError::OutOfBounds)
                        && final(self).data2@ == old(self).data2@)
                },
                Ok(Location::Peripheral(_)) => {
                    &&& final(self).data@ == old(self).data@
                    &&& final(self).data2@ == old(self).data2@
                },
                Err(e) => {
                    &&& r == Err::<(), MemError>(e)
                    &&& *final(self) == *old(self)
                },
            },
    {
        match self.address_to_physical(address) {
            Ok(Location::Flash(_)) => Err(MemError::ReadOnly),
            Ok(Location::Ram(i)) => write_value(value, &mut self.data, i, size),
            Ok(Location::Ram2(i)) => write_value(value, &mut self.data2, i, size),
            Ok(Location::Peripheral(a)) => self.peripherals.write(a, value, size as u32),
            Err(e) => Err(e),
        }
    }

    /// Aligned writes share the unaligned path's routing.
    pub fn write_mem_a(&mut self, address: u32, size: usize, value: u32) -> (r: Result<
        (),
        MemError,
    >)
        requires
            old(self).inv(),
            size == 1 || size == 2 || size == 4,
        ensures
            final(self).inv(),
            final(self).flash@ == old(self).flash@,
    {
        self.write_mem_u(address, size, value)
    }

    /// Fetches the two halfwords at a flash address in instruction order:
    /// the first halfword lands in the top half of the word.
    pub fn get_instr_word(&self, address: u32) -> (r: Option<u32>)
        requires
            self.inv(),
        ensures
            (0x0800_0000 <= address && address <= 0x0800_0000 + FLASH_SIZE - 4) ==> r == Some(
                instr_word_of(self.flash@, (address - 0x0800_0000) as int),
            ),
            !(0x0800_0000 <= address && address <= 0x0800_0000 + FLASH_SIZE - 4) ==> r is None,
    {
        if 0x0800_0000 <= address && address <= 0x0800_0000 + (FLASH_SIZE as u32) - 4 {
            let base = (address - 0x0800_0000) as usize;
            let b1 = self.flash[base] as u32;
            let b2 = self.flash[base + 1] as u32;
            let b3 = self.flash[base + 2] as u32;
            let b4 = self.flash[base + 3] as u32;
            Some((b2 << 24) | (b1 << 16) | (b4 << 8) | b3)
        } else {
            None
        }
    }

    /// Copies a byte range into flash, for program load.
    pub fn copy_to_flash(&mut self, flash_index: usize, src: &Vec<u8>, src_offset: usize, len: usize)
        requires
            old(self).inv(),
            flash_index + len <= FLASH_SIZE,
            src_offset + len <= src@.len(),
        ensures
            final(self).inv(),
            forall|j: int|
                0 <= j < len ==> #[trigger] final(self).flash@[flash_index + j] == src@[src_offset
                    + j],
            forall|j: int|
                0 <= j < FLASH_SIZE && !(flash_index <= j < flash_index + len) ==> final(self).flash@[j] == old(self).flash@[j],
            final(self).data@ == old(self).data@,
            final(self).data2@ == old(self).data2@,
            final(self).peripherals.rcc == old(self).peripherals.rcc,
    {
        let src_len = src.len();
        let mut i: usize = 0;
        while i < len
            invariant
                i <= len,
                flash_index + len <= FLASH_SIZE,
                src_offset + len <= src@.len(),
                src@.len() <= usize::MAX,
                self.inv(),
                forall|j: int|
                    0 <= j < i ==> #[trigger] self.flash@[flash_index + j] == src@[src_offset + j],
                forall|j: int|
                    0 <= j < FLASH_SIZE && !(flash_index <= j < flash_index + i) ==> self.flash@[j]
                        == old(self).flash@[j],
                self.data@ == old(self).data@,
                self.data2@ == old(self).data2@,
                self.peripherals.rcc == old(self).peripherals.rcc,
            decreases len - i,
        {
            let b = src[src_offset + i];
            self.flash.set(flash_index + i, b);
            i = i + 1;
        }
    }
}

/// The instruction-order word at a flash index: first halfword on top,
/// each halfword little-endian.
pub open spec fn instr_word_of(flash: Seq<u8>, base: int) -> u32 {
    ((flash[base + 1] as u32) << 24) | ((flash[base] as u32) << 16) | ((flash[base + 3] as u32)
        << 8) | (flash[base + 2] as u32)
}

} // verus!
