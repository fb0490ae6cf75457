//! The reset-and-clock-control peripheral: a register file with
//! bit-granular write behaviour (ready bits mirror their enable bits) and
//! documented reset defaults.

use vstd::prelude::*;
use crate::bits::{bitset, bit_of};
use crate::memory::MemError;

verus! {

/// The clock-control register, held as individual bits.
#[derive(Clone, Copy, Debug, PartialEq, Eq, Structural)]
pub struct Cr {
    pub pllrdy: bool,
    pub pllon: bool,
    pub pllsai1rdy: bool,
    pub pllsai1on: bool,
    pub pllsai2rdy: bool,
    pub pllsai2on: bool,
    pub csson: bool,
    pub hsebyp: bool,
    pub hserdy: bool,
    pub hseon: bool,
    pub hsiasfs: bool,
    pub hsirdy: bool,
    pub hsikeron: bool,
    pub hsion: bool,
    pub msirange: u8,
    pub msirgsel: bool,
    pub msipllen: bool,
    pub msirdy: bool,
    pub msion: bool,
}

/// The reset value of the clock-control register.
pub open spec fn cr_reset(hsebyp: bool) -> Cr {
    Cr {
        pllrdy: false,
        pllon: false,
        pllsai1rdy: false,
        pllsai1on: false,
        pllsai2rdy: false,
        pllsai2on: false,
        csson: false,
        hsebyp: hsebyp,
        hserdy: false,
        hseon: false,
        hsiasfs: false,
        hsirdy: false,
        hsikeron: false,
        hsion: false,
        msirange: 0b0110,
        msirgsel: false,
        msipllen: false,
        msirdy: true,
        msion: true,
    }
}

pub open spec fn b32(b: bool) -> u32 {
    if b {
        1u32
    } else {
        0u32
    }
}

/// The packed read value of the clock-control register.
pub open spec fn cr_value(cr: Cr) -> u32 {
    b32(cr.pllsai2rdy) << 29 | b32(cr.pllsai2on) << 28 | b32(cr.pllsai1rdy) << 27 | b32(
        cr.pllsai1on,
    ) << 26 | b32(cr.pllrdy) << 25 | b32(cr.pllon) << 24 | b32(cr.csson) << 19 | b32(cr.hsebyp)
        << 18 | b32(cr.hserdy) << 17 | b32(cr.hseon) << 16 | b32(cr.hsiasfs) << 11 | b32(cr.hsirdy)
        << 10 | b32(cr.hsikeron) << 9 | b32(cr.hsion) << 8 | ((cr.msirange as u32) << 4) | b32(
        cr.msirgsel,
    ) << 3 | b32(cr.msipllen) << 2 | b32(cr.msirdy) << 1 | b32(cr.msion)
}

/// The state after a write: enable bits take the written value and the
/// matching ready bits lock instantly; the HSE bypass only changes while
/// the oscillator is off; the MSI range only changes while MSI is off or
/// ready; range-select writes of zero have no effect.
pub open spec fn cr_after_write(cr: Cr, val: u32) -> Cr {
    Cr {
        pllsai2on: bit_of(val, 28),
        pllsai2rdy: bit_of(val, 28),
        pllsai1on: bit_of(val, 26),
        pllsai1rdy: bit_of(val, 26),
        pllon: bit_of(val, 24),
        pllrdy: bit_of(val, 24),
        csson: bit_of(val, 19),
        hsebyp: if !cr.hseon {
            bit_of(val, 18)
        } else {
            cr.hsebyp
        },
        hserdy: bit_of(val, 16),
        hseon: bit_of(val, 16),
        hsiasfs: bit_of(val, 11),
        hsirdy: bit_of(val, 8),
        hsion: bit_of(val, 8),
        hsikeron: bit_of(val, 9),
        msirange: if ((val >> 4) & 0xF) as u8 != cr.msirange && (!cr.msion || cr.msirdy) {
            ((val >> 4) & 0xF) as u8
        } else {
            cr.msirange
        },
        msirgsel: cr.msirgsel || bit_of(val, 3),
        msipllen: bit_of(val, 2),
        msirdy: bit_of(val, 0),
        msion: bit_of(val, 0),
    }
}


/// The packed CR value is the bit-or of its flag bits in place; folding
/// them in one at a time gives the same word.
proof fn lemma_cr_pack(cr: Cr)
    ensures
        cr_value(cr) == ((((((((((((((((((b32(cr.pllsai2rdy) << 29 | b32(cr.pllsai2on) << 28)
            | b32(cr.pllsai1rdy) << 27) | b32(cr.pllsai1on) << 26) | b32(cr.pllrdy) << 25) | b32(
            cr.pllon,
        ) << 24) | b32(cr.csson) << 19) | b32(cr.hsebyp) << 18) | b32(cr.hserdy) << 17) | b32(
            cr.hseon,
        ) << 16) | b32(cr.hsiasfs) << 11) | b32(cr.hsirdy) << 10) | b32(cr.hsikeron) << 9) | b32(
            cr.hsion,
        ) << 8) | ((cr.msirange as u32) << 4)) | b32(cr.msirgsel) << 3) | b32(cr.msipllen) << 2)
            | b32(cr.msirdy) << 1) | b32(cr.msion)),
        b32(cr.pllsai2rdy) << 29 == (if cr.pllsai2rdy { 1u32 << 29 } else { 0u32 }),
        b32(cr.pllsai2on) << 28 == (if cr.pllsai2on { 1u32 << 28 } else { 0u32 }),
        b32(cr.pllsai1rdy) << 27 == (if cr.pllsai1rdy { 1u32 << 27 } else { 0u32 }),
        b32(cr.pllsai1on) << 26 == (if cr.pllsai1on { 1u32 << 26 } else { 0u32 }),
        b32(cr.pllrdy) << 25 == (if cr.pllrdy { 1u32 << 25 } else { 0u32 }),
        b32(cr.pllon) << 24 == (if cr.pllon { 1u32 << 24 } else { 0u32 }),
        b32(cr.csson) << 19 == (if cr.csson { 1u32 << 19 } else { 0u32 }),
        b32(cr.hsebyp) << 18 == (if cr.hsebyp { 1u32 << 18 } else { 0u32 }),
        b32(cr.hserdy) << 17 == (if cr.hserdy { 1u32 << 17 } else { 0u32 }),
        b32(cr.hseon) << 16 == (if cr.hseon { 1u32 << 16 } else { 0u32 }),
        b32(cr.hsiasfs) << 11 == (if cr.hsiasfs { 1u32 << 11 } else { 0u32 }),
        b32(cr.hsirdy) << 10 == (if cr.hsirdy { 1u32 << 10 } else { 0u32 }),
        b32(cr.hsikeron) << 9 == (if cr.hsikeron { 1u32 << 9 } else { 0u32 }),
        b32(cr.hsion) << 8 == (if cr.hsion { 1u32 << 8 } else { 0u32 }),
        b32(cr.msirgsel) << 3 == (if cr.msirgsel { 1u32 << 3 } else { 0u32 }),
        b32(cr.msipllen) << 2 == (if cr.msipllen { 1u32 << 2 } else { 0u32 }),
        b32(cr.msirdy) << 1 == (if cr.msirdy { 1u32 << 1 } else { 0u32 }),
        b32(cr.msion) == (if cr.msion { 1u32 } else { 0u32 }),
{
    assert(0u32 << 29 == 0 && 0u32 << 28 == 0 && 0u32 << 27 == 0 && 0u32 << 26 == 0 && 0u32 << 25
        == 0 && 0u32 << 24 == 0 && 0u32 << 19 == 0 && 0u32 << 18 == 0 && 0u32 << 17 == 0 && 0u32
        << 16 == 0 && 0u32 << 11 == 0 && 0u32 << 10 == 0 && 0u32 << 9 == 0 && 0u32 << 8 == 0
        && 0u32 << 3 == 0 && 0u32 << 2 == 0 && 0u32 << 1 == 0) by (bit_vector);
}

impl Cr {
    pub fn new() -> (r: Cr)
        ensures
            r == cr_reset(false),
    {
        Cr {
            pllrdy: false,
            pllon: false,
            pllsai1rdy: false,
            pllsai1on: false,
            pllsai2rdy: false,
            pllsai2on: false,
            csson: false,
            hsebyp: false,
            hserdy: false,
            hseon: false,
            hsiasfs: false,
            hsirdy: false,
            hsikeron: false,
            hsion: false,
            msirange: 0b0110,
            msirgsel: false,
            msipllen: false,
            msirdy: true,
            msion: true,
        }
    }

    pub fn reset(&mut self)
        ensures
            *final(self) == cr_reset(old(self).hsebyp),
    {
        self.pllrdy = false;
        self.pllon = false;
        self.pllsai1rdy = false;
        self.pllsai1on = false;
        self.pllsai2rdy = false;
        self.pllsai2on = false;
        self.csson = false;
        self.hserdy = false;
        self.hseon = false;
        self.hsiasfs = false;
        self.hsirdy = false;
        self.hsikeron = false;
        self.hsion = false;
        self.msirange = 0b0110;
        self.msirgsel = false;
        self.msipllen = false;
        self.msirdy = true;
        self.msion = true;
    }

    #[verifier::rlimit(60)]
    pub fn read(&self) -> (r: u32)
        ensures
            r == cr_value(*self),
    {
        let mut r: u32 = if self.pllsai2rdy { 1u32 << 29 } else { 0 };
        r = r | if self.pllsai2on { 1u32 << 28 } else { 0 };
        r = r | if self.pllsai1rdy { 1u32 << 27 } else { 0 };
        r = r | if self.pllsai1on { 1u32 << 26 } else { 0 };
        r = r | if self.pllrdy { 1u32 << 25 } else { 0 };
        r = r | if self.pllon { 1u32 << 24 } else { 0 };
        r = r | if self.csson { 1u32 << 19 } else { 0 };
        r = r | if self.hsebyp { 1u32 << 18 } else { 0 };
        r = r | if self.hserdy { 1u32 << 17 } else { 0 };
        r = r | if self.hseon { 1u32 << 16 } else { 0 };
        r = r | if self.hsiasfs { 1u32 << 11 } else { 0 };
        r = r | if self.hsirdy { 1u32 << 10 } else { 0 };
        r = r | if self.hsikeron { 1u32 << 9 } else { 0 };
        r = r | if self.hsion { 1u32 << 8 } else { 0 };
        r = r | ((self.msirange as u32) << 4);
        r = r | if self.msirgsel { 1u32 << 3 } else { 0 };
        r = r | if self.msipllen { 1u32 << 2 } else { 0 };
        r = r | if self.msirdy { 1u32 << 1 } else { 0 };
        r = r | if self.msion { 1u32 } else { 0 };
        proof {
            lemma_cr_pack(*self);
        }
        r
    }

    pub fn write(&mut self, val: u32)
        ensures
            *final(self) == cr_after_write(*old(self), val),
    {
        let hsebyp = if !self.hseon {
            bitset(val, 18)
        } else {
            self.hsebyp
        };
        let msirange_new: u8 = ((val >> 4) & 0xF) as u8;
        let msirange = if msirange_new != self.msirange && (!self.msion || self.msirdy) {
            msirange_new
        } else {
            self.msirange
        };
        let msirgsel = self.msirgsel || bitset(val, 3);
        *self = Cr {
            pllsai2on: bitset(val, 28),
            pllsai2rdy: bitset(val, 28),
            pllsai1on: bitset(val, 26),
            pllsai1rdy: bitset(val, 26),
            pllon: bitset(val, 24),
            pllrdy: bitset(val, 24),
            csson: bitset(val, 19),
            hsebyp,
            hserdy: bitset(val, 16),
            hseon: bitset(val, 16),
            hsiasfs: bitset(val, 11),
            hsirdy: bitset(val, 8),
            hsion: bitset(val, 8),
            hsikeron: bitset(val, 9),
            msirange,
            msirgsel,
            msipllen: bitset(val, 2),
            msirdy: bitset(val, 0),
            msion: bitset(val, 0),
        };
    }
}

/// Reads `size` bytes of a 32-bit register starting at byte `offset`,
/// little-endian.
pub open spec fn reg_read_of(reg: u32, offset: u32, size: u32) -> Result<u32, MemError> {
    if offset + size > 4 {
        Err(MemError::Unaligned)
    } else if size == 4 {
        Ok(reg >> (8 * offset) as u32)
    } else if size == 2 {
        Ok((reg >> (8 * offset) as u32) & 0xFFFF)
    } else if size == 1 {
        Ok((reg >> (8 * offset) as u32) & 0xFF)
    } else {
        Err(MemError::Unimplemented)
    }
}

pub fn read_register(reg: u32, offset: u32, size: u32) -> (r: Result<u32, MemError>)
    requires
        offset <= 3,
    ensures
        r == reg_read_of(reg, offset, size),
{
    if size > 4 || offset + size > 4 {
        Err(MemError::Unaligned)
    } else if size == 4 {
        Ok(reg >> (8 * offset))
    } else if size == 2 {
        Ok((reg >> (8 * offset)) & 0xFFFF)
    } else if size == 1 {
        Ok((reg >> (8 * offset)) & 0xFF)
    } else {
        Err(MemError::Unimplemented)
    }
}

/// The reset-and-clock-control block: the bit-modelled CR register plus
/// the plainly stored configuration registers.
#[derive(Clone, Copy, Debug, PartialEq, Eq, Structural)]
pub struct RCC {
    pub cr: Cr,
    pub icscr: u32,
    pub cfgr: u32,
    pub pllcfgr: u32,
    pub pllsai1cfgr: u32,
    pub pllsai2cfgr: u32,
    pub cier: u32,
    pub cifr: u32,
    pub cicr: u32,
    pub ahb1rstr: u32,
    pub ahb2rstr: u32,
    pub ahb3rstr: u32,
    pub apb1rstr1: u32,
    pub apb1rstr2: u32,
    pub apb2rstr: u32,
    pub ahb1enr: u32,
    pub ahb2enr: u32,
    pub ahb3enr: u32,
    pub apb1enr1: u32,
    pub apb1enr2: u32,
    pub apb2enr: u32,
    pub ahb1smenr: u32,
    pub ahb2smenr: u32,
    pub ahb3smenr: u32,
    pub apb1smenr1: u32,
    pub apb1smenr2: u32,
    pub apb2smenr: u32,
    pub ccipr: u32,
    pub bdcr: u32,
    pub csr: u32,
}

/// The documented reset defaults of the whole block.
pub open spec fn rcc_reset(hsebyp: bool) -> RCC {
    RCC {
        cr: cr_reset(hsebyp),
        icscr: 0x1071_0096,
        cfgr: 0x0000_0000,
        pllcfgr: 0x0000_1000,
        pllsai1cfgr: 0x0000_1000,
        pllsai2cfgr: 0x0000_1000,
        cier: 0x0000_0000,
        cifr: 0x0000_0000,
        cicr: 0x0000_0000,
        ahb1rstr: 0x0000_0000,
        ahb2rstr: 0x0000_0000,
        ahb3rstr: 0x0000_0000,
        apb1rstr1: 0x0000_0000,
        apb1rstr2: 0x0000_0000,
        apb2rstr: 0x0000_0000,
        ahb1enr: 0x0000_0100,
        ahb2enr: 0x0000_0000,
        ahb3enr: 0x0000_0000,
        apb1enr1: 0x0000_0000,
        apb1enr2: 0x0000_0000,
        apb2enr: 0x0000_0000,
        ahb1smenr: 0x0001_1303,
        ahb2smenr: 0x0005_32FF,
        ahb3smenr: 0x0000_0101,
        apb1smenr1: 0xF2FE_CA3F,
        apb1smenr2: 0x0000_0025,
        apb2smenr: 0x0167_7C01,
        ccipr: 0x0000_0000,
        bdcr: 0x0000_0000,
        csr: 0x0C00_0600,
    }
}

/// What a read at a byte offset into the block yields.
pub open spec fn rcc_read_of(rcc: RCC, offset: u32, size: u32) -> Result<u32, MemError> {
    if offset <= 0x03 {
        Ok(cr_value(rcc.cr))
    } else if offset <= 0x07 {
        reg_read_of(rcc.icscr, (offset - 0x04) as u32, size)
    } else if offset <= 0x0B {
        reg_read_of(rcc.cfgr, (offset - 0x08) as u32, size)
    } else if offset <= 0x0F {
        reg_read_of(rcc.pllcfgr, (offset - 0x0C) as u32, size)
    } else if offset <= 0x13 {
        reg_read_of(rcc.pllsai1cfgr, (offset - 0x10) as u32, size)
    } else if offset <= 0x17 {
        reg_read_of(rcc.pllsai2cfgr, (offset - 0x14) as u32, size)
    } else if offset <= 0x1B {
        reg_read_of(rcc.cier, (offset - 0x18) as u32, size)
    } else if offset <= 0x1F {
        reg_read_of(rcc.cifr, (offset - 0x1C) as u32, size)
    } else if offset <= 0x23 {
        reg_read_of(rcc.ahb1rstr, (offset - 0x20) as u32, size)
    } else if offset <= 0x27 {
        reg_read_of(rcc.ahb2rstr, (offset - 0x24) as u32, size)
    } else if offset <= 0x2B {
        reg_read_of(rcc.ahb3rstr, (offset - 0x28) as u32, size)
    } else if 0x58 <= offset && offset <= 0x5B {
        reg_read_of(rcc.apb1enr1, (offset - 0x58) as u32, size)
    } else {
        Err(MemError::Unimplemented)
    }
}

impl RCC {
    pub fn new() -> (r: RCC)
        ensures
            r == rcc_reset(false),
    {
        RCC {
            cr: Cr::new(),
            icscr: 0x1071_0096,
            cfgr: 0x0000_0000,
            pllcfgr: 0x0000_1000,
            pllsai1cfgr: 0x0000_1000,
            pllsai2cfgr: 0x0000_1000,
            cier: 0x0000_0000,
            cifr: 0x0000_0000,
            cicr: 0x0000_0000,
            ahb1rstr: 0x0000_0000,
            ahb2rstr: 0x0000_0000,
            ahb3rstr: 0x0000_0000,
            apb1rstr1: 0x0000_0000,
            apb1rstr2: 0x0000_0000,
            apb2rstr: 0x0000_0000,
            ahb1enr: 0x0000_0100,
            ahb2enr: 0x0000_0000,
            ahb3enr: 0x0000_0000,
            apb1enr1: 0x0000_0000,
            apb1enr2: 0x0000_0000,
            apb2enr: 0x0000_0000,
            ahb1smenr: 0x0001_1303,
            ahb2smenr: 0x0005_32FF,
            ahb3smenr: 0x0000_0101,
            apb1smenr1: 0xF2FE_CA3F,
            apb1smenr2: 0x0000_0025,
            apb2smenr: 0x0167_7C01,
            ccipr: 0x0000_0000,
            bdcr: 0x0000_0000,
            csr: 0x0C00_0600,
        }
    }

    pub fn read(&self, offset: u32, size: u32) -> (r: Result<u32, MemError>)
        ensures
            r == rcc_read_of(*self, offset, size),
    {
        if offset <= 0x03 {
            Ok(self.cr.read())
        } else if offset <= 0x07 {
            read_register(self.icscr, offset - 0x04, size)
        } else if offset <= 0x0B {
            read_register(self.cfgr, offset - 0x08, size)
        } else if offset <= 0x0F {
            read_register(self.pllcfgr, offset - 0x0C, size)
        } else if offset <= 0x13 {
            read_register(self.pllsai1cfgr, offset - 0x10, size)
        } else if offset <= 0x17 {
            read_register(self.pllsai2cfgr, offset - 0x14, size)
        } else if offset <= 0x1B {
            read_register(self.cier, offset - 0x18, size)
        } else if offset <= 0x1F {
            read_register(self.cifr, offset - 0x1C, size)
        } else if offset <= 0x23 {
            read_register(self.ahb1rstr, offset - 0x20, size)
        } else if offset <= 0x27 {
            read_register(self.ahb2rstr, offset - 0x24, size)
        } else if offset <= 0x2B {
            read_register(self.ahb3rstr, offset - 0x28, size)
        } else if 0x58 <= offset && offset <= 0x5B {
            read_register(self.apb1enr1, offset - 0x58, size)
        } else {
            Err(MemError::Unimplemented)
        }
    }

    /// A write into the CR word updates its modelled bits; other registers
    /// are accepted and dropped.
    pub fn write(&mut self, offset: u32, value: u32, _size: u32) -> (r: Result<(), MemError>)
        ensures
            r is Ok,
            offset <= 0x03 ==> *final(self) == (RCC { cr: cr_after_write(old(self).cr, value), ..*old(self) }),
            offset > 0x03 ==> *final(self) == *old(self),
    {
        if offset <= 0x03 {
            self.cr.write(value);
        }
        Ok(())
    }

    pub fn reset(&mut self)
        ensures
            *final(self) == rcc_reset(old(self).cr.hsebyp),
    {
        self.cr.reset();
        self.icscr = 0x1071_0096;
        self.cfgr = 0x0000_0000;
        self.pllcfgr = 0x0000_1000;
        self.pllsai1cfgr = 0x0000_1000;
        self.pllsai2cfgr = 0x0000_1000;
        self.cier = 0x0000_0000;
        self.cifr = 0x0000_0000;
        self.cicr = 0x0000_0000;
        self.ahb1rstr = 0x0000_0000;
        self.ahb2rstr = 0x0000_0000;
        self.ahb3rstr = 0x0000_0000;
        self.apb1rstr1 = 0x0000_0000;
        self.apb1rstr2 = 0x0000_0000;
        self.apb2rstr = 0x0000_0000;
        self.ahb1enr = 0x0000_0100;
        self.ahb2enr = 0x0000_0000;
        self.ahb3enr = 0x0000_0000;
        self.apb1enr1 = 0x0000_0000;
        self.apb1enr2 = 0x0000_0000;
        self.apb2enr = 0x0000_0000;
        self.ahb1smenr = 0x0001_1303;
        self.ahb2smenr = 0x0005_32FF;
        self.ahb3smenr = 0x0000_0101;
        self.apb1smenr1 = 0xF2FE_CA3F;
        self.apb1smenr2 = 0x0000_0025;
        self.apb2smenr = 0x0167_7C01;
        self.ccipr = 0x0000_0000;
        self.bdcr = 0x0000_0000;
        self.csr = 0x0C00_0600;
    }
}

impl Default for RCC {
    fn default() -> (r: RCC)
        ensures
            r == rcc_reset(false),
    {
        RCC::new()
    }
}

} // verus!
