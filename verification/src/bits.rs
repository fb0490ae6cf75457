//! Bit-level primitives shared by the decoder and the executor: single-bit
//! tests, alignment, sign extension, the barrel shifter with carry-out,
//! add-with-carry, and bit-field surgery.

use vstd::prelude::*;

verus! {

/// True iff bit `bit` of `word` is set.
pub open spec fn bit_of(word: u32, bit: u32) -> bool {
    word & (1u32 << bit) != 0
}

pub fn bitset(word: u32, bit: u32) -> (r: bool)
    requires
        bit < 32,
    ensures
        r == bit_of(word, bit),
{
    (word & (1u32 << bit)) > 0
}

pub fn matches(word: u32, shift: u32, mask: u32, expected: u32) -> (r: bool)
    requires
        shift < 32,
    ensures
        r == (((word >> shift) & mask) == expected),
{
    ((word >> shift) & mask) == expected
}

/// `address` rounded down to a multiple of `size`.
pub open spec fn align_of(address: u32, size: u32) -> u32 {
    address & !((size - 1) as u32)
}

pub fn align(address: u32, size: u32) -> (r: u32)
    requires
        size == 1 || size == 2 || size == 4,
    ensures
        r == align_of(address, size),
        r % size == 0,
        r <= address,
        address - r < size,
{
    let r = address & !(size - 1);
    proof {
        assert((address & !((size - 1) as u32)) % size == 0
            && (address & !((size - 1) as u32)) <= address
            && address - (address & !((size - 1) as u32)) < size) by (bit_vector)
            requires size == 1 || size == 2 || size == 4;
    }
    r
}

pub fn word_align(address: u32) -> (r: u32)
    ensures
        r == align_of(address, 4),
        r % 4 == 0,
{
    align(address, 4)
}

/// The low `sign_bit + 1` bits of `value`, with bit `sign_bit` replicated
/// through bit 31.
pub open spec fn sign_extend_of(value: u32, sign_bit: u32) -> u32 {
    if sign_bit == 31 {
        value
    } else if bit_of(value, sign_bit) {
        (value & !(0xFFFF_FFFFu32 << (sign_bit + 1) as u32)) | (0xFFFF_FFFFu32 << (sign_bit + 1)
            as u32)
    } else {
        value & !(0xFFFF_FFFFu32 << (sign_bit + 1) as u32)
    }
}

/// Sign extends `value[0..=sign_bit]` and shifts the result left by `shift`.
/// Bits of `value` above `sign_bit` are ignored, so a field can be taken
/// straight out of an encoding.
pub fn shifted_sign_extend(value: u32, sign_bit: u32, shift: u32) -> (r: u32)
    requires
        sign_bit < 32,
        shift < 32,
        sign_bit + shift < 32,
    ensures
        r == sign_extend_of(value, sign_bit) << shift,
{
    let extended: u32 = if sign_bit == 31 {
        value
    } else if bitset(value, sign_bit) {
        (value & !(0xFFFF_FFFFu32 << (sign_bit + 1))) | (0xFFFF_FFFFu32 << (sign_bit + 1))
    } else {
        value & !(0xFFFF_FFFFu32 << (sign_bit + 1))
    };
    extended << shift
}

pub fn sign_extend(value: u32, sign_bit: u32) -> (r: u32)
    requires
        sign_bit < 32,
    ensures
        r == sign_extend_of(value, sign_bit),
{
    let r = shifted_sign_extend(value, sign_bit, 0);
    proof {
        let e = sign_extend_of(value, sign_bit);
        assert(e << 0u32 == e) by (bit_vector);
    }
    r
}

/// Rotate right; a rotation by a multiple of 32 leaves the value unchanged.
pub open spec fn ror_of(input: u32, shift: u32) -> u32 {
    let s = shift % 32;
    if s == 0 {
        input
    } else {
        (input >> s) | (input << (32 - s) as u32)
    }
}

pub fn ror_c(input: u32, shift: u32) -> (r: (u32, bool))
    requires
        shift != 0,
    ensures
        r.0 == ror_of(input, shift),
        r.1 == bit_of(r.0, 31),
{
    let s = shift % 32;
    let result = if s == 0 {
        input
    } else {
        (input >> s) | (input << (32 - s))
    };
    (result, bitset(result, 31))
}

/// Rotate right with extend: the carry enters at bit 31 and bit 0 leaves
/// as the new carry.
pub open spec fn rrx_c_of(input: u32, carry_in: u32) -> (u32, bool) {
    ((input >> 1) | (carry_in << 31), bit_of(input, 0))
}

pub fn rrx_c(input: u32, carry_in: u32) -> (r: (u32, bool))
    requires
        carry_in <= 1,
    ensures
        r == rrx_c_of(input, carry_in),
{
    ((input >> 1) | (carry_in << 31), bitset(input, 0))
}

/// Logical shift left with carry-out: a shift by 32 yields 0 with carry
/// equal to bit 0 of the input; larger shifts yield 0 with carry clear.
pub open spec fn lsl_c_of(input: u32, shift: u32) -> (u32, bool) {
    if 1 <= shift && shift <= 31 {
        (input << shift, bit_of(input, (32 - shift) as u32))
    } else if shift == 32 {
        (0u32, bit_of(input, 0))
    } else {
        (0u32, false)
    }
}

pub fn lsl_c(input: u32, shift: u32) -> (r: (u32, bool))
    requires
        shift > 0,
    ensures
        r == lsl_c_of(input, shift),
{
    if shift <= 31 {
        (input << shift, bitset(input, 32 - shift))
    } else if shift == 32 {
        (0, bitset(input, 0))
    } else {
        (0, false)
    }
}

/// Logical shift right with carry-out; the carry is the last bit shifted out.
pub open spec fn lsr_c_of(input: u32, shift: u32) -> (u32, bool) {
    if 1 <= shift && shift <= 31 {
        (input >> shift, bit_of(input, (shift - 1) as u32))
    } else if shift == 32 {
        (0u32, bit_of(input, 31))
    } else {
        (0u32, false)
    }
}

pub fn lsr_c(input: u32, shift: u32) -> (r: (u32, bool))
    requires
        shift > 0,
    ensures
        r == lsr_c_of(input, shift),
{
    if shift <= 31 {
        (input >> shift, bitset(input, shift - 1))
    } else if shift == 32 {
        (0, bitset(input, 31))
    } else {
        (0, false)
    }
}

/// Arithmetic shift right with carry-out; shifts of 32 or more replicate the
/// sign bit through the whole word.
pub open spec fn asr_c_of(input: u32, shift: u32) -> (u32, bool) {
    if 1 <= shift && shift <= 31 {
        let res = if bit_of(input, 31) {
            (input >> shift) | (0xFFFF_FFFFu32 << (32 - shift) as u32)
        } else {
            input >> shift
        };
        (res, bit_of(input, (shift - 1) as u32))
    } else {
        let res: u32 = if bit_of(input, 31) {
            0xFFFF_FFFFu32
        } else {
            0u32
        };
        (res, bit_of(res, 0))
    }
}

pub fn asr_c(input: u32, shift: u32) -> (r: (u32, bool))
    requires
        shift > 0,
    ensures
        r == asr_c_of(input, shift),
{
    if shift <= 31 {
        let res = if bitset(input, 31) {
            (input >> shift) | (0xFFFF_FFFFu32 << (32 - shift))
        } else {
            input >> shift
        };
        (res, bitset(input, shift - 1))
    } else {
        let res: u32 = if bitset(input, 31) {
            0xFFFF_FFFF
        } else {
            0
        };
        (res, bitset(res, 0))
    }
}

/// Unified barrel shifter over the encoded shift kinds:
/// 0 = LSL, 1 = LSR, 2 = ASR, 3 = RRX, 4 = ROR. A shift amount of 0 passes
/// the input through with the carry unchanged, except that RRX always
/// rotates through the carry.
pub open spec fn shift_c_of(input: u32, shift_t: u32, shift_n: u32, carry_in: u32) -> (u32, bool) {
    if shift_n == 0 {
        (input, carry_in == 1)
    } else if shift_t == 0 {
        lsl_c_of(input, shift_n)
    } else if shift_t == 1 {
        lsr_c_of(input, shift_n)
    } else if shift_t == 2 {
        asr_c_of(input, shift_n)
    } else if shift_t == 3 {
        rrx_c_of(input, carry_in)
    } else {
        (ror_of(input, shift_n), bit_of(ror_of(input, shift_n), 31))
    }
}

pub fn shift_c(input: u32, shift_t: u32, shift_n: u32, carry_in: u32) -> (r: (u32, bool))
    requires
        shift_t <= 4,
        carry_in <= 1,
    ensures
        r == shift_c_of(input, shift_t, shift_n, carry_in),
{
    if shift_n == 0 {
        return (input, carry_in == 1);
    }
    if shift_t == 0 {
        lsl_c(input, shift_n)
    } else if shift_t == 1 {
        lsr_c(input, shift_n)
    } else if shift_t == 2 {
        asr_c(input, shift_n)
    } else if shift_t == 3 {
        rrx_c(input, carry_in)
    } else {
        ror_c(input, shift_n)
    }
}

pub fn shift(input: u32, shift_t: u32, shift_n: u32, carry_in: u32) -> (r: u32)
    requires
        shift_t <= 4,
        carry_in <= 1,
    ensures
        r == shift_c_of(input, shift_t, shift_n, carry_in).0,
{
    shift_c(input, shift_t, shift_n, carry_in).0
}

/// `(x + y + carry_in) mod 2^32`.
pub open spec fn awc_result(x: u32, y: u32, carry_in: u32) -> u32 {
    ((x + y + carry_in) % 0x1_0000_0000) as u32
}

/// Carry out of `x + y + carry_in`: set iff the mathematical sum does not
/// fit in 32 bits.
pub open spec fn awc_carry(x: u32, y: u32, carry_in: u32) -> bool {
    x + y + carry_in >= 0x1_0000_0000
}

/// Signed overflow of `x + y + carry_in`: the operands share a sign that
/// differs from the sign of the truncated result.
pub open spec fn awc_overflow(x: u32, y: u32, carry_in: u32) -> bool {
    bit_of(x, 31) == bit_of(y, 31) && bit_of(x, 31) != bit_of(awc_result(x, y, carry_in), 31)
}

/// The single primitive behind ADD/ADC/SUB/SBC/RSB/CMP/CMN: returns the
/// truncated sum together with the carry and signed-overflow flags.
pub fn add_with_carry(x: u32, y: u32, carry_in: u32) -> (r: (u32, bool, bool))
    requires
        carry_in <= 1,
    ensures
        r.0 == awc_result(x, y, carry_in),
        r.1 == awc_carry(x, y, carry_in),
        r.2 == awc_overflow(x, y, carry_in),
{
    let unsigned_sum: u64 = (x as u64) + (y as u64) + (carry_in as u64);
    let result: u32 = (unsigned_sum & 0xFFFF_FFFF) as u32;
    let carry_out = (result as u64) != unsigned_sum;
    proof {
        assert((unsigned_sum & 0xFFFF_FFFF) as u32 == (unsigned_sum % 0x1_0000_0000) as u32
            && ((unsigned_sum & 0xFFFF_FFFF) as u64) == unsigned_sum % 0x1_0000_0000)
            by (bit_vector);
    }
    let x_neg = bitset(x, 31);
    let y_neg = bitset(y, 31);
    let result_neg = bitset(result, 31);
    let overflow = (x_neg == y_neg) && (x_neg != result_neg);
    (result, carry_out, overflow)
}

/// A halfword opens a 32-bit encoding iff its top three bits are `0b111`
/// and the next two are not both zero. `word` carries that halfword in its
/// top half.
pub open spec fn is_wide_of(word: u32) -> bool {
    (word >> 29) == 0b111 && (word >> 27) != 0b11100
}

pub fn is_wide_thumb(word: u32) -> (r: bool)
    ensures
        r == is_wide_of(word),
{
    ((word >> 29) == 0b111) && ((word >> 27) != 0b11100)
}

/// Mask with zeros in the inclusive bit range `[lsbit..=msbit]` and ones
/// outside it.
pub open spec fn field_mask(msbit: u32, lsbit: u32) -> u32 {
    (if msbit < 31 {
        0xFFFF_FFFFu32 << (msbit + 1) as u32
    } else {
        0u32
    }) | (if lsbit > 0 {
        0xFFFF_FFFFu32 >> (32 - lsbit) as u32
    } else {
        0u32
    })
}

fn get_mask(msbit: u32, lsbit: u32) -> (r: u32)
    requires
        msbit < 32,
        lsbit < 32,
    ensures
        r == field_mask(msbit, lsbit),
{
    let high: u32 = if msbit < 31 {
        0xFFFF_FFFFu32 << (msbit + 1)
    } else {
        0
    };
    let low: u32 = if lsbit > 0 {
        0xFFFF_FFFFu32 >> (32 - lsbit)
    } else {
        0
    };
    high | low
}

pub fn bit_field_clear(val: u32, msbit: u32, lsbit: u32) -> (r: u32)
    requires
        msbit < 32,
        lsbit < 32,
    ensures
        r == (val & field_mask(msbit, lsbit)),
{
    val & get_mask(msbit, lsbit)
}

/// The value of `bit_field_insert`: `original` with bits `[lsbit..=msbit]`
/// replaced by the low `msbit - lsbit + 1` bits of `provider`.
pub open spec fn bit_field_insert_of(original: u32, provider: u32, msbit: u32, lsbit: u32) -> u32 {
    (original & field_mask(msbit, lsbit)) | ((provider & (0xFFFF_FFFFu32 >> (31 - (msbit - lsbit))
        as u32)) << lsbit)
}

pub fn bit_field_insert(original: u32, provider: u32, msbit: u32, lsbit: u32) -> (r: u32)
    requires
        msbit < 32,
        lsbit <= msbit,
    ensures
        r == bit_field_insert_of(original, provider, msbit, lsbit),
{
    let mask = get_mask(msbit, lsbit);
    let width = msbit - lsbit;
    let insert = (provider & (0xFFFF_FFFF >> (31 - width))) << lsbit;
    (original & mask) | insert
}

pub fn split_u64(large: u64) -> (r: (u32, u32))
    ensures
        r.0 == (large >> 32) as u32,
        r.1 == (large & 0xFFFF_FFFF) as u32,
        r.0 * 0x1_0000_0000 + r.1 == large,
{
    let upper = (large >> 32) as u32;
    let lower = (large & 0xFFFF_FFFF) as u32;
    proof {
        assert(((large >> 32) as u32) * 0x1_0000_0000 + ((large & 0xFFFF_FFFF) as u32) == large)
            by (bit_vector);
    }
    (upper, lower)
}

/// Masking can only lower a value: `x & m <= m`.
pub broadcast proof fn lemma_and_bound(x: u32, m: u32)
    ensures
        #[trigger] (x & m) <= m,
{
    assert(x & m <= m) by (bit_vector);
}

/// The number of set bits among the low `n` bits of `w`.
pub open spec fn ones_below(w: u32, n: u32) -> nat
    decreases n,
{
    if n == 0 {
        0
    } else {
        ones_below(w, (n - 1) as u32) + if bit_of(w, (n - 1) as u32) {
            1nat
        } else {
            0nat
        }
    }
}

pub fn count_ones(w: u32) -> (r: u32)
    ensures
        r == ones_below(w, 32),
{
    let mut count: u32 = 0;
    let mut i: u32 = 0;
    while i < 32
        invariant
            i <= 32,
            count == ones_below(w, i),
            count <= i,
        decreases 32 - i,
    {
        if bitset(w, i) {
            count = count + 1;
        }
        i = i + 1;
    }
    count
}

/// Adding a value to its bitwise complement with a carry-in of one wraps to
/// exactly zero, with the carry flag set and the overflow flag clear.
pub proof fn lemma_add_with_carry_complement(x: u32)
    ensures
        awc_result(x, !x, 1) == 0,
        awc_carry(x, !x, 1),
        !awc_overflow(x, !x, 1),
{
    assert((x + !x + 1) % 0x1_0000_0000 == 0 && x + !x + 1 >= 0x1_0000_0000 && ((x & (1u32 << 31)
        != 0) != (!x & (1u32 << 31) != 0))) by (bit_vector);
}

/// Subtraction is addition of the complement with a carry-in of one: the
/// result is the wrapped difference and the carry flag reports `x >= y`.
pub proof fn lemma_sub_is_add_with_carry(x: u32, y: u32)
    ensures
        awc_result(x, !y, 1) == (x - y) as u32,
        awc_carry(x, !y, 1) == (x >= y),
{
    assert((x + !y + 1) % 0x1_0000_0000 == (x - y) as u32 && (x + !y + 1 >= 0x1_0000_0000) == (x
        >= y)) by (bit_vector);
}

/// Sign extension with a left shift of zero is plain sign extension.
pub proof fn lemma_shifted_sign_extend_zero(v: u32, b: u32)
    requires
        b < 32,
    ensures
        sign_extend_of(v, b) << 0u32 == sign_extend_of(v, b),
{
    let e = sign_extend_of(v, b);
    assert(e << 0u32 == e) by (bit_vector);
}

/// `bit_field_insert` places the low `msbit - lsbit + 1` bits of `provider`
/// into `original` at `lsbit`, and leaves every bit outside the range as it
/// was: stated here one bit position at a time.
pub proof fn lemma_bit_field_insert_places(
    original: u32,
    provider: u32,
    msbit: u32,
    lsbit: u32,
    bit: u32,
)
    requires
        msbit < 32,
        lsbit <= msbit,
        bit < 32,
    ensures
        lsbit <= bit && bit <= msbit ==> bit_of(
            bit_field_insert_of(original, provider, msbit, lsbit),
            bit,
        ) == bit_of(provider, (bit - lsbit) as u32),
        bit < lsbit || bit > msbit ==> bit_of(
            bit_field_insert_of(original, provider, msbit, lsbit),
            bit,
        ) == bit_of(original, bit),
{
    let r = bit_field_insert_of(original, provider, msbit, lsbit);
    assert((lsbit <= bit && bit <= msbit ==> (r & (1u32 << bit) != 0) == (provider & (1u32 << (bit
        - lsbit) as u32) != 0)) && (bit < lsbit || bit > msbit ==> (r & (1u32 << bit) != 0) == (
    original & (1u32 << bit) != 0))) by (bit_vector)
        requires
            msbit < 32,
            lsbit <= msbit,
            bit < 32,
            r == bit_field_insert_of(original, provider, msbit, lsbit),
    ;
}

} // verus!
