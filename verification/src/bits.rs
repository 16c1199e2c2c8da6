//! Bits and bit fields of register bytes, stated as arithmetic.

use vstd::prelude::*;

verus! {

/// Whether bit `n` of the byte `x` is set.
pub open spec fn bit(x: u8, n: u8) -> bool
    recommends
        n < 8,
{
    if n == 0 {
        x % 2 == 1
    } else if n == 1 {
        (x / 2) % 2 == 1
    } else if n == 2 {
        (x / 4) % 2 == 1
    } else if n == 3 {
        (x / 8) % 2 == 1
    } else if n == 4 {
        (x / 16) % 2 == 1
    } else if n == 5 {
        (x / 32) % 2 == 1
    } else if n == 6 {
        (x / 64) % 2 == 1
    } else {
        x / 128 == 1
    }
}

proof fn lemma_test_bit(x: u8, n: u8)
    by (bit_vector)
    requires
        n < 8,
    ensures
        (x & (1u8 << n) != 0) == bit(x, n),
{
}

/// Tests bit `n` of the byte `x`.
pub fn test_bit(x: u8, n: u8) -> (set: bool)
    requires
        n < 8,
    ensures
        set == bit(x, n),
{
    proof {
        lemma_test_bit(x, n);
    }
    x & (1u8 << n) != 0
}

/// Powers of two that a shift of one gives, up to the highest bit of a byte.
pub open spec fn pow2(n: int) -> int
    recommends
        0 <= n < 8,
{
    if n == 0 {
        1
    } else if n == 1 {
        2
    } else if n == 2 {
        4
    } else if n == 3 {
        8
    } else if n == 4 {
        16
    } else if n == 5 {
        32
    } else if n == 6 {
        64
    } else {
        128
    }
}

/// Shifts of one by less than the width of a byte.
pub proof fn lemma_shl_one()
    by (bit_vector)
    ensures
        1u64 << 0u8 == 1,
        1u64 << 1u8 == 2,
        1u64 << 2u8 == 4,
        1u64 << 3u8 == 8,
        1u64 << 4u8 == 16,
        1u64 << 5u8 == 32,
        1u64 << 6u8 == 64,
        1u64 << 7u8 == 128,
        1u8 << 0u8 == 1,
        1u8 << 1u8 == 2,
        1u8 << 2u8 == 4,
        1u8 << 3u8 == 8,
        1u8 << 4u8 == 16,
        1u8 << 5u8 == 32,
        1u8 << 6u8 == 64,
        1u8 << 7u8 == 128,
{
}

/// The masks and shifts that the register map uses, as remainders and quotients.
pub proof fn lemma_byte_fields(d: u8)
    by (bit_vector)
    ensures
        d & 0x03 == d % 4,
        d & 0x07 == d % 8,
        d & 0x0F == d % 16,
        d & 0x1F == d % 32,
        d & 0x7F == d % 128,
        d >> 2 == d / 4,
        (d >> 3) & 0x07 == (d / 8) % 8,
        (d >> 4) & 0x07 == (d / 16) % 8,
        (d >> 4) & 0x0F == d / 16,
        (d >> 6) & 0x03 == d / 64,
{
}

/// The shifts of a keycode that rate scaling uses.
pub proof fn lemma_rate_shift(keycode: u8)
    by (bit_vector)
    ensures
        keycode >> 0u8 == keycode,
        keycode >> 1u8 == keycode / 2,
        keycode >> 2u8 == keycode / 4,
        keycode >> 3u8 == keycode / 8,
{
}

/// The top four bits of an eleven-bit F-Number.
pub proof fn lemma_fnum_note(fnum: u16)
    by (bit_vector)
    ensures
        (fnum >> 7) & 0xF == (fnum / 128) % 16,
{
}

/// An F-Number put together from its old high bits and a new low byte, and
/// from its old low byte and new high bits.
pub proof fn lemma_fnum_halves(fnum: u16, low: u16, high: u16)
    by (bit_vector)
    requires
        low < 256,
        high < 8,
    ensures
        (fnum & 0x0700u16) | low == ((fnum / 256) % 8) * 256 + low,
        (fnum & 0x00FFu16) | (high << 8u16) == high * 256 + fnum % 256,
{
}

/// An octave and a note group side by side.
pub proof fn lemma_keycode(octave: u8, group: u8)
    by (bit_vector)
    requires
        octave < 8,
        group < 4,
    ensures
        (octave << 2) | group == 4 * octave + group,
{
}

/// One step of the 17-bit noise shift register.
pub proof fn lemma_noise_step(lfsr: u32)
    by (bit_vector)
    requires
        lfsr < 0x2_0000,
    ensures
        ((lfsr ^ (lfsr >> 3)) & 1) == (if lfsr % 2 != (lfsr / 8) % 2 { 1u32 } else { 0u32 }),
        (lfsr >> 1) | (0u32 << 16) == lfsr / 2,
        (lfsr >> 1) | (1u32 << 16) == lfsr / 2 + 0x1_0000,
        (lfsr & 1 != 0) == (lfsr % 2 == 1),
{
}

/// A 16-bit period put together from two bytes.
pub proof fn lemma_period(fine: u32, coarse: u32)
    by (bit_vector)
    requires
        fine < 256,
        coarse < 256,
    ensures
        fine | (coarse << 8u32) == fine + 256 * coarse,
{
}

/// The reload value of Timer A put together from its two registers.
pub proof fn lemma_timer_a(reg: u16, high: u16, low: u16)
    by (bit_vector)
    requires
        reg < 1024,
        high < 256,
        low < 256,
    ensures
        (reg & 0x0003u16) | (high << 2u16) == reg % 4 + 4 * high,
        (reg & !0x0003u16) | (low & 0x03u16) == (reg / 4) * 4 + low % 4,
{
}

/// Setting and clearing the two timer flags of the status register.
pub proof fn lemma_status(status: u8)
    by (bit_vector)
    requires
        status <= 3,
    ensures
        status & !0x01u8 == 2 * (status / 2),
        status & !0x02u8 == status % 2,
        status | 0x01u8 == 2 * (status / 2) + 1,
        status | 0x02u8 == 2 + status % 2,
{
}

/// A 64-bit number cut down to its low 32 bits.
pub proof fn lemma_low_word(x: u64)
    by (bit_vector)
    ensures
        x as u32 == x % 0x1_0000_0000,
{
}

/// A byte put together from fields side by side gives them back.
pub proof fn lemma_packed(hi: u8, lo: u8, spare: u8)
    by (bit_vector)
    ensures
        hi < 8 && lo < 16 && spare < 2 ==> ((128 * spare + 16 * hi + lo) as u8 / 16) % 8 == hi,
        hi < 8 && lo < 16 && spare < 2 ==> (128 * spare + 16 * hi + lo) as u8 % 16 == lo,
        lo < 128 && spare < 2 ==> (128 * spare + lo) as u8 % 128 == lo,
        hi < 4 && lo < 32 && spare < 2 ==> (64 * hi + 32 * spare + lo) as u8 / 64 == hi,
        hi < 4 && lo < 32 && spare < 2 ==> (64 * hi + 32 * spare + lo) as u8 % 32 == lo,
        lo < 32 && spare < 8 ==> (32 * spare + lo) as u8 % 32 == lo,
        hi < 16 && lo < 16 ==> (16 * hi + lo) as u8 / 16 == hi,
        hi < 16 && lo < 16 ==> (16 * hi + lo) as u8 % 16 == lo,
        hi < 8 && lo < 8 && spare < 4 ==> ((64 * spare + 8 * hi + lo) as u8 / 8) % 8 == hi,
        hi < 8 && lo < 8 && spare < 4 ==> (64 * spare + 8 * hi + lo) as u8 % 8 == lo,
{
}

/// A bit of a byte is what the mask of its weight picks out.
pub proof fn law_bits_are_masks(x: u8)
    by (bit_vector)
    ensures
        bit(x, 0) == (x & 0x01 != 0),
        bit(x, 1) == (x & 0x02 != 0),
        bit(x, 2) == (x & 0x04 != 0),
        bit(x, 3) == (x & 0x08 != 0),
        bit(x, 4) == (x & 0x10 != 0),
        bit(x, 5) == (x & 0x20 != 0),
        bit(x, 6) == (x & 0x40 != 0),
        bit(x, 7) == (x & 0x80 != 0),
{
}

/// The powers start at one and each is twice the one before.
pub proof fn law_pow2_doubles(n: int)
    requires
        0 <= n < 7,
    ensures
        pow2(0) == 1,
        pow2(n + 1) == pow2(n) + pow2(n),
{
}

/// The noise step as a shift and a feedback of bits 0 and 3.
pub proof fn lemma_noise_feedback(lfsr: u32)
    by (bit_vector)
    requires
        lfsr < 0x2_0000,
    ensures
        lfsr % 2 != (lfsr / 8) % 2 ==> (lfsr >> 1) | (((lfsr ^ (lfsr >> 3)) & 1) << 16) == lfsr / 2
            + 0x1_0000,
        lfsr % 2 == (lfsr / 8) % 2 ==> (lfsr >> 1) | (((lfsr ^ (lfsr >> 3)) & 1) << 16) == lfsr / 2,
        (lfsr & 1 == 1) == (lfsr % 2 == 1),
{
}

} // verus!
