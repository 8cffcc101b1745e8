//! The processor's four condition flags and the arithmetic that sets them.

use vstd::prelude::*;

verus! {

/// The condition flags. In the flag byte they are its four high bits, zero
/// topmost; the four low bits of that byte are always clear.
#[derive(Clone, Copy, Debug, PartialEq, Eq, Structural)]
pub struct Flags {
    pub zero: bool,
    pub subtract: bool,
    pub half_carry: bool,
    pub carry: bool,
}

/// 1 for a set bit and 0 for a clear one.
pub open spec fn spec_bit(set: bool) -> int {
    if set {
        1
    } else {
        0
    }
}

impl Flags {
    /// The flag byte.
    pub open spec fn spec_bits(self) -> u8 {
        (spec_bit(self.zero) * 0x80 + spec_bit(self.subtract) * 0x40 + spec_bit(self.half_carry)
            * 0x20 + spec_bit(self.carry) * 0x10) as u8
    }

    /// The flags that the high four bits of `bits` spell; the low four are
    /// dropped.
    pub open spec fn spec_from_bits(bits: u8) -> Flags {
        Flags {
            zero: bits / 0x80 % 2 == 1,
            subtract: bits / 0x40 % 2 == 1,
            half_carry: bits / 0x20 % 2 == 1,
            carry: bits / 0x10 % 2 == 1,
        }
    }

    /// The flag byte. Its low four bits are clear.
    pub fn bits(&self) -> (bits: u8)
        ensures
            bits == self.spec_bits(),
            bits % 16 == 0,
    {
        let mut bits: u8 = 0;
        if self.zero {
            bits += 0x80;
        }
        if self.subtract {
            bits += 0x40;
        }
        if self.half_carry {
            bits += 0x20;
        }
        if self.carry {
            bits += 0x10;
        }
        bits
    }

    /// Reads the flags off a byte, dropping its low four bits.
    pub fn from_bits_truncate(bits: u8) -> (flags: Flags)
        ensures
            flags == Flags::spec_from_bits(bits),
    {
        Flags {
            zero: bits / 0x80 % 2 == 1,
            subtract: bits / 0x40 % 2 == 1,
            half_carry: bits / 0x20 % 2 == 1,
            carry: bits / 0x10 % 2 == 1,
        }
    }
}

/// Packing the flags into a byte and reading them back gives the same
/// flags, and the byte read back from any flags has its low nibble clear.
pub proof fn lemma_flags_round_trip(flags: Flags)
    ensures
        Flags::spec_from_bits(flags.spec_bits()) == flags,
        flags.spec_bits() % 16 == 0,
{
}

/// Reading flags off a byte and packing them again clears the byte's low
/// nibble and keeps the rest.
pub proof fn lemma_bits_truncate(bits: u8)
    ensures
        Flags::spec_from_bits(bits).spec_bits() == bits / 16 * 16,
{
}

/// The result and flags of an 8-bit addition `a + value + carry_in`: zero
/// from the result, half-carry from a carry out of bit 3, carry from a
/// carry out of bit 7.
pub open spec fn spec_add8(a: u8, value: u8, carry_in: bool) -> (u8, Flags) {
    let sum = a + value + spec_bit(carry_in);
    let result = (sum % 256) as u8;
    (
        result,
        Flags {
            zero: result == 0,
            subtract: false,
            half_carry: a % 16 + value % 16 + spec_bit(carry_in) > 15,
            carry: sum > 255,
        },
    )
}

/// The result and flags of an 8-bit subtraction `a - value - carry_in`:
/// zero from the result, half-carry from a borrow into bit 3, carry from a
/// borrow into bit 7.
pub open spec fn spec_sub8(a: u8, value: u8, carry_in: bool) -> (u8, Flags) {
    let difference = a - value - spec_bit(carry_in);
    let result = (difference % 256) as u8;
    (
        result,
        Flags {
            zero: result == 0,
            subtract: true,
            half_carry: a % 16 < value % 16 + spec_bit(carry_in),
            carry: difference < 0,
        },
    )
}

/// The result and flags of a bitwise AND: half-carry set, carry clear.
pub open spec fn spec_and8(a: u8, value: u8) -> (u8, Flags) {
    (a & value, Flags { zero: a & value == 0, subtract: false, half_carry: true, carry: false })
}

/// The result and flags of a bitwise XOR: only zero can be set.
pub open spec fn spec_xor8(a: u8, value: u8) -> (u8, Flags) {
    (a ^ value, Flags { zero: a ^ value == 0, subtract: false, half_carry: false, carry: false })
}

/// The result and flags of a bitwise OR: only zero can be set.
pub open spec fn spec_or8(a: u8, value: u8) -> (u8, Flags) {
    (a | value, Flags { zero: a | value == 0, subtract: false, half_carry: false, carry: false })
}

/// The result and flags of an 8-bit increment; carry is kept.
pub open spec fn spec_inc8(value: u8, flags: Flags) -> (u8, Flags) {
    let result = ((value + 1) % 256) as u8;
    (
        result,
        Flags { zero: result == 0, subtract: false, half_carry: value % 16 == 15, carry: flags.carry },
    )
}

/// The result and flags of an 8-bit decrement; carry is kept.
pub open spec fn spec_dec8(value: u8, flags: Flags) -> (u8, Flags) {
    let result = ((value - 1) % 256) as u8;
    (
        result,
        Flags { zero: result == 0, subtract: true, half_carry: value % 16 == 0, carry: flags.carry },
    )
}

/// The result and flags of a 16-bit addition into HL: zero is kept,
/// half-carry is a carry out of the low byte, carry a carry out of the word.
pub open spec fn spec_add16(hl: u16, value: u16, flags: Flags) -> (u16, Flags) {
    (
        ((hl + value) % 0x1_0000) as u16,
        Flags {
            zero: flags.zero,
            subtract: false,
            half_carry: hl % 256 + value % 256 > 255,
            carry: hl + value > 0xFFFF,
        },
    )
}

/// The result and flags of adding a signed byte to the stack pointer: zero
/// and subtract clear, half-carry a carry out of the low byte when the
/// byte's bit pattern is added, carry set when the result lies below the old
/// stack pointer.
pub open spec fn spec_add_sp(sp: u16, offset: i8) -> (u16, Flags) {
    let result = ((sp + offset) % 0x1_0000) as u16;
    (
        result,
        Flags {
            zero: false,
            subtract: false,
            half_carry: sp % 256 + (offset as int) % 256 > 255,
            carry: result < sp,
        },
    )
}

/// The byte rotated left by one bit, and the bit that left at the top.
pub open spec fn spec_rotate_left(value: u8) -> (u8, bool) {
    ((value * 2 % 256 + value / 128) as u8, value >= 128)
}

/// The byte rotated right by one bit, and the bit that left at the bottom.
pub open spec fn spec_rotate_right(value: u8) -> (u8, bool) {
    ((value / 2 + value % 2 * 128) as u8, value % 2 == 1)
}

/// The byte with its two nibbles exchanged.
pub open spec fn spec_swap(value: u8) -> u8 {
    (value % 16 * 16 + value / 16) as u8
}

/// Flags after a rotate or shift: all clear but carry, which takes the bit
/// that left the byte.
pub open spec fn spec_shift_flags(out: bool) -> Flags {
    Flags { zero: false, subtract: false, half_carry: false, carry: out }
}

/// Whether bit `at` (0 to 7) of `value` is set.
pub open spec fn spec_bit_set(value: u8, at: u8) -> bool {
    value & (1u8 << at) != 0
}

proof fn lemma_half_carry_add(a: u8, value: u8, c: u8, result: u8)
    by (bit_vector)
    requires
        c <= 1,
        result == (a + value + c) % 256,
    ensures
        ((a ^ value ^ result) & 0x10 == 0x10) == ((a & 0x0F) + (value & 0x0F) + c > 15),
{
}

proof fn lemma_half_carry_sub(a: u8, value: u8, c: u8, result: u8)
    by (bit_vector)
    requires
        c <= 1,
        result == (0x200 + a - value - c) % 256,
    ensures
        ((a ^ value ^ result) & 0x10 == 0x10) == ((a & 0x0F) < (value & 0x0F) + c),
{
}

proof fn lemma_low_nibble(a: u8)
    by (bit_vector)
    ensures
        a & 0x0F == a % 16,
{
}

proof fn lemma_low_byte(a: u16)
    by (bit_vector)
    ensures
        a & 0xFF == a % 256,
{
}

proof fn lemma_half_carry_add16(hl: u16, value: u16, result: u16)
    by (bit_vector)
    requires
        result == (hl + value) % 0x1_0000,
    ensures
        ((hl ^ value ^ result) & 0x100 == 0x100) == ((hl & 0xFF) + (value & 0xFF) > 255),
{
}

/// Adds `value` and the carry bit `carry_in` to `a`, finding the half-carry
/// by the exclusive-or of the operands and the result.
pub fn add8(a: u8, value: u8, carry_in: bool) -> (out: (u8, Flags))
    ensures
        out == spec_add8(a, value, carry_in),
{
    let c: u8 = if carry_in { 1 } else { 0 };
    let sum: u16 = a as u16 + value as u16 + c as u16;
    let result: u8 = (sum % 256) as u8;
    proof {
        lemma_half_carry_add(a, value, c, result);
        lemma_low_nibble(a);
        lemma_low_nibble(value);
    }
    (
        result,
        Flags {
            zero: result == 0,
            subtract: false,
            half_carry: (a ^ value ^ result) & 0x10 == 0x10,
            carry: sum > 255,
        },
    )
}

/// Subtracts `value` and the carry bit `carry_in` from `a`, finding the
/// half-carry by the exclusive-or of the operands and the result.
pub fn sub8(a: u8, value: u8, carry_in: bool) -> (out: (u8, Flags))
    ensures
        out == spec_sub8(a, value, carry_in),
{
    let c: u8 = if carry_in { 1 } else { 0 };
    let raised: u16 = 0x200 + a as u16 - value as u16 - c as u16;
    let result: u8 = (raised % 256) as u8;
    proof {
        lemma_half_carry_sub(a, value, c, result);
        lemma_low_nibble(a);
        lemma_low_nibble(value);
    }
    (
        result,
        Flags {
            zero: result == 0,
            subtract: true,
            half_carry: (a ^ value ^ result) & 0x10 == 0x10,
            carry: raised < 0x200,
        },
    )
}

/// Adds `value` to `hl`, finding the half-carry by the exclusive-or of the
/// operands and the result.
pub fn add16(hl: u16, value: u16, flags: Flags) -> (out: (u16, Flags))
    ensures
        out == spec_add16(hl, value, flags),
{
    let sum: u32 = hl as u32 + value as u32;
    let result: u16 = (sum % 0x1_0000) as u16;
    proof {
        lemma_half_carry_add16(hl, value, result);
        lemma_low_byte(hl);
        lemma_low_byte(value);
    }
    (
        result,
        Flags {
            zero: flags.zero,
            subtract: false,
            half_carry: (hl ^ value ^ result) & 0x100 == 0x100,
            carry: sum > 0xFFFF,
        },
    )
}

/// Adds a signed byte to the stack pointer.
pub fn add_sp(sp: u16, offset: i8) -> (out: (u16, Flags))
    ensures
        out == spec_add_sp(sp, offset),
{
    let pattern: u16 = if offset >= 0 { offset as u16 } else { (offset as i16 + 256) as u16 };
    let sum: i32 = sp as i32 + offset as i32 + 0x1_0000;
    let result: u16 = (sum % 0x1_0000) as u16;
    (
        result,
        Flags {
            zero: false,
            subtract: false,
            half_carry: sp % 256 + pattern > 255,
            carry: result < sp,
        },
    )
}

} // verus!
