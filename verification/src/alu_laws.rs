//! What each ALU operation computes, stated bit by bit or as an equation on
//! integers, for every operand.
use vstd::prelude::*;

use crate::alu::{alu16_result, alu_carry, alu_half, alu_result, alu_zero, AluOp};
use crate::util::{bit_of, lemma_with_bit};

verus! {

/// AND, OR and XOR work on each bit on its own: a bit of the result is set
/// exactly when the bit is set in both operands, in either, or in exactly one.
/// OR of a byte with itself is the byte, and sets every bit of either operand.
pub proof fn law_logic_bitwise(a: u8, b: u8, cy: bool)
    ensures
        forall|i: u8| i < 8 ==> #[trigger] bit_of(alu_result(AluOp::And, a, b, cy), i) == (bit_of(a, i) && bit_of(b, i)),
        forall|i: u8| i < 8 ==> #[trigger] bit_of(alu_result(AluOp::Or, a, b, cy), i) == (bit_of(a, i) || bit_of(b, i)),
        forall|i: u8| i < 8 ==> #[trigger] bit_of(alu_result(AluOp::Xor, a, b, cy), i) == (bit_of(a, i) != bit_of(b, i)),
        alu_result(AluOp::Or, a, a, cy) == a,
        alu_result(AluOp::And, a, a, cy) == a,
        alu_result(AluOp::Xor, a, a, cy) == 0,
        alu_result(AluOp::Or, a, b, cy) >= a,
        alu_result(AluOp::Or, a, b, cy) >= b,
        alu_result(AluOp::And, a, b, cy) <= a,
        alu_result(AluOp::And, a, b, cy) <= b,
{
    assert forall|i: u8| i < 8 implies #[trigger] bit_of(alu_result(AluOp::And, a, b, cy), i) == (bit_of(a, i) && bit_of(b, i)) by {
        assert((((a & b) >> i) & 1u8 == 1u8) == (((a >> i) & 1u8 == 1u8) && ((b >> i) & 1u8 == 1u8))) by (bit_vector);
    }
    assert forall|i: u8| i < 8 implies #[trigger] bit_of(alu_result(AluOp::Or, a, b, cy), i) == (bit_of(a, i) || bit_of(b, i)) by {
        assert((((a | b) >> i) & 1u8 == 1u8) == (((a >> i) & 1u8 == 1u8) || ((b >> i) & 1u8 == 1u8))) by (bit_vector);
    }
    assert forall|i: u8| i < 8 implies #[trigger] bit_of(alu_result(AluOp::Xor, a, b, cy), i) == (bit_of(a, i) != bit_of(b, i)) by {
        assert((((a ^ b) >> i) & 1u8 == 1u8) == (((a >> i) & 1u8 == 1u8) != ((b >> i) & 1u8 == 1u8))) by (bit_vector);
    }
    assert((a | a) == a && (a & a) == a && (a ^ a) == 0 && (a | b) >= a && (a | b) >= b && (a & b) <= a
        && (a & b) <= b) by (bit_vector);
}

/// The flags of AND, OR and XOR: Z tells whether the result is zero (for OR,
/// whether both operands are; for XOR, whether they are equal); H and CY are
/// kept.
pub proof fn law_logic_flags(a: u8, b: u8, h: bool, cy: bool)
    ensures
        alu_zero(AluOp::And, a, b, cy) == (alu_result(AluOp::And, a, b, cy) == 0),
        alu_zero(AluOp::Or, a, b, cy) == (a == 0 && b == 0),
        alu_zero(AluOp::Xor, a, b, cy) == (a == b),
        alu_half(AluOp::And, a, b, h, cy) == h,
        alu_half(AluOp::Or, a, b, h, cy) == h,
        alu_half(AluOp::Xor, a, b, h, cy) == h,
        alu_carry(AluOp::And, a, b, cy) == cy,
        alu_carry(AluOp::Or, a, b, cy) == cy,
        alu_carry(AluOp::Xor, a, b, cy) == cy,
{
    assert(((a | b) == 0) == (a == 0 && b == 0) && ((a ^ b) == 0) == (a == b)) by (bit_vector);
}

/// Addition: the result and the carry together make the exact sum of the
/// operands and the carry-in (taken for the carry variant when CY is set); H
/// is the carry out of the low nibbles; Z tells whether the result is zero.
pub proof fn law_add(a: u8, b: u8, with_carry: bool, h: bool, cy: bool)
    ensures
        ({
            let cin: int = if with_carry && cy { 1 } else { 0 };
            let r = alu_result(AluOp::Add(with_carry), a, b, cy);
            &&& r + 256 * (if alu_carry(AluOp::Add(with_carry), a, b, cy) { 1int } else { 0 }) == a + b + cin
            &&& alu_half(AluOp::Add(with_carry), a, b, h, cy) == (a % 16 + b % 16 + cin >= 16)
            &&& alu_zero(AluOp::Add(with_carry), a, b, cy) == (r == 0)
        }),
{
}

/// Subtraction: the result less the borrow makes the exact difference of the
/// operands less the carry-in; H is the borrow from the high nibble; Z tells
/// whether the result is zero. A comparison computes the same flags and
/// leaves the byte; Z then tells whether the operands are equal.
pub proof fn law_sub(a: u8, b: u8, with_carry: bool, h: bool, cy: bool)
    ensures
        ({
            let cin: int = if with_carry && cy { 1 } else { 0 };
            let r = alu_result(AluOp::Sub(with_carry), a, b, cy);
            &&& r - 256 * (if alu_carry(AluOp::Sub(with_carry), a, b, cy) { 1int } else { 0 }) == a - b - cin
            &&& alu_half(AluOp::Sub(with_carry), a, b, h, cy) == (a % 16 < b % 16 + cin)
            &&& alu_zero(AluOp::Sub(with_carry), a, b, cy) == (r == 0)
        }),
        alu_result(AluOp::Comp, a, b, cy) == a,
        alu_zero(AluOp::Comp, a, b, cy) == (a == b),
        alu_carry(AluOp::Comp, a, b, cy) == (a < b),
        alu_half(AluOp::Comp, a, b, h, cy) == (a % 16 < b % 16),
{
}

/// Rotations and shifts move every bit one place: to the left, the top bit
/// goes to CY and the bottom bit is the top bit (circular), the old CY, or 0;
/// to the right, the bottom bit goes to CY and the top bit is the bottom bit
/// (circular), the old CY, the old top bit (arithmetic shift) or 0.
pub proof fn law_rotate_shift(a: u8, cy: bool)
    ensures
        alu_result(AluOp::RotateLeft(true), a, 0, cy) / 2 == a % 128,
        alu_result(AluOp::RotateLeft(true), a, 0, cy) % 2 == a / 128,
        alu_result(AluOp::RotateLeft(false), a, 0, cy) / 2 == a % 128,
        alu_result(AluOp::RotateLeft(false), a, 0, cy) % 2 == (if cy { 1int } else { 0 }),
        alu_result(AluOp::ShiftLeft, a, 0, cy) / 2 == a % 128,
        alu_result(AluOp::ShiftLeft, a, 0, cy) % 2 == 0,
        alu_result(AluOp::RotateRight(true), a, 0, cy) % 128 == a / 2,
        alu_result(AluOp::RotateRight(true), a, 0, cy) / 128 == a % 2,
        alu_result(AluOp::RotateRight(false), a, 0, cy) % 128 == a / 2,
        alu_result(AluOp::RotateRight(false), a, 0, cy) / 128 == (if cy { 1int } else { 0 }),
        alu_result(AluOp::ShiftRight(true), a, 0, cy) % 128 == a / 2,
        alu_result(AluOp::ShiftRight(true), a, 0, cy) / 128 == a / 128,
        alu_result(AluOp::ShiftRight(false), a, 0, cy) == a / 2,
        alu_carry(AluOp::RotateLeft(true), a, 0, cy) == (a / 128 == 1),
        alu_carry(AluOp::RotateLeft(false), a, 0, cy) == (a / 128 == 1),
        alu_carry(AluOp::ShiftLeft, a, 0, cy) == (a / 128 == 1),
        alu_carry(AluOp::RotateRight(true), a, 0, cy) == (a % 2 == 1),
        alu_carry(AluOp::RotateRight(false), a, 0, cy) == (a % 2 == 1),
        alu_carry(AluOp::ShiftRight(true), a, 0, cy) == (a % 2 == 1),
        alu_carry(AluOp::ShiftRight(false), a, 0, cy) == (a % 2 == 1),
{
}

/// A circular rotation one way undoes one the other way; rotating through
/// the carry undoes too, given the carry that the first rotation left.
pub proof fn law_rotate_roundtrip(a: u8, cy: bool)
    ensures
        alu_result(AluOp::RotateRight(true), alu_result(AluOp::RotateLeft(true), a, 0, cy), 0, cy) == a,
        alu_result(AluOp::RotateLeft(true), alu_result(AluOp::RotateRight(true), a, 0, cy), 0, cy) == a,
        alu_result(
            AluOp::RotateRight(false),
            alu_result(AluOp::RotateLeft(false), a, 0, cy),
            0,
            alu_carry(AluOp::RotateLeft(false), a, 0, cy),
        ) == a,
        alu_result(
            AluOp::RotateLeft(false),
            alu_result(AluOp::RotateRight(false), a, 0, cy),
            0,
            alu_carry(AluOp::RotateRight(false), a, 0, cy),
        ) == a,
{
}

/// SWAP exchanges the two nibbles, so swapping twice gives the byte back.
pub proof fn law_swap(a: u8, cy: bool)
    ensures
        alu_result(AluOp::Swap, a, 0, cy) % 16 == a / 16,
        alu_result(AluOp::Swap, a, 0, cy) / 16 == a % 16,
        alu_result(AluOp::Swap, alu_result(AluOp::Swap, a, 0, cy), 0, cy) == a,
        alu_zero(AluOp::Swap, a, 0, cy) == (a == 0),
{
}

/// BIT leaves the byte and sets Z when the tested bit is clear; SET and RES
/// give the chosen bit the chosen value and leave the other seven.
pub proof fn law_bit_ops(a: u8, off: u8, val: bool, cy: bool)
    requires
        off < 8,
    ensures
        alu_result(AluOp::Test(off), a, 0, cy) == a,
        alu_zero(AluOp::Test(off), a, 0, cy) == !bit_of(a, off),
        bit_of(alu_result(AluOp::SetBit(off, val), a, 0, cy), off) == val,
        forall|i: u8| i < 8 && i != off ==> #[trigger] bit_of(alu_result(AluOp::SetBit(off, val), a, 0, cy), i) == bit_of(a, i),
{
    lemma_with_bit(a, off, val);
}

/// 16-bit addition and subtraction: the result and the carry (borrow)
/// together make the exact sum (difference).
pub proof fn law_alu16(a: u16, b: u16)
    ensures
        alu16_result(false, a, b) + (if a + b > 65535 { 65536int } else { 0 }) == a + b,
        alu16_result(true, a, b) - (if a < b { 65536int } else { 0 }) == a - b,
{
}

/// Z tells whether the result is zero for every operation but CP (equal
/// operands) and BIT (the tested bit clear); only ADD, ADC, SUB, SBC and CP
/// compute H, and the logic operations, SWAP, BIT, SET and RES keep CY.
pub proof fn law_flags_pass_through(op: AluOp, a: u8, b: u8, h: bool, cy: bool)
    ensures
        !(op is Comp) && !(op is Test) ==> alu_zero(op, a, b, cy) == (alu_result(op, a, b, cy) == 0),
        !(op is Add) && !(op is Sub) && !(op is Comp) ==> alu_half(op, a, b, h, cy) == h,
        (op is And || op is Or || op is Xor || op is Swap || op is Test || op is SetBit) ==> alu_carry(op, a, b, cy)
            == cy,
{
}

} // verus!
