use vstd::prelude::*;

use crate::text;
use crate::util::{bit_of, with_bit, lemma_with_bit};

verus! {

/// An 8-bit ALU operation. The `bool` of `Add`/`Sub` selects the carry-in
/// variant, that of `RotateLeft`/`RotateRight` selects the circular variant
/// (the carry flag is otherwise rotated in), that of `ShiftRight` the
/// arithmetic variant; `Test` and `SetBit` take a bit index.
#[derive(Copy, Clone, PartialEq, Eq, Structural)]
pub enum AluOp {
    Add(bool),
    Sub(bool),
    And,
    Xor,
    Or,
    Comp,
    RotateLeft(bool),
    RotateRight(bool),
    ShiftLeft,
    ShiftRight(bool),
    Swap,
    Test(u8),
    SetBit(u8, bool),
}

pub struct AluInput {
    pub op: AluOp,
    pub op_a: u8,
    pub op_b: u8,
    pub flag_z: bool,
    pub flag_n: bool,
    pub flag_h: bool,
    pub flag_cy: bool,
}

pub struct AluOutput {
    pub result: u8,
    pub flag_z: bool,
    pub flag_n: bool,
    pub flag_h: bool,
    pub flag_cy: bool,
}

pub struct AluInput16 {
    pub subtract: bool,
    pub op_a: u16,
    pub op_b: u16,
    pub flag_z: bool,
    pub flag_n: bool,
    pub flag_h: bool,
    pub flag_cy: bool,
}

pub struct AluOutput16 {
    pub result: u16,
    pub flag_z: bool,
    pub flag_n: bool,
    pub flag_h: bool,
    pub flag_cy: bool,
}

/// An operation whose bit index (if any) names a bit of a byte.
pub open spec fn alu_op_valid(op: AluOp) -> bool {
    match op {
        AluOp::Test(off) => off < 8,
        AluOp::SetBit(off, _) => off < 8,
        _ => true,
    }
}

/// The carry-in taken by `Add`/`Sub`.
pub open spec fn carry_in(carry_op: bool, flag_cy: bool) -> int {
    if carry_op && flag_cy { 1 } else { 0 }
}

/// The result byte of an 8-bit ALU operation.
pub open spec fn alu_result(op: AluOp, a: u8, b: u8, flag_cy: bool) -> u8 {
    match op {
        AluOp::Add(c) => ((a + b + carry_in(c, flag_cy)) % 256) as u8,
        AluOp::Sub(c) => ((a - b - carry_in(c, flag_cy)) % 256) as u8,
        AluOp::And => a & b,
        AluOp::Xor => a ^ b,
        AluOp::Or => a | b,
        AluOp::Comp => a,
        AluOp::RotateLeft(circular) => {
            let rotated_in = if circular { a >= 128 } else { flag_cy };
            ((a * 2) % 256 + (if rotated_in { 1int } else { 0 })) as u8
        },
        AluOp::RotateRight(circular) => {
            let rotated_in = if circular { a % 2 == 1 } else { flag_cy };
            (a / 2 + (if rotated_in { 128int } else { 0 })) as u8
        },
        AluOp::ShiftLeft => ((a * 2) % 256) as u8,
        AluOp::ShiftRight(arith) => (a / 2 + (if arith && a >= 128 { 128int } else { 0 })) as u8,
        AluOp::Swap => (a / 16 + (a % 16) * 16) as u8,
        AluOp::Test(_) => a,
        AluOp::SetBit(off, val) => with_bit(a, off, val),
    }
}

/// The Z flag after an 8-bit ALU operation.
pub open spec fn alu_zero(op: AluOp, a: u8, b: u8, flag_cy: bool) -> bool {
    match op {
        AluOp::Comp => a == b,
        AluOp::Test(off) => !bit_of(a, off),
        _ => alu_result(op, a, b, flag_cy) == 0,
    }
}

/// The H flag after an 8-bit ALU operation.
pub open spec fn alu_half(op: AluOp, a: u8, b: u8, flag_h: bool, flag_cy: bool) -> bool {
    match op {
        AluOp::Add(c) => a % 16 + b % 16 + carry_in(c, flag_cy) > 15,
        AluOp::Sub(c) => a % 16 - b % 16 - carry_in(c, flag_cy) < 0,
        AluOp::Comp => a % 16 < b % 16,
        _ => flag_h,
    }
}

/// The CY flag after an 8-bit ALU operation.
pub open spec fn alu_carry(op: AluOp, a: u8, b: u8, flag_cy: bool) -> bool {
    match op {
        AluOp::Add(c) => a + b + carry_in(c, flag_cy) > 255,
        AluOp::Sub(c) => a - b - carry_in(c, flag_cy) < 0,
        AluOp::Comp => a < b,
        AluOp::RotateLeft(_) => a >= 128,
        AluOp::RotateRight(_) => a % 2 == 1,
        AluOp::ShiftLeft => a >= 128,
        AluOp::ShiftRight(_) => a % 2 == 1,
        _ => flag_cy,
    }
}

/// Byte identities behind the shift, rotate and nibble operations.
pub proof fn lemma_byte_ops(a: u8)
    ensures
        (a << 1u8) == (a * 2) % 256,
        ((a << 1u8) | 1u8) == (a * 2) % 256 + 1,
        (a >> 1u8) == a / 2,
        ((a >> 1u8) | 0x80u8) == a / 2 + 128,
        (a & 0x80u8 != 0) == (a >= 128),
        (a & 1u8 != 0) == (a % 2 == 1),
        (a & 0xfu8) == a % 16,
        (((a & 0xf0u8) >> 4u8) | ((a & 0xfu8) << 4u8)) == a / 16 + (a % 16) * 16,
        (a & 0xf0u8) == a / 16 * 16,
        ((a << 0u32) | (a >> 0u32)) == a,
        (a << 4u32) == (a * 16) % 256,
{
    let w = a as u16;
    assert(
        ((a << 1u8) as u16 == (w * 2) % 256)
        && (((a << 1u8) | 1u8) as u16 == (w * 2) % 256 + 1)
        && ((a >> 1u8) as u16 == w / 2)
        && (((a >> 1u8) | 0x80u8) as u16 == w / 2 + 128)
        && ((a & 0x80u8 != 0) == (w >= 128))
        && ((a & 1u8 != 0) == (w % 2 == 1))
        && ((a & 0xfu8) as u16 == w % 16)
        && ((((a & 0xf0u8) >> 4u8) | ((a & 0xfu8) << 4u8)) as u16 == w / 16 + (w % 16) * 16)
        && ((a & 0xf0u8) as u16 == w / 16 * 16)
        && (((a << 0u32) | (a >> 0u32)) == a)
        && ((a << 4u32) as u16 == (w * 16) % 256)
    ) by (bit_vector)
        requires
            w == a as u16,
    ;
}

/// Addition with optional carry-in: (result, half carry, carry).
fn add8(a: u8, b: u8, cv: u8) -> (r: (u8, bool, bool))
    requires
        cv <= 1,
    ensures
        r.0 == (a + b + cv) % 256,
        r.1 == (a % 16 + b % 16 + cv > 15),
        r.2 == (a + b + cv > 255),
{
    proof {
        lemma_byte_ops(a);
        lemma_byte_ops(b);
    }
    let sum: u16 = a as u16 + b as u16 + cv as u16;
    let h = (a & 0xf) as u16 + (b & 0xf) as u16 + cv as u16 > 0xf;
    ((sum % 256) as u8, h, sum > 0xff)
}

/// Subtraction with optional borrow-in: (result, half borrow, borrow).
fn sub8(a: u8, b: u8, cv: u8) -> (r: (u8, bool, bool))
    requires
        cv <= 1,
    ensures
        r.0 == (a - b - cv) % 256,
        r.1 == (a % 16 - b % 16 - cv < 0),
        r.2 == (a - b - cv < 0),
{
    proof {
        lemma_byte_ops(a);
        lemma_byte_ops(b);
    }
    let cy = a < b || a - b < cv;
    let h = (a & 0xf) < (b & 0xf) || (a & 0xf) - (b & 0xf) < cv;
    let diff: u16 = (a as u16 + 512 - b as u16 - cv as u16) % 256;
    assert((a - b - cv) % 256 == (a + 512 - b - cv) % 256) by {
        vstd::arithmetic::div_mod::lemma_mod_add_multiples_vanish(a - b - cv, 256);
        vstd::arithmetic::div_mod::lemma_mod_add_multiples_vanish(a - b - cv + 256, 256);
    }
    (diff as u8, h, cy)
}

/// Perform an 8-bit ALU operation on `op_a` and `op_b` and compute the flags.
/// N passes through; H and CY pass through for operations that do not set them.
pub fn alu(input: AluInput) -> (out: AluOutput)
    requires
        alu_op_valid(input.op),
    ensures
        out.result == alu_result(input.op, input.op_a, input.op_b, input.flag_cy),
        out.flag_z == alu_zero(input.op, input.op_a, input.op_b, input.flag_cy),
        out.flag_n == input.flag_n,
        out.flag_h == alu_half(input.op, input.op_a, input.op_b, input.flag_h, input.flag_cy),
        out.flag_cy == alu_carry(input.op, input.op_a, input.op_b, input.flag_cy),
{
    let op_a = input.op_a;
    let op_b = input.op_b;

    let mut z = input.flag_z;
    let mut h = input.flag_h;
    let mut cy = input.flag_cy;

    let result = match input.op {
        AluOp::Add(carry_op) => {
            let cv: u8 = if carry_op && input.flag_cy { 1 } else { 0 };
            let (val, half, carry) = add8(op_a, op_b, cv);
            h = half;
            cy = carry;
            val
        },
        AluOp::Sub(carry_op) => {
            let cv: u8 = if carry_op && input.flag_cy { 1 } else { 0 };
            let (val, half, carry) = sub8(op_a, op_b, cv);
            h = half;
            cy = carry;
            val
        },
        AluOp::And => op_a & op_b,
        AluOp::Xor => op_a ^ op_b,
        AluOp::Or => op_a | op_b,
        AluOp::Comp => {
            let (val, half, carry) = sub8(op_a, op_b, 0);
            cy = carry;
            h = half;
            z = val == 0;
            op_a
        },
        AluOp::RotateLeft(carry_op) => {
            proof {
                lemma_byte_ops(op_a);
            }
            let edge_bit = (op_a & 0x80) != 0;
            let rotate_bit = if carry_op { edge_bit } else { input.flag_cy };
            cy = edge_bit;
            if rotate_bit {
                (op_a << 1u8) | 0x1
            } else {
                op_a << 1u8
            }
        },
        AluOp::RotateRight(carry_op) => {
            proof {
                lemma_byte_ops(op_a);
            }
            let edge_bit = (op_a & 0x1) != 0;
            let rotate_bit = if carry_op { edge_bit } else { input.flag_cy };
            cy = edge_bit;
            if rotate_bit {
                (op_a >> 1u8) | 0x80
            } else {
                op_a >> 1u8
            }
        },
        AluOp::ShiftRight(is_arith) => {
            proof {
                lemma_byte_ops(op_a);
            }
            cy = (op_a & 0x1) != 0;
            let fill_bit = is_arith && (op_a & 0x80 != 0);
            if fill_bit {
                (op_a >> 1u8) | 0x80
            } else {
                op_a >> 1u8
            }
        },
        AluOp::ShiftLeft => {
            proof {
                lemma_byte_ops(op_a);
            }
            cy = (op_a & 0x80) != 0;
            op_a << 1u8
        },
        AluOp::Swap => {
            proof {
                lemma_byte_ops(op_a);
            }
            ((op_a & 0xf0) >> 4u8) | ((op_a & 0xf) << 4u8)
        },
        AluOp::Test(off) => {
            proof {
                lemma_with_bit(op_a, off, true);
            }
            z = (op_a & (1u8 << off)) == 0;
            op_a
        },
        AluOp::SetBit(off, val) => {
            proof {
                lemma_with_bit(op_a, off, val);
            }
            let mask = 1u8 << off;
            if val {
                op_a | mask
            } else {
                op_a & (!mask)
            }
        },
    };

    z = match input.op {
        AluOp::Comp | AluOp::Test(_) => z,
        _ => result == 0,
    };

    AluOutput { result: result, flag_z: z, flag_n: input.flag_n, flag_h: h, flag_cy: cy }
}

/// The result of a 16-bit addition or subtraction.
pub open spec fn alu16_result(subtract: bool, a: u16, b: u16) -> u16 {
    if subtract {
        ((a - b) % 65536) as u16
    } else {
        ((a + b) % 65536) as u16
    }
}

/// 16-bit addition or subtraction: H reports a carry out of (or borrow into) bit 11,
/// CY a carry out of (or borrow into) bit 15. N passes through.
pub fn alu16(input: AluInput16) -> (out: AluOutput16)
    ensures
        out.result == alu16_result(input.subtract, input.op_a, input.op_b),
        out.flag_z == (out.result == 0),
        out.flag_n == input.flag_n,
        out.flag_h == (if input.subtract {
            input.op_a % 4096 < input.op_b % 4096
        } else {
            input.op_a % 4096 + input.op_b % 4096 > 4095
        }),
        out.flag_cy == (if input.subtract {
            input.op_a < input.op_b
        } else {
            input.op_a + input.op_b > 65535
        }),
{
    let a = input.op_a;
    let b = input.op_b;
    let (result, carry, half) = if !input.subtract {
        let sum: u32 = a as u32 + b as u32;
        ((sum % 65536) as u16, sum > 0xffff, a % 4096 + b % 4096 > 0xfff)
    } else {
        let diff: u32 = (a as u32 + 65536 - b as u32) % 65536;
        (diff as u16, a < b, a % 4096 < b % 4096)
    };

    AluOutput16 { result: result, flag_z: result == 0, flag_n: input.flag_n, flag_h: half, flag_cy: carry }
}

impl AluOp {
    /// The operation's name, as the emulator's trace prints it.
    pub fn name(&self) -> (s: String)
        ensures
            s@ == alu_op_name(*self),
    {
        let mut s = String::new();
        match *self {
            AluOp::Add(c) => s.append(if c { "AddCarry" } else { "Add" }),
            AluOp::Sub(c) => s.append(if c { "SubCarry" } else { "Sub" }),
            AluOp::And => s.append("And"),
            AluOp::Xor => s.append("Xor"),
            AluOp::Or => s.append("Or"),
            AluOp::Comp => s.append("Comp"),
            AluOp::RotateLeft(c) => s.append(if c { "RotateLeftCarry" } else { "RotateLeft" }),
            AluOp::RotateRight(c) => s.append(if c { "RotateRightCarry" } else { "RotateRight" }),
            AluOp::ShiftLeft => s.append("ShiftLeft"),
            AluOp::ShiftRight(c) => s.append(if c { "ShiftRightArithmetic" } else { "ShiftRightLogical" }),
            AluOp::Swap => s.append("Swap"),
            AluOp::Test(x) => {
                s.append("TestBit");
                text::append_digits(&mut s, x as u64, 10);
            },
            AluOp::SetBit(x, val) => {
                s.append("SetBit");
                text::append_digits(&mut s, x as u64, 10);
                s.append("To");
                s.append(if val { "1" } else { "0" });
            },
        }
        s
    }
}

/// The name of an operation: its variant, with the carry, circular or arithmetic
/// variant spelled out and the bit index in decimal.
pub open spec fn alu_op_name(op: AluOp) -> Seq<char> {
    match op {
        AluOp::Add(c) => if c { "AddCarry"@ } else { "Add"@ },
        AluOp::Sub(c) => if c { "SubCarry"@ } else { "Sub"@ },
        AluOp::And => "And"@,
        AluOp::Xor => "Xor"@,
        AluOp::Or => "Or"@,
        AluOp::Comp => "Comp"@,
        AluOp::RotateLeft(c) => if c { "RotateLeftCarry"@ } else { "RotateLeft"@ },
        AluOp::RotateRight(c) => if c { "RotateRightCarry"@ } else { "RotateRight"@ },
        AluOp::ShiftLeft => "ShiftLeft"@,
        AluOp::ShiftRight(c) => if c { "ShiftRightArithmetic"@ } else { "ShiftRightLogical"@ },
        AluOp::Swap => "Swap"@,
        AluOp::Test(x) => "TestBit"@ + text::digits(x as nat, 10),
        AluOp::SetBit(x, val) => "SetBit"@ + text::digits(x as nat, 10) + "To"@ + (if val { "1"@ } else { "0"@ }),
    }
}

} // verus!
