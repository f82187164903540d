use vstd::prelude::*;

use std::collections::HashSet;

use crate::alu::AluOp;
use crate::lookup;
use crate::memory::{MemClient, MemView, Memory};
use crate::video::{self, DisplayView, PPU};
use crate::registers::{Flag, FlagMod, FlagStatus, Reg16, Reg8, RegFile, RegOps, RegisterCache};
use crate::util;

verus! {

/// The state that instructions read and write.
pub struct CoreView {
    pub regs: RegFile,
    pub mem: MemView,
    pub ir_enabled: bool,
    pub quit: bool,
    pub was_zero: bool,
    pub half_carry: bool,
    pub full_carry: bool,
}

impl CoreView {
    pub open spec fn with_regs(self, regs: RegFile) -> CoreView {
        CoreView { regs: regs, ..self }
    }

    pub open spec fn with_mem(self, mem: MemView) -> CoreView {
        CoreView { mem: mem, ..self }
    }

    /// The little-endian word at `addr`.
    pub open spec fn read16(self, addr: u16) -> u16 {
        util::le_word(self.mem.read(addr), self.mem.read((addr + 1) as u16))
    }

    /// The byte at `addr` can be read and written.
    pub open spec fn can_access(self, addr: u16) -> bool {
        self.mem.readable(addr)
    }

    /// The word at `addr` can be read and written: both its bytes, the
    /// second without wrapping around the address space.
    pub open spec fn can_access16(self, addr: u16) -> bool {
        addr != 0xffff && self.mem.readable(addr) && self.mem.readable((addr + 1) as u16)
    }
}

/// A push can store its word below SP.
pub open spec fn can_push(c: CoreView) -> bool {
    c.can_access16(add16(c.regs.sp, -2))
}

/// A pop can read the word at SP.
pub open spec fn can_pop(c: CoreView) -> bool {
    c.can_access16(c.regs.sp)
}

/// `a + b` on 16 bits, wrapping around.
pub open spec fn add16(a: u16, b: int) -> u16 {
    ((a + b) % 65536) as u16
}

/// `a + b` on 8 bits, wrapping around.
pub open spec fn add8(a: u8, b: int) -> u8 {
    ((a + b) % 256) as u8
}

/// Push: SP drops by two, then the register's value is stored there, low byte first.
pub open spec fn push_spec(c: CoreView, src: Reg16) -> CoreView {
    let sp = add16(c.regs.sp, -2);
    let regs = c.regs.set16(Reg16::SP, sp);
    let v = regs.get16(src);
    CoreView {
        regs: regs,
        mem: c.mem.write(sp, (v % 256) as u8).write((sp + 1) as u16, (v / 256) as u8),
        ..c
    }
}

/// Pop: the word at SP goes to the register, and SP rises by two.
pub open spec fn pop_spec(c: CoreView, dst: Reg16) -> CoreView {
    let v = c.read16(c.regs.sp);
    c.with_regs(c.regs.set16(Reg16::SP, add16(c.regs.sp, 2)).set16(dst, v))
}

/// Call: push PC, jump.
pub open spec fn call_spec(c: CoreView, addr: u16) -> CoreView {
    let pushed = push_spec(c, Reg16::PC);
    pushed.with_regs(pushed.regs.set16(Reg16::PC, addr))
}

/// Return: pop PC, and enable interrupts for RETI.
pub open spec fn ret_spec(c: CoreView, enable_ir: bool) -> CoreView {
    let popped = pop_spec(c, Reg16::PC);
    if enable_ir {
        CoreView { ir_enabled: true, ..popped }
    } else {
        popped
    }
}

/// Whether a conditional instruction on `flag` is taken: when the flag is
/// set, or when it is clear for the `if_unset` variant.
pub open spec fn cond_taken(c: CoreView, flag: Flag, if_unset: bool) -> bool {
    c.regs.flag(flag) != if_unset
}

/// Relative jump by a signed offset; a target outside the address space ends
/// the program instead.
pub open spec fn jump_relative_spec(c: CoreView, offset: u8) -> CoreView {
    let signed: int = if offset < 128 { offset as int } else { offset - 256 };
    let target = c.regs.pc + signed;
    if target < 0 || target > 0xffff {
        CoreView { quit: true, ..c }
    } else {
        c.with_regs(c.regs.set16(Reg16::PC, target as u16))
    }
}

/// The result of the interpreter's 8-bit ALU and the flags it leaves in
/// `half_carry`, `full_carry` and `was_zero`.
///
/// With a carry-in, `Add` and `Sub` add or subtract one instead of the
/// operand; `Swap` leaves the byte as it is; the non-circular rotations
/// rotate in the interpreter's last carry rather than the CY flag; `Comp`
/// keeps `was_zero`.
pub open spec fn alu_spec(c: CoreView, op: AluOp, a: u8, b: u8) -> (u8, CoreView) {
    let carry_bit = c.regs.flag(Flag::CY);
    match op {
        AluOp::Add(carry_op) => {
            let half_val = a % 16 + b % 16;
            if carry_op && carry_bit {
                let r = add8(a, 1);
                (r, CoreView { half_carry: half_val + 1 > 15, full_carry: a + b > 255 || a == 255, was_zero: r == 0, ..c })
            } else {
                let r = add8(a, b as int);
                (r, CoreView { half_carry: half_val > 15, full_carry: a + b > 255, was_zero: r == 0, ..c })
            }
        },
        AluOp::Sub(carry_op) => {
            let half_over = a / 16 < b / 16;
            if carry_op && carry_bit {
                let r = add8(a, -1);
                (r, CoreView { half_carry: half_over || a / 16 == b / 16 + 1, full_carry: a < b || a == 0, was_zero: r == 0, ..c })
            } else {
                let r = add8(a, -(b as int));
                (r, CoreView { half_carry: half_over, full_carry: a < b, was_zero: r == 0, ..c })
            }
        },
        AluOp::And => (a & b, CoreView { was_zero: a & b == 0, ..c }),
        AluOp::Xor => (a ^ b, CoreView { was_zero: a ^ b == 0, ..c }),
        AluOp::Or => (a | b, CoreView { was_zero: a | b == 0, ..c }),
        AluOp::Comp => (a, CoreView { half_carry: a < b, full_carry: a % 16 < b % 16, ..c }),
        AluOp::RotateLeft(circular) => {
            let rotated_in = if circular { a >= 128 } else { c.full_carry };
            let r = ((a * 2) % 256 + (if rotated_in { 1int } else { 0 })) as u8;
            (r, CoreView { full_carry: a >= 128, was_zero: r == 0, ..c })
        },
        AluOp::RotateRight(circular) => {
            let rotated_in = if circular { a % 2 == 1 } else { c.full_carry };
            let r = (a / 2 + (if rotated_in { 128int } else { 0 })) as u8;
            (r, CoreView { full_carry: a % 2 == 1, was_zero: r == 0, ..c })
        },
        AluOp::ShiftLeft => {
            let r = ((a * 2) % 256) as u8;
            (r, CoreView { full_carry: a >= 128, was_zero: r == 0, ..c })
        },
        AluOp::ShiftRight(arith) => {
            let r = (a / 2 + (if arith && a >= 128 { 128int } else { 0 })) as u8;
            (r, CoreView { full_carry: a % 2 == 1, was_zero: r == 0, ..c })
        },
        AluOp::Swap => (a, CoreView { was_zero: a == 0, ..c }),
        AluOp::Test(off) => (a, CoreView { was_zero: !util::bit_of(a, off), ..c }),
        AluOp::SetBit(off, val) => {
            let r = util::with_bit(a, off, val);
            (r, CoreView { was_zero: r == 0, ..c })
        },
    }
}

/// Whether the interpreter's ALU can run on these inputs: not for a
/// subtraction with carry whose high nibbles are equal (it underflows while
/// computing the half carry), nor for a bit index above 7.
pub open spec fn alu_defined(c: CoreView, op: AluOp, a: u8, b: u8) -> bool {
    &&& (op matches AluOp::Sub(true) && c.regs.flag(Flag::CY) ==> a / 16 != b / 16)
    &&& crate::alu::alu_op_valid(op)
}

/// Apply one flag modifier.
pub open spec fn eval_flag_spec(c: CoreView, flag: Flag, m: FlagMod) -> CoreView {
    match m {
        FlagMod::Ignore => c,
        FlagMod::SetTo(v) => c.with_regs(c.regs.set_flag(flag, v)),
        FlagMod::Eval => match flag {
            Flag::Z => c.with_regs(c.regs.set_flag(flag, c.was_zero)),
            Flag::H => c.with_regs(c.regs.set_flag(flag, c.half_carry)),
            Flag::CY => c.with_regs(c.regs.set_flag(flag, c.full_carry)),
            Flag::N => c,
        },
    }
}

/// Apply an instruction's flag modifiers, in the order Z, N, H, CY.
pub open spec fn eval_flags_spec(c: CoreView, flags: FlagStatus) -> CoreView {
    eval_flag_spec(
        eval_flag_spec(eval_flag_spec(eval_flag_spec(c, Flag::Z, flags.z), Flag::N, flags.n), Flag::H, flags.h),
        Flag::CY,
        flags.cy,
    )
}

/// An ALU operation on register `dst` and `val`, the result stored in `dst`.
pub open spec fn arith_imm_spec(c: CoreView, op: AluOp, dst: Reg8, flags: FlagStatus, val: u8) -> CoreView {
    let (r, c1) = alu_spec(c, op, c.regs.get8(dst), val);
    eval_flags_spec(c1.with_regs(c1.regs.set8(dst, r)), flags)
}

/// An ALU operation on the byte at (HL), the result stored back.
pub open spec fn bitwise_hl_ptr_spec(c: CoreView, op: AluOp, flags: FlagStatus) -> CoreView {
    let addr = c.regs.get16(Reg16::HL);
    let (r, c1) = alu_spec(c, op, c.mem.read(addr), 0);
    eval_flags_spec(c1.with_mem(c1.mem.write(addr, r)), flags)
}

/// The 16-bit addition or subtraction of the interpreter: an addition sets
/// `full_carry` and `half_carry` (carry out of bit 11); a subtraction wraps
/// around and leaves them.
pub open spec fn add_u16_spec(c: CoreView, a: u16, b: u16, subtract: bool) -> (u16, CoreView) {
    if subtract {
        (add16(a, -(b as int)), c)
    } else {
        (add16(a, b as int), CoreView { full_carry: a + b > 65535, half_carry: a % 4096 + b % 4096 > 4095, ..c })
    }
}

/// Add a 16-bit register to HL.
pub open spec fn add_hl_spec(c: CoreView, flags: FlagStatus, src: Reg16) -> CoreView {
    let (r, c1) = add_u16_spec(c, c.regs.get16(Reg16::HL), c.regs.get16(src), false);
    eval_flags_spec(c1.with_regs(c1.regs.set16(Reg16::HL, r)), flags)
}

/// Add SP and a signed byte into `dest`: a negative offset subtracts the
/// offset's unsigned byte value.
pub open spec fn add_sp_signed_spec(c: CoreView, flags: FlagStatus, dest: Reg16, offset: u8) -> CoreView {
    let (r, c1) = add_u16_spec(c, c.regs.sp, offset as u16, offset >= 128);
    eval_flags_spec(c1.with_regs(c1.regs.set16(dest, r)), flags)
}

/// The adjustment that the interpreter's DAA adds to A. The "high digit" is
/// taken from A shifted left by four.
pub open spec fn daa_adjust(r: RegFile) -> u8 {
    let hi = ((r.a * 16) % 256) as u8;
    let lo = r.a % 16;
    if !r.flag(Flag::N) {
        ((if r.flag(Flag::CY) || hi > 9 || lo > 9 { 0x60int } else { 0 }) + (if r.flag(Flag::H) || lo > 9 {
            6int
        } else {
            0
        })) as u8
    } else if r.flag(Flag::CY) {
        if r.flag(Flag::H) { 0x9a } else { 0xa0 }
    } else if r.flag(Flag::H) {
        0xfa
    } else {
        0
    }
}

/// Copy between A and (HL), then step HL.
pub open spec fn ldd_spec(c: CoreView, is_get: bool, is_add: bool) -> CoreView {
    let hl = c.regs.get16(Reg16::HL);
    let c1 = if is_get {
        c.with_regs(c.regs.set8(Reg8::A, c.mem.read(hl)))
    } else {
        c.with_mem(c.mem.write(hl, c.regs.a))
    };
    c1.with_regs(c1.regs.set16(Reg16::HL, add16(hl, if is_add { 1 } else { -1 })))
}

/// The 8-bit register named by the low three bits of a regular opcode (6, the
/// (HL) operand, excepted).
pub open spec fn reg_of(r: int) -> Reg8 {
    if r == 0 { Reg8::B } else if r == 1 { Reg8::C } else if r == 2 { Reg8::D } else if r == 3 { Reg8::E }
    else if r == 4 { Reg8::H } else if r == 5 { Reg8::L } else { Reg8::A }
}

/// The ALU operation of the 0x80-0xBF block and of the immediate forms.
pub open spec fn arith_op_of(k: int) -> AluOp {
    if k == 0 { AluOp::Add(false) } else if k == 1 { AluOp::Add(true) } else if k == 2 { AluOp::Sub(false) }
    else if k == 3 { AluOp::Sub(true) } else if k == 4 { AluOp::And } else if k == 5 { AluOp::Xor }
    else if k == 6 { AluOp::Or } else { AluOp::Comp }
}

/// The operation of a 0xCB-prefixed opcode, from the byte after the prefix.
pub open spec fn cb_op_of(lo: int) -> AluOp {
    let k = (lo / 8) % 8;
    if lo < 0x40 {
        if k == 0 { AluOp::RotateLeft(true) } else if k == 1 { AluOp::RotateRight(true) }
        else if k == 2 { AluOp::RotateLeft(false) } else if k == 3 { AluOp::RotateRight(false) }
        else if k == 4 { AluOp::ShiftLeft } else if k == 5 { AluOp::ShiftRight(true) }
        else if k == 6 { AluOp::Swap } else { AluOp::ShiftRight(false) }
    } else if lo < 0x80 {
        AluOp::Test(k as u8)
    } else {
        AluOp::SetBit(k as u8, lo >= 0xc0)
    }
}

/// The opcodes that have no instruction: executing one panics.
pub open spec fn invalid_opcode(op: u16) -> bool {
    op == 0xd3 || op == 0xdb || op == 0xdd || op == 0xe3 || op == 0xe4 || op == 0xeb || op == 0xec
        || op == 0xed || op == 0xf4 || op == 0xfc || op == 0xfd
}


/// The table part of the instruction set: opcodes 0x00-0x3F and 0xC0-0xFF.
pub open spec fn irregular_spec(c: CoreView, opcode: u8, op8: u8, op16: u16) -> CoreView {
    match opcode {
        0x00 => c,
        0x01 => c.with_regs(c.regs.set16(Reg16::BC, op16)),
        0x02 => c.with_mem(c.mem.write(c.regs.get16(Reg16::BC), c.regs.get8(Reg8::A))),
        0x03 => c.with_regs(c.regs.set16(Reg16::BC, add16(c.regs.get16(Reg16::BC), 1))),
        0x04 => c.with_regs(c.regs.set8(Reg8::B, add8(c.regs.get8(Reg8::B), 1))),
        0x05 => c.with_regs(c.regs.set8(Reg8::B, add8(c.regs.get8(Reg8::B), -1))),
        0x06 => c.with_regs(c.regs.set8(Reg8::B, op8)),
        0x07 => arith_imm_spec(c, AluOp::RotateLeft(true), Reg8::A, lookup::flags_spec(0x07), 0),
        0x08 => c.with_mem(c.mem.write(op16, (c.regs.sp % 256) as u8).write((op16 + 1) as u16, (c.regs.sp / 256) as u8)),
        0x09 => add_hl_spec(c, lookup::flags_spec(0x09), Reg16::BC),
        0x0a => c.with_regs(c.regs.set8(Reg8::A, c.mem.read(c.regs.get16(Reg16::BC)))),
        0x0b => c.with_regs(c.regs.set16(Reg16::BC, add16(c.regs.get16(Reg16::BC), -1))),
        0x0c => c.with_regs(c.regs.set8(Reg8::C, add8(c.regs.get8(Reg8::C), 1))),
        0x0d => c.with_regs(c.regs.set8(Reg8::C, add8(c.regs.get8(Reg8::C), -1))),
        0x0e => c.with_regs(c.regs.set8(Reg8::C, op8)),
        0x0f => arith_imm_spec(c, AluOp::RotateRight(true), Reg8::A, lookup::flags_spec(0x0f), 0),
        0x10 => CoreView { quit: true, ..c },
        0x11 => c.with_regs(c.regs.set16(Reg16::DE, op16)),
        0x12 => c.with_mem(c.mem.write(c.regs.get16(Reg16::DE), c.regs.get8(Reg8::A))),
        0x13 => c.with_regs(c.regs.set16(Reg16::DE, add16(c.regs.get16(Reg16::DE), 1))),
        0x14 => c.with_regs(c.regs.set8(Reg8::D, add8(c.regs.get8(Reg8::D), 1))),
        0x15 => c.with_regs(c.regs.set8(Reg8::D, add8(c.regs.get8(Reg8::D), -1))),
        0x16 => c.with_regs(c.regs.set8(Reg8::D, op8)),
        0x17 => arith_imm_spec(c, AluOp::RotateLeft(false), Reg8::A, lookup::flags_spec(0x17), 0),
        0x18 => jump_relative_spec(c, op8),
        0x19 => add_hl_spec(c, lookup::flags_spec(0x19), Reg16::DE),
        0x1a => c.with_regs(c.regs.set8(Reg8::A, c.mem.read(c.regs.get16(Reg16::DE)))),
        0x1b => c.with_regs(c.regs.set16(Reg16::BC, add16(c.regs.get16(Reg16::BC), -1))),
        0x1c => c.with_regs(c.regs.set8(Reg8::D, add8(c.regs.get8(Reg8::D), 1))),
        0x1d => c.with_regs(c.regs.set8(Reg8::D, add8(c.regs.get8(Reg8::D), -1))),
        0x1e => c.with_regs(c.regs.set8(Reg8::E, op8)),
        0x1f => arith_imm_spec(c, AluOp::RotateRight(false), Reg8::A, lookup::flags_spec(0x1f), 0),
        0x20 => if cond_taken(c, Flag::Z, true) { jump_relative_spec(c, op8) } else { c },
        0x21 => c.with_regs(c.regs.set16(Reg16::HL, op16)),
        0x22 => ldd_spec(c, true, true),
        0x23 => c.with_regs(c.regs.set16(Reg16::HL, add16(c.regs.get16(Reg16::HL), 1))),
        0x24 => c.with_regs(c.regs.set8(Reg8::H, add8(c.regs.get8(Reg8::H), 1))),
        0x25 => c.with_regs(c.regs.set8(Reg8::H, add8(c.regs.get8(Reg8::H), -1))),
        0x26 => c.with_regs(c.regs.set8(Reg8::H, op8)),
        0x27 => arith_imm_spec(c, AluOp::Add(false), Reg8::A, lookup::flags_spec(0x27), daa_adjust(c.regs)),
        0x28 => if cond_taken(c, Flag::Z, false) { jump_relative_spec(c, op8) } else { c },
        0x29 => add_hl_spec(c, lookup::flags_spec(0x29), Reg16::HL),
        0x2a => ldd_spec(c, false, true),
        0x2b => c.with_regs(c.regs.set16(Reg16::HL, add16(c.regs.get16(Reg16::HL), -1))),
        0x2c => c.with_regs(c.regs.set8(Reg8::L, add8(c.regs.get8(Reg8::L), 1))),
        0x2d => c.with_regs(c.regs.set8(Reg8::L, add8(c.regs.get8(Reg8::L), -1))),
        0x2e => c.with_regs(c.regs.set8(Reg8::L, op8)),
        0x2f => arith_imm_spec(c, AluOp::Xor, Reg8::A, lookup::flags_spec(0x2f), 0xff),
        0x30 => if cond_taken(c, Flag::CY, true) { jump_relative_spec(c, op8) } else { c },
        0x31 => c.with_regs(c.regs.set16(Reg16::SP, op16)),
        0x32 => ldd_spec(c, true, false),
        0x33 => c.with_regs(c.regs.set16(Reg16::HL, add16(c.regs.get16(Reg16::HL), 1))),
        0x34 => c.with_mem(c.mem.write(c.regs.get16(Reg16::HL), add8(c.mem.read(c.regs.get16(Reg16::HL)), 1))),
        0x35 => c.with_mem(c.mem.write(c.regs.get16(Reg16::HL), add8(c.mem.read(c.regs.get16(Reg16::HL)), -1))),
        0x36 => c.with_mem(c.mem.write(c.regs.get16(Reg16::HL), op8)),
        0x37 => c.with_regs(c.regs.set_flag(Flag::CY, true)),
        0x38 => if cond_taken(c, Flag::CY, false) { jump_relative_spec(c, op8) } else { c },
        0x39 => add_hl_spec(c, lookup::flags_spec(0x39), Reg16::SP),
        0x3a => ldd_spec(c, false, false),
        0x3b => c.with_regs(c.regs.set16(Reg16::SP, add16(c.regs.get16(Reg16::SP), -1))),
        0x3c => c.with_regs(c.regs.set8(Reg8::A, add8(c.regs.get8(Reg8::A), 1))),
        0x3d => c.with_regs(c.regs.set8(Reg8::A, add8(c.regs.get8(Reg8::A), -1))),
        0x3e => c.with_regs(c.regs.set8(Reg8::A, op8)),
        0x3f => c.with_regs(c.regs.set_flag(Flag::CY, !c.regs.flag(Flag::CY))),
        0xc0 => if cond_taken(c, Flag::Z, true) { ret_spec(c, false) } else { c },
        0xc1 => pop_spec(c, Reg16::BC),
        0xc2 => if cond_taken(c, Flag::Z, true) { c.with_regs(c.regs.set16(Reg16::PC, op16)) } else { c },
        0xc3 => c.with_regs(c.regs.set16(Reg16::PC, op16)),
        0xc4 => if cond_taken(c, Flag::Z, true) { call_spec(c, op16) } else { c },
        0xc5 => push_spec(c, Reg16::BC),
        0xc6 => arith_imm_spec(c, AluOp::Add(false), Reg8::A, lookup::flags_spec(0xc6), op8),
        0xc7 => call_spec(c, 0x00),
        0xc8 => if cond_taken(c, Flag::Z, false) { ret_spec(c, false) } else { c },
        0xc9 => ret_spec(c, false),
        0xca => if cond_taken(c, Flag::Z, false) { c.with_regs(c.regs.set16(Reg16::PC, op16)) } else { c },
        0xcb => CoreView { quit: true, ..c },
        0xcc => if cond_taken(c, Flag::Z, false) { call_spec(c, op16) } else { c },
        0xcd => call_spec(c, op16),
        0xce => arith_imm_spec(c, AluOp::Add(true), Reg8::A, lookup::flags_spec(0xce), op8),
        0xcf => call_spec(c, 0x08),
        0xd0 => if cond_taken(c, Flag::CY, true) { ret_spec(c, false) } else { c },
        0xd1 => pop_spec(c, Reg16::DE),
        0xd2 => if cond_taken(c, Flag::CY, true) { c.with_regs(c.regs.set16(Reg16::PC, op16)) } else { c },
        0xd3 => c,
        0xd4 => if cond_taken(c, Flag::CY, true) { call_spec(c, op16) } else { c },
        0xd5 => push_spec(c, Reg16::DE),
        0xd6 => arith_imm_spec(c, AluOp::Sub(false), Reg8::A, lookup::flags_spec(0xd6), op8),
        0xd7 => call_spec(c, 0x10),
        0xd8 => if cond_taken(c, Flag::CY, false) { ret_spec(c, false) } else { c },
        0xd9 => ret_spec(c, true),
        0xda => if cond_taken(c, Flag::CY, false) { c.with_regs(c.regs.set16(Reg16::PC, op16)) } else { c },
        0xdb => c,
        0xdc => if cond_taken(c, Flag::CY, false) { call_spec(c, op16) } else { c },
        0xdd => c,
        0xde => arith_imm_spec(c, AluOp::Sub(true), Reg8::A, lookup::flags_spec(0xde), op8),
        0xdf => call_spec(c, 0x18),
        0xe0 => c.with_mem(c.mem.write((0xff00 + op8) as u16, c.regs.a)),
        0xe1 => pop_spec(c, Reg16::HL),
        0xe2 => c.with_regs(c.regs.set8(Reg8::A, c.mem.read((0xff00 + c.regs.c) as u16))),
        0xe3 => c,
        0xe4 => c,
        0xe5 => push_spec(c, Reg16::HL),
        0xe6 => arith_imm_spec(c, AluOp::And, Reg8::A, lookup::flags_spec(0xe6), op8),
        0xe7 => call_spec(c, 0x20),
        0xe8 => add_sp_signed_spec(c, lookup::flags_spec(0xe8), Reg16::SP, op8),
        0xe9 => c.with_regs(c.regs.set16(Reg16::PC, c.read16(c.regs.get16(Reg16::HL)))),
        0xea => c.with_mem(c.mem.write(op16, c.regs.a)),
        0xeb => c,
        0xec => c,
        0xed => c,
        0xee => arith_imm_spec(c, AluOp::Xor, Reg8::A, lookup::flags_spec(0xee), op8),
        0xef => call_spec(c, 0x28),
        0xf0 => c.with_regs(c.regs.set8(Reg8::A, c.mem.read((0xff00 + op8) as u16))),
        0xf1 => pop_spec(c, Reg16::AF),
        0xf2 => c.with_mem(c.mem.write((0xff00 + c.regs.c) as u16, c.regs.a)),
        0xf3 => CoreView { ir_enabled: false, ..c },
        0xf4 => c,
        0xf5 => push_spec(c, Reg16::AF),
        0xf6 => arith_imm_spec(c, AluOp::Or, Reg8::A, lookup::flags_spec(0xf6), op8),
        0xf7 => call_spec(c, 0x30),
        0xf8 => add_sp_signed_spec(c, lookup::flags_spec(0xf8), Reg16::HL, op8),
        0xf9 => c.with_regs(c.regs.set16(Reg16::SP, c.regs.get16(Reg16::HL))),
        0xfa => c.with_regs(c.regs.set8(Reg8::A, c.mem.read(op16))),
        0xfb => CoreView { ir_enabled: true, ..c },
        0xfc => c,
        0xfd => c,
        0xfe => arith_imm_spec(c, AluOp::Comp, Reg8::A, lookup::flags_spec(0xfe), op8),
        0xff => call_spec(c, 0x38),
        _ => c,
    }
}

/// Whether the table part can execute an opcode: invalid opcodes panic, and so
/// do accesses outside the memory there is (a word must not wrap around the
/// address space), an increment of (HL) past 255 or a decrement below 0, and
/// the ALU's subtraction with carry on equal high nibbles.
pub open spec fn irregular_defined(c: CoreView, opcode: u8, op8: u8, op16: u16) -> bool {
    match opcode {
        0x02 => c.can_access(c.regs.get16(Reg16::BC)),
        0x07 => alu_defined(c, AluOp::RotateLeft(true), c.regs.a, 0),
        0x08 => c.can_access16(op16),
        0x0a => c.can_access(c.regs.get16(Reg16::BC)),
        0x0f => alu_defined(c, AluOp::RotateRight(true), c.regs.a, 0),
        0x12 => c.can_access(c.regs.get16(Reg16::DE)),
        0x17 => alu_defined(c, AluOp::RotateLeft(false), c.regs.a, 0),
        0x1a => c.can_access(c.regs.get16(Reg16::DE)),
        0x1f => alu_defined(c, AluOp::RotateRight(false), c.regs.a, 0),
        0x22 => c.can_access(c.regs.get16(Reg16::HL)),
        0x2a => c.can_access(c.regs.get16(Reg16::HL)),
        0x2f => alu_defined(c, AluOp::Xor, c.regs.a, 0xff),
        0x32 => c.can_access(c.regs.get16(Reg16::HL)),
        0x34 => c.can_access(c.regs.get16(Reg16::HL)) && c.mem.read(c.regs.get16(Reg16::HL)) != 255,
        0x35 => c.can_access(c.regs.get16(Reg16::HL)) && c.mem.read(c.regs.get16(Reg16::HL)) != 0,
        0x36 => c.can_access(c.regs.get16(Reg16::HL)),
        0x3a => c.can_access(c.regs.get16(Reg16::HL)),
        0xc0 => cond_taken(c, Flag::Z, true) ==> can_pop(c),
        0xc1 => can_pop(c),
        0xc4 => cond_taken(c, Flag::Z, true) ==> can_push(c),
        0xc5 => can_push(c),
        0xc6 => alu_defined(c, AluOp::Add(false), c.regs.a, op8),
        0xc7 => can_push(c),
        0xc8 => cond_taken(c, Flag::Z, false) ==> can_pop(c),
        0xc9 => can_pop(c),
        0xcc => cond_taken(c, Flag::Z, false) ==> can_push(c),
        0xcd => can_push(c),
        0xce => alu_defined(c, AluOp::Add(true), c.regs.a, op8),
        0xcf => can_push(c),
        0xd0 => cond_taken(c, Flag::CY, true) ==> can_pop(c),
        0xd1 => can_pop(c),
        0xd3 => false,
        0xd4 => cond_taken(c, Flag::CY, true) ==> can_push(c),
        0xd5 => can_push(c),
        0xd6 => alu_defined(c, AluOp::Sub(false), c.regs.a, op8),
        0xd7 => can_push(c),
        0xd8 => cond_taken(c, Flag::CY, false) ==> can_pop(c),
        0xd9 => can_pop(c),
        0xdb => false,
        0xdc => cond_taken(c, Flag::CY, false) ==> can_push(c),
        0xdd => false,
        0xde => alu_defined(c, AluOp::Sub(true), c.regs.a, op8),
        0xdf => can_push(c),
        0xe0 => c.can_access((0xff00 + op8) as u16),
        0xe1 => can_pop(c),
        0xe2 => c.can_access((0xff00 + c.regs.c) as u16),
        0xe3 => false,
        0xe4 => false,
        0xe5 => can_push(c),
        0xe6 => alu_defined(c, AluOp::And, c.regs.a, op8),
        0xe7 => can_push(c),
        0xe9 => c.can_access16(c.regs.get16(Reg16::HL)),
        0xea => c.can_access(op16),
        0xeb => false,
        0xec => false,
        0xed => false,
        0xee => alu_defined(c, AluOp::Xor, c.regs.a, op8),
        0xef => can_push(c),
        0xf0 => c.can_access((0xff00 + op8) as u16),
        0xf1 => can_pop(c),
        0xf2 => c.can_access((0xff00 + c.regs.c) as u16),
        0xf4 => false,
        0xf5 => can_push(c),
        0xf6 => alu_defined(c, AluOp::Or, c.regs.a, op8),
        0xf7 => can_push(c),
        0xfa => c.can_access(op16),
        0xfc => false,
        0xfd => false,
        0xfe => alu_defined(c, AluOp::Comp, c.regs.a, op8),
        0xff => can_push(c),
        _ => true,
    }
}

/// What executing an opcode (0xCB-prefixed ones as `0xCB00 | byte`) does, PC
/// already advanced: loads between registers and (HL) in 0x40-0x7F (0x76 halts),
/// ALU operations on A in 0x80-0xBF, rotations, shifts and bit operations in
/// the 0xCB set, and the table for the rest.
pub open spec fn execute_spec(c: CoreView, opcode: u16, op8: u8, op16: u16) -> CoreView {
    let flags = lookup::flags_spec(opcode);
    let hl = c.regs.get16(Reg16::HL);
    if 0x40 <= opcode < 0x80 {
        let d = ((opcode / 8) % 8) as int;
        let r = (opcode % 8) as int;
        if opcode == 0x76 {
            CoreView { quit: true, ..c }
        } else if r == 6 {
            c.with_regs(c.regs.set8(reg_of(d), c.mem.read(hl)))
        } else if d == 6 {
            c.with_mem(c.mem.write(hl, c.regs.get8(reg_of(r))))
        } else {
            c.with_regs(c.regs.set8(reg_of(d), c.regs.get8(reg_of(r))))
        }
    } else if 0x80 <= opcode < 0xc0 {
        let op = arith_op_of(((opcode / 8) % 8) as int);
        let r = (opcode % 8) as int;
        arith_imm_spec(c, op, Reg8::A, flags, if r == 6 { c.mem.read(hl) } else { c.regs.get8(reg_of(r)) })
    } else if 0xcb00 <= opcode <= 0xcbff {
        let lo = (opcode - 0xcb00) as int;
        let r = lo % 8;
        if r == 6 {
            bitwise_hl_ptr_spec(c, cb_op_of(lo), flags)
        } else {
            arith_imm_spec(c, cb_op_of(lo), reg_of(r), flags, 0)
        }
    } else if opcode < 0x100 {
        irregular_spec(c, opcode as u8, op8, op16)
    } else {
        CoreView { quit: true, ..c }
    }
}

/// Whether an opcode can execute: an operand (HL) must be accessible, the ALU
/// defined on its operands, and the table part defined (see `irregular_defined`).
pub open spec fn execute_defined(c: CoreView, opcode: u16, op8: u8, op16: u16) -> bool {
    let hl = c.regs.get16(Reg16::HL);
    if 0x40 <= opcode < 0x80 {
        opcode != 0x76 && (opcode % 8 == 6 || (opcode / 8) % 8 == 6) ==> c.can_access(hl)
    } else if 0x80 <= opcode < 0xc0 {
        let r = (opcode % 8) as int;
        &&& (r == 6 ==> c.can_access(hl))
        &&& alu_defined(
            c,
            arith_op_of(((opcode / 8) % 8) as int),
            c.regs.a,
            if r == 6 { c.mem.read(hl) } else { c.regs.get8(reg_of(r)) },
        )
    } else if 0xcb00 <= opcode <= 0xcbff {
        opcode % 8 == 6 ==> c.can_access(hl)
    } else if opcode < 0x100 {
        irregular_defined(c, opcode as u8, op8, op16)
    } else {
        true
    }
}

/// The interpreter's state.
pub struct CpuCore {
    pub regs: RegisterCache,
    pub mem: Memory,
    pub ir_enabled: bool,
    pub quit: bool,
    pub was_zero: bool,
    pub half_carry: bool,
    pub full_carry: bool,
}

impl View for CpuCore {
    type V = CoreView;

    open spec fn view(&self) -> CoreView {
        CoreView {
            regs: self.regs@,
            mem: self.mem@,
            ir_enabled: self.ir_enabled,
            quit: self.quit,
            was_zero: self.was_zero,
            half_carry: self.half_carry,
            full_carry: self.full_carry,
        }
    }
}

fn reg_of_exec(r: u16) -> (reg: Reg8)
    requires
        r < 8,
        r != 6,
    ensures
        reg == reg_of(r as int),
{
    match r {
        0 => Reg8::B,
        1 => Reg8::C,
        2 => Reg8::D,
        3 => Reg8::E,
        4 => Reg8::H,
        5 => Reg8::L,
        _ => Reg8::A,
    }
}

fn arith_op_of_exec(k: u16) -> (op: AluOp)
    requires
        k < 8,
    ensures
        op == arith_op_of(k as int),
{
    match k {
        0 => AluOp::Add(false),
        1 => AluOp::Add(true),
        2 => AluOp::Sub(false),
        3 => AluOp::Sub(true),
        4 => AluOp::And,
        5 => AluOp::Xor,
        6 => AluOp::Or,
        _ => AluOp::Comp,
    }
}

fn cb_op_of_exec(lo: u16) -> (op: AluOp)
    requires
        lo < 256,
    ensures
        op == cb_op_of(lo as int),
{
    let k = (lo / 8) % 8;
    if lo < 0x40 {
        match k {
            0 => AluOp::RotateLeft(true),
            1 => AluOp::RotateRight(true),
            2 => AluOp::RotateLeft(false),
            3 => AluOp::RotateRight(false),
            4 => AluOp::ShiftLeft,
            5 => AluOp::ShiftRight(true),
            6 => AluOp::Swap,
            _ => AluOp::ShiftRight(false),
        }
    } else if lo < 0x80 {
        AluOp::Test(k as u8)
    } else {
        AluOp::SetBit(k as u8, lo >= 0xc0)
    }
}

/// The interpreter's addition: (result, half carry, carry).
fn cpu_add(op_a: u8, op_b: u8, carry_in: bool) -> (out: (u8, bool, bool))
    ensures
        carry_in ==> out == (add8(op_a, 1), op_a % 16 + op_b % 16 + 1 > 15, op_a + op_b > 255 || op_a == 255),
        !carry_in ==> out == (add8(op_a, op_b as int), op_a % 16 + op_b % 16 > 15, op_a + op_b > 255),
{
    let overflow = op_a as u16 + op_b as u16 > 0xff;
    let half_val = (op_a % 16) + (op_b % 16);
    if carry_in {
        let new_val = op_a.wrapping_add(1);
        (new_val, half_val > 0xf || (half_val + 1) > 0xf, overflow || op_a == 0xff)
    } else {
        (op_a.wrapping_add(op_b), half_val > 0xf, overflow)
    }
}

/// The interpreter's subtraction: (result, half carry, carry). The half
/// carry compares the high nibbles; with a carry-in it is also set when the
/// high nibbles differ by exactly one.
fn cpu_sub(op_a: u8, op_b: u8, carry_in: bool) -> (out: (u8, bool, bool))
    requires
        carry_in ==> op_a / 16 != op_b / 16,
    ensures
        carry_in ==> out == (add8(op_a, -1), op_a / 16 < op_b / 16 || op_a / 16 == op_b / 16 + 1, op_a < op_b || op_a == 0),
        !carry_in ==> out == (add8(op_a, -(op_b as int)), op_a / 16 < op_b / 16, op_a < op_b),
{
    let overflow = op_a < op_b;
    let high_a = op_a / 16;
    let high_b = op_b / 16;
    let half_overflow = high_a < high_b;
    if carry_in {
        // The difference of the high nibbles, times 16, wrapped to a byte.
        let half_val: u16 = if high_a >= high_b {
            (high_a - high_b) as u16 * 16
        } else {
            (high_a as u16 + 16 - high_b as u16) * 16
        };
        (op_a.wrapping_sub(1), half_overflow || (half_val - 1) <= 0xf, overflow || op_a < 1)
    } else {
        (op_a.wrapping_sub(op_b), half_overflow, overflow)
    }
}

/// The rotations and shifts: (result, carry out). `fill` is the bit shifted in.
fn cpu_shift(op_a: u8, left: bool, fill: bool) -> (out: (u8, bool))
    ensures
        left ==> out == (((op_a * 2) % 256 + (if fill { 1int } else { 0 })) as u8, op_a >= 128),
        !left ==> out == ((op_a / 2 + (if fill { 128int } else { 0 })) as u8, op_a % 2 == 1),
{
    proof {
        crate::alu::lemma_byte_ops(op_a);
    }
    if left {
        let edge_bit = (op_a & 0x80) != 0;
        if fill {
            ((op_a << 1u8) | 0x1, edge_bit)
        } else {
            (op_a << 1u8, edge_bit)
        }
    } else {
        let edge_bit = (op_a & 0x1) != 0;
        if fill {
            ((op_a >> 1u8) | 0x80, edge_bit)
        } else {
            (op_a >> 1u8, edge_bit)
        }
    }
}

/// Whether an operation reads the second operand (the rest work on one byte).
pub open spec fn is_binary_op(op: AluOp) -> bool {
    op is Add || op is Sub || op is And || op is Xor || op is Or || op is Comp
}

/// The ALU on the flags it reads and writes, as plain values.
fn alu_step(
    op: AluOp,
    op_a: u8,
    op_b: u8,
    carry_bit: bool,
    was_zero: bool,
    half_carry: bool,
    full_carry: bool,
    Ghost(c): Ghost<CoreView>,
) -> (out: (u8, bool, bool, bool))
    requires
        alu_defined(c, op, op_a, op_b),
        carry_bit == c.regs.flag(Flag::CY),
        was_zero == c.was_zero,
        half_carry == c.half_carry,
        full_carry == c.full_carry,
    ensures
        out == (
            alu_spec(c, op, op_a, op_b).0,
            alu_spec(c, op, op_a, op_b).1.was_zero,
            alu_spec(c, op, op_a, op_b).1.half_carry,
            alu_spec(c, op, op_a, op_b).1.full_carry,
        ),
{
    if is_binary_op_exec(&op) {
        alu_binary(op, op_a, op_b, carry_bit, was_zero, half_carry, full_carry, Ghost(c))
    } else {
        alu_unary(op, op_a, half_carry, full_carry, Ghost(c))
    }
}

fn is_binary_op_exec(op: &AluOp) -> (b: bool)
    ensures
        b == is_binary_op(*op),
{
    match op {
        AluOp::Add(_) | AluOp::Sub(_) | AluOp::And | AluOp::Xor | AluOp::Or | AluOp::Comp => true,
        _ => false,
    }
}

/// The operations on two bytes.
fn alu_binary(
    op: AluOp,
    op_a: u8,
    op_b: u8,
    carry_bit: bool,
    was_zero: bool,
    half_carry: bool,
    full_carry: bool,
    Ghost(c): Ghost<CoreView>,
) -> (out: (u8, bool, bool, bool))
    requires
        is_binary_op(op),
        alu_defined(c, op, op_a, op_b),
        carry_bit == c.regs.flag(Flag::CY),
        was_zero == c.was_zero,
        half_carry == c.half_carry,
        full_carry == c.full_carry,
    ensures
        out == (
            alu_spec(c, op, op_a, op_b).0,
            alu_spec(c, op, op_a, op_b).1.was_zero,
            alu_spec(c, op, op_a, op_b).1.half_carry,
            alu_spec(c, op, op_a, op_b).1.full_carry,
        ),
{
    match op {
        AluOp::Add(carry_op) => {
            let (r, h, f) = cpu_add(op_a, op_b, carry_op && carry_bit);
            (r, r == 0, h, f)
        },
        AluOp::Sub(carry_op) => {
            let (r, h, f) = cpu_sub(op_a, op_b, carry_op && carry_bit);
            (r, r == 0, h, f)
        },
        AluOp::And => {
            let r = op_a & op_b;
            (r, r == 0, half_carry, full_carry)
        },
        AluOp::Xor => {
            let r = op_a ^ op_b;
            (r, r == 0, half_carry, full_carry)
        },
        AluOp::Or => {
            let r = op_a | op_b;
            (r, r == 0, half_carry, full_carry)
        },
        _ => (op_a, was_zero, op_a < op_b, op_a % 16 < op_b % 16),
    }
}

/// The rotations, shifts, swap and bit operations.
fn alu_unary(op: AluOp, op_a: u8, half_carry: bool, full_carry: bool, Ghost(c): Ghost<CoreView>) -> (out: (
    u8,
    bool,
    bool,
    bool,
))
    requires
        !is_binary_op(op),
        crate::alu::alu_op_valid(op),
        half_carry == c.half_carry,
        full_carry == c.full_carry,
    ensures
        out == (
            alu_spec(c, op, op_a, 0).0,
            alu_spec(c, op, op_a, 0).1.was_zero,
            alu_spec(c, op, op_a, 0).1.half_carry,
            alu_spec(c, op, op_a, 0).1.full_carry,
        ),
{
    match op {
        AluOp::RotateLeft(circular) => {
            let fill = if circular { op_a >= 128 } else { full_carry };
            let (r, f) = cpu_shift(op_a, true, fill);
            (r, r == 0, half_carry, f)
        },
        AluOp::RotateRight(circular) => {
            let fill = if circular { op_a % 2 == 1 } else { full_carry };
            let (r, f) = cpu_shift(op_a, false, fill);
            (r, r == 0, half_carry, f)
        },
        AluOp::ShiftRight(is_arith) => {
            let (r, f) = cpu_shift(op_a, false, is_arith && op_a >= 128);
            (r, r == 0, half_carry, f)
        },
        AluOp::ShiftLeft => {
            let (r, f) = cpu_shift(op_a, true, false);
            (r, r == 0, half_carry, f)
        },
        AluOp::Swap => {
            proof {
                crate::alu::lemma_byte_ops(op_a);
            }
            let r = op_a.wrapping_shl(8) | op_a.wrapping_shr(8);
            (r, r == 0, half_carry, full_carry)
        },
        AluOp::Test(off) => {
            proof {
                util::lemma_with_bit(op_a, off, true);
            }
            (op_a, (op_a & (1u8 << off)) == 0, half_carry, full_carry)
        },
        AluOp::SetBit(off, val) => {
            proof {
                util::lemma_with_bit(op_a, off, val);
            }
            let mask = 1u8 << off;
            let r = if val {
                op_a | mask
            } else {
                op_a & (!mask)
            };
            (r, r == 0, half_carry, full_carry)
        },
        _ => (op_a, false, half_carry, full_carry),
    }
}

impl CpuCore {
    // Return the byte at the given memory address.
    fn mem_get(&self, addr: u16) -> (r: u8)
        requires
            self@.can_access(addr),
        ensures
            r == self@.mem.read(addr),
    {
        self.mem.get(addr, MemClient::CPU)
    }

    // Set the byte at the given memory address to the given value.
    fn mem_set(&mut self, val: u8, addr: u16)
        requires
            old(self)@.can_access(addr),
        ensures
            final(self)@ == old(self)@.with_mem(old(self)@.mem.write(addr, val)),
            final(self)@.mem.same_shape(old(self)@.mem),
    {
        self.mem.set(val, addr, MemClient::CPU);
    }

    // Get the u16 value starting at $(addr), little endian.
    fn parse_u16(&self, addr: u16) -> (r: u16)
        requires
            self@.can_access16(addr),
        ensures
            r == self@.read16(addr),
    {
        util::join_u8((self.mem_get(addr), self.mem_get(addr + 1)))
    }

    // Push addr from given register onto stack
    fn push(&mut self, src: Reg16)
        requires
            can_push(old(self)@),
        ensures
            final(self)@ == push_spec(old(self)@, src),
            final(self)@.mem.same_shape(old(self)@.mem),
    {
        self.regs.sub(Reg16::SP, 2u16);
        let sp_val: u16 = self.regs.get(Reg16::SP);
        let split_addr = util::split_u16(self.regs.get(src));
        self.mem_set(split_addr.0, sp_val);
        self.mem_set(split_addr.1, sp_val + 1);
    }

    // Pop topmost u16 value from stack, store to given register
    fn pop(&mut self, dst: Reg16)
        requires
            can_pop(old(self)@),
        ensures
            final(self)@ == pop_spec(old(self)@, dst),
    {
        let sp: u16 = self.regs.get(Reg16::SP);
        let stack_val = self.parse_u16(sp);
        self.regs.add(Reg16::SP, 2u16);
        self.regs.set(dst, stack_val);
    }

    // Call the value at address if flag value is set, or unset.
    fn call_flag(&mut self, flag: Flag, if_unset: bool, addr: u16)
        requires
            flag == Flag::Z || flag == Flag::CY,
            cond_taken(old(self)@, flag, if_unset) ==> can_push(old(self)@),
        ensures
            final(self)@ == if cond_taken(old(self)@, flag, if_unset) { call_spec(old(self)@, addr) } else { old(self)@ },
            final(self)@.mem.same_shape(old(self)@.mem),
    {
        let flag_val = self.regs.get_flag(flag);
        if flag_val ^ if_unset {
            self.call(addr);
        }
    }

    // Push PC to stack, and jump to the jump_addr.
    fn call(&mut self, jump_addr: u16)
        requires
            can_push(old(self)@),
        ensures
            final(self)@ == call_spec(old(self)@, jump_addr),
            final(self)@.mem.same_shape(old(self)@.mem),
    {
        self.push(Reg16::PC);
        self.regs.set(Reg16::PC, jump_addr);
    }

    // Execute a return if given flag is set, or unset.
    fn ret_flag(&mut self, flag: Flag, if_unset: bool)
        requires
            flag == Flag::Z || flag == Flag::CY,
            cond_taken(old(self)@, flag, if_unset) ==> can_pop(old(self)@),
        ensures
            final(self)@ == if cond_taken(old(self)@, flag, if_unset) { ret_spec(old(self)@, false) } else { old(self)@ },
    {
        let flag_val = self.regs.get_flag(flag);
        if flag_val ^ if_unset {
            self.ret(false);
        }
    }

    // Pop the topmost address from the stack, and jump to it.
    fn ret(&mut self, enable_ir: bool)
        requires
            can_pop(old(self)@),
        ensures
            final(self)@ == ret_spec(old(self)@, enable_ir),
    {
        self.pop(Reg16::PC);
        if enable_ir {
            self.ir_enabled = true;
        }
    }

    // Copy from the given 8-bit register into the memory address held in the given Reg16
    fn set_reg_ptr(&mut self, dst: Reg16, src: Reg8)
        requires
            old(self)@.can_access(old(self)@.regs.get16(dst)),
        ensures
            final(self)@ == old(self)@.with_mem(old(self)@.mem.write(old(self)@.regs.get16(dst), old(self)@.regs.get8(src))),
            final(self)@.mem.same_shape(old(self)@.mem),
    {
        let val: u8 = self.regs.get(src);
        let addr: u16 = self.regs.get(dst);
        self.mem_set(val, addr);
    }

    // Copy value from (Reg16) into given register.
    fn get_reg_ptr(&mut self, dst: Reg8, src: Reg16)
        requires
            old(self)@.can_access(old(self)@.regs.get16(src)),
        ensures
            final(self)@ == old(self)@.with_regs(old(self)@.regs.set8(dst, old(self)@.mem.read(old(self)@.regs.get16(src)))),
    {
        let addr: u16 = self.regs.get(src);
        let val = self.mem_get(addr);
        self.regs.set(dst, val);
    }

    // Copy value between A and (HL), then add or subtract HL.
    fn ldd_special(&mut self, is_get: bool, is_add: bool)
        requires
            old(self)@.can_access(old(self)@.regs.get16(Reg16::HL)),
        ensures
            final(self)@ == ldd_spec(old(self)@, is_get, is_add),
            final(self)@.mem.same_shape(old(self)@.mem),
    {
        if is_get {
            self.get_reg_ptr(Reg8::A, Reg16::HL);  // LD A, (HL+/-)
        } else {
            self.set_reg_ptr(Reg16::HL, Reg8::A);  // LD (HL+/-), A
        }

        if is_add {
            self.regs.add(Reg16::HL, 1u16);
        } else {
            self.regs.sub(Reg16::HL, 1u16);
        }
    }

    // Load fast-page (0xFF00+C) value to A, or store A to a fast-page.
    fn ld_fast_page(&mut self, is_get: bool)
        requires
            old(self)@.can_access((0xff00 + old(self)@.regs.c) as u16),
        ensures
            final(self)@ == if is_get {
                old(self)@.with_regs(old(self)@.regs.set8(Reg8::A, old(self)@.mem.read((0xff00 + old(self)@.regs.c) as u16)))
            } else {
                old(self)@.with_mem(old(self)@.mem.write((0xff00 + old(self)@.regs.c) as u16, old(self)@.regs.a))
            },
            final(self)@.mem.same_shape(old(self)@.mem),
    {
        let c: u8 = self.regs.get(Reg8::C);
        let addr = 0xff00 + c as u16;
        if is_get {
            let val = self.mem_get(addr);
            self.regs.set(Reg8::A, val);
        } else {
            let val: u8 = self.regs.get(Reg8::A);
            self.mem_set(val, addr);
        }
    }

    // Write the stack pointer to memory (two bytes).
    fn write_sp_to_ptr(&mut self, addr: u16)
        requires
            old(self)@.can_access16(addr),
        ensures
            final(self)@ == old(self)@.with_mem(
                old(self)@.mem.write(addr, (old(self)@.regs.sp % 256) as u8).write((addr + 1) as u16, (old(self)@.regs.sp / 256) as u8),
            ),
            final(self)@.mem.same_shape(old(self)@.mem),
    {
        let sp: u16 = self.regs.get(Reg16::SP);
        let split_addr = util::split_u16(sp);
        self.mem_set(split_addr.0, addr);
        self.mem_set(split_addr.1, addr + 1);
    }

    // Increment/decrement for (HL) value.
    fn hl_ptr_inc_dec(&mut self, is_add: bool)
        requires
            old(self)@.can_access(old(self)@.regs.get16(Reg16::HL)),
            old(self)@.mem.read(old(self)@.regs.get16(Reg16::HL)) != (if is_add { 255u8 } else { 0u8 }),
        ensures
            final(self)@ == old(self)@.with_mem(old(self)@.mem.write(
                old(self)@.regs.get16(Reg16::HL),
                add8(old(self)@.mem.read(old(self)@.regs.get16(Reg16::HL)), if is_add { 1 } else { -1 }),
            )),
            final(self)@.mem.same_shape(old(self)@.mem),
    {
        let addr: u16 = self.regs.get(Reg16::HL);
        let val = self.mem_get(addr);
        let val = if is_add { val + 1 } else { val - 1 };
        self.mem_set(val, addr);
    }

    // Jump to the given address if Z or CY match what we expect
    fn jump_flag(&mut self, flag: Flag, if_unset: bool, addr: u16)
        requires
            flag == Flag::Z || flag == Flag::CY,
        ensures
            final(self)@ == if cond_taken(old(self)@, flag, if_unset) {
                old(self)@.with_regs(old(self)@.regs.set16(Reg16::PC, addr))
            } else {
                old(self)@
            },
    {
        let flag_val = self.regs.get_flag(flag);
        if flag_val ^ if_unset {
            self.regs.set(Reg16::PC, addr);
        }
    }

    fn jump_hl_ptr(&mut self)
        requires
            old(self)@.can_access16(old(self)@.regs.get16(Reg16::HL)),
        ensures
            final(self)@ == old(self)@.with_regs(old(self)@.regs.set16(Reg16::PC, old(self)@.read16(old(self)@.regs.get16(Reg16::HL)))),
    {
        let addr: u16 = self.regs.get(Reg16::HL);
        let addr = self.parse_u16(addr);
        self.regs.set(Reg16::PC, addr);
    }

    // Jump only if flag is set (or unset)
    fn jump_relative_flag(&mut self, flag: Flag, if_unset: bool, offset: u8)
        requires
            flag == Flag::Z || flag == Flag::CY,
        ensures
            final(self)@ == if cond_taken(old(self)@, flag, if_unset) { jump_relative_spec(old(self)@, offset) } else { old(self)@ },
    {
        let flag_val = self.regs.get_flag(flag);
        if flag_val ^ if_unset {
            self.jump_relative(offset);
        }
    }

    // Jump relative to current PC, where offset is twos-complement 8-bit signed int.
    fn jump_relative(&mut self, offset: u8)
        ensures
            final(self)@ == jump_relative_spec(old(self)@, offset),
    {
        let pc: u16 = self.regs.get(Reg16::PC);
        let signed: i32 = if offset < 128 { offset as i32 } else { offset as i32 - 256 };
        let addr = pc as i32 + signed;
        if addr < 0 || addr > 0xffff {
            self.quit = true;
            return;
        }

        self.regs.set(Reg16::PC, addr as u16);
    }

    // Perform given ALU instruction against the given operands. It's the responsibility of other
    // functions to handle moving the result to a certain register, or setting necessary flags.
    fn alu(&mut self, op: AluOp, operand_a: u8, operand_b: u8) -> (result: u8)
        requires
            alu_defined(old(self)@, op, operand_a, operand_b),
        ensures
            (result, final(self)@) == alu_spec(old(self)@, op, operand_a, operand_b),
    {
        let carry_bit = self.regs.get_flag(Flag::CY);
        let (result, was_zero, half_carry, full_carry) = alu_step(
            op,
            operand_a,
            operand_b,
            carry_bit,
            self.was_zero,
            self.half_carry,
            self.full_carry,
            Ghost(self@),
        );
        self.was_zero = was_zero;
        self.half_carry = half_carry;
        self.full_carry = full_carry;
        result
    }

    // As it turns out, adding/subtracting is really the only 16-bit ALU operation
    fn add_u16(&mut self, operand_a: u16, operand_b: u16, subtract: bool) -> (r: u16)
        ensures
            (r, final(self)@) == add_u16_spec(old(self)@, operand_a, operand_b, subtract),
    {
        match subtract {
            false => {
                let sum: u32 = operand_a as u32 + operand_b as u32;
                self.full_carry = sum > 0xffff;
                self.half_carry = ((operand_a % 4096) + (operand_b % 4096)) > 0xfff;
                (sum % 65536) as u16
            },
            true => operand_a.wrapping_sub(operand_b),
        }
    }

    // Perform ALU op on accumulator and input register, and handle flags.
    fn arith_op(&mut self, op: AluOp, flags: FlagStatus, src: Reg8)
        requires
            alu_defined(old(self)@, op, old(self)@.regs.a, old(self)@.regs.get8(src)),
            flags.n != FlagMod::Eval,
        ensures
            final(self)@ == arith_imm_spec(old(self)@, op, Reg8::A, flags, old(self)@.regs.get8(src)),
    {
        let operand_b: u8 = self.regs.get(src);
        self.arith_imm(op, Reg8::A, flags, operand_b);
    }

    fn arith_hl_ptr(&mut self, op: AluOp, flags: FlagStatus)
        requires
            old(self)@.can_access(old(self)@.regs.get16(Reg16::HL)),
            alu_defined(old(self)@, op, old(self)@.regs.a, old(self)@.mem.read(old(self)@.regs.get16(Reg16::HL))),
            flags.n != FlagMod::Eval,
        ensures
            final(self)@ == arith_imm_spec(
                old(self)@,
                op,
                Reg8::A,
                flags,
                old(self)@.mem.read(old(self)@.regs.get16(Reg16::HL)),
            ),
    {
        let addr: u16 = self.regs.get(Reg16::HL);
        let operand_b = self.mem_get(addr);
        self.arith_imm(op, Reg8::A, flags, operand_b);
    }

    fn bitwise_hl_ptr(&mut self, op: AluOp, flags: FlagStatus)
        requires
            old(self)@.can_access(old(self)@.regs.get16(Reg16::HL)),
            alu_defined(old(self)@, op, old(self)@.mem.read(old(self)@.regs.get16(Reg16::HL)), 0),
            flags.n != FlagMod::Eval,
        ensures
            final(self)@ == bitwise_hl_ptr_spec(old(self)@, op, flags),
            final(self)@.mem.same_shape(old(self)@.mem),
    {
        let addr: u16 = self.regs.get(Reg16::HL);
        let operand_a = self.mem_get(addr);
        let result = self.alu(op, operand_a, 0);
        self.mem_set(result, addr);
        self.evaluate_flags(flags);
    }

    // Take an immediate u8 instead of a register.
    fn arith_imm(&mut self, op: AluOp, dst_reg: Reg8, flags: FlagStatus, val: u8)
        requires
            alu_defined(old(self)@, op, old(self)@.regs.get8(dst_reg), val),
            flags.n != FlagMod::Eval,
        ensures
            final(self)@ == arith_imm_spec(old(self)@, op, dst_reg, flags, val),
    {
        let operand_a: u8 = self.regs.get(dst_reg);
        let result = self.alu(op, operand_a, val);
        self.regs.set(dst_reg, result);
        self.evaluate_flags(flags);
    }

    // Add a 16 bit register to HL
    fn add_hl(&mut self, flags: FlagStatus, src: Reg16)
        requires
            flags.n != FlagMod::Eval,
        ensures
            final(self)@ == add_hl_spec(old(self)@, flags, src),
    {
        let operand_a: u16 = self.regs.get(Reg16::HL);
        let operand_b: u16 = self.regs.get(src);
        let result = self.add_u16(operand_a, operand_b, false);
        self.regs.set(Reg16::HL, result);
        self.evaluate_flags(flags);
    }

    // Add SP and immediate signed, and store to given Reg16.
    fn add_sp_signed(&mut self, flags: FlagStatus, dest: Reg16, offset: u8)
        requires
            flags.n != FlagMod::Eval,
        ensures
            final(self)@ == add_sp_signed_spec(old(self)@, flags, dest, offset),
    {
        let sub = offset >= 128;
        let offset_u = offset as u16;
        let sp_val: u16 = self.regs.get(Reg16::SP);
        let sp_val = self.add_u16(sp_val, offset_u, sub);
        self.regs.set(dest, sp_val);
        self.evaluate_flags(flags);
    }

    fn evaluate_flags(&mut self, flags: FlagStatus)
        requires
            flags.n != FlagMod::Eval,
        ensures
            final(self)@ == eval_flags_spec(old(self)@, flags),
    {
        self.evaluate_flag(Flag::Z, flags.z);
        self.evaluate_flag(Flag::N, flags.n);
        self.evaluate_flag(Flag::H, flags.h);
        self.evaluate_flag(Flag::CY, flags.cy);
    }

    fn evaluate_flag(&mut self, flag: Flag, modifier: FlagMod)
        requires
            !(flag == Flag::N && modifier == FlagMod::Eval),
        ensures
            final(self)@ == eval_flag_spec(old(self)@, flag, modifier),
    {
        match modifier {
            FlagMod::Ignore => (),
            FlagMod::SetTo(val) => self.regs.set_flag(flag, val),
            FlagMod::Eval => {
                match flag {
                    Flag::Z => {
                        let v = self.was_zero;
                        self.regs.set_flag(flag, v)
                    },
                    Flag::H => {
                        let v = self.half_carry;
                        self.regs.set_flag(flag, v)
                    },
                    Flag::CY => {
                        let v = self.full_carry;
                        self.regs.set_flag(flag, v)
                    },
                    Flag::N => (),
                }
            },
        }
    }

    fn decimal_adjust(&mut self, flags: FlagStatus)
        requires
            flags.n != FlagMod::Eval,
        ensures
            final(self)@ == arith_imm_spec(old(self)@, AluOp::Add(false), Reg8::A, flags, daa_adjust(old(self)@.regs)),
    {
        let lo: u8 = self.regs.get(Reg8::A);
        proof {
            crate::alu::lemma_byte_ops(lo);
        }
        let hi = lo.wrapping_shl(4);
        let lo = lo & 0xF;
        let mut adjust: u8 = 0;
        if !self.regs.get_flag(Flag::N) {
            if self.regs.get_flag(Flag::CY) || hi > 0x9 || lo > 0x9 {
                adjust += 0x60;
            }
            if self.regs.get_flag(Flag::H) || lo > 0x9 {
                adjust += 0x6;
            }
        } else {
            if self.regs.get_flag(Flag::CY) {
                if self.regs.get_flag(Flag::H) {
                    adjust += 0x9a;
                } else {
                    adjust += 0xa0;
                }
            } else if self.regs.get_flag(Flag::H) {
                adjust += 0xfa;
            }
        }

        self.arith_imm(AluOp::Add(false), Reg8::A, flags, adjust);
    }

    // Toggle the CY flag, used for CCF instruction
    fn toggle_cy(&mut self)
        ensures
            final(self)@ == old(self)@.with_regs(old(self)@.regs.set_flag(Flag::CY, !old(self)@.regs.flag(Flag::CY))),
    {
        let val = !self.regs.get_flag(Flag::CY);
        self.regs.set_flag(Flag::CY, val);
    }

    // HALT ends the program.
    fn halt(&mut self)
        ensures
            final(self)@ == (CoreView { quit: true, ..old(self)@ }),
    {
        self.quit = true;
    }

    fn stop(&mut self)
        ensures
            final(self)@ == (CoreView { quit: true, ..old(self)@ }),
    {
        self.quit = true;
    }
    /// Execute one instruction (0xCB-prefixed ones as `0xCB00 | byte`) with
    /// its operands; PC has already been advanced past it. A value that is no
    /// opcode ends the program.
    pub fn execute(&mut self, opcode: u16, operand8: u8, operand16: u16)
        requires
            execute_defined(old(self)@, opcode, operand8, operand16),
        ensures
            final(self)@ == execute_spec(old(self)@, opcode, operand8, operand16),
            final(self)@.mem.same_shape(old(self)@.mem),
    {
        if 0x40 <= opcode && opcode < 0x80 {
            self.execute_load(opcode);
        } else if 0x80 <= opcode && opcode < 0xc0 {
            self.execute_arith(opcode);
        } else if 0xcb00 <= opcode && opcode <= 0xcbff {
            self.execute_bitwise(opcode);
        } else if opcode < 0x100 {
            self.execute_table(opcode as u8, operand8, operand16);
        } else {
            self.quit = true;
        }
    }

    /// Opcodes 0x40-0x7F: loads between registers and (HL); 0x76 halts.
    fn execute_load(&mut self, opcode: u16)
        requires
            0x40 <= opcode < 0x80,
            execute_defined(old(self)@, opcode, 0, 0),
        ensures
            final(self)@ == execute_spec(old(self)@, opcode, 0, 0),
            final(self)@.mem.same_shape(old(self)@.mem),
    {
        if opcode == 0x76 {
            self.halt();
            return;
        }
        let d: u16 = (opcode / 8) % 8;
        let r: u16 = opcode % 8;
        if r == 6 {
            self.get_reg_ptr(reg_of_exec(d), Reg16::HL);
        } else if d == 6 {
            self.set_reg_ptr(Reg16::HL, reg_of_exec(r));
        } else {
            self.regs.copy(reg_of_exec(d), reg_of_exec(r));
        }
    }

    /// Opcodes 0x80-0xBF: the ALU operations on A and a register or (HL).
    fn execute_arith(&mut self, opcode: u16)
        requires
            0x80 <= opcode < 0xc0,
            execute_defined(old(self)@, opcode, 0, 0),
        ensures
            final(self)@ == execute_spec(old(self)@, opcode, 0, 0),
            final(self)@.mem.same_shape(old(self)@.mem),
    {
        let op = arith_op_of_exec((opcode / 8) % 8);
        let r: u16 = opcode % 8;
        let flags = lookup::get_flags(opcode);
        if r == 6 {
            self.arith_hl_ptr(op, flags);
        } else {
            self.arith_op(op, flags, reg_of_exec(r));
        }
    }

    /// Opcodes 0xCB00-0xCBFF: rotations, shifts, swaps and bit operations on
    /// a register or (HL).
    fn execute_bitwise(&mut self, opcode: u16)
        requires
            0xcb00 <= opcode <= 0xcbff,
            execute_defined(old(self)@, opcode, 0, 0),
        ensures
            final(self)@ == execute_spec(old(self)@, opcode, 0, 0),
            final(self)@.mem.same_shape(old(self)@.mem),
    {
        let lo: u16 = opcode - 0xcb00;
        let op = cb_op_of_exec(lo);
        let r: u16 = lo % 8;
        let flags = lookup::get_flags(opcode);
        if r == 6 {
            self.bitwise_hl_ptr(op, flags);
        } else {
            self.arith_imm(op, reg_of_exec(r), flags, 0);
        }
    }

    /// Opcodes 0x00-0x3F and 0xC0-0xFF, each row of sixteen in a function of its own.
    fn execute_table(&mut self, opcode: u8, operand8: u8, operand16: u16)
        requires
            opcode < 0x40 || opcode >= 0xc0,
            irregular_defined(old(self)@, opcode, operand8, operand16),
        ensures
            final(self)@ == irregular_spec(old(self)@, opcode, operand8, operand16),
            final(self)@.mem.same_shape(old(self)@.mem),
    {
        match opcode / 16 {
            0 => self.execute_row_0(opcode, operand8, operand16),
            1 => self.execute_row_1(opcode, operand8, operand16),
            2 => self.execute_row_2(opcode, operand8, operand16),
            3 => self.execute_row_3(opcode, operand8, operand16),
            12 => self.execute_row_c(opcode, operand8, operand16),
            13 => self.execute_row_d(opcode, operand8, operand16),
            14 => self.execute_row_e(opcode, operand8, operand16),
            _ => self.execute_row_f(opcode, operand8, operand16),
        }
    }

    /// Opcodes 0x00-0x0F of the table part.
    fn execute_row_0(&mut self, opcode: u8, operand8: u8, operand16: u16)
        requires
            irregular_defined(old(self)@, opcode, operand8, operand16),
            opcode / 16 == 0,
        ensures
            final(self)@ == irregular_spec(old(self)@, opcode, operand8, operand16),
            final(self)@.mem.same_shape(old(self)@.mem),
    {
        match opcode {
            0x00 => (),
            0x01 => self.regs.set(Reg16::BC, operand16),
            0x02 => self.set_reg_ptr(Reg16::BC, Reg8::A),
            0x03 => self.regs.add(Reg16::BC, 1u16),
            0x04 => self.regs.add(Reg8::B, 1u8),
            0x05 => self.regs.sub(Reg8::B, 1u8),
            0x06 => self.regs.set(Reg8::B, operand8),
            0x07 => self.arith_imm(AluOp::RotateLeft(true), Reg8::A, lookup::get_flags(opcode as u16), 0),
            0x08 => self.write_sp_to_ptr(operand16),
            0x09 => self.add_hl(lookup::get_flags(opcode as u16), Reg16::BC),
            0x0a => self.get_reg_ptr(Reg8::A, Reg16::BC),
            0x0b => self.regs.sub(Reg16::BC, 1u16),
            0x0c => self.regs.add(Reg8::C, 1u8),
            0x0d => self.regs.sub(Reg8::C, 1u8),
            0x0e => self.regs.set(Reg8::C, operand8),
            0x0f => self.arith_imm(AluOp::RotateRight(true), Reg8::A, lookup::get_flags(opcode as u16), 0),
            _ => (),
        }
    }

    /// Opcodes 0x10-0x1F of the table part.
    fn execute_row_1(&mut self, opcode: u8, operand8: u8, operand16: u16)
        requires
            irregular_defined(old(self)@, opcode, operand8, operand16),
            opcode / 16 == 1,
        ensures
            final(self)@ == irregular_spec(old(self)@, opcode, operand8, operand16),
            final(self)@.mem.same_shape(old(self)@.mem),
    {
        match opcode {
            0x10 => self.stop(),
            0x11 => self.regs.set(Reg16::DE, operand16),
            0x12 => self.set_reg_ptr(Reg16::DE, Reg8::A),
            0x13 => self.regs.add(Reg16::DE, 1u16),
            0x14 => self.regs.add(Reg8::D, 1u8),
            0x15 => self.regs.sub(Reg8::D, 1u8),
            0x16 => self.regs.set(Reg8::D, operand8),
            0x17 => self.arith_imm(AluOp::RotateLeft(false), Reg8::A, lookup::get_flags(opcode as u16), 0),
            0x18 => self.jump_relative(operand8),
            0x19 => self.add_hl(lookup::get_flags(opcode as u16), Reg16::DE),
            0x1a => self.get_reg_ptr(Reg8::A, Reg16::DE),
            0x1b => self.regs.sub(Reg16::BC, 1u16),
            0x1c => self.regs.add(Reg8::D, 1u8),
            0x1d => self.regs.sub(Reg8::D, 1u8),
            0x1e => self.regs.set(Reg8::E, operand8),
            0x1f => self.arith_imm(AluOp::RotateRight(false), Reg8::A, lookup::get_flags(opcode as u16), 0),
            _ => (),
        }
    }

    /// Opcodes 0x20-0x2F of the table part.
    fn execute_row_2(&mut self, opcode: u8, operand8: u8, operand16: u16)
        requires
            irregular_defined(old(self)@, opcode, operand8, operand16),
            opcode / 16 == 2,
        ensures
            final(self)@ == irregular_spec(old(self)@, opcode, operand8, operand16),
            final(self)@.mem.same_shape(old(self)@.mem),
    {
        match opcode {
            0x20 => self.jump_relative_flag(Flag::Z, true, operand8),
            0x21 => self.regs.set(Reg16::HL, operand16),
            0x22 => self.ldd_special(true, true),
            0x23 => self.regs.add(Reg16::HL, 1u16),
            0x24 => self.regs.add(Reg8::H, 1u8),
            0x25 => self.regs.sub(Reg8::H, 1u8),
            0x26 => self.regs.set(Reg8::H, operand8),
            0x27 => self.decimal_adjust(lookup::get_flags(opcode as u16)),
            0x28 => self.jump_relative_flag(Flag::Z, false, operand8),
            0x29 => self.add_hl(lookup::get_flags(opcode as u16), Reg16::HL),
            0x2a => self.ldd_special(false, true),
            0x2b => self.regs.sub(Reg16::HL, 1u16),
            0x2c => self.regs.add(Reg8::L, 1u8),
            0x2d => self.regs.sub(Reg8::L, 1u8),
            0x2e => self.regs.set(Reg8::L, operand8),
            0x2f => self.arith_imm(AluOp::Xor, Reg8::A, lookup::get_flags(opcode as u16), 0xff),
            _ => (),
        }
    }

    /// Opcodes 0x30-0x3F of the table part.
    fn execute_row_3(&mut self, opcode: u8, operand8: u8, operand16: u16)
        requires
            irregular_defined(old(self)@, opcode, operand8, operand16),
            opcode / 16 == 3,
        ensures
            final(self)@ == irregular_spec(old(self)@, opcode, operand8, operand16),
            final(self)@.mem.same_shape(old(self)@.mem),
    {
        match opcode {
            0x30 => self.jump_relative_flag(Flag::CY, true, operand8),
            0x31 => self.regs.set(Reg16::SP, operand16),
            0x32 => self.ldd_special(true, false),
            0x33 => self.regs.add(Reg16::HL, 1u16),
            0x34 => self.hl_ptr_inc_dec(true),
            0x35 => self.hl_ptr_inc_dec(false),
            0x36 => {
                let hl: u16 = self.regs.get(Reg16::HL);
                self.mem_set(operand8, hl)
            },
            0x37 => self.regs.set_flag(Flag::CY, true),
            0x38 => self.jump_relative_flag(Flag::CY, false, operand8),
            0x39 => self.add_hl(lookup::get_flags(opcode as u16), Reg16::SP),
            0x3a => self.ldd_special(false, false),
            0x3b => self.regs.sub(Reg16::SP, 1u16),
            0x3c => self.regs.add(Reg8::A, 1u8),
            0x3d => self.regs.sub(Reg8::A, 1u8),
            0x3e => self.regs.set(Reg8::A, operand8),
            0x3f => self.toggle_cy(),
            _ => (),
        }
    }

    /// Opcodes 0xC0-0xCF of the table part.
    fn execute_row_c(&mut self, opcode: u8, operand8: u8, operand16: u16)
        requires
            irregular_defined(old(self)@, opcode, operand8, operand16),
            opcode / 16 == 12,
        ensures
            final(self)@ == irregular_spec(old(self)@, opcode, operand8, operand16),
            final(self)@.mem.same_shape(old(self)@.mem),
    {
        match opcode {
            0xc0 => self.ret_flag(Flag::Z, true),
            0xc1 => self.pop(Reg16::BC),
            0xc2 => self.jump_flag(Flag::Z, true, operand16),
            0xc3 => self.regs.set(Reg16::PC, operand16),
            0xc4 => self.call_flag(Flag::Z, true, operand16),
            0xc5 => self.push(Reg16::BC),
            0xc6 => self.arith_imm(AluOp::Add(false), Reg8::A, lookup::get_flags(opcode as u16), operand8),
            0xc7 => self.call(0x00),
            0xc8 => self.ret_flag(Flag::Z, false),
            0xc9 => self.ret(false),
            0xca => self.jump_flag(Flag::Z, false, operand16),
            0xcb => self.quit = true,
            0xcc => self.call_flag(Flag::Z, false, operand16),
            0xcd => self.call(operand16),
            0xce => self.arith_imm(AluOp::Add(true), Reg8::A, lookup::get_flags(opcode as u16), operand8),
            0xcf => self.call(0x08),
            _ => (),
        }
    }

    /// Opcodes 0xD0-0xDF of the table part.
    fn execute_row_d(&mut self, opcode: u8, operand8: u8, operand16: u16)
        requires
            irregular_defined(old(self)@, opcode, operand8, operand16),
            opcode / 16 == 13,
        ensures
            final(self)@ == irregular_spec(old(self)@, opcode, operand8, operand16),
            final(self)@.mem.same_shape(old(self)@.mem),
    {
        match opcode {
            0xd0 => self.ret_flag(Flag::CY, true),
            0xd1 => self.pop(Reg16::DE),
            0xd2 => self.jump_flag(Flag::CY, true, operand16),
            0xd4 => self.call_flag(Flag::CY, true, operand16),
            0xd5 => self.push(Reg16::DE),
            0xd6 => self.arith_imm(AluOp::Sub(false), Reg8::A, lookup::get_flags(opcode as u16), operand8),
            0xd7 => self.call(0x10),
            0xd8 => self.ret_flag(Flag::CY, false),
            0xd9 => self.ret(true),
            0xda => self.jump_flag(Flag::CY, false, operand16),
            0xdc => self.call_flag(Flag::CY, false, operand16),
            0xde => self.arith_imm(AluOp::Sub(true), Reg8::A, lookup::get_flags(opcode as u16), operand8),
            0xdf => self.call(0x18),
            _ => (),
        }
    }

    /// Opcodes 0xE0-0xEF of the table part.
    fn execute_row_e(&mut self, opcode: u8, operand8: u8, operand16: u16)
        requires
            irregular_defined(old(self)@, opcode, operand8, operand16),
            opcode / 16 == 14,
        ensures
            final(self)@ == irregular_spec(old(self)@, opcode, operand8, operand16),
            final(self)@.mem.same_shape(old(self)@.mem),
    {
        match opcode {
            0xe0 => {
                let a: u8 = self.regs.get(Reg8::A);
                self.mem_set(a, 0xff00 + (operand8 as u16))
            },
            0xe1 => self.pop(Reg16::HL),
            0xe2 => self.ld_fast_page(true),
            0xe5 => self.push(Reg16::HL),
            0xe6 => self.arith_imm(AluOp::And, Reg8::A, lookup::get_flags(opcode as u16), operand8),
            0xe7 => self.call(0x20),
            0xe8 => self.add_sp_signed(lookup::get_flags(opcode as u16), Reg16::SP, operand8),
            0xe9 => self.jump_hl_ptr(),
            0xea => {
                let a: u8 = self.regs.get(Reg8::A);
                self.mem_set(a, operand16)
            },
            0xee => self.arith_imm(AluOp::Xor, Reg8::A, lookup::get_flags(opcode as u16), operand8),
            0xef => self.call(0x28),
            _ => (),
        }
    }

    /// Opcodes 0xF0-0xFF of the table part.
    fn execute_row_f(&mut self, opcode: u8, operand8: u8, operand16: u16)
        requires
            irregular_defined(old(self)@, opcode, operand8, operand16),
            opcode / 16 == 15,
        ensures
            final(self)@ == irregular_spec(old(self)@, opcode, operand8, operand16),
            final(self)@.mem.same_shape(old(self)@.mem),
    {
        match opcode {
            0xf0 => {
                let val: u8 = self.mem_get(0xff00 + (operand8 as u16));
                self.regs.set(Reg8::A, val)
            },
            0xf1 => self.pop(Reg16::AF),
            0xf2 => self.ld_fast_page(false),
            0xf3 => self.ir_enabled = false,
            0xf5 => self.push(Reg16::AF),
            0xf6 => self.arith_imm(AluOp::Or, Reg8::A, lookup::get_flags(opcode as u16), operand8),
            0xf7 => self.call(0x30),
            0xf8 => self.add_sp_signed(lookup::get_flags(opcode as u16), Reg16::HL, operand8),
            0xf9 => self.regs.copy(Reg16::SP, Reg16::HL),
            0xfa => {
                let val: u8 = self.mem_get(operand16);
                self.regs.set(Reg8::A, val)
            },
            0xfb => self.ir_enabled = true,
            0xfe => self.arith_imm(AluOp::Comp, Reg8::A, lookup::get_flags(opcode as u16), operand8),
            0xff => self.call(0x38),
            _ => (),
        }
    }

}

/// Whether the ALU is defined on these operands, with the registers `regs`.
fn alu_is_defined(regs: &RegisterCache, op: AluOp, a: u8, b: u8) -> (r: bool)
    requires
        crate::alu::alu_op_valid(op),
    ensures
        r == (op matches AluOp::Sub(true) && regs@.flag(Flag::CY) ==> a / 16 != b / 16),
{
    match op {
        AluOp::Sub(true) => !regs.get_flag(Flag::CY) || a / 16 != b / 16,
        _ => true,
    }
}

/// Whether `execute` is defined on these arguments, for the registers and
/// memory of `c`.
fn execute_is_defined(
    regs: &RegisterCache,
    mem: &Memory,
    opcode: u16,
    operand8: u8,
    operand16: u16,
    Ghost(c): Ghost<CoreView>,
) -> (r: bool)
    requires
        c.regs == regs@,
        c.mem == mem@,
    ensures
        r == execute_defined(c, opcode, operand8, operand16),
{
    let hl: u16 = regs.get(Reg16::HL);
    if 0x40 <= opcode && opcode < 0x80 {
        !(opcode != 0x76 && (opcode % 8 == 6 || (opcode / 8) % 8 == 6)) || mem.readable(hl)
    } else if 0x80 <= opcode && opcode < 0xc0 {
        let r: u16 = opcode % 8;
        if r == 6 && !mem.readable(hl) {
            return false;
        }
        let b: u8 = if r == 6 {
            mem.get(hl, MemClient::CPU)
        } else {
            regs.get(reg_of_exec(r))
        };
        let a: u8 = regs.get(Reg8::A);
        alu_is_defined(regs, arith_op_of_exec((opcode / 8) % 8), a, b)
    } else if 0xcb00 <= opcode && opcode <= 0xcbff {
        opcode % 8 != 6 || mem.readable(hl)
    } else if opcode < 0x100 {
        table_is_defined(regs, mem, opcode as u8, operand8, operand16, Ghost(c))
    } else {
        true
    }
}

/// `irregular_defined`, computed.
#[verifier::rlimit(60)]
fn table_is_defined(
    regs: &RegisterCache,
    mem: &Memory,
    opcode: u8,
    operand8: u8,
    operand16: u16,
    Ghost(c): Ghost<CoreView>,
) -> (r: bool)
    requires
        c.regs == regs@,
        c.mem == mem@,
    ensures
        r == irregular_defined(c, opcode, operand8, operand16),
{
    let a: u8 = regs.get(Reg8::A);
    let cc: u8 = regs.get(Reg8::C);
    let bc: u16 = regs.get(Reg16::BC);
    let de: u16 = regs.get(Reg16::DE);
    let hl: u16 = regs.get(Reg16::HL);
    let sp: u16 = regs.get(Reg16::SP);
    let below: u16 = sp.wrapping_sub(2);
    let can_pop_ok = sp != 0xffff && mem.readable(sp) && mem.readable(sp + 1);
    let can_push_ok = below != 0xffff && mem.readable(below) && mem.readable(below + 1);
    match opcode {
        0x02 => mem.readable(bc),
        0x07 => alu_is_defined(regs, AluOp::RotateLeft(true), a, 0),
        0x08 => operand16 != 0xffff && mem.readable(operand16) && mem.readable(operand16 + 1),
        0x0a => mem.readable(bc),
        0x0f => alu_is_defined(regs, AluOp::RotateRight(true), a, 0),
        0x12 => mem.readable(de),
        0x17 => alu_is_defined(regs, AluOp::RotateLeft(false), a, 0),
        0x1a => mem.readable(de),
        0x1f => alu_is_defined(regs, AluOp::RotateRight(false), a, 0),
        0x22 => mem.readable(hl),
        0x2a => mem.readable(hl),
        0x2f => alu_is_defined(regs, AluOp::Xor, a, 0xff),
        0x32 => mem.readable(hl),
        0x34 => mem.readable(hl) && mem.get(hl, MemClient::CPU) != 255,
        0x35 => mem.readable(hl) && mem.get(hl, MemClient::CPU) != 0,
        0x36 => mem.readable(hl),
        0x3a => mem.readable(hl),
        0xc0 => !(regs.get_flag(Flag::Z) != true) || can_pop_ok,
        0xc1 => can_pop_ok,
        0xc4 => !(regs.get_flag(Flag::Z) != true) || can_push_ok,
        0xc5 => can_push_ok,
        0xc6 => alu_is_defined(regs, AluOp::Add(false), a, operand8),
        0xc7 => can_push_ok,
        0xc8 => !(regs.get_flag(Flag::Z) != false) || can_pop_ok,
        0xc9 => can_pop_ok,
        0xcc => !(regs.get_flag(Flag::Z) != false) || can_push_ok,
        0xcd => can_push_ok,
        0xce => alu_is_defined(regs, AluOp::Add(true), a, operand8),
        0xcf => can_push_ok,
        0xd0 => !(regs.get_flag(Flag::CY) != true) || can_pop_ok,
        0xd1 => can_pop_ok,
        0xd3 => false,
        0xd4 => !(regs.get_flag(Flag::CY) != true) || can_push_ok,
        0xd5 => can_push_ok,
        0xd6 => alu_is_defined(regs, AluOp::Sub(false), a, operand8),
        0xd7 => can_push_ok,
        0xd8 => !(regs.get_flag(Flag::CY) != false) || can_pop_ok,
        0xd9 => can_pop_ok,
        0xdb => false,
        0xdc => !(regs.get_flag(Flag::CY) != false) || can_push_ok,
        0xdd => false,
        0xde => alu_is_defined(regs, AluOp::Sub(true), a, operand8),
        0xdf => can_push_ok,
        0xe0 => mem.readable(0xff00 + operand8 as u16),
        0xe1 => can_pop_ok,
        0xe2 => mem.readable(0xff00 + cc as u16),
        0xe3 => false,
        0xe4 => false,
        0xe5 => can_push_ok,
        0xe6 => alu_is_defined(regs, AluOp::And, a, operand8),
        0xe7 => can_push_ok,
        0xe9 => hl != 0xffff && mem.readable(hl) && mem.readable(hl + 1),
        0xea => mem.readable(operand16),
        0xeb => false,
        0xec => false,
        0xed => false,
        0xee => alu_is_defined(regs, AluOp::Xor, a, operand8),
        0xef => can_push_ok,
        0xf0 => mem.readable(0xff00 + operand8 as u16),
        0xf1 => can_pop_ok,
        0xf2 => mem.readable(0xff00 + cc as u16),
        0xf4 => false,
        0xf5 => can_push_ok,
        0xf6 => alu_is_defined(regs, AluOp::Or, a, operand8),
        0xf7 => can_push_ok,
        0xfa => mem.readable(operand16),
        0xfc => false,
        0xfd => false,
        0xfe => alu_is_defined(regs, AluOp::Comp, a, operand8),
        0xff => can_push_ok,
        _ => true,
    }
}

/// The opcode at PC; a 0xCB prefix is combined with the byte after it.
pub open spec fn fetched_opcode(c: CoreView) -> u16 {
    let b = c.mem.read(c.regs.pc);
    if b == 0xcb {
        (0xcb00 + c.mem.read((c.regs.pc + 1) as u16)) as u16
    } else {
        b as u16
    }
}

/// The byte after the opcode byte.
pub open spec fn fetched_operand8(c: CoreView) -> u8 {
    c.mem.read((c.regs.pc + 1) as u16)
}

/// The word after the opcode byte.
pub open spec fn fetched_operand16(c: CoreView) -> u16 {
    c.read16((c.regs.pc + 1) as u16)
}

/// The number of bytes PC advances over an instruction: its table length,
/// which counts every byte of it, a 0xCB prefix included.
pub open spec fn instruction_length(opcode: u16) -> int {
    lookup::instruction_spec(opcode).3 as int
}

/// The state once PC is past the instruction at PC.
pub open spec fn fetched(c: CoreView) -> CoreView {
    c.with_regs(c.regs.set16(Reg16::PC, (c.regs.pc + instruction_length(fetched_opcode(c))) as u16))
}

/// Whether fetching at PC stays within memory: the opcode byte and the word
/// after it are read (and the word after that behind a prefix), and PC
/// advances without wrapping.
pub open spec fn can_fetch(c: CoreView) -> bool {
    let pc = c.regs.pc;
    &&& pc <= 0xfffd
    &&& c.can_access(pc)
    &&& c.can_access16((pc + 1) as u16)
    &&& (c.mem.read(pc) == 0xcb ==> c.can_access16((pc + 2) as u16))
    &&& pc + instruction_length(fetched_opcode(c)) <= 0xffff
}

/// Whether one step is defined: after the program has ended nothing is done;
/// otherwise the fetch and the instruction must be defined.
pub open spec fn step_defined(c: CoreView) -> bool {
    c.quit || (can_fetch(c) && execute_defined(
        fetched(c),
        fetched_opcode(c),
        fetched_operand8(c),
        fetched_operand16(c),
    ))
}

/// One step of the interpreter: fetch, advance PC, execute.
pub open spec fn step_spec(c: CoreView) -> CoreView {
    if c.quit {
        c
    } else {
        execute_spec(fetched(c), fetched_opcode(c), fetched_operand8(c), fetched_operand16(c))
    }
}

/// What one call of `process` reports.
#[derive(Copy, Clone, PartialEq, Eq, Structural)]
pub struct Step {
    /// The program keeps running.
    pub running: bool,
    /// An instruction was executed (none is after the program ended).
    pub executed: bool,
    /// The address of the instruction.
    pub pc: u16,
    /// The instruction's opcode (0xCB-prefixed ones as `0xCB00 | byte`).
    pub opcode: u16,
    /// The instruction's address is a breakpoint, or single-stepping is on:
    /// the caller is to show the registers and ask whether to step on.
    pub breakpoint: bool,
}

/// What one call of `tick` reports.
#[derive(Copy, Clone, PartialEq, Eq, Structural)]
pub struct Tick {
    /// The display unit asks for a frame to be shown.
    pub shown: bool,
    /// The step of the interpreter; none is executed once the window closed.
    pub step: Step,
}

/// The state of the whole processor.
pub struct CpuView {
    pub core: CoreView,
    pub ppu: DisplayView,
    pub step: bool,
    pub breaks: Set<u16>,
}

impl CpuView {
    /// Memory holds the display registers and the display unit is well formed.
    pub open spec fn wf(self) -> bool {
        video::display_memory(self.core.mem) && self.ppu.wf()
    }
}

/// No step: the program ended before it.
pub open spec fn idle_step(c: CoreView) -> Step {
    Step { running: false, executed: false, pc: c.regs.pc, opcode: 0, breakpoint: false }
}

/// The processor after `process`, and its report.
pub open spec fn process_result(v: CpuView) -> (CpuView, Step) {
    if v.core.quit {
        (v, idle_step(v.core))
    } else {
        let pc = v.core.regs.pc;
        let brk = v.breaks.contains(pc) || v.step;
        let next = step_spec(v.core);
        (
            CpuView { core: next, step: if brk { false } else { v.step }, ..v },
            Step { running: !next.quit, executed: true, pc: pc, opcode: fetched_opcode(v.core), breakpoint: brk },
        )
    }
}

/// The processor after the display unit's tick, before the interpreter's step.
pub open spec fn displayed(v: CpuView, window_open: bool) -> CpuView {
    let (p, m, shown) = video::tick_result(v.ppu, v.core.mem, window_open);
    CpuView { ppu: p, core: v.core.with_mem(m), ..v }
}

/// Whether `tick` is defined.
pub open spec fn tick_defined(v: CpuView, window_open: bool) -> bool {
    &&& video::tick_safe(v.ppu, v.core.mem, window_open)
    &&& (displayed(v, window_open).ppu.alive() ==> step_defined(displayed(v, window_open).core))
}

/// The processor after `tick`, and its report: the display unit ticks; once
/// its window closed nothing else happens, otherwise the interpreter steps.
pub open spec fn tick_result(v: CpuView, window_open: bool) -> (CpuView, Tick) {
    let shown = video::tick_result(v.ppu, v.core.mem, window_open).2;
    let d = displayed(v, window_open);
    if !d.ppu.alive() {
        (d, Tick { shown: shown, step: idle_step(d.core) })
    } else {
        let (n, s) = process_result(d);
        (n, Tick { shown: shown, step: s })
    }
}

/// The interpreter at power-on: registers zero, interrupts enabled.
pub open spec fn initial_core(mem: MemView) -> CoreView {
    CoreView {
        regs: RegFile { a: 0, f: 0, b: 0, c: 0, d: 0, e: 0, h: 0, l: 0, sp: 0, pc: 0 },
        mem: mem,
        ir_enabled: true,
        quit: false,
        was_zero: false,
        half_carry: false,
        full_carry: false,
    }
}

/// The operand bytes `1..n` of the instruction at `pc`, each as `0xhh `.
pub open spec fn operand_bytes_text(mem: MemView, pc: u16, n: nat) -> Seq<char>
    decreases n,
{
    if n <= 1 {
        Seq::empty()
    } else {
        operand_bytes_text(mem, pc, (n - 1) as nat) + "0x"@ + crate::registers::hex_text(
            mem.read((pc + n - 1) as u16) as nat,
            2,
        ) + " "@
    }
}

/// The operand bytes that the trace line of an instruction shows can be read.
pub open spec fn operands_readable(mem: MemView, opcode: u16, pc: u16) -> bool {
    let i = lookup::instruction_spec(opcode);
    i.3 > 1 && !i.1 ==> {
        &&& pc + i.3 <= 0x10000
        &&& forall|k: int| 1 <= k < i.3 ==> #[trigger] mem.readable((pc + k) as u16)
    }
}

/// The trace line of an instruction: its address, name and clocks, and for
/// an unprefixed instruction with operands, the operand bytes.
pub open spec fn instruction_info_text(mem: MemView, opcode: u16, pc: u16) -> Seq<char> {
    let i = lookup::instruction_spec(opcode);
    "0x"@ + crate::registers::hex_text(pc as nat, 4) + ": "@ + i.2 + " - "@ + crate::text::digits(i.4 as nat, 10)
        + " cycles"@ + if i.3 > 1 && !i.1 {
        " - operands: "@ + operand_bytes_text(mem, pc, i.3 as nat)
    } else {
        Seq::empty()
    }
}

/// The interpreter together with its display unit and breakpoints.
pub struct CPU {
    pub core: CpuCore,
    pub ppu: PPU,
    step: bool,
    breaks: HashSet<u16>,
}

impl View for CPU {
    type V = CpuView;

    closed spec fn view(&self) -> CpuView {
        CpuView { core: self.core@, ppu: self.ppu@, step: self.step, breaks: self.breaks@ }
    }
}

/// A copy of the registers.
fn copy_registers(regs: &RegisterCache) -> (r: RegisterCache)
    ensures
        r@ == regs@,
{
    let mut r = RegisterCache::new();
    r.set(Reg16::AF, regs.get(Reg16::AF));
    r.set(Reg16::BC, regs.get(Reg16::BC));
    r.set(Reg16::DE, regs.get(Reg16::DE));
    r.set(Reg16::HL, regs.get(Reg16::HL));
    r.set(Reg16::SP, regs.get(Reg16::SP));
    r.set(Reg16::PC, regs.get(Reg16::PC));
    r
}

impl CpuCore {
    /// The interpreter at power-on: registers zero, interrupts enabled.
    pub fn new(mem: Memory) -> (core: CpuCore)
        ensures
            core@ == initial_core(mem@),
    {
        CpuCore {
            regs: RegisterCache::new(),
            mem: mem,
            ir_enabled: true,
            quit: false,
            was_zero: false,
            half_carry: false,
            full_carry: false,
        }
    }

    /// Whether the program has ended.
    pub fn has_quit(&self) -> (r: bool)
        ensures
            r == self@.quit,
    {
        self.quit
    }

    /// Whether the next step is defined (see `step_defined`).
    pub fn can_step(&self) -> (r: bool)
        ensures
            r == step_defined(self@),
    {
        if self.quit {
            return true;
        }
        let pc: u16 = self.regs.get(Reg16::PC);
        if pc > 0xfffd {
            return false;
        }
        if !self.mem.readable(pc) || !self.mem.readable(pc + 1) || !self.mem.readable(pc + 2) {
            return false;
        }
        let first = self.mem_get(pc);
        if first == 0xcb && (pc > 0xfffc || !self.mem.readable(pc + 3)) {
            return false;
        }
        let (opcode, operand8, operand16) = self.fetch(pc);
        let len = self.instruction_length(opcode);
        if pc as u32 + len as u32 > 0xffff {
            return false;
        }
        let mut regs = copy_registers(&self.regs);
        regs.set(Reg16::PC, pc + len);
        execute_is_defined(&regs, &self.mem, opcode, operand8, operand16, Ghost(fetched(self@)))
    }

    /// The opcode and operands at `pc`.
    fn fetch(&self, pc: u16) -> (r: (u16, u8, u16))
        requires
            pc == self@.regs.pc,
            pc <= 0xfffd,
            self@.can_access(pc),
            self@.can_access16((pc + 1) as u16),
        ensures
            r == (fetched_opcode(self@), fetched_operand8(self@), fetched_operand16(self@)),
    {
        let opcode = self.mem_get(pc);
        let operand8 = self.mem_get(pc + 1);
        let operand16 = self.parse_u16(pc + 1);
        let opcode: u16 = if opcode == 0xcb {
            (0xcbu16 << 8u16) | operand8 as u16
        } else {
            opcode as u16
        };
        proof {
            assert((0xcbu16 << 8u16) | operand8 as u16 == 0xcb00 + operand8) by (bit_vector);
        }
        (opcode, operand8, operand16)
    }

    /// The number of bytes PC advances over the instruction `opcode`.
    fn instruction_length(&self, opcode: u16) -> (n: u16)
        ensures
            n == instruction_length(opcode),
    {
        let inst = lookup::get_instruction(opcode);
        inst.bytes as u16
    }

    /// Fetch the instruction at PC, advance PC past it, and execute it.
    /// Returns the instruction's address and opcode.
    pub fn step(&mut self) -> (r: (u16, u16))
        requires
            !old(self)@.quit,
            step_defined(old(self)@),
        ensures
            final(self)@ == step_spec(old(self)@),
            final(self)@.mem.same_shape(old(self)@.mem),
            r == (old(self)@.regs.pc, fetched_opcode(old(self)@)),
    {
        let old_pc: u16 = self.regs.get(Reg16::PC);
        let (opcode, operand8, operand16) = self.fetch(old_pc);
        if opcode >= 0xcb00 {
            // The bytes after a prefixed opcode are read as well.
            let _after = self.mem_get(old_pc + 2);
            let _word = self.parse_u16(old_pc + 2);
        }
        // PC moves past the instruction before it executes, so that during
        // execution it is the address of the next one.
        let bytes = self.instruction_length(opcode);
        self.regs.set(Reg16::PC, old_pc + bytes);
        self.execute(opcode, operand8, operand16);
        (old_pc, opcode)
    }
}

impl CPU {
    /// A processor on memory `mem` with the display unit `ppu`: registers
    /// zero, interrupts enabled, no breakpoints.
    pub fn new(mem: Memory, ppu: PPU) -> (cpu: CPU)
        ensures
            cpu@ == (CpuView { core: initial_core(mem@), ppu: ppu@, step: false, breaks: Set::empty() }),
    {
        CPU { core: CpuCore::new(mem), ppu, step: false, breaks: HashSet::new() }
    }

    /// Whether `process` is defined (see `step_defined`).
    pub fn can_process(&self) -> (r: bool)
        requires
            self@.wf(),
        ensures
            r == step_defined(self@.core),
    {
        self.core.can_step()
    }

    /// Run the instruction at PC. Returns what happened; the program keeps
    /// running while `running` is true. When `breakpoint` is set the caller
    /// shows the registers and calls `resume`.
    pub fn process(&mut self) -> (s: Step)
        requires
            old(self)@.wf(),
            step_defined(old(self)@.core),
        ensures
            (final(self)@, s) == process_result(old(self)@),
            final(self)@.wf(),
    {
        broadcast use vstd::std_specs::hash::group_hash_axioms;

        if self.core.quit {
            let pc: u16 = self.core.regs.get(Reg16::PC);
            return Step { running: false, executed: false, pc, opcode: 0, breakpoint: false };
        }
        let (old_pc, opcode) = self.core.step();
        let breakpoint = self.breaks.contains(&old_pc) || self.step;
        if breakpoint {
            self.step = false;
        }
        Step { running: !self.core.quit, executed: true, pc: old_pc, opcode, breakpoint }
    }

    /// Continue after a breakpoint: with `step_next` the next instruction
    /// breaks too.
    pub fn resume(&mut self, step_next: bool)
        ensures
            final(self)@ == (CpuView { step: step_next, ..old(self)@ }),
    {
        self.step = step_next;
    }

    /// Break when the instruction at `addr` is about to be reported.
    pub fn add_breakpoint(&mut self, addr: u16)
        ensures
            final(self)@ == (CpuView { breaks: old(self)@.breaks.insert(addr), ..old(self)@ }),
    {
        broadcast use vstd::std_specs::hash::group_hash_axioms;

        self.breaks.insert(addr);
    }

    /// The trace line of the instruction `opcode` at `old_pc`, with the
    /// operand bytes as memory holds them now.
    pub fn print_instruction_info(&self, opcode: u16, old_pc: u16) -> (s: String)
        requires
            operands_readable(self@.core.mem, opcode, old_pc),
        ensures
            s@ == instruction_info_text(self@.core.mem, opcode, old_pc),
    {
        let inst = lookup::get_instruction(opcode);
        let mut s = String::new();
        s.append("0x");
        crate::text::append_padded(&mut s, old_pc as u64, 16, 4);
        s.append(": ");
        s.append(inst.name.as_str());
        s.append(" - ");
        crate::text::append_digits(&mut s, inst.clocks as u64, 10);
        s.append(" cycles");
        proof {
            reveal_strlit("0x");
            reveal_strlit(": ");
            reveal_strlit(" - ");
            reveal_strlit(" cycles");
            reveal_strlit(" - operands: ");
            reveal_strlit(" ");
        }
        let ghost head = s@;
        if inst.bytes > 1 && !inst.prefix_cb {
            s.append(" - operands: ");
            let ghost start = s@;
            let mut i: u8 = 1;
            while i < inst.bytes
                invariant
                    1 <= i <= inst.bytes,
                    inst.bytes > 1 && !inst.prefix_cb,
                    inst.fields() == lookup::instruction_spec(opcode),
                    operands_readable(self@.core.mem, opcode, old_pc),
                    s@ == start + operand_bytes_text(self@.core.mem, old_pc, i as nat),
                decreases inst.bytes - i,
            {
                let byte = self.core.mem.get(old_pc + i as u16, MemClient::CPU);
                s.append("0x");
                crate::text::append_padded(&mut s, byte as u64, 16, 2);
                s.append(" ");
                proof {
                    assert(s@ =~= start + operand_bytes_text(self@.core.mem, old_pc, (i + 1) as nat));
                }
                i = i + 1;
            }
        }
        proof {
            assert(s@ =~= instruction_info_text(self@.core.mem, opcode, old_pc));
        }
        s
    }

    /// Whether the operand bytes of the trace line can be read (see
    /// `operands_readable`).
    pub fn can_print_instruction_info(&self, opcode: u16, old_pc: u16) -> (r: bool)
        ensures
            r == operands_readable(self@.core.mem, opcode, old_pc),
    {
        let inst = lookup::get_instruction(opcode);
        if !(inst.bytes > 1 && !inst.prefix_cb) {
            return true;
        }
        if old_pc as u32 + inst.bytes as u32 > 0x10000 {
            return false;
        }
        let mut i: u8 = 1;
        while i < inst.bytes
            invariant
                1 <= i <= inst.bytes,
                inst.bytes > 1 && !inst.prefix_cb,
                old_pc + inst.bytes <= 0x10000,
                inst.fields() == lookup::instruction_spec(opcode),
                forall|k: int| 1 <= k < i ==> #[trigger] self@.core.mem.readable((old_pc + k) as u16),
            decreases inst.bytes - i,
        {
            if !self.core.mem.readable(old_pc + i as u16) {
                assert(!self@.core.mem.readable((old_pc + i as int) as u16));
                return false;
            }
            i = i + 1;
        }
        true
    }

    /// Whether `tick` is defined with the window `window_open`.
    pub fn can_tick(&self, window_open: bool) -> (r: bool)
        requires
            self@.wf(),
        ensures
            r == tick_defined(self@, window_open),
    {
        let mut mem = self.core.mem.snapshot();
        let mut ppu = self.ppu.snapshot();
        if !ppu.can_tick(&mem, window_open) {
            return false;
        }
        let _ = ppu.tick(&mut mem, window_open);
        if !ppu.is_alive() {
            return true;
        }
        let probe = CpuCore {
            regs: copy_registers(&self.core.regs),
            mem,
            ir_enabled: self.core.ir_enabled,
            quit: self.core.quit,
            was_zero: self.core.was_zero,
            half_carry: self.core.half_carry,
            full_carry: self.core.full_carry,
        };
        probe.can_step()
    }

    /// Run the display unit for one machine cycle, then, unless its window
    /// closed, the instruction at PC.
    pub fn tick(&mut self, window_open: bool) -> (t: Tick)
        requires
            old(self)@.wf(),
            tick_defined(old(self)@, window_open),
        ensures
            (final(self)@, t) == tick_result(old(self)@, window_open),
            final(self)@.wf(),
    {
        let shown = self.ppu.tick(&mut self.core.mem, window_open);
        if !self.ppu.is_alive() {
            let pc: u16 = self.core.regs.get(Reg16::PC);
            Tick { shown, step: Step { running: false, executed: false, pc, opcode: 0, breakpoint: false } }
        } else {
            let step = self.process();
            Tick { shown, step }
        }
    }
}



} // verus!
