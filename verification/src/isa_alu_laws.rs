//! What the register-to-register loads and the arithmetic, logic and bit
//! instructions do, stated on the bytes of the registers and of F.
use vstd::prelude::*;

use crate::cpu::{execute_spec, CoreView};
use crate::registers::RegFile;
use crate::util::with_bit;

verus! {

/// The byte that the low three bits of a regular opcode name: B, C, D, E, H,
/// L, the byte at HL, A.
pub open spec fn operand_byte(c: CoreView, r: int) -> u8 {
    if r == 0 {
        c.regs.b
    } else if r == 1 {
        c.regs.c
    } else if r == 2 {
        c.regs.d
    } else if r == 3 {
        c.regs.e
    } else if r == 4 {
        c.regs.h
    } else if r == 5 {
        c.regs.l
    } else if r == 6 {
        c.mem.read((c.regs.h * 256 + c.regs.l) as u16)
    } else {
        c.regs.a
    }
}

/// The registers and memory with the byte that `r` names replaced by `v`.
pub open spec fn operand_written(c: CoreView, r: int, v: u8) -> CoreView {
    if r == 0 {
        CoreView { regs: RegFile { b: v, ..c.regs }, ..c }
    } else if r == 1 {
        CoreView { regs: RegFile { c: v, ..c.regs }, ..c }
    } else if r == 2 {
        CoreView { regs: RegFile { d: v, ..c.regs }, ..c }
    } else if r == 3 {
        CoreView { regs: RegFile { e: v, ..c.regs }, ..c }
    } else if r == 4 {
        CoreView { regs: RegFile { h: v, ..c.regs }, ..c }
    } else if r == 5 {
        CoreView { regs: RegFile { l: v, ..c.regs }, ..c }
    } else if r == 6 {
        CoreView { mem: c.mem.write((c.regs.h * 256 + c.regs.l) as u16, v), ..c }
    } else {
        CoreView { regs: RegFile { a: v, ..c.regs }, ..c }
    }
}

/// F holds Z in bit 7, N in bit 6, H in bit 5 and CY in bit 4, and the low
/// nibble of `old_f`.
pub open spec fn flags_are(f: u8, old_f: u8, z: bool, n: bool, h: bool, cy: bool) -> bool {
    &&& f % 16 == old_f % 16
    &&& (f / 128 == 1) == z
    &&& ((f / 64) % 2 == 1) == n
    &&& ((f / 32) % 2 == 1) == h
    &&& ((f / 16) % 2 == 1) == cy
}

/// Whether CY (bit 4 of F) is set.
pub open spec fn carry_set(f: u8) -> bool {
    (f / 16) % 2 == 1
}

/// Writing the four flags, Z first, as the instruction table's modifiers do.
proof fn lemma_set_flags(f: u8, z: bool, n: bool, h: bool, cy: bool)
    ensures
        flags_are(with_bit(with_bit(with_bit(with_bit(f, 7, z), 6, n), 5, h), 4, cy), f, z, n, h, cy),
        flags_are(with_bit(with_bit(with_bit(f, 7, z), 6, n), 5, h), f, z, n, h, carry_set(f)),
{
    let f1 = with_bit(f, 7, z);
    let f2 = with_bit(f1, 6, n);
    let f3 = with_bit(f2, 5, h);
    let f4 = with_bit(f3, 4, cy);
    assert(
        (f1 == (if z { f | 128u8 } else { f & 127u8 }))
        && (f2 == (if n { f1 | 64u8 } else { f1 & 191u8 }))
        && (f3 == (if h { f2 | 32u8 } else { f2 & 223u8 }))
        && (f4 == (if cy { f3 | 16u8 } else { f3 & 239u8 }))
    ) by {
        assert((1u8 << 7u8) == 128u8 && !(1u8 << 7u8) == 127u8 && (1u8 << 6u8) == 64u8 && !(1u8 << 6u8) == 191u8
            && (1u8 << 5u8) == 32u8 && !(1u8 << 5u8) == 223u8 && (1u8 << 4u8) == 16u8 && !(1u8 << 4u8) == 239u8)
            by (bit_vector);
    }
    assert(
        (f4 % 16u8 == f % 16u8) && ((f4 / 128u8 == 1u8) == z) && (((f4 / 64u8) % 2u8 == 1u8) == n)
        && (((f4 / 32u8) % 2u8 == 1u8) == h) && (((f4 / 16u8) % 2u8 == 1u8) == cy)
        && (f3 % 16u8 == f % 16u8) && ((f3 / 128u8 == 1u8) == z) && (((f3 / 64u8) % 2u8 == 1u8) == n)
        && (((f3 / 32u8) % 2u8 == 1u8) == h) && (((f3 / 16u8) % 2u8 == 1u8) == ((f / 16u8) % 2u8 == 1u8))
    ) by (bit_vector)
        requires
            f1 == (if z { f | 128u8 } else { f & 127u8 }),
            f2 == (if n { f1 | 64u8 } else { f1 & 191u8 }),
            f3 == (if h { f2 | 32u8 } else { f2 & 223u8 }),
            f4 == (if cy { f3 | 16u8 } else { f3 & 239u8 }),
    ;
}

/// The value a flag modifier leaves: the old flag, the given value, or the
/// ALU's result for it.
pub open spec fn modified(m: crate::registers::FlagMod, old: bool, computed: bool) -> bool {
    match m {
        crate::registers::FlagMod::Ignore => old,
        crate::registers::FlagMod::SetTo(v) => v,
        crate::registers::FlagMod::Eval => computed,
    }
}

/// Setting one of the top four bits of F to `v` leaves the low nibble and
/// the other three.
proof fn lemma_with_bit_digits(f: u8, v: bool)
    ensures
        ({
            let g = with_bit(f, 7, v);
            &&& g % 16 == f % 16 && (g / 128 == 1) == v && (g / 64) % 2 == (f / 64) % 2 && (g / 32) % 2 == (f / 32) % 2
                && (g / 16) % 2 == (f / 16) % 2
        }),
        ({
            let g = with_bit(f, 6, v);
            &&& g % 16 == f % 16 && g / 128 == f / 128 && ((g / 64) % 2 == 1) == v && (g / 32) % 2 == (f / 32) % 2
                && (g / 16) % 2 == (f / 16) % 2
        }),
        ({
            let g = with_bit(f, 5, v);
            &&& g % 16 == f % 16 && g / 128 == f / 128 && (g / 64) % 2 == (f / 64) % 2 && ((g / 32) % 2 == 1) == v
                && (g / 16) % 2 == (f / 16) % 2
        }),
        ({
            let g = with_bit(f, 4, v);
            &&& g % 16 == f % 16 && g / 128 == f / 128 && (g / 64) % 2 == (f / 64) % 2 && (g / 32) % 2 == (f / 32) % 2
                && ((g / 16) % 2 == 1) == v
        }),
{
    assert((1u8 << 7u8) == 128u8 && !(1u8 << 7u8) == 127u8 && (1u8 << 6u8) == 64u8 && !(1u8 << 6u8) == 191u8
        && (1u8 << 5u8) == 32u8 && !(1u8 << 5u8) == 223u8 && (1u8 << 4u8) == 16u8 && !(1u8 << 4u8) == 239u8)
        by (bit_vector);
    let g7 = if v { f | 128u8 } else { f & 127u8 };
    let g6 = if v { f | 64u8 } else { f & 191u8 };
    let g5 = if v { f | 32u8 } else { f & 223u8 };
    let g4 = if v { f | 16u8 } else { f & 239u8 };
    assert(
        (g7 % 16u8 == f % 16u8 && (g7 / 128u8 == 1u8) == v && (g7 / 64u8) % 2u8 == (f / 64u8) % 2u8 && (g7 / 32u8) % 2u8
            == (f / 32u8) % 2u8 && (g7 / 16u8) % 2u8 == (f / 16u8) % 2u8)
        && (g6 % 16u8 == f % 16u8 && g6 / 128u8 == f / 128u8 && ((g6 / 64u8) % 2u8 == 1u8) == v && (g6 / 32u8) % 2u8
            == (f / 32u8) % 2u8 && (g6 / 16u8) % 2u8 == (f / 16u8) % 2u8)
        && (g5 % 16u8 == f % 16u8 && g5 / 128u8 == f / 128u8 && (g5 / 64u8) % 2u8 == (f / 64u8) % 2u8 && ((g5 / 32u8)
            % 2u8 == 1u8) == v && (g5 / 16u8) % 2u8 == (f / 16u8) % 2u8)
        && (g4 % 16u8 == f % 16u8 && g4 / 128u8 == f / 128u8 && (g4 / 64u8) % 2u8 == (f / 64u8) % 2u8 && (g4 / 32u8)
            % 2u8 == (f / 32u8) % 2u8 && ((g4 / 16u8) % 2u8 == 1u8) == v)
    ) by (bit_vector)
        requires
            g7 == (if v { f | 128u8 } else { f & 127u8 }),
            g6 == (if v { f | 64u8 } else { f & 191u8 }),
            g5 == (if v { f | 32u8 } else { f & 223u8 }),
            g4 == (if v { f | 16u8 } else { f & 239u8 }),
    ;
}

/// The bit of F that holds a flag, as its weight.
pub open spec fn flag_weight(f: crate::registers::Flag) -> int {
    match f {
        crate::registers::Flag::Z => 128,
        crate::registers::Flag::N => 64,
        crate::registers::Flag::H => 32,
        crate::registers::Flag::CY => 16,
    }
}

/// What the ALU computed for a flag: Z, H and CY from the last operation; N is
/// never computed and keeps its bit.
pub open spec fn computed_flag(c: CoreView, f: crate::registers::Flag) -> bool {
    match f {
        crate::registers::Flag::Z => c.was_zero,
        crate::registers::Flag::N => (c.regs.f / 64) % 2 == 1,
        crate::registers::Flag::H => c.half_carry,
        crate::registers::Flag::CY => c.full_carry,
    }
}

/// One flag modifier changes that flag's bit of F only.
proof fn lemma_eval_flag_step(c: CoreView, flag: crate::registers::Flag, m: crate::registers::FlagMod)
    ensures
        ({
            let n = crate::cpu::eval_flag_spec(c, flag, m);
            let w = flag_weight(flag);
            &&& n.was_zero == c.was_zero && n.half_carry == c.half_carry && n.full_carry == c.full_carry
            &&& n.regs.f % 16 == c.regs.f % 16
            &&& forall|x: int| (x == 16 || x == 32 || x == 64 || x == 128) && x != w ==> #[trigger] ((n.regs.f as int / x) % 2)
                == (c.regs.f as int / x) % 2
            &&& ((n.regs.f as int / w) % 2 == 1) == modified(m, (c.regs.f as int / w) % 2 == 1, computed_flag(c, flag))
        }),
{
    let f = c.regs.f;
    let v = modified(m, (f as int / flag_weight(flag)) % 2 == 1, computed_flag(c, flag));
    lemma_with_bit_digits(f, v);
    assert(f / 128 < 2);
    assert(with_bit(f, 7, v) / 128 < 2);
}

/// What the instruction table's flag modifiers leave in F: each flag as its
/// modifier says, the low nibble unchanged.
proof fn lemma_eval_flags(c: CoreView, flags: crate::registers::FlagStatus)
    ensures
        flags_are(
            crate::cpu::eval_flags_spec(c, flags).regs.f,
            c.regs.f,
            modified(flags.z, c.regs.f / 128 == 1, c.was_zero),
            modified(flags.n, (c.regs.f / 64) % 2 == 1, (c.regs.f / 64) % 2 == 1),
            modified(flags.h, (c.regs.f / 32) % 2 == 1, c.half_carry),
            modified(flags.cy, (c.regs.f / 16) % 2 == 1, c.full_carry),
        ),
{
    let c1 = crate::cpu::eval_flag_spec(c, crate::registers::Flag::Z, flags.z);
    let c2 = crate::cpu::eval_flag_spec(c1, crate::registers::Flag::N, flags.n);
    let c3 = crate::cpu::eval_flag_spec(c2, crate::registers::Flag::H, flags.h);
    let c4 = crate::cpu::eval_flag_spec(c3, crate::registers::Flag::CY, flags.cy);
    lemma_eval_flag_step(c, crate::registers::Flag::Z, flags.z);
    lemma_eval_flag_step(c1, crate::registers::Flag::N, flags.n);
    lemma_eval_flag_step(c2, crate::registers::Flag::H, flags.h);
    lemma_eval_flag_step(c3, crate::registers::Flag::CY, flags.cy);
    assert((c1.regs.f / 64) % 2 == (c.regs.f / 64) % 2);
    assert((c2.regs.f / 32) % 2 == (c.regs.f / 32) % 2);
    assert((c2.regs.f / 16) % 2 == (c.regs.f / 16) % 2);
    assert((c4.regs.f / 128) % 2 == (c3.regs.f / 128) % 2);
    assert(c.regs.f / 128 < 2 && c4.regs.f / 128 < 2);
}

/// An ALU operation on a register, stored back into it: that register and F
/// change, F as the flag modifiers say of the ALU's flags.
pub(crate) proof fn lemma_arith_imm(
    c: CoreView,
    aop: crate::alu::AluOp,
    dst: crate::registers::Reg8,
    flags: crate::registers::FlagStatus,
    val: u8,
)
    requires
        dst != crate::registers::Reg8::F,
    ensures
        ({
            let (r, c1) = crate::cpu::alu_spec(c, aop, c.regs.get8(dst), val);
            let n = crate::cpu::arith_imm_spec(c, aop, dst, flags, val);
            &&& n.regs == RegFile { f: n.regs.f, ..c.regs.set8(dst, r) }
            &&& n.mem == c.mem
            &&& n.quit == c.quit
            &&& n.ir_enabled == c.ir_enabled
            &&& flags_are(
                n.regs.f,
                c.regs.f,
                modified(flags.z, c.regs.f / 128 == 1, c1.was_zero),
                modified(flags.n, (c.regs.f / 64) % 2 == 1, (c.regs.f / 64) % 2 == 1),
                modified(flags.h, (c.regs.f / 32) % 2 == 1, c1.half_carry),
                modified(flags.cy, (c.regs.f / 16) % 2 == 1, c1.full_carry),
            )
        }),
{
    let (r, c1) = crate::cpu::alu_spec(c, aop, c.regs.get8(dst), val);
    lemma_alu_shape(c, aop, c.regs.get8(dst), val);
    let c2 = c1.with_regs(c1.regs.set8(dst, r));
    lemma_eval_flags(c2, flags);
    lemma_eval_flags_shape(c2, flags);
}

/// RLCA, RRCA, RLA and RRA rotate A one place; RLA and RRA rotate in the
/// carry that the last ALU operation left. Z, N and H are cleared and CY gets
/// the bit rotated out; nothing else changes.
#[verifier::rlimit(100)]
pub proof fn law_accumulator_rotations(c: CoreView, op8: u8, op16: u16)
    ensures
        ({
            let a = c.regs.a;
            let fc: int = if c.full_carry { 1 } else { 0 };
            let n0 = execute_spec(c, 0x07, op8, op16);
            let n1 = execute_spec(c, 0x0f, op8, op16);
            let n2 = execute_spec(c, 0x17, op8, op16);
            let n3 = execute_spec(c, 0x1f, op8, op16);
            &&& n0.mem == c.mem && n0.regs == RegFile { a: n0.regs.a, f: n0.regs.f, ..c.regs }
            &&& n0.regs.a == (a * 2) % 256 + a / 128 && flags_are(n0.regs.f, c.regs.f, false, false, false, a >= 128)
            &&& n1.mem == c.mem && n1.regs == RegFile { a: n1.regs.a, f: n1.regs.f, ..c.regs }
            &&& n1.regs.a == a / 2 + (a % 2) * 128 && flags_are(n1.regs.f, c.regs.f, false, false, false, a % 2 == 1)
            &&& n2.mem == c.mem && n2.regs == RegFile { a: n2.regs.a, f: n2.regs.f, ..c.regs }
            &&& n2.regs.a == (a * 2) % 256 + fc && flags_are(n2.regs.f, c.regs.f, false, false, false, a >= 128)
            &&& n3.mem == c.mem && n3.regs == RegFile { a: n3.regs.a, f: n3.regs.f, ..c.regs }
            &&& n3.regs.a == a / 2 + fc * 128 && flags_are(n3.regs.f, c.regs.f, false, false, false, a % 2 == 1)
        }),
{
    let a = c.regs.a;
    crate::alu::lemma_byte_ops(a);
    lemma_arith_imm(c, crate::alu::AluOp::RotateLeft(true), crate::registers::Reg8::A, crate::lookup::flags_spec(0x07), 0);
    lemma_arith_imm(c, crate::alu::AluOp::RotateRight(true), crate::registers::Reg8::A, crate::lookup::flags_spec(0x0f), 0);
    lemma_arith_imm(c, crate::alu::AluOp::RotateLeft(false), crate::registers::Reg8::A, crate::lookup::flags_spec(0x17), 0);
    lemma_arith_imm(c, crate::alu::AluOp::RotateRight(false), crate::registers::Reg8::A, crate::lookup::flags_spec(0x1f), 0);
}

/// CPL complements A and sets N and H. DAA adds to A the adjustment below,
/// read from A and from N, H and CY (its "high digit" is the low nibble of A
/// moved up), sets Z from the result, clears H and sets CY on a carry out.
#[verifier::rlimit(100)]
pub proof fn law_cpl_daa(c: CoreView, op8: u8, op16: u16)
    ensures
        ({
            let a = c.regs.a;
            let f = c.regs.f;
            let n = execute_spec(c, 0x2f, op8, op16);
            &&& n.mem == c.mem && n.regs == RegFile { a: n.regs.a, f: n.regs.f, ..c.regs }
            &&& n.regs.a == 255 - a && flags_are(n.regs.f, f, f / 128 == 1, true, true, carry_set(f))
        }),
        ({
            let a = c.regs.a;
            let f = c.regs.f;
            let fn_ = (f / 64) % 2 == 1;
            let fh = (f / 32) % 2 == 1;
            let fcy = (f / 16) % 2 == 1;
            let hi = (a * 16) % 256;
            let lo = a % 16;
            let adj: int = if !fn_ {
                (if fcy || hi > 9 || lo > 9 { 0x60int } else { 0 }) + (if fh || lo > 9 { 6int } else { 0 })
            } else if fcy {
                if fh { 0x9a } else { 0xa0 }
            } else if fh {
                0xfa
            } else {
                0
            };
            let n = execute_spec(c, 0x27, op8, op16);
            &&& n.mem == c.mem && n.regs == RegFile { a: n.regs.a, f: n.regs.f, ..c.regs }
            &&& n.regs.a == (a + adj) % 256 && flags_are(n.regs.f, f, n.regs.a == 0, fn_, false, a + adj > 255)
        }),
{
    let a = c.regs.a;
    lemma_flag_bits(c.regs.f);
    assert((a ^ 0xffu8) == 255 - a) by (bit_vector);
    lemma_arith_imm(c, crate::alu::AluOp::Xor, crate::registers::Reg8::A, crate::lookup::flags_spec(0x2f), 0xff);
    lemma_arith_imm(
        c,
        crate::alu::AluOp::Add(false),
        crate::registers::Reg8::A,
        crate::lookup::flags_spec(0x27),
        crate::cpu::daa_adjust(c.regs),
    );
}

/// ADD HL,rr adds the pair (or SP) to HL, wrapping around: Z is kept, N
/// cleared, H is the carry out of bit 11 and CY out of bit 15. ADD SP,r8 and
/// LD HL,SP+r8 add a non-negative offset to SP the same way (into SP or HL),
/// clearing Z and N; a negative offset subtracts the offset's unsigned value
/// and leaves H and CY at what the last ALU operation computed.
#[verifier::rlimit(100)]
#[verifier::spinoff_prover]
pub proof fn law_wide_additions(c: CoreView, op: u16, op8: u8, op16: u16)
    requires
        op == 0x09 || op == 0x19 || op == 0x29 || op == 0x39,
    ensures
        ({
            let hl = c.regs.h * 256 + c.regs.l;
            let v: int = if op == 0x09 {
                c.regs.b * 256 + c.regs.c
            } else if op == 0x19 {
                c.regs.d * 256 + c.regs.e
            } else if op == 0x29 {
                hl
            } else {
                c.regs.sp as int
            };
            let sum = (hl + v) % 65536;
            let f = c.regs.f;
            let n = execute_spec(c, op, op8, op16);
            &&& n.mem == c.mem
            &&& n.regs == RegFile { h: (sum / 256) as u8, l: (sum % 256) as u8, f: n.regs.f, ..c.regs }
            &&& flags_are(n.regs.f, f, f / 128 == 1, false, hl % 4096 + v % 4096 > 4095, hl + v > 65535)
        }),
        ({
            let sp = c.regs.sp;
            let f = c.regs.f;
            let r: int = if op8 < 128 { (sp + op8) % 65536 } else { (sp - op8) % 65536 };
            let h = if op8 < 128 { sp % 4096 + op8 > 4095 } else { c.half_carry };
            let cy = if op8 < 128 { sp + op8 > 65535 } else { c.full_carry };
            let n = execute_spec(c, 0xe8, op8, op16);
            let m = execute_spec(c, 0xf8, op8, op16);
            &&& n.mem == c.mem && n.regs == RegFile { sp: r as u16, f: n.regs.f, ..c.regs }
            &&& flags_are(n.regs.f, f, false, false, h, cy)
            &&& m.mem == c.mem && m.regs == RegFile { h: (r / 256) as u8, l: (r % 256) as u8, f: m.regs.f, ..c.regs }
            &&& flags_are(m.regs.f, f, false, false, h, cy)
        }),
{
    let hl = c.regs.get16(crate::registers::Reg16::HL);
    let src = if op == 0x09 {
        crate::registers::Reg16::BC
    } else if op == 0x19 {
        crate::registers::Reg16::DE
    } else if op == 0x29 {
        crate::registers::Reg16::HL
    } else {
        crate::registers::Reg16::SP
    };
    let (r1, c1) = crate::cpu::add_u16_spec(c, hl, c.regs.get16(src), false);
    let c2 = c1.with_regs(c1.regs.set16(crate::registers::Reg16::HL, r1));
    lemma_eval_flags(c2, crate::lookup::flags_spec(op));
    lemma_eval_flags_shape(c2, crate::lookup::flags_spec(op));
    let (r2, c3) = crate::cpu::add_u16_spec(c, c.regs.sp, op8 as u16, op8 >= 128);
    let c4 = c3.with_regs(c3.regs.set16(crate::registers::Reg16::SP, r2));
    let c5 = c3.with_regs(c3.regs.set16(crate::registers::Reg16::HL, r2));
    lemma_eval_flags(c4, crate::lookup::flags_spec(0xe8));
    lemma_eval_flags_shape(c4, crate::lookup::flags_spec(0xe8));
    lemma_eval_flags(c5, crate::lookup::flags_spec(0xf8));
    lemma_eval_flags_shape(c5, crate::lookup::flags_spec(0xf8));
}

/// Bits 7 to 4 of F, read as binary digits.
pub(crate) proof fn lemma_flag_bits(f: u8)
    ensures
        crate::util::bit_of(f, 7) == (f / 128 == 1),
        crate::util::bit_of(f, 6) == ((f / 64) % 2 == 1),
        crate::util::bit_of(f, 5) == ((f / 32) % 2 == 1),
        crate::util::bit_of(f, 4) == ((f / 16) % 2 == 1),
{
    assert(
        (((f >> 7u8) & 1u8 == 1u8) == (f / 128u8 == 1u8)) && (((f >> 6u8) & 1u8 == 1u8) == ((f / 64u8) % 2u8 == 1u8))
        && (((f >> 5u8) & 1u8 == 1u8) == ((f / 32u8) % 2u8 == 1u8)) && (((f >> 4u8) & 1u8 == 1u8) == ((f / 16u8)
        % 2u8 == 1u8))
    ) by (bit_vector);
}

/// LD r,r' (0x40-0x7F but HALT) copies the byte that the low three bits name
/// into the one that bits 3-5 name, and changes nothing else.
pub proof fn law_register_loads(c: CoreView, op: u16, op8: u8, op16: u16)
    requires
        0x40 <= op < 0x80,
        op != 0x76,
    ensures
        execute_spec(c, op, op8, op16) == operand_written(c, ((op / 8) % 8) as int, operand_byte(c, (op % 8) as int)),
{
}

/// The ALU block (0x80-0xBF) and its immediate forms (0xC6, 0xCE, ... 0xFE)
/// compute on A and the byte that the opcode names (or the operand byte):
/// ADD and ADC add (ADC adds one in place of the operand when CY is set), SUB
/// and SBC subtract (SBC subtracts one in place of the operand when CY is
/// set), AND, XOR and OR work bit by bit, and CP leaves A. Z, N, H and CY go to
/// bits 7-4 of F as below; no other register and no memory changes.
#[verifier::rlimit(100)]
#[verifier::spinoff_prover]
pub proof fn law_alu_instructions(c: CoreView, op: u16, op8: u8, op16: u16)
    requires
        0x80 <= op < 0xc0 || (0xc0 <= op < 0x100 && op % 8 == 6),
    ensures
        ({
            let n = execute_spec(c, op, op8, op16);
            let k = (op / 8) % 8;
            let s = if op < 0xc0 { operand_byte(c, (op % 8) as int) } else { op8 };
            let a = c.regs.a;
            let r = n.regs.a;
            let cy = carry_set(c.regs.f);
            &&& n.mem == c.mem
            &&& n.quit == c.quit
            &&& n.ir_enabled == c.ir_enabled
            &&& n.regs == RegFile { a: r, f: n.regs.f, ..c.regs }
            &&& (k == 0 || (k == 1 && !cy)) ==> r == (a + s) % 256 && flags_are(
                n.regs.f,
                c.regs.f,
                r == 0,
                false,
                a % 16 + s % 16 > 15,
                a + s > 255,
            )
            &&& (k == 1 && cy) ==> r == (a + 1) % 256 && flags_are(
                n.regs.f,
                c.regs.f,
                r == 0,
                false,
                a % 16 + s % 16 + 1 > 15,
                a + s > 255 || a == 255,
            )
            &&& (k == 2 || (k == 3 && !cy)) ==> r == (a - s) % 256 && flags_are(
                n.regs.f,
                c.regs.f,
                r == 0,
                true,
                a / 16 < s / 16,
                a < s,
            )
            &&& (k == 3 && cy) ==> r == (a - 1) % 256 && flags_are(
                n.regs.f,
                c.regs.f,
                r == 0,
                true,
                a / 16 < s / 16 || a / 16 == s / 16 + 1,
                a < s || a == 0,
            )
            &&& k == 4 ==> r == (a & s) && flags_are(n.regs.f, c.regs.f, r == 0, false, true, false)
            &&& k == 5 ==> r == (a ^ s) && flags_are(n.regs.f, c.regs.f, r == 0, false, false, false)
            &&& k == 6 ==> r == (a | s) && flags_are(n.regs.f, c.regs.f, r == 0, false, false, false)
            &&& k == 7 ==> r == a && flags_are(n.regs.f, c.regs.f, c.was_zero, true, a < s, a % 16 < s % 16)
        }),
{
    lemma_flag_bits(c.regs.f);
    let k = (op / 8) % 8;
    let s = if op < 0xc0 { operand_byte(c, (op % 8) as int) } else { op8 };
    let a = c.regs.a;
    let cy = carry_set(c.regs.f);
    let f = c.regs.f;
    if k == 0 || (k == 1 && !cy) {
        let r = ((a + s) % 256) as u8;
        lemma_set_flags(f, r == 0, false, a % 16 + s % 16 > 15, a + s > 255);
    } else if k == 1 {
        let r = ((a + 1) % 256) as u8;
        lemma_set_flags(f, r == 0, false, a % 16 + s % 16 + 1 > 15, a + s > 255 || a == 255);
    } else if k == 2 || (k == 3 && !cy) {
        let r = ((a - s) % 256) as u8;
        lemma_set_flags(f, r == 0, true, a / 16 < s / 16, a < s);
    } else if k == 3 {
        let r = ((a - 1) % 256) as u8;
        lemma_set_flags(f, r == 0, true, a / 16 < s / 16 || a / 16 == s / 16 + 1, a < s || a == 0);
    } else if k == 4 {
        lemma_set_flags(f, (a & s) == 0, false, true, false);
    } else if k == 5 {
        lemma_set_flags(f, (a ^ s) == 0, false, false, false);
    } else if k == 6 {
        lemma_set_flags(f, (a | s) == 0, false, false, false);
    } else {
        lemma_set_flags(f, c.was_zero, true, a < s, a % 16 < s % 16);
    }
}

/// Applying flag modifiers writes F and nothing else.
pub(crate) proof fn lemma_eval_flags_shape(c: CoreView, flags: crate::registers::FlagStatus)
    ensures
        ({
            let n = crate::cpu::eval_flags_spec(c, flags);
            &&& n.regs == RegFile { f: n.regs.f, ..c.regs }
            &&& n.mem == c.mem
            &&& n.quit == c.quit
            &&& n.ir_enabled == c.ir_enabled
        }),
{
}

/// The interpreter's ALU writes no register and no memory.
proof fn lemma_alu_shape(c: CoreView, op: crate::alu::AluOp, a: u8, b: u8)
    ensures
        ({
            let n = crate::cpu::alu_spec(c, op, a, b).1;
            &&& n.regs == c.regs
            &&& n.mem == c.mem
            &&& n.quit == c.quit
            &&& n.ir_enabled == c.ir_enabled
        }),
{
}

/// The 0xCB set changes nothing but the byte that the low three bits name
/// and F.
#[verifier::rlimit(100)]
#[verifier::spinoff_prover]
pub proof fn law_prefixed_touch_one_byte(c: CoreView, op: u16, op8: u8, op16: u16)
    requires
        0xcb00 <= op <= 0xcbff,
        crate::cpu::execute_defined(c, op, op8, op16),
    ensures
        ({
            let n = execute_spec(c, op, op8, op16);
            let t = (op - 0xcb00) % 8;
            let w = operand_written(c, t, operand_byte(n, t));
            &&& n.quit == c.quit
            &&& n.ir_enabled == c.ir_enabled
            &&& n.mem == w.mem
            &&& n.regs == RegFile { f: n.regs.f, ..w.regs }
        }),
{
    let lo = (op - 0xcb00) as int;
    let t = lo % 8;
    let aop = crate::cpu::cb_op_of(lo);
    let flags = crate::lookup::flags_spec(op);
    let hl = c.regs.get16(crate::registers::Reg16::HL);
    if t == 6 {
        let (r, c1) = crate::cpu::alu_spec(c, aop, c.mem.read(hl), 0);
        lemma_alu_shape(c, aop, c.mem.read(hl), 0);
        lemma_eval_flags_shape(c1.with_mem(c1.mem.write(hl, r)), flags);
        assert(execute_spec(c, op, op8, op16) == crate::cpu::bitwise_hl_ptr_spec(c, aop, flags));
    } else {
        let dst = crate::cpu::reg_of(t);
        let (r, c1) = crate::cpu::alu_spec(c, aop, c.regs.get8(dst), 0);
        lemma_alu_shape(c, aop, c.regs.get8(dst), 0);
        lemma_eval_flags_shape(c1.with_regs(c1.regs.set8(dst, r)), flags);
        assert(execute_spec(c, op, op8, op16) == crate::cpu::arith_imm_spec(c, aop, dst, flags, 0));
    }
}

/// An instruction of the 0xCB set is the interpreter's ALU on the named byte,
/// with the instruction's flag modifiers applied to the ALU's flags.
#[verifier::rlimit(100)]
#[verifier::spinoff_prover]
proof fn lemma_prefixed_is_alu(c: CoreView, op: u16, op8: u8, op16: u16)
    requires
        0xcb00 <= op <= 0xcbff,
        crate::cpu::execute_defined(c, op, op8, op16),
    ensures
        ({
            let n = execute_spec(c, op, op8, op16);
            let lo = (op - 0xcb00) as int;
            let t = lo % 8;
            let ar = crate::cpu::alu_spec(c, crate::cpu::cb_op_of(lo), operand_byte(c, t), 0);
            &&& operand_byte(n, t) == ar.0
            &&& n.regs.f == crate::cpu::eval_flags_spec(ar.1, crate::lookup::flags_spec(op)).regs.f
        }),
{
    let lo = (op - 0xcb00) as int;
    let t = lo % 8;
    let aop = crate::cpu::cb_op_of(lo);
    let flags = crate::lookup::flags_spec(op);
    let hl = c.regs.get16(crate::registers::Reg16::HL);
    if t == 6 {
        let (r, c1) = crate::cpu::alu_spec(c, aop, c.mem.read(hl), 0);
        lemma_alu_shape(c, aop, c.mem.read(hl), 0);
        lemma_eval_flags_shape(c1.with_mem(c1.mem.write(hl, r)), flags);
        assert(execute_spec(c, op, op8, op16) == crate::cpu::bitwise_hl_ptr_spec(c, aop, flags));
    } else {
        let dst = crate::cpu::reg_of(t);
        let (r, c1) = crate::cpu::alu_spec(c, aop, c.regs.get8(dst), 0);
        lemma_alu_shape(c, aop, c.regs.get8(dst), 0);
        lemma_eval_flags_shape(c1.with_regs(c1.regs.set8(dst, r)), flags);
        assert(execute_spec(c, op, op8, op16) == crate::cpu::arith_imm_spec(c, aop, dst, flags, 0));
    }
}

/// The rotations of the 0xCB set (0xCB00-0xCB1F) rotate the byte that the
/// low three bits name: RLC and RRC circularly, RL and RR through the carry
/// that the last ALU operation left. Z tells whether the result is zero, N and
/// H are cleared and CY gets the bit rotated out.
#[verifier::rlimit(100)]
#[verifier::spinoff_prover]
pub proof fn law_prefixed_rotations(c: CoreView, op: u16, op8: u8, op16: u16)
    requires
        0xcb00 <= op < 0xcb20,
        crate::cpu::execute_defined(c, op, op8, op16),
    ensures
        ({
            let n = execute_spec(c, op, op8, op16);
            let t = (op - 0xcb00) % 8;
            let k = ((op - 0xcb00) / 8) % 8;
            let v = operand_byte(c, t);
            let res = operand_byte(n, t);
            let fc: int = if c.full_carry { 1 } else { 0 };
            &&& k == 0 ==> res == (v * 2) % 256 + v / 128 && flags_are(n.regs.f, c.regs.f, res == 0, false, false, v >= 128)
            &&& k == 1 ==> res == v / 2 + (v % 2) * 128 && flags_are(n.regs.f, c.regs.f, res == 0, false, false, v % 2 == 1)
            &&& k == 2 ==> res == (v * 2) % 256 + fc && flags_are(n.regs.f, c.regs.f, res == 0, false, false, v >= 128)
            &&& k == 3 ==> res == v / 2 + fc * 128 && flags_are(n.regs.f, c.regs.f, res == 0, false, false, v % 2 == 1)
        }),
{
    let k = ((op - 0xcb00) / 8) % 8;
    let v = operand_byte(c, (op - 0xcb00) % 8);
    let f = c.regs.f;
    lemma_prefixed_is_alu(c, op, op8, op16);
    lemma_alu_shape(c, crate::cpu::cb_op_of((op - 0xcb00) as int), v, 0);
    if k == 0 {
        lemma_set_flags(f, (((v * 2) % 256 + v / 128) as u8) == 0, false, false, v >= 128);
    } else if k == 1 {
        lemma_set_flags(f, ((v / 2 + (v % 2) * 128) as u8) == 0, false, false, v % 2 == 1);
    } else if k == 2 {
        lemma_set_flags(f, (((v * 2) % 256 + (if c.full_carry { 1int } else { 0 })) as u8) == 0, false, false, v >= 128);
    } else {
        lemma_set_flags(f, ((v / 2 + (if c.full_carry { 128int } else { 0 })) as u8) == 0, false, false, v % 2 == 1);
    }
}

/// The shifts of the 0xCB set (0xCB20-0xCB3F) on the byte that the low three
/// bits name: SLA shifts left, SRA right keeping the top bit, SRL right with a
/// zero, and SWAP leaves the byte. Z tells whether the result is zero, N and H
/// are cleared, and CY gets the bit shifted out (SRA and SWAP clear it).
#[verifier::rlimit(100)]
#[verifier::spinoff_prover]
pub proof fn law_prefixed_shifts(c: CoreView, op: u16, op8: u8, op16: u16)
    requires
        0xcb20 <= op < 0xcb40,
        crate::cpu::execute_defined(c, op, op8, op16),
    ensures
        ({
            let n = execute_spec(c, op, op8, op16);
            let t = (op - 0xcb00) % 8;
            let k = ((op - 0xcb00) / 8) % 8;
            let v = operand_byte(c, t);
            let res = operand_byte(n, t);
            &&& k == 4 ==> res == (v * 2) % 256 && flags_are(n.regs.f, c.regs.f, res == 0, false, false, v >= 128)
            &&& k == 5 ==> res == v / 2 + (v / 128) * 128 && flags_are(n.regs.f, c.regs.f, res == 0, false, false, false)
            &&& k == 6 ==> res == v && flags_are(n.regs.f, c.regs.f, v == 0, false, false, false)
            &&& k == 7 ==> res == v / 2 && flags_are(n.regs.f, c.regs.f, res == 0, false, false, v % 2 == 1)
        }),
{
    let k = ((op - 0xcb00) / 8) % 8;
    let v = operand_byte(c, (op - 0xcb00) % 8);
    let f = c.regs.f;
    lemma_prefixed_is_alu(c, op, op8, op16);
    lemma_alu_shape(c, crate::cpu::cb_op_of((op - 0xcb00) as int), v, 0);
    if k == 4 {
        lemma_set_flags(f, (((v * 2) % 256) as u8) == 0, false, false, v >= 128);
    } else if k == 5 {
        lemma_set_flags(f, ((v / 2 + (if v >= 128 { 128int } else { 0 })) as u8) == 0, false, false, false);
    } else if k == 6 {
        lemma_set_flags(f, v == 0, false, false, false);
    } else {
        lemma_set_flags(f, ((v / 2) as u8) == 0, false, false, v % 2 == 1);
    }
}

/// BIT b (0xCB40-0xCB7F) leaves the byte, sets Z when bit b is clear, clears
/// N, sets H and keeps CY; RES b and SET b (0xCB80-0xCBFF) clear or set bit b
/// and keep the other seven bits and F.
#[verifier::rlimit(100)]
#[verifier::spinoff_prover]
pub proof fn law_prefixed_bit_ops(c: CoreView, op: u16, op8: u8, op16: u16)
    requires
        0xcb40 <= op <= 0xcbff,
        crate::cpu::execute_defined(c, op, op8, op16),
    ensures
        ({
            let n = execute_spec(c, op, op8, op16);
            let t = (op - 0xcb00) % 8;
            let k = ((op - 0xcb00) / 8) % 8;
            let v = operand_byte(c, t);
            let res = operand_byte(n, t);
            &&& op < 0xcb80 ==> res == v && flags_are(
                n.regs.f,
                c.regs.f,
                !crate::util::bit_of(v, k as u8),
                false,
                true,
                carry_set(c.regs.f),
            )
            &&& 0xcb80 <= op ==> n.regs.f == c.regs.f
            &&& 0xcb80 <= op ==> forall|i: u8| i < 8 ==> #[trigger] crate::util::bit_of(res, i) == (if i == k {
                op >= 0xcbc0
            } else {
                crate::util::bit_of(v, i)
            })
        }),
{
    lemma_flag_bits(c.regs.f);
    let k = ((op - 0xcb00) / 8) % 8;
    let v = operand_byte(c, (op - 0xcb00) % 8);
    if op < 0xcb80 {
        lemma_set_flags(c.regs.f, !crate::util::bit_of(v, k as u8), false, true, false);
    } else {
        crate::util::lemma_with_bit(v, k as u8, op >= 0xcbc0);
    }
}

} // verus!
