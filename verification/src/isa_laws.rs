//! What the table instructions do to the registers and memory, stated field by
//! field for every state.
use vstd::prelude::*;

use crate::cpu::{execute_spec, CoreView};
use crate::registers::RegFile;
use crate::util::{bit_of, with_bit};

verus! {

/// The state after a relative jump by a signed offset from PC: a target
/// outside the address space ends the program.
pub open spec fn jumped_relative(c: CoreView, offset: u8) -> CoreView {
    let target: int = c.regs.pc + (if offset < 128 { offset as int } else { offset as int - 256 });
    if 0 <= target <= 0xffff {
        CoreView { regs: RegFile { pc: target as u16, ..c.regs }, ..c }
    } else {
        CoreView { quit: true, ..c }
    }
}

/// The state after pushing the bytes `hi` and `lo`: SP two lower, `lo` at SP
/// and `hi` just above it.
pub open spec fn pushed(c: CoreView, hi: u8, lo: u8) -> CoreView {
    let s: int = (c.regs.sp - 2) % 65536;
    CoreView {
        regs: RegFile { sp: s as u16, ..c.regs },
        mem: c.mem.write(s as u16, lo).write((s + 1) as u16, hi),
        ..c
    }
}

/// The state after a call: PC pushed, then PC set to the target.
pub open spec fn called(c: CoreView, target: u16) -> CoreView {
    let p = pushed(c, (c.regs.pc / 256) as u8, (c.regs.pc % 256) as u8);
    CoreView { regs: RegFile { pc: target, ..p.regs }, ..p }
}

/// The state after a return: PC loaded from the two bytes at SP (low byte
/// first), SP two higher.
pub open spec fn returned(c: CoreView) -> CoreView {
    let lo = c.mem.read(c.regs.sp);
    let hi = c.mem.read((c.regs.sp + 1) as u16);
    CoreView { regs: RegFile { pc: (lo + 256 * hi) as u16, sp: ((c.regs.sp + 2) % 65536) as u16, ..c.regs }, ..c }
}

/// Z and CY as bits 7 and 4 of F, and setting or flipping bit 4.
proof fn lemma_flag_digits(f: u8)
    ensures
        bit_of(f, 7) == (f >= 128),
        bit_of(f, 4) == ((f / 16) % 2 == 1),
        with_bit(f, 4, true) == f | 0x10u8,
        with_bit(f, 4, !bit_of(f, 4)) == f ^ 0x10u8,
{
    assert(((f >> 7u8) & 1u8 == 1u8) == (f >= 128u8) && ((f >> 4u8) & 1u8 == 1u8) == ((f / 16u8) % 2u8 == 1u8)
        && (f | (1u8 << 4u8)) == (f | 0x10u8) && (((f >> 4u8) & 1u8 == 1u8) ==> (f & !(1u8 << 4u8)) == (f
        ^ 0x10u8)) && (!((f >> 4u8) & 1u8 == 1u8) ==> (f | (1u8 << 4u8)) == (f ^ 0x10u8))) by (bit_vector);
}

/// INC r and DEC r add or subtract one, wrapping around, and change nothing
/// else: no other register, no flag, no memory. INC E and DEC E (0x1C, 0x1D)
/// step D and leave E.
#[verifier::rlimit(100)]
#[verifier::spinoff_prover]
pub proof fn law_inc_dec_r8(c: CoreView, op8: u8, op16: u16)
    ensures
        execute_spec(c, 0x04, op8, op16) == (CoreView { regs: RegFile { b: ((c.regs.b + 1) % 256) as u8, ..c.regs }, ..c }),
        execute_spec(c, 0x05, op8, op16) == (CoreView { regs: RegFile { b: ((c.regs.b - 1) % 256) as u8, ..c.regs }, ..c }),
        execute_spec(c, 0x0c, op8, op16) == (CoreView { regs: RegFile { c: ((c.regs.c + 1) % 256) as u8, ..c.regs }, ..c }),
        execute_spec(c, 0x0d, op8, op16) == (CoreView { regs: RegFile { c: ((c.regs.c - 1) % 256) as u8, ..c.regs }, ..c }),
        execute_spec(c, 0x14, op8, op16) == (CoreView { regs: RegFile { d: ((c.regs.d + 1) % 256) as u8, ..c.regs }, ..c }),
        execute_spec(c, 0x15, op8, op16) == (CoreView { regs: RegFile { d: ((c.regs.d - 1) % 256) as u8, ..c.regs }, ..c }),
        execute_spec(c, 0x1c, op8, op16) == (CoreView { regs: RegFile { d: ((c.regs.d + 1) % 256) as u8, ..c.regs }, ..c }),
        execute_spec(c, 0x1d, op8, op16) == (CoreView { regs: RegFile { d: ((c.regs.d - 1) % 256) as u8, ..c.regs }, ..c }),
        execute_spec(c, 0x24, op8, op16) == (CoreView { regs: RegFile { h: ((c.regs.h + 1) % 256) as u8, ..c.regs }, ..c }),
        execute_spec(c, 0x25, op8, op16) == (CoreView { regs: RegFile { h: ((c.regs.h - 1) % 256) as u8, ..c.regs }, ..c }),
        execute_spec(c, 0x2c, op8, op16) == (CoreView { regs: RegFile { l: ((c.regs.l + 1) % 256) as u8, ..c.regs }, ..c }),
        execute_spec(c, 0x2d, op8, op16) == (CoreView { regs: RegFile { l: ((c.regs.l - 1) % 256) as u8, ..c.regs }, ..c }),
        execute_spec(c, 0x3c, op8, op16) == (CoreView { regs: RegFile { a: ((c.regs.a + 1) % 256) as u8, ..c.regs }, ..c }),
        execute_spec(c, 0x3d, op8, op16) == (CoreView { regs: RegFile { a: ((c.regs.a - 1) % 256) as u8, ..c.regs }, ..c }),
{
    lemma_flag_digits(c.regs.f);
}

/// LD r,d8 puts the operand byte in the register, LD rr,d16 the operand word in
/// the pair (high byte in the first register) or SP, and LD (HL),d8 the operand
/// byte at HL; nothing else changes.
#[verifier::rlimit(100)]
#[verifier::spinoff_prover]
pub proof fn law_load_immediate(c: CoreView, op8: u8, op16: u16)
    ensures
        execute_spec(c, 0x06, op8, op16) == (CoreView { regs: RegFile { b: op8, ..c.regs }, ..c }),
        execute_spec(c, 0x0e, op8, op16) == (CoreView { regs: RegFile { c: op8, ..c.regs }, ..c }),
        execute_spec(c, 0x16, op8, op16) == (CoreView { regs: RegFile { d: op8, ..c.regs }, ..c }),
        execute_spec(c, 0x1e, op8, op16) == (CoreView { regs: RegFile { e: op8, ..c.regs }, ..c }),
        execute_spec(c, 0x26, op8, op16) == (CoreView { regs: RegFile { h: op8, ..c.regs }, ..c }),
        execute_spec(c, 0x2e, op8, op16) == (CoreView { regs: RegFile { l: op8, ..c.regs }, ..c }),
        execute_spec(c, 0x3e, op8, op16) == (CoreView { regs: RegFile { a: op8, ..c.regs }, ..c }),
        execute_spec(c, 0x01, op8, op16) == (CoreView { regs: RegFile { b: (op16 / 256) as u8, c: (op16 % 256) as u8, ..c.regs }, ..c }),
        execute_spec(c, 0x11, op8, op16) == (CoreView { regs: RegFile { d: (op16 / 256) as u8, e: (op16 % 256) as u8, ..c.regs }, ..c }),
        execute_spec(c, 0x21, op8, op16) == (CoreView { regs: RegFile { h: (op16 / 256) as u8, l: (op16 % 256) as u8, ..c.regs }, ..c }),
        execute_spec(c, 0x31, op8, op16) == (CoreView { regs: RegFile { sp: op16, ..c.regs }, ..c }),
        execute_spec(c, 0x36, op8, op16) == (CoreView { mem: c.mem.write(((c.regs.h * 256 + c.regs.l)) as u16, op8), ..c }),
{
    lemma_flag_digits(c.regs.f);
}

/// INC rr and DEC rr add or subtract one on the 16-bit value, wrapping around,
/// and change nothing else. DEC DE (0x1B) steps BC, and INC SP (0x33) steps HL.
#[verifier::rlimit(100)]
#[verifier::spinoff_prover]
pub proof fn law_inc_dec_r16(c: CoreView, op8: u8, op16: u16)
    ensures
        execute_spec(c, 0x03, op8, op16) == (CoreView { regs: RegFile { b: ((((c.regs.b * 256 + c.regs.c) + 1) % 65536) / 256) as u8, c: ((((c.regs.b * 256 + c.regs.c) + 1) % 65536) % 256) as u8, ..c.regs }, ..c }),
        execute_spec(c, 0x0b, op8, op16) == (CoreView { regs: RegFile { b: ((((c.regs.b * 256 + c.regs.c) - 1) % 65536) / 256) as u8, c: ((((c.regs.b * 256 + c.regs.c) - 1) % 65536) % 256) as u8, ..c.regs }, ..c }),
        execute_spec(c, 0x13, op8, op16) == (CoreView { regs: RegFile { d: ((((c.regs.d * 256 + c.regs.e) + 1) % 65536) / 256) as u8, e: ((((c.regs.d * 256 + c.regs.e) + 1) % 65536) % 256) as u8, ..c.regs }, ..c }),
        execute_spec(c, 0x1b, op8, op16) == (CoreView { regs: RegFile { b: ((((c.regs.b * 256 + c.regs.c) - 1) % 65536) / 256) as u8, c: ((((c.regs.b * 256 + c.regs.c) - 1) % 65536) % 256) as u8, ..c.regs }, ..c }),
        execute_spec(c, 0x23, op8, op16) == (CoreView { regs: RegFile { h: ((((c.regs.h * 256 + c.regs.l) + 1) % 65536) / 256) as u8, l: ((((c.regs.h * 256 + c.regs.l) + 1) % 65536) % 256) as u8, ..c.regs }, ..c }),
        execute_spec(c, 0x2b, op8, op16) == (CoreView { regs: RegFile { h: ((((c.regs.h * 256 + c.regs.l) - 1) % 65536) / 256) as u8, l: ((((c.regs.h * 256 + c.regs.l) - 1) % 65536) % 256) as u8, ..c.regs }, ..c }),
        execute_spec(c, 0x33, op8, op16) == (CoreView { regs: RegFile { h: ((((c.regs.h * 256 + c.regs.l) + 1) % 65536) / 256) as u8, l: ((((c.regs.h * 256 + c.regs.l) + 1) % 65536) % 256) as u8, ..c.regs }, ..c }),
        execute_spec(c, 0x3b, op8, op16) == (CoreView { regs: RegFile { sp: ((c.regs.sp - 1) % 65536) as u16, ..c.regs }, ..c }),
{
    lemma_flag_digits(c.regs.f);
}

/// Loads and stores between A and memory: through BC, DE, HL (then stepping HL),
/// 0xFF00 plus C or plus the operand byte, and the operand word. 0x22 and 0x32
/// load A from (HL), and 0x2A and 0x3A store A there; 0xE2 loads A from
/// 0xFF00 + C and 0xF2 stores it there.
#[verifier::rlimit(100)]
#[verifier::spinoff_prover]
pub proof fn law_memory_loads(c: CoreView, op8: u8, op16: u16)
    ensures
        execute_spec(c, 0x02, op8, op16) == (CoreView { mem: c.mem.write(((c.regs.b * 256 + c.regs.c)) as u16, c.regs.a), ..c }),
        execute_spec(c, 0x12, op8, op16) == (CoreView { mem: c.mem.write(((c.regs.d * 256 + c.regs.e)) as u16, c.regs.a), ..c }),
        execute_spec(c, 0x0a, op8, op16) == (CoreView { regs: RegFile { a: c.mem.read((c.regs.b * 256 + c.regs.c) as u16), ..c.regs }, ..c }),
        execute_spec(c, 0x1a, op8, op16) == (CoreView { regs: RegFile { a: c.mem.read((c.regs.d * 256 + c.regs.e) as u16), ..c.regs }, ..c }),
        execute_spec(c, 0x22, op8, op16) == (CoreView { regs: RegFile { a: c.mem.read((c.regs.h * 256 + c.regs.l) as u16), h: ((((c.regs.h * 256 + c.regs.l) + 1) % 65536) / 256) as u8, l: ((((c.regs.h * 256 + c.regs.l) + 1) % 65536) % 256) as u8, ..c.regs }, ..c }),
        execute_spec(c, 0x32, op8, op16) == (CoreView { regs: RegFile { a: c.mem.read((c.regs.h * 256 + c.regs.l) as u16), h: ((((c.regs.h * 256 + c.regs.l) - 1) % 65536) / 256) as u8, l: ((((c.regs.h * 256 + c.regs.l) - 1) % 65536) % 256) as u8, ..c.regs }, ..c }),
        execute_spec(c, 0x2a, op8, op16) == (CoreView { mem: c.mem.write((c.regs.h * 256 + c.regs.l) as u16, c.regs.a), regs: RegFile { h: ((((c.regs.h * 256 + c.regs.l) + 1) % 65536) / 256) as u8, l: ((((c.regs.h * 256 + c.regs.l) + 1) % 65536) % 256) as u8, ..c.regs }, ..c }),
        execute_spec(c, 0x3a, op8, op16) == (CoreView { mem: c.mem.write((c.regs.h * 256 + c.regs.l) as u16, c.regs.a), regs: RegFile { h: ((((c.regs.h * 256 + c.regs.l) - 1) % 65536) / 256) as u8, l: ((((c.regs.h * 256 + c.regs.l) - 1) % 65536) % 256) as u8, ..c.regs }, ..c }),
        execute_spec(c, 0x34, op8, op16) == (CoreView { mem: c.mem.write(((c.regs.h * 256 + c.regs.l)) as u16, ((c.mem.read((c.regs.h * 256 + c.regs.l) as u16) + 1) % 256) as u8), ..c }),
        execute_spec(c, 0x35, op8, op16) == (CoreView { mem: c.mem.write(((c.regs.h * 256 + c.regs.l)) as u16, ((c.mem.read((c.regs.h * 256 + c.regs.l) as u16) - 1) % 256) as u8), ..c }),
        execute_spec(c, 0xe0, op8, op16) == (CoreView { mem: c.mem.write((0xff00 + op8) as u16, c.regs.a), ..c }),
        execute_spec(c, 0xf0, op8, op16) == (CoreView { regs: RegFile { a: c.mem.read((0xff00 + op8) as u16), ..c.regs }, ..c }),
        execute_spec(c, 0xe2, op8, op16) == (CoreView { regs: RegFile { a: c.mem.read((0xff00 + c.regs.c) as u16), ..c.regs }, ..c }),
        execute_spec(c, 0xf2, op8, op16) == (CoreView { mem: c.mem.write((0xff00 + c.regs.c) as u16, c.regs.a), ..c }),
        execute_spec(c, 0xea, op8, op16) == (CoreView { mem: c.mem.write((op16) as u16, c.regs.a), ..c }),
        execute_spec(c, 0xfa, op8, op16) == (CoreView { regs: RegFile { a: c.mem.read(op16), ..c.regs }, ..c }),
        execute_spec(c, 0x08, op8, op16) == (CoreView { mem: c.mem.write(op16, (c.regs.sp % 256) as u8).write((op16 + 1) as u16, (c.regs.sp / 256) as u8), ..c }),
        execute_spec(c, 0xf9, op8, op16) == (CoreView { regs: RegFile { sp: (c.regs.h * 256 + c.regs.l) as u16, ..c.regs }, ..c }),
{
    lemma_flag_digits(c.regs.f);
}

/// Control instructions: NOP changes nothing; STOP, HALT and a bare 0xCB end
/// the program; DI and EI clear and set the interrupt enable; SCF sets CY and
/// CCF flips it (bit 4 of F); JP a16 jumps to the operand word and JP (HL) to
/// the word stored at HL.
#[verifier::rlimit(100)]
#[verifier::spinoff_prover]
pub proof fn law_control(c: CoreView, op8: u8, op16: u16)
    ensures
        execute_spec(c, 0x00, op8, op16) == c,
        execute_spec(c, 0x10, op8, op16) == (CoreView { quit: true, ..c }),
        execute_spec(c, 0x76, op8, op16) == (CoreView { quit: true, ..c }),
        execute_spec(c, 0xcb, op8, op16) == (CoreView { quit: true, ..c }),
        execute_spec(c, 0xf3, op8, op16) == (CoreView { ir_enabled: false, ..c }),
        execute_spec(c, 0xfb, op8, op16) == (CoreView { ir_enabled: true, ..c }),
        execute_spec(c, 0x37, op8, op16) == (CoreView { regs: RegFile { f: c.regs.f | 0x10u8, ..c.regs }, ..c }),
        execute_spec(c, 0x3f, op8, op16) == (CoreView { regs: RegFile { f: c.regs.f ^ 0x10u8, ..c.regs }, ..c }),
        execute_spec(c, 0xc3, op8, op16) == (CoreView { regs: RegFile { pc: op16, ..c.regs }, ..c }),
        execute_spec(c, 0xe9, op8, op16) == (CoreView { regs: RegFile { pc: (c.mem.read((c.regs.h * 256 + c.regs.l) as u16) + 256 * c.mem.read(((c.regs.h * 256 + c.regs.l) as u16 + 1) as u16)) as u16, ..c.regs }, ..c }),
{
    lemma_flag_digits(c.regs.f);
}

/// The conditional jumps, calls and returns test Z (bit 7 of F) or CY (bit 4):
/// NZ and NC go when the bit is clear, Z and C when it is set; otherwise nothing
/// changes. JR r8 always jumps.
#[verifier::rlimit(100)]
#[verifier::spinoff_prover]
pub proof fn law_conditional_branches(c: CoreView, op8: u8, op16: u16)
    ensures
        execute_spec(c, 0x20, op8, op16) == (if c.regs.f < 128 { jumped_relative(c, op8) } else { c }),
        execute_spec(c, 0xc2, op8, op16) == (if c.regs.f < 128 { (CoreView { regs: RegFile { pc: op16, ..c.regs }, ..c }) } else { c }),
        execute_spec(c, 0xc4, op8, op16) == (if c.regs.f < 128 { called(c, op16) } else { c }),
        execute_spec(c, 0xc0, op8, op16) == (if c.regs.f < 128 { returned(c) } else { c }),
        execute_spec(c, 0x28, op8, op16) == (if c.regs.f >= 128 { jumped_relative(c, op8) } else { c }),
        execute_spec(c, 0xca, op8, op16) == (if c.regs.f >= 128 { (CoreView { regs: RegFile { pc: op16, ..c.regs }, ..c }) } else { c }),
        execute_spec(c, 0xcc, op8, op16) == (if c.regs.f >= 128 { called(c, op16) } else { c }),
        execute_spec(c, 0xc8, op8, op16) == (if c.regs.f >= 128 { returned(c) } else { c }),
        execute_spec(c, 0x30, op8, op16) == (if (c.regs.f / 16) % 2 == 0 { jumped_relative(c, op8) } else { c }),
        execute_spec(c, 0xd2, op8, op16) == (if (c.regs.f / 16) % 2 == 0 { (CoreView { regs: RegFile { pc: op16, ..c.regs }, ..c }) } else { c }),
        execute_spec(c, 0xd4, op8, op16) == (if (c.regs.f / 16) % 2 == 0 { called(c, op16) } else { c }),
        execute_spec(c, 0xd0, op8, op16) == (if (c.regs.f / 16) % 2 == 0 { returned(c) } else { c }),
        execute_spec(c, 0x38, op8, op16) == (if (c.regs.f / 16) % 2 == 1 { jumped_relative(c, op8) } else { c }),
        execute_spec(c, 0xda, op8, op16) == (if (c.regs.f / 16) % 2 == 1 { (CoreView { regs: RegFile { pc: op16, ..c.regs }, ..c }) } else { c }),
        execute_spec(c, 0xdc, op8, op16) == (if (c.regs.f / 16) % 2 == 1 { called(c, op16) } else { c }),
        execute_spec(c, 0xd8, op8, op16) == (if (c.regs.f / 16) % 2 == 1 { returned(c) } else { c }),
        execute_spec(c, 0x18, op8, op16) == jumped_relative(c, op8),
{
    lemma_flag_digits(c.regs.f);
}

/// CALL pushes the address after it and jumps; RST n does the same to n;
/// RET pops PC, and RETI also enables interrupts; PUSH stores the high byte of
/// the pair at SP - 1 and the low byte at SP - 2, and POP loads them back,
/// moving SP by two.
#[verifier::rlimit(100)]
#[verifier::spinoff_prover]
pub proof fn law_calls_and_stack(c: CoreView, op8: u8, op16: u16)
    ensures
        execute_spec(c, 0xcd, op8, op16) == called(c, op16),
        execute_spec(c, 0xc9, op8, op16) == returned(c),
        execute_spec(c, 0xd9, op8, op16) == (CoreView { ir_enabled: true, ..returned(c) }),
        execute_spec(c, 0xc7, op8, op16) == called(c, 0x00u16),
        execute_spec(c, 0xcf, op8, op16) == called(c, 0x08u16),
        execute_spec(c, 0xd7, op8, op16) == called(c, 0x10u16),
        execute_spec(c, 0xdf, op8, op16) == called(c, 0x18u16),
        execute_spec(c, 0xe7, op8, op16) == called(c, 0x20u16),
        execute_spec(c, 0xef, op8, op16) == called(c, 0x28u16),
        execute_spec(c, 0xf7, op8, op16) == called(c, 0x30u16),
        execute_spec(c, 0xff, op8, op16) == called(c, 0x38u16),
        execute_spec(c, 0xc5, op8, op16) == pushed(c, c.regs.b, c.regs.c),
        execute_spec(c, 0xd5, op8, op16) == pushed(c, c.regs.d, c.regs.e),
        execute_spec(c, 0xe5, op8, op16) == pushed(c, c.regs.h, c.regs.l),
        execute_spec(c, 0xf5, op8, op16) == pushed(c, c.regs.a, c.regs.f),
        execute_spec(c, 0xc1, op8, op16) == (CoreView { regs: RegFile { b: c.mem.read((c.regs.sp + 1) as u16), c: c.mem.read(c.regs.sp), sp: ((c.regs.sp + 2) % 65536) as u16, ..c.regs }, ..c }),
        execute_spec(c, 0xd1, op8, op16) == (CoreView { regs: RegFile { d: c.mem.read((c.regs.sp + 1) as u16), e: c.mem.read(c.regs.sp), sp: ((c.regs.sp + 2) % 65536) as u16, ..c.regs }, ..c }),
        execute_spec(c, 0xe1, op8, op16) == (CoreView { regs: RegFile { h: c.mem.read((c.regs.sp + 1) as u16), l: c.mem.read(c.regs.sp), sp: ((c.regs.sp + 2) % 65536) as u16, ..c.regs }, ..c }),
        execute_spec(c, 0xf1, op8, op16) == (CoreView { regs: RegFile { a: c.mem.read((c.regs.sp + 1) as u16), f: c.mem.read(c.regs.sp), sp: ((c.regs.sp + 2) % 65536) as u16, ..c.regs }, ..c }),
{
    lemma_flag_digits(c.regs.f);
}
} // verus!
