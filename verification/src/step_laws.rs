//! What one step of the interpreter reads after the opcode and where it
//! leaves PC.
use vstd::prelude::*;

use crate::cpu::{can_fetch, execute_defined, fetched, fetched_opcode, instruction_length, step_spec, CoreView};
use crate::registers::RegFile;

verus! {

/// The opcodes that set PC themselves: relative and absolute jumps, calls,
/// returns and restarts.
pub open spec fn branches(op: u16) -> bool {
    ||| op == 0x18 || op == 0x20 || op == 0x28 || op == 0x30 || op == 0x38
    ||| op == 0xc2 || op == 0xc3 || op == 0xca || op == 0xd2 || op == 0xda || op == 0xe9
    ||| op == 0xc4 || op == 0xcc || op == 0xcd || op == 0xd4 || op == 0xdc
    ||| op == 0xc0 || op == 0xc8 || op == 0xc9 || op == 0xd0 || op == 0xd8 || op == 0xd9
    ||| (0xc0 <= op < 0x100 && op % 8 == 7)
}

/// The flag-setting helpers of the table part leave PC.
proof fn lemma_helpers_keep_pc(c: CoreView)
    ensures
        forall|aop: crate::alu::AluOp, dst: crate::registers::Reg8, flags: crate::registers::FlagStatus, val: u8|
            dst != crate::registers::Reg8::F ==> #[trigger] crate::cpu::arith_imm_spec(c, aop, dst, flags, val).regs.pc
                == c.regs.pc,
        forall|flags: crate::registers::FlagStatus, src: crate::registers::Reg16|
            #[trigger] crate::cpu::add_hl_spec(c, flags, src).regs.pc == c.regs.pc,
        forall|flags: crate::registers::FlagStatus, offset: u8|
            #[trigger] crate::cpu::add_sp_signed_spec(c, flags, crate::registers::Reg16::SP, offset).regs.pc == c.regs.pc,
        forall|flags: crate::registers::FlagStatus, offset: u8|
            #[trigger] crate::cpu::add_sp_signed_spec(c, flags, crate::registers::Reg16::HL, offset).regs.pc == c.regs.pc,
{
    assert forall|aop: crate::alu::AluOp, dst: crate::registers::Reg8, flags: crate::registers::FlagStatus, val: u8|
        dst != crate::registers::Reg8::F implies #[trigger] crate::cpu::arith_imm_spec(c, aop, dst, flags, val).regs.pc
        == c.regs.pc by {
        crate::isa_alu_laws::lemma_arith_imm(c, aop, dst, flags, val);
    }
    assert forall|flags: crate::registers::FlagStatus, src: crate::registers::Reg16|
        #[trigger] crate::cpu::add_hl_spec(c, flags, src).regs.pc == c.regs.pc by {
        let hl = c.regs.get16(crate::registers::Reg16::HL);
        let (r, c1) = crate::cpu::add_u16_spec(c, hl, c.regs.get16(src), false);
        crate::isa_alu_laws::lemma_eval_flags_shape(c1.with_regs(c1.regs.set16(crate::registers::Reg16::HL, r)), flags);
    }
    assert forall|flags: crate::registers::FlagStatus, offset: u8|
        #[trigger] crate::cpu::add_sp_signed_spec(c, flags, crate::registers::Reg16::SP, offset).regs.pc == c.regs.pc by {
        let (r, c1) = crate::cpu::add_u16_spec(c, c.regs.sp, offset as u16, offset >= 128);
        crate::isa_alu_laws::lemma_eval_flags_shape(c1.with_regs(c1.regs.set16(crate::registers::Reg16::SP, r)), flags);
    }
    assert forall|flags: crate::registers::FlagStatus, offset: u8|
        #[trigger] crate::cpu::add_sp_signed_spec(c, flags, crate::registers::Reg16::HL, offset).regs.pc == c.regs.pc by {
        let (r, c1) = crate::cpu::add_u16_spec(c, c.regs.sp, offset as u16, offset >= 128);
        crate::isa_alu_laws::lemma_eval_flags_shape(c1.with_regs(c1.regs.set16(crate::registers::Reg16::HL, r)), flags);
    }
}

/// The table part's instructions that do not branch leave PC.
#[verifier::rlimit(100)]
#[verifier::spinoff_prover]
proof fn lemma_table_keeps_pc(c: CoreView, op: u8, op8: u8, op16: u16)
    requires
        op < 0x40 || op >= 0xc0,
        !branches(op as u16),
    ensures
        crate::cpu::execute_spec(c, op as u16, op8, op16).regs.pc == c.regs.pc,
{
    lemma_helpers_keep_pc(c);
    assert(crate::cpu::execute_spec(c, op as u16, op8, op16) == crate::cpu::irregular_spec(c, op, op8, op16));
}

/// Every instruction of the table part that does not branch leaves PC just
/// past itself: past its opcode and all its operand bytes.
#[verifier::rlimit(100)]
#[verifier::spinoff_prover]
pub proof fn law_table_step_advances_pc(c: CoreView)
    requires
        !c.quit,
        can_fetch(c),
        fetched_opcode(c) < 0x40 || (0xc0 <= fetched_opcode(c) < 0x100),
        !branches(fetched_opcode(c)),
    ensures
        step_spec(c).regs.pc == c.regs.pc + instruction_length(fetched_opcode(c)),
{
    let f = fetched(c);
    let op = fetched_opcode(c);
    assert(f.regs.pc == c.regs.pc + instruction_length(op));
    lemma_table_keeps_pc(f, op as u8, crate::cpu::fetched_operand8(c), crate::cpu::fetched_operand16(c));
}

/// A step reads its operands from the bytes after the opcode: LD B,d8 loads
/// the first, LD BC,d16 the word of the next two (low byte first), JP a16 and
/// CALL a16 go to that word, CALL pushing the address after its three bytes,
/// and CP d8 leaves A and moves PC past its two bytes.
#[verifier::rlimit(100)]
pub proof fn law_step_reads_operands(c: CoreView)
    requires
        !c.quit,
        can_fetch(c),
        crate::cpu::step_defined(c),
    ensures
        ({
            let pc = c.regs.pc;
            let b0 = c.mem.read(pc);
            let b1 = c.mem.read((pc + 1) as u16);
            let b2 = c.mem.read((pc + 2) as u16);
            let n = step_spec(c);
            &&& b0 == 0x06 ==> n.regs == RegFile { b: b1, pc: (pc + 2) as u16, ..c.regs }
            &&& b0 == 0x01 ==> n.regs == RegFile { b: b2, c: b1, pc: (pc + 3) as u16, ..c.regs }
            &&& b0 == 0xfe ==> n.regs.a == c.regs.a && n.regs.pc == pc + 2
            &&& b0 == 0xc3 ==> n.regs.pc == b1 + 256 * b2
            &&& b0 == 0xcd ==> n.regs.pc == b1 + 256 * b2 && n.mem.read(n.regs.sp) == (pc + 3) % 256
                && n.regs.sp == (c.regs.sp - 2) % 65536
        }),
{
    let pc = c.regs.pc;
    let b0 = c.mem.read(pc);
    let f = fetched(c);
    if b0 == 0xfe {
        crate::isa_alu_laws::law_alu_instructions(f, 0xfe, crate::cpu::fetched_operand8(c), crate::cpu::fetched_operand16(c));
    } else if b0 == 0xcd {
        let s = ((f.regs.sp - 2) % 65536) as u16;
        assert(s != ((s + 1) as u16));
        assert(step_spec(c).mem.read(s) == (f.regs.pc % 256) as u8);
    }
}

/// `process` on a program that has not ended runs exactly one step of the
/// interpreter and reports it: the address and opcode of the instruction, a
/// breakpoint exactly when that address is one or single-stepping is on, and
/// whether the program runs on. A reported breakpoint switches single-stepping
/// off; the breakpoints and the display unit stay as they were. Once the
/// program has ended, `process` changes nothing and reports no step.
pub proof fn law_process_reports(v: crate::cpu::CpuView)
    ensures
        ({
            let (w, s) = crate::cpu::process_result(v);
            let pc = v.core.regs.pc;
            &&& w.breaks == v.breaks && w.ppu == v.ppu
            &&& !v.core.quit ==> {
                &&& w.core == step_spec(v.core)
                &&& s.executed && s.pc == pc && s.opcode == fetched_opcode(v.core)
                &&& s.breakpoint == (v.breaks.contains(pc) || v.step)
                &&& s.running == !step_spec(v.core).quit
                &&& w.step == (v.step && !s.breakpoint)
            }
            &&& v.core.quit ==> w == v && !s.executed && !s.running && !s.breakpoint
        }),
{
}

} // verus!
