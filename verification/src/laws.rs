//! Properties that relate several operations of the emulator.
use vstd::prelude::*;

use crate::alu::{self, AluOp};
use crate::cpu::{
    call_spec, can_fetch, execute_spec, fetched, fetched_opcode, instruction_length, irregular_spec,
    pop_spec, process_result, push_spec, ret_spec, step_spec, CoreView, CpuView,
};
use crate::lookup;
use crate::memory::MemView;
use crate::ppu;
use crate::registers::{Flag, FlagMod, FlagStatus, Reg16, Reg8, RegFile};
use crate::video::{self, DisplayState, DisplayView};

verus! {

/// Reading an 8-bit register gives back what was written to it, and writing
/// it leaves every other 8-bit register as it was.
pub proof fn law_reg8_write_read(r: RegFile, dst: Reg8, other: Reg8, v: u8)
    ensures
        r.set8(dst, v).get8(dst) == v,
        other != dst ==> r.set8(dst, v).get8(other) == r.get8(other),
{
}

/// Reading a 16-bit register gives back what was written to it; writing a
/// pair writes its two halves, high byte first.
pub proof fn law_reg16_write_read(r: RegFile, dst: Reg16, v: u16)
    ensures
        r.set16(dst, v).get16(dst) == v,
        dst == Reg16::BC ==> r.set16(dst, v).b == v / 256 && r.set16(dst, v).c == v % 256,
        dst == Reg16::HL ==> r.set16(dst, v).h == v / 256 && r.set16(dst, v).l == v % 256,
{
}

/// A flag reads back as it was set, and setting it leaves the other flags.
pub proof fn law_flag_write_read(r: RegFile, f: Flag, other: Flag, v: bool)
    ensures
        r.set_flag(f, v).flag(f) == v,
        other != f ==> r.set_flag(f, v).flag(other) == r.flag(other),
{
    crate::util::lemma_with_bit(r.f, crate::registers::flag_bit(f), v);
}

/// A memory read gives back the last value written to the address, and a
/// write leaves every other address as it was.
pub proof fn law_memory_write_read(m: MemView, addr: u16, other: u16, v: u8)
    requires
        m.readable(addr),
        m.readable(other),
    ensures
        m.write(addr, v).read(addr) == v,
        other != addr ==> m.write(addr, v).read(other) == m.read(other),
        m.write(addr, v).same_shape(m),
{
}

/// Popping right after pushing gives back the pushed value and SP.
pub proof fn law_push_then_pop(c: CoreView, src: Reg16, dst: Reg16)
    requires
        crate::cpu::can_push(c),
        src != Reg16::SP,
        dst != Reg16::SP,
    ensures
        pop_spec(push_spec(c, src), dst).regs.get16(dst) == c.regs.get16(src),
        pop_spec(push_spec(c, src), dst).regs.sp == c.regs.sp,
{
    let p = push_spec(c, src);
    let sp = p.regs.sp;
    let v = c.regs.get16(src);
    assert(p.regs.get16(src) == v);
    assert(p.mem.read(sp) == (v % 256) as u8);
    assert(p.mem.read((sp + 1) as u16) == (v / 256) as u8);
    crate::util::lemma_join_split_roundtrip((v % 256) as u8, (v / 256) as u8, v);
}

/// A return right after a call comes back to the instruction after the
/// call, with SP as before.
pub proof fn law_call_then_ret(c: CoreView, addr: u16)
    requires
        crate::cpu::can_push(c),
    ensures
        ret_spec(call_spec(c, addr), false).regs.pc == c.regs.pc,
        ret_spec(call_spec(c, addr), false).regs.sp == c.regs.sp,
{
    law_push_then_pop(c, Reg16::PC, Reg16::PC);
}

/// Once the program has ended it stays ended: no instruction resumes it,
/// and a further step changes nothing.
pub proof fn law_quit_is_final(c: CoreView, opcode: u16, op8: u8, op16: u16)
    requires
        c.quit,
    ensures
        execute_spec(c, opcode, op8, op16).quit,
        step_spec(c) == c,
{
    if 0x40 <= opcode < 0xc0 || 0xcb00 <= opcode <= 0xcbff {
        lemma_regular_keeps_quit(c, opcode, op8, op16);
    } else if opcode < 0x100 {
        lemma_table_keeps_quit(c, opcode as u8, op8, op16);
        assert(execute_spec(c, opcode, op8, op16) == irregular_spec(c, opcode as u8, op8, op16));
    }
}

/// The loads, the ALU block and the 0xCB set never clear `quit`.
proof fn lemma_regular_keeps_quit(c: CoreView, opcode: u16, op8: u8, op16: u16)
    requires
        c.quit,
        0x40 <= opcode < 0xc0 || 0xcb00 <= opcode <= 0xcbff,
    ensures
        execute_spec(c, opcode, op8, op16).quit,
{
    let hl = c.regs.get16(Reg16::HL);
    let flags = lookup::flags_spec(opcode);
    if opcode < 0x80 {
    } else if opcode < 0xc0 {
        let r = (opcode % 8) as int;
        let val = if r == 6 { c.mem.read(hl) } else { c.regs.get8(crate::cpu::reg_of(r)) };
        lemma_arith_keeps_quit(c, crate::cpu::arith_op_of(((opcode / 8) % 8) as int), Reg8::A, flags, val);
    } else {
        let lo = (opcode - 0xcb00) as int;
        let op = crate::cpu::cb_op_of(lo);
        lemma_arith_keeps_quit(c, op, crate::cpu::reg_of(lo % 8), flags, 0);
        lemma_alu_keeps_quit(c, op, c.mem.read(hl), 0);
        lemma_eval_flags_keeps_quit(crate::cpu::alu_spec(c, op, c.mem.read(hl), 0).1, flags);
    }
}

/// The ALU leaves `quit` and memory as they are.
proof fn lemma_alu_keeps_quit(c: CoreView, op: AluOp, a: u8, b: u8)
    ensures
        crate::cpu::alu_spec(c, op, a, b).1.quit == c.quit,
        crate::cpu::alu_spec(c, op, a, b).1.mem == c.mem,
{
}

/// Applying flag modifiers leaves `quit` as it is.
proof fn lemma_eval_flags_keeps_quit(c: CoreView, flags: FlagStatus)
    ensures
        crate::cpu::eval_flags_spec(c, flags).quit == c.quit,
{
}

/// An ALU operation on a register leaves `quit` as it is.
proof fn lemma_arith_keeps_quit(c: CoreView, op: AluOp, dst: Reg8, flags: FlagStatus, val: u8)
    ensures
        crate::cpu::arith_imm_spec(c, op, dst, flags, val).quit == c.quit,
{
    lemma_alu_keeps_quit(c, op, c.regs.get8(dst), val);
    let (r, c1) = crate::cpu::alu_spec(c, op, c.regs.get8(dst), val);
    lemma_eval_flags_keeps_quit(c1.with_regs(c1.regs.set8(dst, r)), flags);
}

/// The table part of the instruction set never clears `quit`.
proof fn lemma_table_keeps_quit(c: CoreView, opcode: u8, op8: u8, op16: u16)
    requires
        c.quit,
    ensures
        irregular_spec(c, opcode, op8, op16).quit,
{
    if opcode < 0x10 {
        assert(irregular_spec(c, opcode, op8, op16).quit);
    } else if opcode < 0x20 {
        assert(irregular_spec(c, opcode, op8, op16).quit);
    } else if opcode < 0x30 {
        assert(irregular_spec(c, opcode, op8, op16).quit);
    } else if opcode < 0x40 {
        assert(irregular_spec(c, opcode, op8, op16).quit);
    } else if opcode < 0xc0 {
    } else if opcode < 0xd0 {
        assert(irregular_spec(c, opcode, op8, op16).quit);
    } else if opcode < 0xe0 {
        assert(irregular_spec(c, opcode, op8, op16).quit);
    } else if opcode < 0xf0 {
        assert(irregular_spec(c, opcode, op8, op16).quit);
    } else {
        assert(irregular_spec(c, opcode, op8, op16).quit);
    }
}

/// After the program ended, `process` reports that it is not running and
/// leaves the processor unchanged.
pub proof fn law_process_after_quit(v: CpuView)
    requires
        v.core.quit,
    ensures
        process_result(v).0 == v,
        !process_result(v).1.running,
        !process_result(v).1.executed,
{
}

/// No instruction evaluates the N flag: it is set, cleared or left alone.
pub proof fn law_n_flag_never_evaluated(opcode: u16)
    ensures
        lookup::flags_spec(opcode).n != FlagMod::Eval,
{
}

/// Closing the window ends the application, and once it has ended the
/// display unit stays ended whatever happens.
pub proof fn law_display_quit_is_final(v: DisplayView, mem: MemView, window_open: bool)
    ensures
        !window_open ==> video::tick_result(v, mem, window_open).0.state == DisplayState::Quit,
        v.state == DisplayState::Quit ==> video::tick_result(v, mem, window_open).0.state
            == DisplayState::Quit,
{
}

/// Reading a register back from the value the PPU writes for it gives the
/// configuration it was written from.
#[verifier::spinoff_prover]
#[verifier::rlimit(40)]
pub proof fn law_ppu_register_roundtrip(cfg: ppu::PPUConfig, r: ppu::PPUReg)
    ensures
        ppu::pulled(cfg, r, ppu::encoded(cfg, r)) == cfg,
{
    match r {
        ppu::PPUReg::Lcdc => lemma_lcdc_roundtrip(cfg),
        ppu::PPUReg::Stat => lemma_stat_roundtrip(cfg),
        ppu::PPUReg::Scy => {},
        ppu::PPUReg::Scx => {},
        ppu::PPUReg::Ly => {},
        ppu::PPUReg::Lyc => {},
        ppu::PPUReg::Dma => {},
        ppu::PPUReg::Bgp => {},
        ppu::PPUReg::Obp0 => {},
        ppu::PPUReg::Obp1 => {},
        ppu::PPUReg::Wy => {},
        ppu::PPUReg::Wx => {},
        ppu::PPUReg::Vbk => {},
    }
}

/// LCDC reads back as the PPU wrote it.
proof fn lemma_lcdc_roundtrip(cfg: ppu::PPUConfig)
    ensures
        ppu::pulled(cfg, ppu::PPUReg::Lcdc, ppu::encoded(cfg, ppu::PPUReg::Lcdc)) == cfg,
{
    lemma_byte_bits(
        cfg.lcd_enabled,
        cfg.win_map_high_bank,
        cfg.win_en,
        cfg.bg_data_low_bank,
        cfg.bg_map_high_bank,
        cfg.tall_objs,
        cfg.obj_en,
        cfg.bg_priority,
    );
}

/// STAT reads back as the PPU wrote it.
proof fn lemma_stat_roundtrip(cfg: ppu::PPUConfig)
    ensures
        ppu::pulled(cfg, ppu::PPUReg::Stat, ppu::encoded(cfg, ppu::PPUReg::Stat)) == cfg,
{
    let low = if cfg.lcd_enabled { ppu::state_bits(cfg.state) } else { 0 };
    lemma_byte_bits(
        true,
        cfg.ly_eq_lyc_intr,
        cfg.oam_intr,
        cfg.vblank_intr,
        cfg.hblank_intr,
        cfg.ly_eq_lyc,
        low >= 2,
        low % 2 == 1,
    );
}

/// The bits of a byte made of eight flags, bit 7 first.
proof fn lemma_byte_bits(b7: bool, b6: bool, b5: bool, b4: bool, b3: bool, b2: bool, b1: bool, b0: bool)
    ensures
        ({
            let v = ((if b7 { 128int } else { 0 }) + (if b6 { 64int } else { 0 }) + (if b5 { 32int } else { 0 })
                + (if b4 { 16int } else { 0 }) + (if b3 { 8int } else { 0 }) + (if b2 { 4int } else { 0 }) + (
            if b1 { 2int } else { 0 }) + (if b0 { 1int } else { 0 })) as u8;
            &&& (v & 0x80 != 0) == b7
            &&& (v & 0x40 != 0) == b6
            &&& (v & 0x20 != 0) == b5
            &&& (v & 0x10 != 0) == b4
            &&& (v & 0x08 != 0) == b3
            &&& (v & 0x04 != 0) == b2
            &&& (v & 0x02 != 0) == b1
            &&& (v & 0x01 != 0) == b0
        }),
{
    let v7: u8 = if b7 { 1 } else { 0 };
    let v6: u8 = if b6 { 1 } else { 0 };
    let v5: u8 = if b5 { 1 } else { 0 };
    let v4: u8 = if b4 { 1 } else { 0 };
    let v3: u8 = if b3 { 1 } else { 0 };
    let v2: u8 = if b2 { 1 } else { 0 };
    let v1: u8 = if b1 { 1 } else { 0 };
    let v0: u8 = if b0 { 1 } else { 0 };
    assert({
        let v = (v7 * 128 + v6 * 64 + v5 * 32 + v4 * 16 + v3 * 8 + v2 * 4 + v1 * 2 + v0) as u8;
        &&& (v & 0x80 != 0) == (v7 == 1)
        &&& (v & 0x40 != 0) == (v6 == 1)
        &&& (v & 0x20 != 0) == (v5 == 1)
        &&& (v & 0x10 != 0) == (v4 == 1)
        &&& (v & 0x08 != 0) == (v3 == 1)
        &&& (v & 0x04 != 0) == (v2 == 1)
        &&& (v & 0x02 != 0) == (v1 == 1)
        &&& (v & 0x01 != 0) == (v0 == 1)
    }) by (bit_vector)
        requires
            v7 <= 1,
            v6 <= 1,
            v5 <= 1,
            v4 <= 1,
            v3 <= 1,
            v2 <= 1,
            v1 <= 1,
            v0 <= 1,
    ;
}

/// Writing back the changed registers leaves memory at each register address
/// holding the cached value if it changed, and what it held before if not.
proof fn lemma_pushed_reads(mem: MemView, cache: Seq<u8>, dirty: Seq<bool>, n: nat, i: int)
    requires
        video::display_memory(mem),
        0 <= i < video::NUM_DISPLAY_REGS,
        n <= video::NUM_DISPLAY_REGS,
        cache.len() == video::NUM_DISPLAY_REGS,
        dirty.len() == video::NUM_DISPLAY_REGS,
    ensures
        video::push_upto(mem, cache, dirty, n).read(video::reg_addr(i)) == if i < n && dirty[i] {
            cache[i]
        } else {
            mem.read(video::reg_addr(i))
        },
    decreases n,
{
    if n > 0 {
        lemma_pushed_len(mem, cache, dirty, (n - 1) as nat);
        lemma_pushed_reads(mem, cache, dirty, (n - 1) as nat, i);
    }
}

/// Writing back the display registers keeps the size of work memory.
proof fn lemma_pushed_len(mem: MemView, cache: Seq<u8>, dirty: Seq<bool>, n: nat)
    requires
        video::display_memory(mem),
        n <= video::NUM_DISPLAY_REGS,
    ensures
        video::push_upto(mem, cache, dirty, n).ram.len() == mem.ram.len(),
    decreases n,
{
    if n > 0 {
        lemma_pushed_len(mem, cache, dirty, (n - 1) as nat);
    }
}

/// A new display unit leaves LCDC = 0x91, BGP = 0xFC and OBP0 = OBP1 = 0xFF
/// in memory, and every other display register as it was.
pub proof fn law_display_new_sets_registers(mem: MemView)
    requires
        video::display_memory(mem),
    ensures
        ({
            let m = video::initial_display(mem).pushed(mem);
            &&& m.read(0xff40) == 0x91
            &&& m.read(0xff47) == 0xfc
            &&& m.read(0xff48) == 0xff
            &&& m.read(0xff49) == 0xff
            &&& forall|i: int|
                0 <= i < video::NUM_DISPLAY_REGS && i != 0 && i != 7 && i != 8 && i != 9 ==> #[trigger] m.read(
                    video::reg_addr(i),
                ) == mem.read(video::reg_addr(i))
        }),
{
    let d = video::initial_display(mem);
    assert forall|i: int| 0 <= i < video::NUM_DISPLAY_REGS implies #[trigger] d.pushed(mem).read(
        video::reg_addr(i),
    ) == d.cache[i] by {
        lemma_pushed_reads(mem, d.cache, d.dirty, video::NUM_DISPLAY_REGS as nat, i);
    }
    assert(d.pushed(mem).read(video::reg_addr(0)) == 0x91);
    assert(d.pushed(mem).read(video::reg_addr(7)) == 0xfc);
    assert(d.pushed(mem).read(video::reg_addr(8)) == 0xff);
    assert(d.pushed(mem).read(video::reg_addr(9)) == 0xff);
}

/// Loads between registers and (HL), the ALU block and the 0xCB set move PC
/// just past the instruction.
pub proof fn law_regular_step_advances_pc(c: CoreView)
    requires
        !c.quit,
        can_fetch(c),
        fetched_opcode(c) != 0x76,
        0x40 <= fetched_opcode(c) < 0xc0 || 0xcb00 <= fetched_opcode(c) <= 0xcbff,
    ensures
        step_spec(c).regs.pc == c.regs.pc + instruction_length(fetched_opcode(c)),
{
    let f = fetched(c);
    let opcode = fetched_opcode(c);
    let hl = f.regs.get16(Reg16::HL);
    let flags = lookup::flags_spec(opcode);
    if opcode < 0x80 {
    } else if opcode < 0xc0 {
        let r = (opcode % 8) as int;
        let val = if r == 6 { f.mem.read(hl) } else { f.regs.get8(crate::cpu::reg_of(r)) };
        lemma_arith_keeps_pc(f, crate::cpu::arith_op_of(((opcode / 8) % 8) as int), Reg8::A, flags, val);
    } else {
        let lo = (opcode - 0xcb00) as int;
        let op = crate::cpu::cb_op_of(lo);
        lemma_arith_keeps_pc(f, op, crate::cpu::reg_of(lo % 8), flags, 0);
        lemma_alu_keeps_quit(f, op, f.mem.read(hl), 0);
        lemma_eval_flags_keeps_pc(crate::cpu::alu_spec(f, op, f.mem.read(hl), 0).1, flags);
    }
}

/// Applying flag modifiers leaves PC as it is.
proof fn lemma_eval_flags_keeps_pc(c: CoreView, flags: FlagStatus)
    ensures
        crate::cpu::eval_flags_spec(c, flags).regs.pc == c.regs.pc,
{
}

/// An ALU operation on a register other than F leaves PC as it is.
proof fn lemma_arith_keeps_pc(c: CoreView, op: AluOp, dst: Reg8, flags: FlagStatus, val: u8)
    requires
        dst != Reg8::F,
    ensures
        crate::cpu::arith_imm_spec(c, op, dst, flags, val).regs.pc == c.regs.pc,
{
    let (r, c1) = crate::cpu::alu_spec(c, op, c.regs.get8(dst), val);
    lemma_alu_keeps_regs(c, op, c.regs.get8(dst), val);
    lemma_eval_flags_keeps_pc(c1.with_regs(c1.regs.set8(dst, r)), flags);
}

/// The ALU leaves the registers as they are.
proof fn lemma_alu_keeps_regs(c: CoreView, op: AluOp, a: u8, b: u8)
    ensures
        crate::cpu::alu_spec(c, op, a, b).1.regs == c.regs,
{
}

/// A comparison sets the flags that a subtraction would, and keeps the operand.
pub proof fn law_compare_is_subtraction_kept(a: u8, b: u8, flag_h: bool, flag_cy: bool)
    ensures
        alu::alu_result(AluOp::Comp, a, b, flag_cy) == a,
        alu::alu_zero(AluOp::Comp, a, b, flag_cy) == alu::alu_zero(AluOp::Sub(false), a, b, flag_cy),
        alu::alu_half(AluOp::Comp, a, b, flag_h, flag_cy) == alu::alu_half(AluOp::Sub(false), a, b, flag_h, flag_cy),
        alu::alu_carry(AluOp::Comp, a, b, flag_cy) == alu::alu_carry(AluOp::Sub(false), a, b, flag_cy),
{
}

/// Subtracting what was added gives the byte back, on 8 and on 16 bits.
pub proof fn law_subtract_undoes_add(a: u8, b: u8, flag_cy: bool, w: u16, v: u16)
    ensures
        alu::alu_result(AluOp::Sub(false), alu::alu_result(AluOp::Add(false), a, b, flag_cy), b, flag_cy) == a,
        alu::alu16_result(true, alu::alu16_result(false, w, v), v) == w,
{
}

/// The opcodes without an instruction can never be executed.
pub proof fn law_invalid_opcodes_never_run(c: CoreView, opcode: u16, op8: u8, op16: u16)
    requires
        crate::cpu::invalid_opcode(opcode),
    ensures
        !crate::cpu::execute_defined(c, opcode, op8, op16),
{
}

/// Once the PPU has ended it stays ended, and a closed window ends it.
pub proof fn law_ppu_end_is_final(p: ppu::PPUView, mem: MemView, window_open: bool)
    ensures
        !p.alive ==> !ppu::tick_result(p, mem, window_open).0.alive,
        !window_open ==> !ppu::tick_result(p, mem, window_open).0.alive,
{
}

/// Writing back the display registers leaves every other address alone.
proof fn lemma_pushed_frame(mem: MemView, cache: Seq<u8>, dirty: Seq<bool>, n: nat, addr: u16)
    requires
        video::display_memory(mem),
        mem.readable(addr),
        n <= video::NUM_DISPLAY_REGS,
        forall|i: int| 0 <= i < video::NUM_DISPLAY_REGS ==> addr != #[trigger] video::reg_addr(i),
    ensures
        video::push_upto(mem, cache, dirty, n).read(addr) == mem.read(addr),
    decreases n,
{
    if n > 0 {
        lemma_pushed_frame(mem, cache, dirty, (n - 1) as nat, addr);
        lemma_pushed_len(mem, cache, dirty, (n - 1) as nat);
        assert(addr != video::reg_addr(n - 1));
    }
}

/// A tick of the display unit changes no address but its registers'.
pub proof fn law_display_tick_touches_only_registers(v: DisplayView, mem: MemView, window_open: bool, addr: u16)
    requires
        video::display_memory(mem),
        mem.readable(addr),
        !(0xff40 <= addr <= 0xff4b),
        addr != 0xff4f,
    ensures
        video::tick_result(v, mem, window_open).1.read(addr) == mem.read(addr),
{
    let t = video::tick_result(v, mem, window_open).0;
    assert forall|i: int| 0 <= i < video::NUM_DISPLAY_REGS implies addr != #[trigger] video::reg_addr(i) by {}
    lemma_pushed_frame(mem, t.cache, t.dirty, video::NUM_DISPLAY_REGS as nat, addr);
}

/// PUSH BC followed by POP DE, run by `process`: both steps keep the program
/// running, DE receives BC, SP and BC are as before, PC is two bytes on, and
/// the stack holds BC, low byte first, just below SP.
pub proof fn law_process_push_then_pop(v: CpuView)
    requires
        !v.core.quit,
        v.core.regs.pc <= 0xfffc,
        v.core.mem.readable(v.core.regs.pc),
        v.core.mem.readable((v.core.regs.pc + 1) as u16),
        v.core.mem.readable((v.core.regs.pc + 2) as u16),
        v.core.mem.readable((v.core.regs.pc + 3) as u16),
        v.core.mem.read(v.core.regs.pc) == 0xc5,
        v.core.mem.read((v.core.regs.pc + 1) as u16) == 0xd1,
        crate::cpu::can_push(v.core),
        // The pushed word does not overwrite the bytes that the POP is fetched from.
        crate::cpu::add16(v.core.regs.sp, -2) + 1 < v.core.regs.pc + 1 || crate::cpu::add16(v.core.regs.sp, -2)
            > v.core.regs.pc + 3,
    ensures
        ({
            let c = v.core;
            let (v1, s1) = process_result(v);
            let (v2, s2) = process_result(v1);
            let below = crate::cpu::add16(c.regs.sp, -2);
            let bc = c.regs.get16(Reg16::BC);
            &&& crate::cpu::step_defined(c)
            &&& crate::cpu::step_defined(v1.core)
            &&& s1.running && s2.running
            &&& v2.core.regs.get16(Reg16::DE) == bc
            &&& v2.core.regs.get16(Reg16::BC) == bc
            &&& v2.core.regs.sp == c.regs.sp
            &&& v2.core.regs.pc == c.regs.pc + 2
            &&& v2.core.mem.read(below) == (bc % 256) as u8
            &&& v2.core.mem.read((below + 1) as u16) == (bc / 256) as u8
        }),
{
    let c = v.core;
    let pc = c.regs.pc;
    assert(fetched_opcode(c) == 0xc5);
    assert(instruction_length(0xc5) == 1);
    let f = fetched(c);
    assert(f.regs.pc == pc + 1);
    assert(crate::cpu::execute_spec(f, 0xc5, crate::cpu::fetched_operand8(c), crate::cpu::fetched_operand16(c))
        == push_spec(f, Reg16::BC));
    let c1 = step_spec(c);
    assert(c1 == push_spec(f, Reg16::BC));
    assert(c1.mem.same_shape(c.mem));
    assert(c1.mem.read((pc + 1) as u16) == 0xd1);
    assert(c1.mem.read((pc + 2) as u16) == c.mem.read((pc + 2) as u16));
    assert(c1.mem.read((pc + 3) as u16) == c.mem.read((pc + 3) as u16));
    assert(fetched_opcode(c1) == 0xd1);
    assert(instruction_length(0xd1) == 1);
    let f1 = fetched(c1);
    assert(crate::cpu::execute_spec(f1, 0xd1, crate::cpu::fetched_operand8(c1), crate::cpu::fetched_operand16(c1))
        == pop_spec(f1, Reg16::DE));
    law_push_then_pop(f, Reg16::BC, Reg16::DE);
}

/// CALL a16 to a RET, run by `process`: both steps keep the program running,
/// and afterwards PC is just past the CALL while SP and every other register
/// are as before.
pub proof fn law_process_call_then_ret(v: CpuView)
    requires
        !v.core.quit,
        v.core.regs.pc <= 0xfffc,
        v.core.mem.readable(v.core.regs.pc),
        v.core.mem.readable((v.core.regs.pc + 1) as u16),
        v.core.mem.readable((v.core.regs.pc + 2) as u16),
        v.core.mem.read(v.core.regs.pc) == 0xcd,
        v.core.read16((v.core.regs.pc + 1) as u16) <= 0xfffd,
        v.core.mem.readable(v.core.read16((v.core.regs.pc + 1) as u16)),
        v.core.mem.readable((v.core.read16((v.core.regs.pc + 1) as u16) + 1) as u16),
        v.core.mem.readable((v.core.read16((v.core.regs.pc + 1) as u16) + 2) as u16),
        v.core.mem.read(v.core.read16((v.core.regs.pc + 1) as u16)) == 0xc9,
        crate::cpu::can_push(v.core),
        // The pushed return address does not overwrite the bytes that the RET is fetched from.
        crate::cpu::add16(v.core.regs.sp, -2) + 1 < v.core.read16((v.core.regs.pc + 1) as u16)
            || crate::cpu::add16(v.core.regs.sp, -2) > v.core.read16((v.core.regs.pc + 1) as u16) + 2,
    ensures
        ({
            let c = v.core;
            let (v1, s1) = process_result(v);
            let (v2, s2) = process_result(v1);
            &&& crate::cpu::step_defined(c)
            &&& crate::cpu::step_defined(v1.core)
            &&& s1.running && s2.running
            &&& v1.core.regs.pc == c.read16((c.regs.pc + 1) as u16)
            &&& v2.core.regs == c.regs.set16(Reg16::PC, (c.regs.pc + 3) as u16)
            &&& v2.core.ir_enabled == c.ir_enabled
        }),
{
    let c = v.core;
    let pc = c.regs.pc;
    let t = c.read16((pc + 1) as u16);
    assert(fetched_opcode(c) == 0xcd);
    assert(instruction_length(0xcd) == 3);
    let f = fetched(c);
    assert(f.regs.pc == pc + 3);
    assert(crate::cpu::fetched_operand16(c) == t);
    assert(crate::cpu::execute_spec(f, 0xcd, crate::cpu::fetched_operand8(c), t) == call_spec(f, t));
    let c1 = step_spec(c);
    assert(c1 == call_spec(f, t));
    assert(c1.regs.pc == t);
    assert(c1.mem.same_shape(c.mem));
    assert(c1.mem.read(t) == 0xc9);
    assert(c1.mem.read((t + 1) as u16) == c.mem.read((t + 1) as u16));
    assert(c1.mem.read((t + 2) as u16) == c.mem.read((t + 2) as u16));
    assert(fetched_opcode(c1) == 0xc9);
    assert(instruction_length(0xc9) == 1);
    let f1 = fetched(c1);
    assert(crate::cpu::execute_spec(f1, 0xc9, crate::cpu::fetched_operand8(c1), crate::cpu::fetched_operand16(c1))
        == ret_spec(f1, false));
    law_push_then_pop(f, Reg16::PC, Reg16::PC);
    assert(step_spec(c1).regs =~= c.regs.set16(Reg16::PC, (pc + 3) as u16));
}

/// What the PPU's configuration is after reading all its registers from
/// memory: every register field decoded from its byte, the rest kept.
pub open spec fn decoded(cfg: ppu::PPUConfig, mem: MemView) -> ppu::PPUConfig {
    let lcdc = mem.read(0xff40);
    let stat = mem.read(0xff41);
    ppu::PPUConfig {
        lcd_enabled: lcdc & 0x80 != 0,
        win_map_high_bank: lcdc & 0x40 != 0,
        win_en: lcdc & 0x20 != 0,
        bg_data_low_bank: lcdc & 0x10 != 0,
        bg_map_high_bank: lcdc & 0x08 != 0,
        tall_objs: lcdc & 0x04 != 0,
        obj_en: lcdc & 0x02 != 0,
        bg_priority: lcdc & 0x01 != 0,
        ly_eq_lyc_intr: stat & 0x40 != 0,
        oam_intr: stat & 0x20 != 0,
        vblank_intr: stat & 0x10 != 0,
        hblank_intr: stat & 0x08 != 0,
        scy: mem.read(0xff42),
        scx: mem.read(0xff43),
        ly: mem.read(0xff44),
        lyc: mem.read(0xff45),
        dma: mem.read(0xff46),
        bgp: mem.read(0xff47),
        obp0: mem.read(0xff48),
        obp1: mem.read(0xff49),
        wy: mem.read(0xff4a),
        wx: mem.read(0xff4b),
        vbk_enable: mem.read(0xff4f) == 1,
        ..cfg
    }
}

/// Reading all the PPU registers from memory gives `decoded`.
#[verifier::spinoff_prover]
#[verifier::rlimit(100)]
pub proof fn lemma_pull_all_decodes(cfg: ppu::PPUConfig, mem: MemView)
    ensures
        ppu::pull_all(cfg, ppu::all_regs(), mem) == decoded(cfg, mem),
{
    let s = ppu::all_regs();
    assert(s.take(1).drop_last() =~= s.take(0));
    assert(s.take(1).last() == s[0]);
    assert(s.take(2).drop_last() =~= s.take(1));
    assert(s.take(2).last() == s[1]);
    assert(s.take(3).drop_last() =~= s.take(2));
    assert(s.take(3).last() == s[2]);
    assert(s.take(4).drop_last() =~= s.take(3));
    assert(s.take(4).last() == s[3]);
    assert(s.take(5).drop_last() =~= s.take(4));
    assert(s.take(5).last() == s[4]);
    assert(s.take(6).drop_last() =~= s.take(5));
    assert(s.take(6).last() == s[5]);
    assert(s.take(7).drop_last() =~= s.take(6));
    assert(s.take(7).last() == s[6]);
    assert(s.take(8).drop_last() =~= s.take(7));
    assert(s.take(8).last() == s[7]);
    assert(s.take(9).drop_last() =~= s.take(8));
    assert(s.take(9).last() == s[8]);
    assert(s.take(10).drop_last() =~= s.take(9));
    assert(s.take(10).last() == s[9]);
    assert(s.take(11).drop_last() =~= s.take(10));
    assert(s.take(11).last() == s[10]);
    assert(s.take(12).drop_last() =~= s.take(11));
    assert(s.take(12).last() == s[11]);
    assert(s.take(13).drop_last() =~= s.take(12));
    assert(s.take(13).last() == s[12]);
    assert(s.take(13) =~= s);
    let p1 = ppu::pulled(cfg, ppu::PPUReg::Lcdc, mem.read(0xff40));
    let p2 = ppu::pulled(p1, ppu::PPUReg::Stat, mem.read(0xff41));
    let p3 = ppu::pulled(p2, ppu::PPUReg::Scy, mem.read(0xff42));
    let p4 = ppu::pulled(p3, ppu::PPUReg::Scx, mem.read(0xff43));
    let p5 = ppu::pulled(p4, ppu::PPUReg::Ly, mem.read(0xff44));
    let p6 = ppu::pulled(p5, ppu::PPUReg::Lyc, mem.read(0xff45));
    let p7 = ppu::pulled(p6, ppu::PPUReg::Dma, mem.read(0xff46));
    let p8 = ppu::pulled(p7, ppu::PPUReg::Bgp, mem.read(0xff47));
    let p9 = ppu::pulled(p8, ppu::PPUReg::Obp0, mem.read(0xff48));
    let p10 = ppu::pulled(p9, ppu::PPUReg::Obp1, mem.read(0xff49));
    let p11 = ppu::pulled(p10, ppu::PPUReg::Wy, mem.read(0xff4a));
    let p12 = ppu::pulled(p11, ppu::PPUReg::Wx, mem.read(0xff4b));
    let p13 = ppu::pulled(p12, ppu::PPUReg::Vbk, mem.read(0xff4f));
    assert(ppu::pull_all(cfg, s.take(0), mem) == cfg);
    assert(ppu::pull_all(cfg, s.take(1), mem) == p1);
    assert(ppu::pull_all(cfg, s.take(2), mem) == p2);
    assert(ppu::pull_all(cfg, s.take(3), mem) == p3);
    assert(ppu::pull_all(cfg, s.take(4), mem) == p4);
    assert(ppu::pull_all(cfg, s.take(5), mem) == p5);
    assert(ppu::pull_all(cfg, s.take(6), mem) == p6);
    assert(ppu::pull_all(cfg, s.take(7), mem) == p7);
    assert(ppu::pull_all(cfg, s.take(8), mem) == p8);
    assert(ppu::pull_all(cfg, s.take(9), mem) == p9);
    assert(ppu::pull_all(cfg, s.take(10), mem) == p10);
    assert(ppu::pull_all(cfg, s.take(11), mem) == p11);
    assert(ppu::pull_all(cfg, s.take(12), mem) == p12);
    assert(ppu::pull_all(cfg, s.take(13), mem) == p13);
}

/// Writing all the PPU registers puts each register's encoded value at its
/// address and leaves every other address alone.
pub proof fn lemma_push_all_writes(mem: MemView, cfg: ppu::PPUConfig, other: u16)
    requires
        ppu::ppu_memory(mem),
        mem.readable(other),
        !(0xff40 <= other <= 0xff4b),
        other != 0xff4f,
    ensures
        ppu::push_all(mem, ppu::all_regs(), cfg).read(0xff40) == ppu::encoded(cfg, ppu::PPUReg::Lcdc),
        ppu::push_all(mem, ppu::all_regs(), cfg).read(0xff41) == ppu::encoded(cfg, ppu::PPUReg::Stat),
        ppu::push_all(mem, ppu::all_regs(), cfg).read(0xff42) == ppu::encoded(cfg, ppu::PPUReg::Scy),
        ppu::push_all(mem, ppu::all_regs(), cfg).read(0xff43) == ppu::encoded(cfg, ppu::PPUReg::Scx),
        ppu::push_all(mem, ppu::all_regs(), cfg).read(0xff44) == ppu::encoded(cfg, ppu::PPUReg::Ly),
        ppu::push_all(mem, ppu::all_regs(), cfg).read(0xff45) == ppu::encoded(cfg, ppu::PPUReg::Lyc),
        ppu::push_all(mem, ppu::all_regs(), cfg).read(0xff46) == ppu::encoded(cfg, ppu::PPUReg::Dma),
        ppu::push_all(mem, ppu::all_regs(), cfg).read(0xff47) == ppu::encoded(cfg, ppu::PPUReg::Bgp),
        ppu::push_all(mem, ppu::all_regs(), cfg).read(0xff48) == ppu::encoded(cfg, ppu::PPUReg::Obp0),
        ppu::push_all(mem, ppu::all_regs(), cfg).read(0xff49) == ppu::encoded(cfg, ppu::PPUReg::Obp1),
        ppu::push_all(mem, ppu::all_regs(), cfg).read(0xff4a) == ppu::encoded(cfg, ppu::PPUReg::Wy),
        ppu::push_all(mem, ppu::all_regs(), cfg).read(0xff4b) == ppu::encoded(cfg, ppu::PPUReg::Wx),
        ppu::push_all(mem, ppu::all_regs(), cfg).read(0xff4f) == ppu::encoded(cfg, ppu::PPUReg::Vbk),
        ppu::push_all(mem, ppu::all_regs(), cfg).read(other) == mem.read(other),
        ppu::push_all(mem, ppu::all_regs(), cfg).same_shape(mem),
{
    let s = ppu::all_regs();
    assert(s.take(1).drop_last() =~= s.take(0));
    assert(s.take(1).last() == s[0]);
    assert(s.take(2).drop_last() =~= s.take(1));
    assert(s.take(2).last() == s[1]);
    assert(s.take(3).drop_last() =~= s.take(2));
    assert(s.take(3).last() == s[2]);
    assert(s.take(4).drop_last() =~= s.take(3));
    assert(s.take(4).last() == s[3]);
    assert(s.take(5).drop_last() =~= s.take(4));
    assert(s.take(5).last() == s[4]);
    assert(s.take(6).drop_last() =~= s.take(5));
    assert(s.take(6).last() == s[5]);
    assert(s.take(7).drop_last() =~= s.take(6));
    assert(s.take(7).last() == s[6]);
    assert(s.take(8).drop_last() =~= s.take(7));
    assert(s.take(8).last() == s[7]);
    assert(s.take(9).drop_last() =~= s.take(8));
    assert(s.take(9).last() == s[8]);
    assert(s.take(10).drop_last() =~= s.take(9));
    assert(s.take(10).last() == s[9]);
    assert(s.take(11).drop_last() =~= s.take(10));
    assert(s.take(11).last() == s[10]);
    assert(s.take(12).drop_last() =~= s.take(11));
    assert(s.take(12).last() == s[11]);
    assert(s.take(13).drop_last() =~= s.take(12));
    assert(s.take(13).last() == s[12]);
    assert(s.take(13) =~= s);
    let m1 = mem.write(0xff40, ppu::encoded(cfg, ppu::PPUReg::Lcdc));
    let m2 = m1.write(0xff41, ppu::encoded(cfg, ppu::PPUReg::Stat));
    let m3 = m2.write(0xff42, ppu::encoded(cfg, ppu::PPUReg::Scy));
    let m4 = m3.write(0xff43, ppu::encoded(cfg, ppu::PPUReg::Scx));
    let m5 = m4.write(0xff44, ppu::encoded(cfg, ppu::PPUReg::Ly));
    let m6 = m5.write(0xff45, ppu::encoded(cfg, ppu::PPUReg::Lyc));
    let m7 = m6.write(0xff46, ppu::encoded(cfg, ppu::PPUReg::Dma));
    let m8 = m7.write(0xff47, ppu::encoded(cfg, ppu::PPUReg::Bgp));
    let m9 = m8.write(0xff48, ppu::encoded(cfg, ppu::PPUReg::Obp0));
    let m10 = m9.write(0xff49, ppu::encoded(cfg, ppu::PPUReg::Obp1));
    let m11 = m10.write(0xff4a, ppu::encoded(cfg, ppu::PPUReg::Wy));
    let m12 = m11.write(0xff4b, ppu::encoded(cfg, ppu::PPUReg::Wx));
    let m13 = m12.write(0xff4f, ppu::encoded(cfg, ppu::PPUReg::Vbk));
    assert(ppu::push_all(mem, s.take(0), cfg) == mem);
    assert(ppu::push_all(mem, s.take(1), cfg) == m1);
    assert(ppu::push_all(mem, s.take(2), cfg) == m2);
    assert(ppu::push_all(mem, s.take(3), cfg) == m3);
    assert(ppu::push_all(mem, s.take(4), cfg) == m4);
    assert(ppu::push_all(mem, s.take(5), cfg) == m5);
    assert(ppu::push_all(mem, s.take(6), cfg) == m6);
    assert(ppu::push_all(mem, s.take(7), cfg) == m7);
    assert(ppu::push_all(mem, s.take(8), cfg) == m8);
    assert(ppu::push_all(mem, s.take(9), cfg) == m9);
    assert(ppu::push_all(mem, s.take(10), cfg) == m10);
    assert(ppu::push_all(mem, s.take(11), cfg) == m11);
    assert(ppu::push_all(mem, s.take(12), cfg) == m12);
    assert(ppu::push_all(mem, s.take(13), cfg) == m13);
}

/// The bits of a byte, weighted, add up to the byte.
proof fn lemma_byte_from_bits(m: u8)
    ensures
        ((if m & 0x80 != 0 { 128int } else { 0 }) + (if m & 0x40 != 0 { 64int } else { 0 }) + (if m & 0x20 != 0 {
            32int
        } else {
            0
        }) + (if m & 0x10 != 0 { 16int } else { 0 }) + (if m & 0x08 != 0 { 8int } else { 0 }) + (if m & 0x04
            != 0 {
            4int
        } else {
            0
        }) + (if m & 0x02 != 0 { 2int } else { 0 }) + (if m & 0x01 != 0 { 1int } else { 0 })) == m,
{
    assert(((if m & 0x80 != 0 { 128u16 } else { 0 }) + (if m & 0x40 != 0 { 64u16 } else { 0 }) + (if m & 0x20 != 0 {
        32u16
    } else {
        0
    }) + (if m & 0x10 != 0 { 16u16 } else { 0 }) + (if m & 0x08 != 0 { 8u16 } else { 0 }) + (if m & 0x04 != 0 {
        4u16
    } else {
        0
    }) + (if m & 0x02 != 0 { 2u16 } else { 0 }) + (if m & 0x01 != 0 { 1u16 } else { 0 })) == m as u16)
        by (bit_vector);
}

/// STAT as the PPU writes it: bit 7 set, the interrupt bits 6-3 as read,
/// the coincidence flag and the mode bits.
proof fn lemma_stat_bits(m: u8, coincidence: bool, mode: u8)
    requires
        mode <= 3,
    ensures
        (128 + (if m & 0x40 != 0 { 64int } else { 0 }) + (if m & 0x20 != 0 { 32int } else { 0 }) + (if m & 0x10
            != 0 {
            16int
        } else {
            0
        }) + (if m & 0x08 != 0 { 8int } else { 0 }) + (if coincidence { 4int } else { 0 }) + mode) as u8 == (0x80u8
            | (m & 0x78u8) | (if coincidence { 4u8 } else { 0u8 }) | mode),
{
    assert(((128u16 + (if m & 0x40 != 0 { 64u16 } else { 0 }) + (if m & 0x20 != 0 { 32u16 } else { 0 }) + (if m
        & 0x10 != 0 {
        16u16
    } else {
        0
    }) + (if m & 0x08 != 0 { 8u16 } else { 0 }) + (if coincidence { 4u16 } else { 0 }) + mode as u16) as u8) == (
    0x80u8 | (m & 0x78u8) | (if coincidence { 4u8 } else { 0u8 }) | mode)) by (bit_vector)
        requires
            mode <= 3,
    ;
}

/// Reading the PPU registers and writing them straight back leaves LCDC and
/// SCY-WX as they were; STAT gets bit 7 set, keeps its interrupt bits and takes
/// the PPU's coincidence flag and (with the LCD on) mode; VBK becomes 1 when it
/// was 1 and 0 otherwise; every other address is left alone.
#[verifier::spinoff_prover]
#[verifier::rlimit(100)]
pub proof fn law_ppu_pull_then_push(cfg: ppu::PPUConfig, mem: MemView, other: u16)
    requires
        ppu::ppu_memory(mem),
        mem.readable(other),
        !(0xff40 <= other <= 0xff4b),
        other != 0xff4f,
    ensures
        ({
            let m2 = ppu::push_all(mem, ppu::all_regs(), ppu::pull_all(cfg, ppu::all_regs(), mem));
            let lcd_on = mem.read(0xff40) & 0x80 != 0;
            &&& m2.read(0xff40) == mem.read(0xff40)
            &&& forall|a: u16| 0xff42 <= a <= 0xff4b ==> #[trigger] m2.read(a) == mem.read(a)
            &&& m2.read(0xff41) == (0x80u8 | (mem.read(0xff41) & 0x78u8) | (if cfg.ly_eq_lyc { 4u8 } else { 0u8 }) | (
            if lcd_on { ppu::state_bits(cfg.state) } else { 0u8 }))
            &&& m2.read(0xff4f) == (if mem.read(0xff4f) == 1 { 1u8 } else { 0u8 })
            &&& m2.read(other) == mem.read(other)
        }),
{
    let c = ppu::pull_all(cfg, ppu::all_regs(), mem);
    lemma_pull_all_decodes(cfg, mem);
    lemma_push_all_writes(mem, c, other);
    lemma_byte_from_bits(mem.read(0xff40));
    let lcd_on = mem.read(0xff40) & 0x80 != 0;
    lemma_stat_bits(mem.read(0xff41), cfg.ly_eq_lyc, if lcd_on { ppu::state_bits(cfg.state) } else { 0u8 });
    let m2 = ppu::push_all(mem, ppu::all_regs(), c);
    assert(c == decoded(cfg, mem));
    assert(ppu::encoded(c, ppu::PPUReg::Lcdc) == mem.read(0xff40));
    assert(ppu::encoded(c, ppu::PPUReg::Stat) == (0x80u8 | (mem.read(0xff41) & 0x78u8) | (if cfg.ly_eq_lyc {
        4u8
    } else {
        0u8
    }) | (if lcd_on { ppu::state_bits(cfg.state) } else { 0u8 })));
    assert forall|a: u16| 0xff42 <= a <= 0xff4b implies #[trigger] m2.read(a) == mem.read(a) by {
        if a == 0xff42 {} else if a == 0xff43 {} else if a == 0xff44 {} else if a == 0xff45 {}
        else if a == 0xff46 {} else if a == 0xff47 {} else if a == 0xff48 {} else if a == 0xff49 {}
        else if a == 0xff4a {} else {}
    }
}

/// Memory holds the PPU registers as encoded from `cfg`.
pub open spec fn registers_hold(cfg: ppu::PPUConfig, mem: MemView) -> bool {
    forall|r: ppu::PPUReg| #[trigger] mem.read(ppu::reg_addr(r)) == ppu::encoded(cfg, r)
}

/// Reading registers that hold the encoding of `cfg` gives `cfg` back.
proof fn lemma_pull_held(cfg: ppu::PPUConfig, mem: MemView)
    requires
        registers_hold(cfg, mem),
    ensures
        ppu::pull_all(cfg, ppu::all_regs(), mem) == cfg,
{
    lemma_pull_all_decodes(cfg, mem);
    law_ppu_register_roundtrip(cfg, ppu::PPUReg::Lcdc);
    law_ppu_register_roundtrip(cfg, ppu::PPUReg::Stat);
    law_ppu_register_roundtrip(cfg, ppu::PPUReg::Vbk);
    assert(mem.read(ppu::reg_addr(ppu::PPUReg::Lcdc)) == ppu::encoded(cfg, ppu::PPUReg::Lcdc));
    assert(mem.read(ppu::reg_addr(ppu::PPUReg::Stat)) == ppu::encoded(cfg, ppu::PPUReg::Stat));
    assert(mem.read(ppu::reg_addr(ppu::PPUReg::Scy)) == ppu::encoded(cfg, ppu::PPUReg::Scy));
    assert(mem.read(ppu::reg_addr(ppu::PPUReg::Scx)) == ppu::encoded(cfg, ppu::PPUReg::Scx));
    assert(mem.read(ppu::reg_addr(ppu::PPUReg::Ly)) == ppu::encoded(cfg, ppu::PPUReg::Ly));
    assert(mem.read(ppu::reg_addr(ppu::PPUReg::Lyc)) == ppu::encoded(cfg, ppu::PPUReg::Lyc));
    assert(mem.read(ppu::reg_addr(ppu::PPUReg::Dma)) == ppu::encoded(cfg, ppu::PPUReg::Dma));
    assert(mem.read(ppu::reg_addr(ppu::PPUReg::Bgp)) == ppu::encoded(cfg, ppu::PPUReg::Bgp));
    assert(mem.read(ppu::reg_addr(ppu::PPUReg::Obp0)) == ppu::encoded(cfg, ppu::PPUReg::Obp0));
    assert(mem.read(ppu::reg_addr(ppu::PPUReg::Obp1)) == ppu::encoded(cfg, ppu::PPUReg::Obp1));
    assert(mem.read(ppu::reg_addr(ppu::PPUReg::Wy)) == ppu::encoded(cfg, ppu::PPUReg::Wy));
    assert(mem.read(ppu::reg_addr(ppu::PPUReg::Wx)) == ppu::encoded(cfg, ppu::PPUReg::Wx));
    assert(mem.read(ppu::reg_addr(ppu::PPUReg::Vbk)) == ppu::encoded(cfg, ppu::PPUReg::Vbk));
    assert(decoded(cfg, mem) == cfg);
}

/// Writing all the registers from `cfg` leaves them holding its encoding.
proof fn lemma_push_holds(mem: MemView, cfg: ppu::PPUConfig)
    requires
        ppu::ppu_memory(mem),
    ensures
        registers_hold(cfg, ppu::push_all(mem, ppu::all_regs(), cfg)),
        ppu::ppu_memory(ppu::push_all(mem, ppu::all_regs(), cfg)),
{
    lemma_push_all_writes(mem, cfg, 0x8000);
    let m = ppu::push_all(mem, ppu::all_regs(), cfg);
    assert forall|r: ppu::PPUReg| #[trigger] m.read(ppu::reg_addr(r)) == ppu::encoded(cfg, r) by {
        match r {
            ppu::PPUReg::Lcdc => {},
            ppu::PPUReg::Stat => {},
            ppu::PPUReg::Scy => {},
            ppu::PPUReg::Scx => {},
            ppu::PPUReg::Ly => {},
            ppu::PPUReg::Lyc => {},
            ppu::PPUReg::Dma => {},
            ppu::PPUReg::Bgp => {},
            ppu::PPUReg::Obp0 => {},
            ppu::PPUReg::Obp1 => {},
            ppu::PPUReg::Wy => {},
            ppu::PPUReg::Wx => {},
            ppu::PPUReg::Vbk => {},
        }
    }
}

/// The PPU's line state is in range: the LCD on, LY at most 153, and above
/// 143 only in V-blank.
pub open spec fn ppu_lines_ok(p: ppu::PPUView) -> bool {
    &&& p.cfg.lcd_enabled
    &&& p.cfg.ly <= 153
    &&& (p.cfg.state != ppu::PPUState::VBlank ==> p.cfg.ly <= 143)
}

/// A new PPU has its line state in range and its registers in memory.
pub proof fn law_ppu_new_lines_ok(p: ppu::PPUView, mem: MemView)
    requires
        ppu::initial_config(p.cfg),
        ppu::ppu_memory(mem),
    ensures
        ppu_lines_ok(p),
        registers_hold(p.cfg, ppu::push_all(mem, ppu::all_regs(), p.cfg)),
{
    lemma_push_holds(mem, p.cfg);
}

/// A tick keeps the line state in range and the registers in memory as the
/// PPU wrote them, provided nothing else wrote them in between.
pub proof fn law_ppu_tick_keeps_lines(p: ppu::PPUView, mem: MemView, window_open: bool)
    requires
        ppu_lines_ok(p),
        registers_hold(p.cfg, mem),
        ppu::ppu_memory(mem),
    ensures
        ({
            let (p2, m2, shown) = ppu::tick_result(p, mem, window_open);
            &&& ppu_lines_ok(p2)
            &&& registers_hold(p2.cfg, m2)
            &&& ppu::ppu_memory(m2)
        }),
{
    lemma_pull_held(p.cfg, mem);
    let (c2, alive) = ppu::after_events(p.cfg, p.alive, window_open);
    if alive {
        let (c3, lclk) = ppu::next_phase(c2, p.lclk);
        lemma_push_holds(mem, c3);
    }
}

/// STAT as encoded: bit 7 set and the mode in bits 0-1.
proof fn lemma_stat_shape(b6: bool, b5: bool, b4: bool, b3: bool, b2: bool, low: u8)
    requires
        low <= 3,
    ensures
        ({
            let v = (128 + (if b6 { 64int } else { 0 }) + (if b5 { 32int } else { 0 }) + (if b4 { 16int } else { 0 })
                + (if b3 { 8int } else { 0 }) + (if b2 { 4int } else { 0 }) + low) as u8;
            v & 0x80 == 0x80 && v & 3 == low
        }),
{
    let w6: u8 = if b6 { 1 } else { 0 };
    let w5: u8 = if b5 { 1 } else { 0 };
    let w4: u8 = if b4 { 1 } else { 0 };
    let w3: u8 = if b3 { 1 } else { 0 };
    let w2: u8 = if b2 { 1 } else { 0 };
    assert({
        let v = (128 + w6 * 64 + w5 * 32 + w4 * 16 + w3 * 8 + w2 * 4 + low) as u8;
        v & 0x80 == 0x80 && v & 3 == low
    }) by (bit_vector)
        requires
            w6 <= 1,
            w5 <= 1,
            w4 <= 1,
            w3 <= 1,
            w2 <= 1,
            low <= 3,
    ;
}

/// With the line state in range and the registers as the PPU wrote them, LY
/// is at most 153, STAT has bit 7 set, and LY is above 143 only when STAT
/// reports V-blank (mode 1).
pub proof fn law_ppu_registers_show_lines(p: ppu::PPUView, mem: MemView)
    requires
        ppu_lines_ok(p),
        registers_hold(p.cfg, mem),
    ensures
        mem.read(0xff44) <= 153,
        mem.read(0xff41) & 0x80 == 0x80,
        mem.read(0xff41) & 3 != 1 ==> mem.read(0xff44) <= 143,
{
    assert(mem.read(ppu::reg_addr(ppu::PPUReg::Ly)) == ppu::encoded(p.cfg, ppu::PPUReg::Ly));
    assert(mem.read(ppu::reg_addr(ppu::PPUReg::Stat)) == ppu::encoded(p.cfg, ppu::PPUReg::Stat));
    let c = p.cfg;
    lemma_stat_shape(c.ly_eq_lyc_intr, c.oam_intr, c.vblank_intr, c.hblank_intr, c.ly_eq_lyc, ppu::state_bits(c.state));
}

/// The PPU and memory after `n` ticks with the window open and nothing else
/// writing memory.
pub open spec fn ticked(p: ppu::PPUView, mem: MemView, n: nat) -> (ppu::PPUView, MemView)
    decreases n,
{
    if n == 0 {
        (p, mem)
    } else {
        let (q, m) = ticked(p, mem, (n - 1) as nat);
        let (q2, m2, shown) = ppu::tick_result(q, m, true);
        (q2, m2)
    }
}

/// Ticking `a` times and then `b` times is ticking `a + b` times.
proof fn lemma_ticked_add(p: ppu::PPUView, mem: MemView, a: nat, b: nat)
    ensures
        ticked(p, mem, a + b) == ticked(ticked(p, mem, a).0, ticked(p, mem, a).1, b),
    decreases b,
{
    if b > 0 {
        lemma_ticked_add(p, mem, a, (b - 1) as nat);
        assert((a + b - 1) as nat == a + (b - 1) as nat);
    }
}

/// A V-blank line at LY `k`, from its first cycle, with the registers in
/// memory as the PPU wrote them.
pub open spec fn vblank_line_start(p: ppu::PPUView, mem: MemView, k: u8) -> bool {
    &&& p.alive
    &&& p.cfg.lcd_enabled
    &&& p.cfg.state == ppu::PPUState::VBlank
    &&& p.lclk == 0
    &&& p.cfg.ly == k
    &&& registers_hold(p.cfg, mem)
    &&& ppu::ppu_memory(mem)
}

/// Within a V-blank line each tick only moves the line clock on.
proof fn lemma_vblank_within_line(p: ppu::PPUView, mem: MemView, k: u8, j: nat)
    requires
        vblank_line_start(p, mem, k),
        j <= 113,
    ensures
        ({
            let (q, m) = ticked(p, mem, j);
            &&& q.alive
            &&& q.cfg.lcd_enabled
            &&& q.cfg.state == ppu::PPUState::VBlank
            &&& q.lclk == j
            &&& q.cfg.ly == k
            &&& registers_hold(q.cfg, m)
            &&& ppu::ppu_memory(m)
        }),
    decreases j,
{
    if j > 0 {
        lemma_vblank_within_line(p, mem, k, (j - 1) as nat);
        let (q, m) = ticked(p, mem, (j - 1) as nat);
        lemma_pull_held(q.cfg, m);
        let (c2, alive) = ppu::after_events(q.cfg, q.alive, true);
        let (c3, lclk) = ppu::next_phase(c2, q.lclk);
        lemma_push_holds(m, c3);
    }
}

/// A V-blank line lasts 114 ticks: then the next line starts, or after line
/// 153 the OAM search of line 0.
proof fn lemma_vblank_line(p: ppu::PPUView, mem: MemView, k: u8)
    requires
        vblank_line_start(p, mem, k),
    ensures
        k < 153 ==> vblank_line_start(ticked(p, mem, 114).0, ticked(p, mem, 114).1, (k + 1) as u8),
        k == 153 ==> ({
            let (q, m) = ticked(p, mem, 114);
            &&& q.alive && q.cfg.lcd_enabled
            &&& q.cfg.state == ppu::PPUState::OAMSearch
            &&& q.lclk == 0 && q.cfg.ly == 0
            &&& registers_hold(q.cfg, m)
        }),
{
    lemma_vblank_within_line(p, mem, k, 113);
    let (q, m) = ticked(p, mem, 113);
    lemma_pull_held(q.cfg, m);
    let (c2, alive) = ppu::after_events(q.cfg, q.alive, true);
    let (c3, lclk) = ppu::next_phase(c2, q.lclk);
    lemma_push_holds(m, c3);
}

/// From the first cycle of V-blank line 0, after `114 * k` ticks the PPU is at
/// the first cycle of V-blank line `k`.
proof fn lemma_vblank_lines(p: ppu::PPUView, mem: MemView, k: nat)
    requires
        vblank_line_start(p, mem, 0),
        k <= 153,
    ensures
        vblank_line_start(ticked(p, mem, 114 * k).0, ticked(p, mem, 114 * k).1, k as u8),
    decreases k,
{
    if k > 0 {
        lemma_vblank_lines(p, mem, (k - 1) as nat);
        let a = 114 * (k - 1) as nat;
        lemma_ticked_add(p, mem, a, 114);
        assert(a + 114 == 114 * k);
        lemma_vblank_line(ticked(p, mem, a).0, ticked(p, mem, a).1, (k - 1) as u8);
    }
}

/// A new PPU starts at the first cycle of V-blank line 0; with the window open
/// and nothing else writing its registers, every line lasts 114 ticks: after
/// `114 * k` ticks (k from 1 to 153) LY reads `k` and STAT reports V-blank, and
/// after 154 lines (17556 ticks) LY reads 0 and STAT reports OAM search.
pub proof fn law_ppu_line_timing(p: ppu::PPUView, mem: MemView, k: nat)
    requires
        ppu::initial_config(p.cfg),
        p.lclk == 0,
        p.alive,
        registers_hold(p.cfg, mem),
        ppu::ppu_memory(mem),
        1 <= k <= 153,
    ensures
        ticked(p, mem, 114 * k).1.read(0xff44) == k,
        ticked(p, mem, 114 * k).1.read(0xff41) & 3 == 1,
        ticked(p, mem, 17556).1.read(0xff44) == 0,
        ticked(p, mem, 17556).1.read(0xff41) & 3 == 2,
{
    lemma_vblank_lines(p, mem, k);
    let (q, m) = ticked(p, mem, 114 * k);
    assert(m.read(ppu::reg_addr(ppu::PPUReg::Ly)) == ppu::encoded(q.cfg, ppu::PPUReg::Ly));
    assert(m.read(ppu::reg_addr(ppu::PPUReg::Stat)) == ppu::encoded(q.cfg, ppu::PPUReg::Stat));
    let c = q.cfg;
    lemma_stat_shape(c.ly_eq_lyc_intr, c.oam_intr, c.vblank_intr, c.hblank_intr, c.ly_eq_lyc, ppu::state_bits(c.state));
    lemma_vblank_lines(p, mem, 153);
    let a = 114 * 153nat;
    lemma_ticked_add(p, mem, a, 114);
    lemma_vblank_line(ticked(p, mem, a).0, ticked(p, mem, a).1, 153);
    assert(a + 114 == 17556);
    let (q2, m2) = ticked(p, mem, 17556);
    assert(m2.read(ppu::reg_addr(ppu::PPUReg::Ly)) == ppu::encoded(q2.cfg, ppu::PPUReg::Ly));
    assert(m2.read(ppu::reg_addr(ppu::PPUReg::Stat)) == ppu::encoded(q2.cfg, ppu::PPUReg::Stat));
    let c2 = q2.cfg;
    lemma_stat_shape(c2.ly_eq_lyc_intr, c2.oam_intr, c2.vblank_intr, c2.hblank_intr, c2.ly_eq_lyc, ppu::state_bits(c2.state));
}

} // verus!
