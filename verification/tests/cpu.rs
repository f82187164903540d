use gblite::cpu::{CpuCore, CPU};
use gblite::memory::{MemClient, Memory};
use gblite::registers::{Flag, Reg16, Reg8, RegOps};
use gblite::video::PPU;

fn machine(program: &[(u16, u8)]) -> CPU {
    let mut mem = Memory::new(0x10000);
    let mut rom = vec![0u8; 0x8000];
    for &(addr, byte) in program {
        rom[addr as usize] = byte;
    }
    mem.load_rom(rom);
    let ppu = PPU::new(&mut mem);
    CPU::new(mem, ppu)
}

fn bytes_at(start: u16, bytes: &[u8]) -> Vec<(u16, u8)> {
    bytes.iter().enumerate().map(|(i, b)| (start + i as u16, *b)).collect()
}

fn run_one(cpu: &mut CPU) -> gblite::cpu::Step {
    assert!(cpu.can_process());
    cpu.process()
}

fn reg8(cpu: &CPU, r: Reg8) -> u8 {
    cpu.core.regs.get(r)
}

fn reg16(cpu: &CPU, r: Reg16) -> u16 {
    cpu.core.regs.get(r)
}

#[test]
fn loads_and_add() {
    let mut cpu = machine(&bytes_at(0, &[0x06, 0x42, 0x3E, 0x05, 0x80]));
    let s = run_one(&mut cpu);
    assert!(s.running && s.executed && s.pc == 0 && s.opcode == 0x06 && !s.breakpoint);
    assert_eq!(reg8(&cpu, Reg8::B), 0x42);
    assert_eq!(reg16(&cpu, Reg16::PC), 2);
    run_one(&mut cpu);
    assert_eq!(reg8(&cpu, Reg8::A), 0x05);
    let s = run_one(&mut cpu);
    assert_eq!(s.opcode, 0x80);
    assert_eq!(reg8(&cpu, Reg8::A), 0x47);
    assert_eq!(reg8(&cpu, Reg8::F), 0x00);
    assert_eq!(reg16(&cpu, Reg16::PC), 5);
}

#[test]
fn add_sets_zero_and_carry_flags() {
    // LD A,0xFF; LD B,0x01; ADD A,B
    let mut cpu = machine(&bytes_at(0, &[0x3E, 0xFF, 0x06, 0x01, 0x80]));
    for _ in 0..3 {
        run_one(&mut cpu);
    }
    assert_eq!(reg8(&cpu, Reg8::A), 0x00);
    assert!(cpu.core.regs.get_flag(Flag::Z));
    assert!(!cpu.core.regs.get_flag(Flag::N));
    assert!(cpu.core.regs.get_flag(Flag::H));
    assert!(cpu.core.regs.get_flag(Flag::CY));
}

#[test]
fn push_then_pop() {
    // LD SP,0xFFFE; LD BC,0x1234; PUSH BC; POP DE
    let mut cpu = machine(&bytes_at(0, &[0x31, 0xFE, 0xFF, 0x01, 0x34, 0x12, 0xC5, 0xD1]));
    for _ in 0..3 {
        run_one(&mut cpu);
    }
    assert_eq!(reg16(&cpu, Reg16::SP), 0xFFFC);
    assert_eq!(cpu.core.mem.get(0xFFFC, MemClient::CPU), 0x34);
    assert_eq!(cpu.core.mem.get(0xFFFD, MemClient::CPU), 0x12);
    run_one(&mut cpu);
    assert_eq!(reg16(&cpu, Reg16::DE), 0x1234);
    assert_eq!(reg16(&cpu, Reg16::SP), 0xFFFE);
}

#[test]
fn call_then_return() {
    // LD SP,0xFFFE; CALL 0x0020; HALT ... 0x0020: RET
    let mut program = bytes_at(0, &[0x31, 0xFE, 0xFF, 0xCD, 0x20, 0x00, 0x76]);
    program.push((0x0020, 0xC9));
    let mut cpu = machine(&program);
    run_one(&mut cpu);
    run_one(&mut cpu);
    assert_eq!(reg16(&cpu, Reg16::PC), 0x0020);
    assert_eq!(reg16(&cpu, Reg16::SP), 0xFFFC);
    let s = run_one(&mut cpu);
    assert_eq!(s.opcode, 0xC9);
    assert_eq!(reg16(&cpu, Reg16::PC), 0x0006);
    assert_eq!(reg16(&cpu, Reg16::SP), 0xFFFE);
}

#[test]
fn halt_ends_the_program_for_good() {
    let mut cpu = machine(&bytes_at(0, &[0x00, 0x76]));
    let s = run_one(&mut cpu);
    assert!(s.running);
    let s = run_one(&mut cpu);
    assert!(!s.running && s.executed && s.opcode == 0x76);
    assert!(cpu.core.has_quit());
    let s = run_one(&mut cpu);
    assert!(!s.running && !s.executed);
    assert_eq!(s.pc, 2);
    assert_eq!(reg16(&cpu, Reg16::PC), 2);
}

#[test]
fn relative_jump_backwards() {
    let mut cpu = machine(&bytes_at(0x10, &[0x18, 0xFE]));
    let mut core_pc: u16 = 0;
    while core_pc < 0x10 {
        run_one(&mut cpu);
        core_pc = reg16(&cpu, Reg16::PC);
    }
    assert_eq!(core_pc, 0x10);
    run_one(&mut cpu);
    assert_eq!(reg16(&cpu, Reg16::PC), 0x10);
}

#[test]
fn prefixed_instructions() {
    // LD B,0x81; RLC B; LD A,0x80; BIT 7,A; BIT 0,A. A prefixed instruction
    // is two bytes long, the prefix included.
    let mut cpu = machine(&bytes_at(0, &[0x06, 0x81, 0xCB, 0x00, 0x3E, 0x80, 0xCB, 0x7F, 0xCB, 0x47]));
    run_one(&mut cpu);
    let s = run_one(&mut cpu);
    assert_eq!(s.opcode, 0xCB00);
    assert_eq!(reg16(&cpu, Reg16::PC), 4);
    assert_eq!(reg8(&cpu, Reg8::B), 0x03);
    assert!(cpu.core.regs.get_flag(Flag::CY));
    assert!(!cpu.core.regs.get_flag(Flag::Z));
    run_one(&mut cpu);
    run_one(&mut cpu);
    assert!(!cpu.core.regs.get_flag(Flag::Z));
    assert!(cpu.core.regs.get_flag(Flag::H));
    run_one(&mut cpu);
    assert!(cpu.core.regs.get_flag(Flag::Z));
    assert_eq!(reg8(&cpu, Reg8::A), 0x80);
}

#[test]
fn loads_through_hl() {
    // LD HL,0xC000; LD (HL),0x5A; LD C,(HL); INC (HL)
    let mut cpu = machine(&bytes_at(0, &[0x21, 0x00, 0xC0, 0x36, 0x5A, 0x4E, 0x34]));
    for _ in 0..4 {
        run_one(&mut cpu);
    }
    assert_eq!(reg8(&cpu, Reg8::C), 0x5A);
    assert_eq!(cpu.core.mem.get(0xC000, MemClient::CPU), 0x5B);
}

#[test]
fn invalid_opcode_cannot_run() {
    let cpu = machine(&bytes_at(0, &[0xD3]));
    assert!(!cpu.can_process());
}

#[test]
fn breakpoints_and_single_stepping() {
    let mut cpu = machine(&bytes_at(0, &[0x00, 0x00, 0x00, 0x00]));
    cpu.add_breakpoint(0x0001);
    assert!(!run_one(&mut cpu).breakpoint);
    let s = run_one(&mut cpu);
    assert!(s.breakpoint && s.pc == 1);
    cpu.resume(true);
    assert!(run_one(&mut cpu).breakpoint);
    cpu.resume(false);
    assert!(!run_one(&mut cpu).breakpoint);
}

#[test]
fn tick_runs_display_then_instruction() {
    let mut cpu = machine(&bytes_at(0, &[0x06, 0x07]));
    assert!(cpu.can_tick(true));
    let t = cpu.tick(true);
    assert!(t.shown);
    assert!(t.step.executed && t.step.running && t.step.pc == 0);
    assert_eq!(reg8(&cpu, Reg8::B), 0x07);
    assert!(cpu.ppu.is_rendering());
}

#[test]
fn closed_window_stops_the_processor() {
    let mut cpu = machine(&bytes_at(0, &[0x00]));
    assert!(cpu.can_tick(false));
    let t = cpu.tick(false);
    assert!(!t.shown && !t.step.executed && !t.step.running);
    assert!(!cpu.ppu.is_alive());
    assert_eq!(reg16(&cpu, Reg16::PC), 0);
}

#[test]
fn core_executes_a_given_opcode() {
    let mut mem = Memory::new(0x10000);
    mem.load_rom(vec![0u8; 0x8000]);
    let mut core = CpuCore::new(mem);
    core.execute(0x3E, 0x12, 0x0000);
    core.execute(0x47, 0, 0);
    assert_eq!(core.regs.get(Reg8::B), 0x12);
    core.execute(0x37, 0, 0);
    assert!(core.regs.get_flag(Flag::CY));
    core.execute(0x3F, 0, 0);
    assert!(!core.regs.get_flag(Flag::CY));
    assert!(core.can_step());
    let (pc, opcode) = core.step();
    assert_eq!((pc, opcode), (0, 0x00));
    assert_eq!(core.regs.get(Reg16::PC), 1);
}

#[test]
fn trace_lines() {
    // LD SP,0xFFFE; RLC B (prefixed, no operands shown); NOP
    let cpu = machine(&bytes_at(0x0100, &[0x31, 0xFE, 0xFF, 0xCB, 0x00, 0x00]));
    assert_eq!(cpu.print_instruction_info(0x31, 0x0100), "0x0100: LD SP,d16 - 12 cycles - operands: 0xfe 0xff ");
    assert_eq!(cpu.print_instruction_info(0xCB00, 0x0103), "0x0103: RLC B - 8 cycles");
    assert_eq!(cpu.print_instruction_info(0x00, 0x0106), "0x0106: NOP - 4 cycles");
}

#[test]
fn a_short_rom_runs_while_it_stays_inside() {
    let mut mem = Memory::new(0x10000);
    // LD A,0x05; LD SP,0xFFFE; PUSH AF; HALT; then the padding the fetch reads.
    mem.load_rom(vec![0x3E, 0x05, 0x31, 0xFE, 0xFF, 0xF5, 0x76, 0x00, 0x00]);
    let ppu = PPU::new(&mut mem);
    let mut cpu = CPU::new(mem, ppu);
    for _ in 0..3 {
        run_one(&mut cpu);
    }
    assert_eq!(cpu.core.mem.get(0xFFFD, MemClient::CPU), 0x05);
    let s = run_one(&mut cpu);
    assert!(!s.running && s.opcode == 0x76);
}

#[test]
fn fetching_past_the_rom_cannot_run() {
    let mut mem = Memory::new(0x10000);
    mem.load_rom(vec![0x00]);
    let ppu = PPU::new(&mut mem);
    let cpu = CPU::new(mem, ppu);
    assert!(!cpu.can_process());
    assert!(!cpu.can_tick(true));
}

#[test]
fn stack_outside_memory_cannot_run() {
    // PUSH BC with SP = 0: the word would go to 0xFFFE-0xFFFF, beyond a
    // smaller work memory.
    let mut mem = Memory::new(0xFF60);
    mem.load_rom(vec![0xC5, 0x00, 0x00]);
    let ppu = PPU::new(&mut mem);
    let cpu = CPU::new(mem, ppu);
    assert!(!cpu.can_process());
}
