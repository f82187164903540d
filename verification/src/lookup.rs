use vstd::prelude::*;

use crate::registers::{FlagMod, FlagStatus};

verus! {

/// One entry of the instruction table.
pub struct Instruction {
    /// The byte opcode of this instruction (the byte after 0xCB for prefixed ones).
    pub opcode: u8,
    /// Part of the 0xCB extended instruction set.
    pub prefix_cb: bool,
    pub name: String,
    /// Total number of bytes, including the opcode byte(s).
    pub bytes: u8,
    /// Minimum number of clocks.
    pub clocks: u8,
    /// Extra clocks taken by a conditional instruction on its longer path.
    pub clocks_extra: u8,
    /// Some flag may be modified.
    pub modifies_flags: bool,
}

/// An opcode of the 0xCB extended set.
pub open spec fn is_cb(opcode: u16) -> bool {
    0xcb00 <= opcode <= 0xcbff
}

/// The operand that the low three bits of a regular opcode name.
pub open spec fn operand_name(i: int) -> Seq<char> {
    if i == 0 { "B"@ } else if i == 1 { "C"@ } else if i == 2 { "D"@ } else if i == 3 { "E"@ }
    else if i == 4 { "H"@ } else if i == 5 { "L"@ } else if i == 6 { "(HL)"@ } else { "A"@ }
}

/// The arithmetic mnemonic (with its A operand, where written) of the 0x80-0xBF block.
pub open spec fn arith_prefix(k: int) -> Seq<char> {
    if k == 0 { "ADD A,"@ } else if k == 1 { "ADC A,"@ } else if k == 2 { "SUB "@ }
    else if k == 3 { "SBC A,"@ } else if k == 4 { "AND "@ } else if k == 5 { "XOR "@ }
    else if k == 6 { "OR "@ } else { "CP "@ }
}

/// The rotate/shift mnemonic of the first quarter of the 0xCB set.
pub open spec fn rotate_name(k: int) -> Seq<char> {
    if k == 0 { "RLC"@ } else if k == 1 { "RRC"@ } else if k == 2 { "RL"@ } else if k == 3 { "RR"@ }
    else if k == 4 { "SLA"@ } else if k == 5 { "SRA"@ } else if k == 6 { "SWAP"@ } else { "SRL"@ }
}

/// The bit mnemonic of the other three quarters of the 0xCB set.
pub open spec fn bit_op_name(g: int) -> Seq<char> {
    if g == 1 { "BIT"@ } else if g == 2 { "RES"@ } else { "SET"@ }
}

/// The decimal digit of a bit index below 8.
pub open spec fn bit_digit(k: int) -> Seq<char> {
    if k == 0 { "0"@ } else if k == 1 { "1"@ } else if k == 2 { "2"@ } else if k == 3 { "3"@ }
    else if k == 4 { "4"@ } else if k == 5 { "5"@ } else if k == 6 { "6"@ } else { "7"@ }
}

/// The name of a 0xCB-prefixed instruction from the byte after the prefix.
pub open spec fn cb_name(lo: int) -> Seq<char> {
    let g = lo / 64;
    let k = (lo / 8) % 8;
    let r = lo % 8;
    if g == 0 {
        rotate_name(k) + " "@ + operand_name(r)
    } else {
        bit_op_name(g) + " "@ + bit_digit(k) + ","@ + operand_name(r)
    }
}

/// A one-byte instruction of the 0x40-0xBF blocks, other than HALT: its name.
pub open spec fn block_name(op: int) -> Seq<char> {
    if op < 0x80 {
        "LD "@ + operand_name((op / 8) % 8) + ","@ + operand_name(op % 8)
    } else {
        arith_prefix((op / 8) % 8) + operand_name(op % 8)
    }
}

/// The table rows of the opcodes 0x00-0x3F and 0xC0-0xFF:
/// (name, bytes, clocks, extra clocks, modifies flags).
pub open spec fn irregular_row(op: u8) -> (Seq<char>, u8, u8, u8, bool) {
    match op {
        0x0 => ("NOP"@, 1, 4, 0, false),
        0x1 => ("LD BC,d16"@, 3, 12, 0, false),
        0x2 => ("LD (BC),A"@, 1, 8, 0, false),
        0x3 => ("INC BC"@, 1, 8, 0, false),
        0x4 => ("INC B"@, 1, 4, 0, true),
        0x5 => ("DEC B"@, 1, 4, 0, true),
        0x6 => ("LD B,d8"@, 2, 8, 0, false),
        0x7 => ("RLCA"@, 1, 4, 0, true),
        0x8 => ("LD (a16),SP"@, 3, 20, 0, false),
        0x9 => ("ADD HL,BC"@, 1, 8, 0, true),
        0xa => ("LD A,(BC)"@, 1, 8, 0, false),
        0xb => ("DEC BC"@, 1, 8, 0, false),
        0xc => ("INC C"@, 1, 4, 0, true),
        0xd => ("DEC C"@, 1, 4, 0, true),
        0xe => ("LD C,d8"@, 2, 8, 0, false),
        0xf => ("RRCA"@, 1, 4, 0, true),
        0x10 => ("STOP 0"@, 2, 4, 0, false),
        0x11 => ("LD DE,d16"@, 3, 12, 0, false),
        0x12 => ("LD (DE),A"@, 1, 8, 0, false),
        0x13 => ("INC DE"@, 1, 8, 0, false),
        0x14 => ("INC D"@, 1, 4, 0, true),
        0x15 => ("DEC D"@, 1, 4, 0, true),
        0x16 => ("LD D,d8"@, 2, 8, 0, false),
        0x17 => ("RLA"@, 1, 4, 0, true),
        0x18 => ("JR r8"@, 2, 12, 0, false),
        0x19 => ("ADD HL,DE"@, 1, 8, 0, true),
        0x1a => ("LD A,(DE)"@, 1, 8, 0, false),
        0x1b => ("DEC DE"@, 1, 8, 0, false),
        0x1c => ("INC E"@, 1, 4, 0, true),
        0x1d => ("DEC E"@, 1, 4, 0, true),
        0x1e => ("LD E,d8"@, 2, 8, 0, false),
        0x1f => ("RRA"@, 1, 4, 0, true),
        0x20 => ("JR NZ,r8"@, 2, 8, 4, false),
        0x21 => ("LD HL,d16"@, 3, 12, 0, false),
        0x22 => ("LD (HL+),A"@, 1, 8, 0, false),
        0x23 => ("INC HL"@, 1, 8, 0, false),
        0x24 => ("INC H"@, 1, 4, 0, true),
        0x25 => ("DEC H"@, 1, 4, 0, true),
        0x26 => ("LD H,d8"@, 2, 8, 0, false),
        0x27 => ("DAA"@, 1, 4, 0, true),
        0x28 => ("JR Z,r8"@, 2, 8, 4, false),
        0x29 => ("ADD HL,HL"@, 1, 8, 0, true),
        0x2a => ("LD A,(HL+)"@, 1, 8, 0, false),
        0x2b => ("DEC HL"@, 1, 8, 0, false),
        0x2c => ("INC L"@, 1, 4, 0, true),
        0x2d => ("DEC L"@, 1, 4, 0, true),
        0x2e => ("LD L,d8"@, 2, 8, 0, false),
        0x2f => ("CPL"@, 1, 4, 0, true),
        0x30 => ("JR NC,r8"@, 2, 8, 4, false),
        0x31 => ("LD SP,d16"@, 3, 12, 0, false),
        0x32 => ("LD (HL-),A"@, 1, 8, 0, false),
        0x33 => ("INC SP"@, 1, 8, 0, false),
        0x34 => ("INC (HL)"@, 1, 12, 0, true),
        0x35 => ("DEC (HL)"@, 1, 12, 0, true),
        0x36 => ("LD (HL),d8"@, 2, 12, 0, false),
        0x37 => ("SCF"@, 1, 4, 0, true),
        0x38 => ("JR C,r8"@, 2, 8, 4, false),
        0x39 => ("ADD HL,SP"@, 1, 8, 0, true),
        0x3a => ("LD A,(HL-)"@, 1, 8, 0, false),
        0x3b => ("DEC SP"@, 1, 8, 0, false),
        0x3c => ("INC A"@, 1, 4, 0, true),
        0x3d => ("DEC A"@, 1, 4, 0, true),
        0x3e => ("LD A,d8"@, 2, 8, 0, false),
        0x3f => ("CCF"@, 1, 4, 0, true),
        0xc0 => ("RET NZ"@, 1, 8, 12, false),
        0xc1 => ("POP BC"@, 1, 12, 0, false),
        0xc2 => ("JP NZ,a16"@, 3, 12, 4, false),
        0xc3 => ("JP a16"@, 3, 16, 0, false),
        0xc4 => ("CALL NZ,a16"@, 3, 12, 12, false),
        0xc5 => ("PUSH BC"@, 1, 16, 0, false),
        0xc6 => ("ADD A,d8"@, 2, 8, 0, true),
        0xc7 => ("RST 00H"@, 1, 16, 0, false),
        0xc8 => ("RET Z"@, 1, 8, 12, false),
        0xc9 => ("RET"@, 1, 16, 0, false),
        0xca => ("JP Z,a16"@, 3, 12, 4, false),
        0xcb => ("PREFIX CB"@, 1, 4, 0, false),
        0xcc => ("CALL Z,a16"@, 3, 12, 12, false),
        0xcd => ("CALL a16"@, 3, 24, 0, false),
        0xce => ("ADC A,d8"@, 2, 8, 0, true),
        0xcf => ("RST 08H"@, 1, 16, 0, false),
        0xd0 => ("RET NC"@, 1, 8, 12, false),
        0xd1 => ("POP DE"@, 1, 12, 0, false),
        0xd2 => ("JP NC,a16"@, 3, 12, 4, false),
        0xd3 => ("UNKNOWN_D3"@, 0, 0, 0, false),
        0xd4 => ("CALL NC,a16"@, 3, 12, 12, false),
        0xd5 => ("PUSH DE"@, 1, 16, 0, false),
        0xd6 => ("SUB d8"@, 2, 8, 0, true),
        0xd7 => ("RST 10H"@, 1, 16, 0, false),
        0xd8 => ("RET C"@, 1, 8, 12, false),
        0xd9 => ("RETI"@, 1, 16, 0, false),
        0xda => ("JP C,a16"@, 3, 12, 4, false),
        0xdb => ("UNKNOWN_DB"@, 0, 0, 0, false),
        0xdc => ("CALL C,a16"@, 3, 12, 12, false),
        0xdd => ("UNKNOWN_DD"@, 0, 0, 0, false),
        0xde => ("SBC A,d8"@, 2, 8, 0, true),
        0xdf => ("RST 18H"@, 1, 16, 0, false),
        0xe0 => ("LDH (a8),A"@, 2, 12, 0, false),
        0xe1 => ("POP HL"@, 1, 12, 0, false),
        0xe2 => ("LD (C),A"@, 2, 8, 0, false),
        0xe3 => ("UNKNOWN_E3"@, 0, 0, 0, false),
        0xe4 => ("UNKNOWN_E4"@, 0, 0, 0, false),
        0xe5 => ("PUSH HL"@, 1, 16, 0, false),
        0xe6 => ("AND d8"@, 2, 8, 0, true),
        0xe7 => ("RST 20H"@, 1, 16, 0, false),
        0xe8 => ("ADD SP,r8"@, 2, 16, 0, true),
        0xe9 => ("JP (HL)"@, 1, 4, 0, false),
        0xea => ("LD (a16),A"@, 3, 16, 0, false),
        0xeb => ("UNKNOWN_EB"@, 0, 0, 0, false),
        0xec => ("UNKNOWN_EC"@, 0, 0, 0, false),
        0xed => ("UNKNOWN_ED"@, 0, 0, 0, false),
        0xee => ("XOR d8"@, 2, 8, 0, true),
        0xef => ("RST 28H"@, 1, 16, 0, false),
        0xf0 => ("LDH A,(a8)"@, 2, 12, 0, false),
        0xf1 => ("POP AF"@, 1, 12, 0, true),
        0xf2 => ("LD A,(C)"@, 2, 8, 0, false),
        0xf3 => ("DI"@, 1, 4, 0, false),
        0xf4 => ("UNKNOWN_F4"@, 0, 0, 0, false),
        0xf5 => ("PUSH AF"@, 1, 16, 0, false),
        0xf6 => ("OR d8"@, 2, 8, 0, true),
        0xf7 => ("RST 30H"@, 1, 16, 0, false),
        0xf8 => ("LD HL,SP+r8"@, 2, 12, 0, true),
        0xf9 => ("LD SP,HL"@, 1, 8, 0, false),
        0xfa => ("LD A,(a16)"@, 3, 16, 0, false),
        0xfb => ("EI"@, 1, 4, 0, false),
        0xfc => ("UNKNOWN_FC"@, 0, 0, 0, false),
        0xfd => ("UNKNOWN_FD"@, 0, 0, 0, false),
        0xfe => ("CP d8"@, 2, 8, 0, true),
        0xff => ("RST 38H"@, 1, 16, 0, false),
        _ => ("UNDEFINED"@, 0, 0, 0, false),
    }
}

/// What `get_instruction` returns for an opcode, field by field:
/// (opcode byte, prefixed, name, bytes, clocks, extra clocks, modifies flags).
pub open spec fn instruction_spec(opcode: u16) -> (u8, bool, Seq<char>, u8, u8, u8, bool) {
    if opcode < 0x40 || 0xc0 <= opcode < 0x100 {
        let row = irregular_row(opcode as u8);
        (opcode as u8, false, row.0, row.1, row.2, row.3, row.4)
    } else if opcode == 0x76 {
        (0x76, false, "HALT"@, 1, 4, 0, false)
    } else if opcode < 0xc0 {
        let touches_hl = opcode % 8 == 6 || (opcode < 0x80 && (opcode / 8) % 8 == 6);
        (opcode as u8, false, block_name(opcode as int), 1, if touches_hl { 8 } else { 4 }, 0, opcode >= 0x80)
    } else if is_cb(opcode) {
        let lo = (opcode - 0xcb00) as int;
        (lo as u8, true, cb_name(lo), 2, if lo % 8 == 6 { 16 } else { 8 }, 0, lo < 0x80)
    } else {
        (0, false, "UNDEFINED"@, 0, 0, 0, false)
    }
}

impl Instruction {
    pub open spec fn fields(self) -> (u8, bool, Seq<char>, u8, u8, u8, bool) {
        (self.opcode, self.prefix_cb, self.name@, self.bytes, self.clocks, self.clocks_extra, self.modifies_flags)
    }
}

fn operand_str(i: u8) -> (s: &'static str)
    requires
        i < 8,
    ensures
        s@ == operand_name(i as int),
{
    match i {
        0 => "B",
        1 => "C",
        2 => "D",
        3 => "E",
        4 => "H",
        5 => "L",
        6 => "(HL)",
        _ => "A",
    }
}

fn arith_prefix_str(k: u8) -> (s: &'static str)
    requires
        k < 8,
    ensures
        s@ == arith_prefix(k as int),
{
    match k {
        0 => "ADD A,",
        1 => "ADC A,",
        2 => "SUB ",
        3 => "SBC A,",
        4 => "AND ",
        5 => "XOR ",
        6 => "OR ",
        _ => "CP ",
    }
}

fn rotate_name_str(k: u8) -> (s: &'static str)
    requires
        k < 8,
    ensures
        s@ == rotate_name(k as int),
{
    match k {
        0 => "RLC",
        1 => "RRC",
        2 => "RL",
        3 => "RR",
        4 => "SLA",
        5 => "SRA",
        6 => "SWAP",
        _ => "SRL",
    }
}

fn bit_op_name_str(g: u8) -> (s: &'static str)
    requires
        1 <= g <= 3,
    ensures
        s@ == bit_op_name(g as int),
{
    match g {
        1 => "BIT",
        2 => "RES",
        _ => "SET",
    }
}

fn bit_digit_str(k: u8) -> (s: &'static str)
    requires
        k < 8,
    ensures
        s@ == bit_digit(k as int),
{
    match k {
        0 => "0",
        1 => "1",
        2 => "2",
        3 => "3",
        4 => "4",
        5 => "5",
        6 => "6",
        _ => "7",
    }
}

/// The rows of the opcodes 0x00-0x3F and 0xC0-0xFF.
fn irregular_instruction(op: u8) -> (inst: Instruction)
    requires
        op < 0x40 || op >= 0xc0,
    ensures
        inst.fields() == instruction_spec(op as u16),
{
    let (name, bytes, clocks, clocks_extra, modifies_flags): (&str, u8, u8, u8, bool) = match op {
        0x0 => ("NOP", 1, 4, 0, false),
        0x1 => ("LD BC,d16", 3, 12, 0, false),
        0x2 => ("LD (BC),A", 1, 8, 0, false),
        0x3 => ("INC BC", 1, 8, 0, false),
        0x4 => ("INC B", 1, 4, 0, true),
        0x5 => ("DEC B", 1, 4, 0, true),
        0x6 => ("LD B,d8", 2, 8, 0, false),
        0x7 => ("RLCA", 1, 4, 0, true),
        0x8 => ("LD (a16),SP", 3, 20, 0, false),
        0x9 => ("ADD HL,BC", 1, 8, 0, true),
        0xa => ("LD A,(BC)", 1, 8, 0, false),
        0xb => ("DEC BC", 1, 8, 0, false),
        0xc => ("INC C", 1, 4, 0, true),
        0xd => ("DEC C", 1, 4, 0, true),
        0xe => ("LD C,d8", 2, 8, 0, false),
        0xf => ("RRCA", 1, 4, 0, true),
        0x10 => ("STOP 0", 2, 4, 0, false),
        0x11 => ("LD DE,d16", 3, 12, 0, false),
        0x12 => ("LD (DE),A", 1, 8, 0, false),
        0x13 => ("INC DE", 1, 8, 0, false),
        0x14 => ("INC D", 1, 4, 0, true),
        0x15 => ("DEC D", 1, 4, 0, true),
        0x16 => ("LD D,d8", 2, 8, 0, false),
        0x17 => ("RLA", 1, 4, 0, true),
        0x18 => ("JR r8", 2, 12, 0, false),
        0x19 => ("ADD HL,DE", 1, 8, 0, true),
        0x1a => ("LD A,(DE)", 1, 8, 0, false),
        0x1b => ("DEC DE", 1, 8, 0, false),
        0x1c => ("INC E", 1, 4, 0, true),
        0x1d => ("DEC E", 1, 4, 0, true),
        0x1e => ("LD E,d8", 2, 8, 0, false),
        0x1f => ("RRA", 1, 4, 0, true),
        0x20 => ("JR NZ,r8", 2, 8, 4, false),
        0x21 => ("LD HL,d16", 3, 12, 0, false),
        0x22 => ("LD (HL+),A", 1, 8, 0, false),
        0x23 => ("INC HL", 1, 8, 0, false),
        0x24 => ("INC H", 1, 4, 0, true),
        0x25 => ("DEC H", 1, 4, 0, true),
        0x26 => ("LD H,d8", 2, 8, 0, false),
        0x27 => ("DAA", 1, 4, 0, true),
        0x28 => ("JR Z,r8", 2, 8, 4, false),
        0x29 => ("ADD HL,HL", 1, 8, 0, true),
        0x2a => ("LD A,(HL+)", 1, 8, 0, false),
        0x2b => ("DEC HL", 1, 8, 0, false),
        0x2c => ("INC L", 1, 4, 0, true),
        0x2d => ("DEC L", 1, 4, 0, true),
        0x2e => ("LD L,d8", 2, 8, 0, false),
        0x2f => ("CPL", 1, 4, 0, true),
        0x30 => ("JR NC,r8", 2, 8, 4, false),
        0x31 => ("LD SP,d16", 3, 12, 0, false),
        0x32 => ("LD (HL-),A", 1, 8, 0, false),
        0x33 => ("INC SP", 1, 8, 0, false),
        0x34 => ("INC (HL)", 1, 12, 0, true),
        0x35 => ("DEC (HL)", 1, 12, 0, true),
        0x36 => ("LD (HL),d8", 2, 12, 0, false),
        0x37 => ("SCF", 1, 4, 0, true),
        0x38 => ("JR C,r8", 2, 8, 4, false),
        0x39 => ("ADD HL,SP", 1, 8, 0, true),
        0x3a => ("LD A,(HL-)", 1, 8, 0, false),
        0x3b => ("DEC SP", 1, 8, 0, false),
        0x3c => ("INC A", 1, 4, 0, true),
        0x3d => ("DEC A", 1, 4, 0, true),
        0x3e => ("LD A,d8", 2, 8, 0, false),
        0x3f => ("CCF", 1, 4, 0, true),
        0xc0 => ("RET NZ", 1, 8, 12, false),
        0xc1 => ("POP BC", 1, 12, 0, false),
        0xc2 => ("JP NZ,a16", 3, 12, 4, false),
        0xc3 => ("JP a16", 3, 16, 0, false),
        0xc4 => ("CALL NZ,a16", 3, 12, 12, false),
        0xc5 => ("PUSH BC", 1, 16, 0, false),
        0xc6 => ("ADD A,d8", 2, 8, 0, true),
        0xc7 => ("RST 00H", 1, 16, 0, false),
        0xc8 => ("RET Z", 1, 8, 12, false),
        0xc9 => ("RET", 1, 16, 0, false),
        0xca => ("JP Z,a16", 3, 12, 4, false),
        0xcb => ("PREFIX CB", 1, 4, 0, false),
        0xcc => ("CALL Z,a16", 3, 12, 12, false),
        0xcd => ("CALL a16", 3, 24, 0, false),
        0xce => ("ADC A,d8", 2, 8, 0, true),
        0xcf => ("RST 08H", 1, 16, 0, false),
        0xd0 => ("RET NC", 1, 8, 12, false),
        0xd1 => ("POP DE", 1, 12, 0, false),
        0xd2 => ("JP NC,a16", 3, 12, 4, false),
        0xd3 => ("UNKNOWN_D3", 0, 0, 0, false),
        0xd4 => ("CALL NC,a16", 3, 12, 12, false),
        0xd5 => ("PUSH DE", 1, 16, 0, false),
        0xd6 => ("SUB d8", 2, 8, 0, true),
        0xd7 => ("RST 10H", 1, 16, 0, false),
        0xd8 => ("RET C", 1, 8, 12, false),
        0xd9 => ("RETI", 1, 16, 0, false),
        0xda => ("JP C,a16", 3, 12, 4, false),
        0xdb => ("UNKNOWN_DB", 0, 0, 0, false),
        0xdc => ("CALL C,a16", 3, 12, 12, false),
        0xdd => ("UNKNOWN_DD", 0, 0, 0, false),
        0xde => ("SBC A,d8", 2, 8, 0, true),
        0xdf => ("RST 18H", 1, 16, 0, false),
        0xe0 => ("LDH (a8),A", 2, 12, 0, false),
        0xe1 => ("POP HL", 1, 12, 0, false),
        0xe2 => ("LD (C),A", 2, 8, 0, false),
        0xe3 => ("UNKNOWN_E3", 0, 0, 0, false),
        0xe4 => ("UNKNOWN_E4", 0, 0, 0, false),
        0xe5 => ("PUSH HL", 1, 16, 0, false),
        0xe6 => ("AND d8", 2, 8, 0, true),
        0xe7 => ("RST 20H", 1, 16, 0, false),
        0xe8 => ("ADD SP,r8", 2, 16, 0, true),
        0xe9 => ("JP (HL)", 1, 4, 0, false),
        0xea => ("LD (a16),A", 3, 16, 0, false),
        0xeb => ("UNKNOWN_EB", 0, 0, 0, false),
        0xec => ("UNKNOWN_EC", 0, 0, 0, false),
        0xed => ("UNKNOWN_ED", 0, 0, 0, false),
        0xee => ("XOR d8", 2, 8, 0, true),
        0xef => ("RST 28H", 1, 16, 0, false),
        0xf0 => ("LDH A,(a8)", 2, 12, 0, false),
        0xf1 => ("POP AF", 1, 12, 0, true),
        0xf2 => ("LD A,(C)", 2, 8, 0, false),
        0xf3 => ("DI", 1, 4, 0, false),
        0xf4 => ("UNKNOWN_F4", 0, 0, 0, false),
        0xf5 => ("PUSH AF", 1, 16, 0, false),
        0xf6 => ("OR d8", 2, 8, 0, true),
        0xf7 => ("RST 30H", 1, 16, 0, false),
        0xf8 => ("LD HL,SP+r8", 2, 12, 0, true),
        0xf9 => ("LD SP,HL", 1, 8, 0, false),
        0xfa => ("LD A,(a16)", 3, 16, 0, false),
        0xfb => ("EI", 1, 4, 0, false),
        0xfc => ("UNKNOWN_FC", 0, 0, 0, false),
        0xfd => ("UNKNOWN_FD", 0, 0, 0, false),
        0xfe => ("CP d8", 2, 8, 0, true),
        0xff => ("RST 38H", 1, 16, 0, false),
        _ => ("UNDEFINED", 0, 0, 0, false),
    };
    Instruction {
        opcode: op,
        prefix_cb: false,
        name: name.to_owned(),
        bytes,
        clocks,
        clocks_extra,
        modifies_flags,
    }
}

/// The one-byte instructions of the 0x40-0xBF blocks: loads between registers and
/// (HL), HALT, and arithmetic on A.
fn block_instruction(op: u8) -> (inst: Instruction)
    requires
        0x40 <= op < 0xc0,
    ensures
        inst.fields() == instruction_spec(op as u16),
{
    if op == 0x76 {
        return Instruction {
            opcode: 0x76,
            prefix_cb: false,
            name: "HALT".to_owned(),
            bytes: 1,
            clocks: 4,
            clocks_extra: 0,
            modifies_flags: false,
        };
    }
    let k = (op / 8) % 8;
    let r = op % 8;
    let mut name = String::new();
    if op < 0x80 {
        name.append("LD ");
        name.append(operand_str(k));
        name.append(",");
        name.append(operand_str(r));
    } else {
        name.append(arith_prefix_str(k));
        name.append(operand_str(r));
    }
    assert(name@ =~= block_name(op as int));
    let touches_hl = r == 6 || (op < 0x80 && k == 6);
    Instruction {
        opcode: op,
        prefix_cb: false,
        name,
        bytes: 1,
        clocks: if touches_hl { 8 } else { 4 },
        clocks_extra: 0,
        modifies_flags: op >= 0x80,
    }
}

/// The 0xCB-prefixed instructions, by the byte after the prefix.
fn cb_instruction(lo: u8) -> (inst: Instruction)
    ensures
        inst.fields() == instruction_spec((0xcb00 + lo) as u16),
{
    let g = lo / 64;
    let k = (lo / 8) % 8;
    let r = lo % 8;
    let mut name = String::new();
    if g == 0 {
        name.append(rotate_name_str(k));
        name.append(" ");
        name.append(operand_str(r));
    } else {
        name.append(bit_op_name_str(g));
        name.append(" ");
        name.append(bit_digit_str(k));
        name.append(",");
        name.append(operand_str(r));
    }
    assert(name@ =~= cb_name(lo as int));
    Instruction {
        opcode: lo,
        prefix_cb: true,
        name,
        bytes: 2,
        clocks: if r == 6 { 16 } else { 8 },
        clocks_extra: 0,
        modifies_flags: lo < 0x80,
    }
}

/// The instruction table entry of an opcode; 0xCB-prefixed opcodes are
/// `0xCB00 | next byte`. Opcodes outside the table give an "UNDEFINED" entry
/// of zero bytes.
pub fn get_instruction(opcode: u16) -> (inst: Instruction)
    ensures
        inst.fields() == instruction_spec(opcode),
{
    if opcode < 0x40 || (0xc0 <= opcode && opcode < 0x100) {
        irregular_instruction(opcode as u8)
    } else if opcode < 0xc0 {
        block_instruction(opcode as u8)
    } else if 0xcb00 <= opcode && opcode <= 0xcbff {
        cb_instruction((opcode - 0xcb00) as u8)
    } else {
        Instruction {
            opcode: 0x00,
            prefix_cb: false,
            name: "UNDEFINED".to_owned(),
            bytes: 0,
            clocks: 0,
            clocks_extra: 0,
            modifies_flags: false,
        }
    }
}

/// The flag modifiers of an ALU operation on A, by the operation's index
/// (bits 3-5 of the opcode).
pub open spec fn arith_flags(k: int) -> FlagStatus {
    if k <= 1 {
        FlagStatus { z: FlagMod::Eval, n: FlagMod::SetTo(false), h: FlagMod::Eval, cy: FlagMod::Eval }
    } else if k <= 3 || k == 7 {
        FlagStatus { z: FlagMod::Eval, n: FlagMod::SetTo(true), h: FlagMod::Eval, cy: FlagMod::Eval }
    } else if k == 4 {
        FlagStatus { z: FlagMod::Eval, n: FlagMod::SetTo(false), h: FlagMod::SetTo(true), cy: FlagMod::SetTo(false) }
    } else {
        FlagStatus { z: FlagMod::Eval, n: FlagMod::SetTo(false), h: FlagMod::SetTo(false), cy: FlagMod::SetTo(false) }
    }
}

pub open spec fn all_ignored() -> FlagStatus {
    FlagStatus { z: FlagMod::Ignore, n: FlagMod::Ignore, h: FlagMod::Ignore, cy: FlagMod::Ignore }
}

/// The flag modifiers of each instruction, by instruction class.
pub open spec fn flags_spec(op: u16) -> FlagStatus {
    if op < 0x40 && op % 8 == 4 {
        // INC r
        FlagStatus { z: FlagMod::Eval, n: FlagMod::SetTo(false), h: FlagMod::Eval, cy: FlagMod::Ignore }
    } else if op < 0x40 && op % 8 == 5 {
        // DEC r
        FlagStatus { z: FlagMod::Eval, n: FlagMod::SetTo(true), h: FlagMod::Eval, cy: FlagMod::Ignore }
    } else if op == 0x07 || op == 0x0f || op == 0x17 || op == 0x1f {
        // RLCA, RRCA, RLA, RRA
        FlagStatus { z: FlagMod::SetTo(false), n: FlagMod::SetTo(false), h: FlagMod::SetTo(false), cy: FlagMod::Eval }
    } else if op < 0x40 && op % 16 == 9 {
        // ADD HL,rr
        FlagStatus { z: FlagMod::Ignore, n: FlagMod::SetTo(false), h: FlagMod::Eval, cy: FlagMod::Eval }
    } else if op == 0x27 {
        // DAA
        FlagStatus { z: FlagMod::Eval, n: FlagMod::Ignore, h: FlagMod::SetTo(false), cy: FlagMod::Eval }
    } else if op == 0x2f {
        // CPL
        FlagStatus { z: FlagMod::Ignore, n: FlagMod::SetTo(true), h: FlagMod::SetTo(true), cy: FlagMod::Ignore }
    } else if op == 0x37 {
        // SCF
        FlagStatus { z: FlagMod::Ignore, n: FlagMod::SetTo(false), h: FlagMod::SetTo(false), cy: FlagMod::SetTo(true) }
    } else if op == 0x3f {
        // CCF
        FlagStatus { z: FlagMod::Ignore, n: FlagMod::SetTo(false), h: FlagMod::SetTo(false), cy: FlagMod::Eval }
    } else if 0x80 <= op < 0xc0 || (0xc0 <= op < 0x100 && op % 8 == 6) {
        // ALU A,r / ALU A,d8
        arith_flags(((op / 8) % 8) as int)
    } else if op == 0xe8 || op == 0xf8 {
        // ADD SP,r8 / LD HL,SP+r8
        FlagStatus { z: FlagMod::SetTo(false), n: FlagMod::SetTo(false), h: FlagMod::Eval, cy: FlagMod::Eval }
    } else if 0xcb00 <= op < 0xcb28 || 0xcb38 <= op < 0xcb40 {
        // RLC, RRC, RL, RR, SLA, SRL
        FlagStatus { z: FlagMod::Eval, n: FlagMod::SetTo(false), h: FlagMod::SetTo(false), cy: FlagMod::Eval }
    } else if 0xcb28 <= op < 0xcb38 {
        // SRA, SWAP
        FlagStatus { z: FlagMod::Eval, n: FlagMod::SetTo(false), h: FlagMod::SetTo(false), cy: FlagMod::SetTo(false) }
    } else if 0xcb40 <= op < 0xcb80 {
        // BIT
        FlagStatus { z: FlagMod::Eval, n: FlagMod::SetTo(false), h: FlagMod::SetTo(true), cy: FlagMod::Ignore }
    } else {
        all_ignored()
    }
}

/// The flag modifiers of an instruction, from the opcode table.
pub fn get_flags(full_opcode: u16) -> (flags: FlagStatus)
    ensures
        flags == flags_spec(full_opcode),
{
    match full_opcode {
        0x04 => FlagStatus { z: FlagMod::Eval, n: FlagMod::SetTo(false), h: FlagMod::Eval, cy: FlagMod::Ignore },
        0x05 => FlagStatus { z: FlagMod::Eval, n: FlagMod::SetTo(true), h: FlagMod::Eval, cy: FlagMod::Ignore },
        0x07 => FlagStatus { z: FlagMod::SetTo(false), n: FlagMod::SetTo(false), h: FlagMod::SetTo(false), cy: FlagMod::Eval },
        0x09 => FlagStatus { z: FlagMod::Ignore, n: FlagMod::SetTo(false), h: FlagMod::Eval, cy: FlagMod::Eval },
        0x0c => FlagStatus { z: FlagMod::Eval, n: FlagMod::SetTo(false), h: FlagMod::Eval, cy: FlagMod::Ignore },
        0x0d => FlagStatus { z: FlagMod::Eval, n: FlagMod::SetTo(true), h: FlagMod::Eval, cy: FlagMod::Ignore },
        0x0f => FlagStatus { z: FlagMod::SetTo(false), n: FlagMod::SetTo(false), h: FlagMod::SetTo(false), cy: FlagMod::Eval },
        0x14 => FlagStatus { z: FlagMod::Eval, n: FlagMod::SetTo(false), h: FlagMod::Eval, cy: FlagMod::Ignore },
        0x15 => FlagStatus { z: FlagMod::Eval, n: FlagMod::SetTo(true), h: FlagMod::Eval, cy: FlagMod::Ignore },
        0x17 => FlagStatus { z: FlagMod::SetTo(false), n: FlagMod::SetTo(false), h: FlagMod::SetTo(false), cy: FlagMod::Eval },
        0x19 => FlagStatus { z: FlagMod::Ignore, n: FlagMod::SetTo(false), h: FlagMod::Eval, cy: FlagMod::Eval },
        0x1c => FlagStatus { z: FlagMod::Eval, n: FlagMod::SetTo(false), h: FlagMod::Eval, cy: FlagMod::Ignore },
        0x1d => FlagStatus { z: FlagMod::Eval, n: FlagMod::SetTo(true), h: FlagMod::Eval, cy: FlagMod::Ignore },
        0x1f => FlagStatus { z: FlagMod::SetTo(false), n: FlagMod::SetTo(false), h: FlagMod::SetTo(false), cy: FlagMod::Eval },
        0x24 => FlagStatus { z: FlagMod::Eval, n: FlagMod::SetTo(false), h: FlagMod::Eval, cy: FlagMod::Ignore },
        0x25 => FlagStatus { z: FlagMod::Eval, n: FlagMod::SetTo(true), h: FlagMod::Eval, cy: FlagMod::Ignore },
        0x27 => FlagStatus { z: FlagMod::Eval, n: FlagMod::Ignore, h: FlagMod::SetTo(false), cy: FlagMod::Eval },
        0x29 => FlagStatus { z: FlagMod::Ignore, n: FlagMod::SetTo(false), h: FlagMod::Eval, cy: FlagMod::Eval },
        0x2c => FlagStatus { z: FlagMod::Eval, n: FlagMod::SetTo(false), h: FlagMod::Eval, cy: FlagMod::Ignore },
        0x2d => FlagStatus { z: FlagMod::Eval, n: FlagMod::SetTo(true), h: FlagMod::Eval, cy: FlagMod::Ignore },
        0x2f => FlagStatus { z: FlagMod::Ignore, n: FlagMod::SetTo(true), h: FlagMod::SetTo(true), cy: FlagMod::Ignore },
        0x34 => FlagStatus { z: FlagMod::Eval, n: FlagMod::SetTo(false), h: FlagMod::Eval, cy: FlagMod::Ignore },
        0x35 => FlagStatus { z: FlagMod::Eval, n: FlagMod::SetTo(true), h: FlagMod::Eval, cy: FlagMod::Ignore },
        0x37 => FlagStatus { z: FlagMod::Ignore, n: FlagMod::SetTo(false), h: FlagMod::SetTo(false), cy: FlagMod::SetTo(true) },
        0x39 => FlagStatus { z: FlagMod::Ignore, n: FlagMod::SetTo(false), h: FlagMod::Eval, cy: FlagMod::Eval },
        0x3c => FlagStatus { z: FlagMod::Eval, n: FlagMod::SetTo(false), h: FlagMod::Eval, cy: FlagMod::Ignore },
        0x3d => FlagStatus { z: FlagMod::Eval, n: FlagMod::SetTo(true), h: FlagMod::Eval, cy: FlagMod::Ignore },
        0x3f => FlagStatus { z: FlagMod::Ignore, n: FlagMod::SetTo(false), h: FlagMod::SetTo(false), cy: FlagMod::Eval },
        0x80 => FlagStatus { z: FlagMod::Eval, n: FlagMod::SetTo(false), h: FlagMod::Eval, cy: FlagMod::Eval },
        0x81 => FlagStatus { z: FlagMod::Eval, n: FlagMod::SetTo(false), h: FlagMod::Eval, cy: FlagMod::Eval },
        0x82 => FlagStatus { z: FlagMod::Eval, n: FlagMod::SetTo(false), h: FlagMod::Eval, cy: FlagMod::Eval },
        0x83 => FlagStatus { z: FlagMod::Eval, n: FlagMod::SetTo(false), h: FlagMod::Eval, cy: FlagMod::Eval },
        0x84 => FlagStatus { z: FlagMod::Eval, n: FlagMod::SetTo(false), h: FlagMod::Eval, cy: FlagMod::Eval },
        0x85 => FlagStatus { z: FlagMod::Eval, n: FlagMod::SetTo(false), h: FlagMod::Eval, cy: FlagMod::Eval },
        0x86 => FlagStatus { z: FlagMod::Eval, n: FlagMod::SetTo(false), h: FlagMod::Eval, cy: FlagMod::Eval },
        0x87 => FlagStatus { z: FlagMod::Eval, n: FlagMod::SetTo(false), h: FlagMod::Eval, cy: FlagMod::Eval },
        0x88 => FlagStatus { z: FlagMod::Eval, n: FlagMod::SetTo(false), h: FlagMod::Eval, cy: FlagMod::Eval },
        0x89 => FlagStatus { z: FlagMod::Eval, n: FlagMod::SetTo(false), h: FlagMod::Eval, cy: FlagMod::Eval },
        0x8a => FlagStatus { z: FlagMod::Eval, n: FlagMod::SetTo(false), h: FlagMod::Eval, cy: FlagMod::Eval },
        0x8b => FlagStatus { z: FlagMod::Eval, n: FlagMod::SetTo(false), h: FlagMod::Eval, cy: FlagMod::Eval },
        0x8c => FlagStatus { z: FlagMod::Eval, n: FlagMod::SetTo(false), h: FlagMod::Eval, cy: FlagMod::Eval },
        0x8d => FlagStatus { z: FlagMod::Eval, n: FlagMod::SetTo(false), h: FlagMod::Eval, cy: FlagMod::Eval },
        0x8e => FlagStatus { z: FlagMod::Eval, n: FlagMod::SetTo(false), h: FlagMod::Eval, cy: FlagMod::Eval },
        0x8f => FlagStatus { z: FlagMod::Eval, n: FlagMod::SetTo(false), h: FlagMod::Eval, cy: FlagMod::Eval },
        0x90 => FlagStatus { z: FlagMod::Eval, n: FlagMod::SetTo(true), h: FlagMod::Eval, cy: FlagMod::Eval },
        0x91 => FlagStatus { z: FlagMod::Eval, n: FlagMod::SetTo(true), h: FlagMod::Eval, cy: FlagMod::Eval },
        0x92 => FlagStatus { z: FlagMod::Eval, n: FlagMod::SetTo(true), h: FlagMod::Eval, cy: FlagMod::Eval },
        0x93 => FlagStatus { z: FlagMod::Eval, n: FlagMod::SetTo(true), h: FlagMod::Eval, cy: FlagMod::Eval },
        0x94 => FlagStatus { z: FlagMod::Eval, n: FlagMod::SetTo(true), h: FlagMod::Eval, cy: FlagMod::Eval },
        0x95 => FlagStatus { z: FlagMod::Eval, n: FlagMod::SetTo(true), h: FlagMod::Eval, cy: FlagMod::Eval },
        0x96 => FlagStatus { z: FlagMod::Eval, n: FlagMod::SetTo(true), h: FlagMod::Eval, cy: FlagMod::Eval },
        0x97 => FlagStatus { z: FlagMod::Eval, n: FlagMod::SetTo(true), h: FlagMod::Eval, cy: FlagMod::Eval },
        0x98 => FlagStatus { z: FlagMod::Eval, n: FlagMod::SetTo(true), h: FlagMod::Eval, cy: FlagMod::Eval },
        0x99 => FlagStatus { z: FlagMod::Eval, n: FlagMod::SetTo(true), h: FlagMod::Eval, cy: FlagMod::Eval },
        0x9a => FlagStatus { z: FlagMod::Eval, n: FlagMod::SetTo(true), h: FlagMod::Eval, cy: FlagMod::Eval },
        0x9b => FlagStatus { z: FlagMod::Eval, n: FlagMod::SetTo(true), h: FlagMod::Eval, cy: FlagMod::Eval },
        0x9c => FlagStatus { z: FlagMod::Eval, n: FlagMod::SetTo(true), h: FlagMod::Eval, cy: FlagMod::Eval },
        0x9d => FlagStatus { z: FlagMod::Eval, n: FlagMod::SetTo(true), h: FlagMod::Eval, cy: FlagMod::Eval },
        0x9e => FlagStatus { z: FlagMod::Eval, n: FlagMod::SetTo(true), h: FlagMod::Eval, cy: FlagMod::Eval },
        0x9f => FlagStatus { z: FlagMod::Eval, n: FlagMod::SetTo(true), h: FlagMod::Eval, cy: FlagMod::Eval },
        0xa0 => FlagStatus { z: FlagMod::Eval, n: FlagMod::SetTo(false), h: FlagMod::SetTo(true), cy: FlagMod::SetTo(false) },
        0xa1 => FlagStatus { z: FlagMod::Eval, n: FlagMod::SetTo(false), h: FlagMod::SetTo(true), cy: FlagMod::SetTo(false) },
        0xa2 => FlagStatus { z: FlagMod::Eval, n: FlagMod::SetTo(false), h: FlagMod::SetTo(true), cy: FlagMod::SetTo(false) },
        0xa3 => FlagStatus { z: FlagMod::Eval, n: FlagMod::SetTo(false), h: FlagMod::SetTo(true), cy: FlagMod::SetTo(false) },
        0xa4 => FlagStatus { z: FlagMod::Eval, n: FlagMod::SetTo(false), h: FlagMod::SetTo(true), cy: FlagMod::SetTo(false) },
        0xa5 => FlagStatus { z: FlagMod::Eval, n: FlagMod::SetTo(false), h: FlagMod::SetTo(true), cy: FlagMod::SetTo(false) },
        0xa6 => FlagStatus { z: FlagMod::Eval, n: FlagMod::SetTo(false), h: FlagMod::SetTo(true), cy: FlagMod::SetTo(false) },
        0xa7 => FlagStatus { z: FlagMod::Eval, n: FlagMod::SetTo(false), h: FlagMod::SetTo(true), cy: FlagMod::SetTo(false) },
        0xa8 => FlagStatus { z: FlagMod::Eval, n: FlagMod::SetTo(false), h: FlagMod::SetTo(false), cy: FlagMod::SetTo(false) },
        0xa9 => FlagStatus { z: FlagMod::Eval, n: FlagMod::SetTo(false), h: FlagMod::SetTo(false), cy: FlagMod::SetTo(false) },
        0xaa => FlagStatus { z: FlagMod::Eval, n: FlagMod::SetTo(false), h: FlagMod::SetTo(false), cy: FlagMod::SetTo(false) },
        0xab => FlagStatus { z: FlagMod::Eval, n: FlagMod::SetTo(false), h: FlagMod::SetTo(false), cy: FlagMod::SetTo(false) },
        0xac => FlagStatus { z: FlagMod::Eval, n: FlagMod::SetTo(false), h: FlagMod::SetTo(false), cy: FlagMod::SetTo(false) },
        0xad => FlagStatus { z: FlagMod::Eval, n: FlagMod::SetTo(false), h: FlagMod::SetTo(false), cy: FlagMod::SetTo(false) },
        0xae => FlagStatus { z: FlagMod::Eval, n: FlagMod::SetTo(false), h: FlagMod::SetTo(false), cy: FlagMod::SetTo(false) },
        0xaf => FlagStatus { z: FlagMod::Eval, n: FlagMod::SetTo(false), h: FlagMod::SetTo(false), cy: FlagMod::SetTo(false) },
        0xb0 => FlagStatus { z: FlagMod::Eval, n: FlagMod::SetTo(false), h: FlagMod::SetTo(false), cy: FlagMod::SetTo(false) },
        0xb1 => FlagStatus { z: FlagMod::Eval, n: FlagMod::SetTo(false), h: FlagMod::SetTo(false), cy: FlagMod::SetTo(false) },
        0xb2 => FlagStatus { z: FlagMod::Eval, n: FlagMod::SetTo(false), h: FlagMod::SetTo(false), cy: FlagMod::SetTo(false) },
        0xb3 => FlagStatus { z: FlagMod::Eval, n: FlagMod::SetTo(false), h: FlagMod::SetTo(false), cy: FlagMod::SetTo(false) },
        0xb4 => FlagStatus { z: FlagMod::Eval, n: FlagMod::SetTo(false), h: FlagMod::SetTo(false), cy: FlagMod::SetTo(false) },
        0xb5 => FlagStatus { z: FlagMod::Eval, n: FlagMod::SetTo(false), h: FlagMod::SetTo(false), cy: FlagMod::SetTo(false) },
        0xb6 => FlagStatus { z: FlagMod::Eval, n: FlagMod::SetTo(false), h: FlagMod::SetTo(false), cy: FlagMod::SetTo(false) },
        0xb7 => FlagStatus { z: FlagMod::Eval, n: FlagMod::SetTo(false), h: FlagMod::SetTo(false), cy: FlagMod::SetTo(false) },
        0xb8 => FlagStatus { z: FlagMod::Eval, n: FlagMod::SetTo(true), h: FlagMod::Eval, cy: FlagMod::Eval },
        0xb9 => FlagStatus { z: FlagMod::Eval, n: FlagMod::SetTo(true), h: FlagMod::Eval, cy: FlagMod::Eval },
        0xba => FlagStatus { z: FlagMod::Eval, n: FlagMod::SetTo(true), h: FlagMod::Eval, cy: FlagMod::Eval },
        0xbb => FlagStatus { z: FlagMod::Eval, n: FlagMod::SetTo(true), h: FlagMod::Eval, cy: FlagMod::Eval },
        0xbc => FlagStatus { z: FlagMod::Eval, n: FlagMod::SetTo(true), h: FlagMod::Eval, cy: FlagMod::Eval },
        0xbd => FlagStatus { z: FlagMod::Eval, n: FlagMod::SetTo(true), h: FlagMod::Eval, cy: FlagMod::Eval },
        0xbe => FlagStatus { z: FlagMod::Eval, n: FlagMod::SetTo(true), h: FlagMod::Eval, cy: FlagMod::Eval },
        0xbf => FlagStatus { z: FlagMod::Eval, n: FlagMod::SetTo(true), h: FlagMod::Eval, cy: FlagMod::Eval },
        0xc6 => FlagStatus { z: FlagMod::Eval, n: FlagMod::SetTo(false), h: FlagMod::Eval, cy: FlagMod::Eval },
        0xce => FlagStatus { z: FlagMod::Eval, n: FlagMod::SetTo(false), h: FlagMod::Eval, cy: FlagMod::Eval },
        0xd6 => FlagStatus { z: FlagMod::Eval, n: FlagMod::SetTo(true), h: FlagMod::Eval, cy: FlagMod::Eval },
        0xde => FlagStatus { z: FlagMod::Eval, n: FlagMod::SetTo(true), h: FlagMod::Eval, cy: FlagMod::Eval },
        0xe6 => FlagStatus { z: FlagMod::Eval, n: FlagMod::SetTo(false), h: FlagMod::SetTo(true), cy: FlagMod::SetTo(false) },
        0xe8 => FlagStatus { z: FlagMod::SetTo(false), n: FlagMod::SetTo(false), h: FlagMod::Eval, cy: FlagMod::Eval },
        0xee => FlagStatus { z: FlagMod::Eval, n: FlagMod::SetTo(false), h: FlagMod::SetTo(false), cy: FlagMod::SetTo(false) },
        0xf6 => FlagStatus { z: FlagMod::Eval, n: FlagMod::SetTo(false), h: FlagMod::SetTo(false), cy: FlagMod::SetTo(false) },
        0xf8 => FlagStatus { z: FlagMod::SetTo(false), n: FlagMod::SetTo(false), h: FlagMod::Eval, cy: FlagMod::Eval },
        0xfe => FlagStatus { z: FlagMod::Eval, n: FlagMod::SetTo(true), h: FlagMod::Eval, cy: FlagMod::Eval },
        0xcb00 => FlagStatus { z: FlagMod::Eval, n: FlagMod::SetTo(false), h: FlagMod::SetTo(false), cy: FlagMod::Eval },
        0xcb01 => FlagStatus { z: FlagMod::Eval, n: FlagMod::SetTo(false), h: FlagMod::SetTo(false), cy: FlagMod::Eval },
        0xcb02 => FlagStatus { z: FlagMod::Eval, n: FlagMod::SetTo(false), h: FlagMod::SetTo(false), cy: FlagMod::Eval },
        0xcb03 => FlagStatus { z: FlagMod::Eval, n: FlagMod::SetTo(false), h: FlagMod::SetTo(false), cy: FlagMod::Eval },
        0xcb04 => FlagStatus { z: FlagMod::Eval, n: FlagMod::SetTo(false), h: FlagMod::SetTo(false), cy: FlagMod::Eval },
        0xcb05 => FlagStatus { z: FlagMod::Eval, n: FlagMod::SetTo(false), h: FlagMod::SetTo(false), cy: FlagMod::Eval },
        0xcb06 => FlagStatus { z: FlagMod::Eval, n: FlagMod::SetTo(false), h: FlagMod::SetTo(false), cy: FlagMod::Eval },
        0xcb07 => FlagStatus { z: FlagMod::Eval, n: FlagMod::SetTo(false), h: FlagMod::SetTo(false), cy: FlagMod::Eval },
        0xcb08 => FlagStatus { z: FlagMod::Eval, n: FlagMod::SetTo(false), h: FlagMod::SetTo(false), cy: FlagMod::Eval },
        0xcb09 => FlagStatus { z: FlagMod::Eval, n: FlagMod::SetTo(false), h: FlagMod::SetTo(false), cy: FlagMod::Eval },
        0xcb0a => FlagStatus { z: FlagMod::Eval, n: FlagMod::SetTo(false), h: FlagMod::SetTo(false), cy: FlagMod::Eval },
        0xcb0b => FlagStatus { z: FlagMod::Eval, n: FlagMod::SetTo(false), h: FlagMod::SetTo(false), cy: FlagMod::Eval },
        0xcb0c => FlagStatus { z: FlagMod::Eval, n: FlagMod::SetTo(false), h: FlagMod::SetTo(false), cy: FlagMod::Eval },
        0xcb0d => FlagStatus { z: FlagMod::Eval, n: FlagMod::SetTo(false), h: FlagMod::SetTo(false), cy: FlagMod::Eval },
        0xcb0e => FlagStatus { z: FlagMod::Eval, n: FlagMod::SetTo(false), h: FlagMod::SetTo(false), cy: FlagMod::Eval },
        0xcb0f => FlagStatus { z: FlagMod::Eval, n: FlagMod::SetTo(false), h: FlagMod::SetTo(false), cy: FlagMod::Eval },
        0xcb10 => FlagStatus { z: FlagMod::Eval, n: FlagMod::SetTo(false), h: FlagMod::SetTo(false), cy: FlagMod::Eval },
        0xcb11 => FlagStatus { z: FlagMod::Eval, n: FlagMod::SetTo(false), h: FlagMod::SetTo(false), cy: FlagMod::Eval },
        0xcb12 => FlagStatus { z: FlagMod::Eval, n: FlagMod::SetTo(false), h: FlagMod::SetTo(false), cy: FlagMod::Eval },
        0xcb13 => FlagStatus { z: FlagMod::Eval, n: FlagMod::SetTo(false), h: FlagMod::SetTo(false), cy: FlagMod::Eval },
        0xcb14 => FlagStatus { z: FlagMod::Eval, n: FlagMod::SetTo(false), h: FlagMod::SetTo(false), cy: FlagMod::Eval },
        0xcb15 => FlagStatus { z: FlagMod::Eval, n: FlagMod::SetTo(false), h: FlagMod::SetTo(false), cy: FlagMod::Eval },
        0xcb16 => FlagStatus { z: FlagMod::Eval, n: FlagMod::SetTo(false), h: FlagMod::SetTo(false), cy: FlagMod::Eval },
        0xcb17 => FlagStatus { z: FlagMod::Eval, n: FlagMod::SetTo(false), h: FlagMod::SetTo(false), cy: FlagMod::Eval },
        0xcb18 => FlagStatus { z: FlagMod::Eval, n: FlagMod::SetTo(false), h: FlagMod::SetTo(false), cy: FlagMod::Eval },
        0xcb19 => FlagStatus { z: FlagMod::Eval, n: FlagMod::SetTo(false), h: FlagMod::SetTo(false), cy: FlagMod::Eval },
        0xcb1a => FlagStatus { z: FlagMod::Eval, n: FlagMod::SetTo(false), h: FlagMod::SetTo(false), cy: FlagMod::Eval },
        0xcb1b => FlagStatus { z: FlagMod::Eval, n: FlagMod::SetTo(false), h: FlagMod::SetTo(false), cy: FlagMod::Eval },
        0xcb1c => FlagStatus { z: FlagMod::Eval, n: FlagMod::SetTo(false), h: FlagMod::SetTo(false), cy: FlagMod::Eval },
        0xcb1d => FlagStatus { z: FlagMod::Eval, n: FlagMod::SetTo(false), h: FlagMod::SetTo(false), cy: FlagMod::Eval },
        0xcb1e => FlagStatus { z: FlagMod::Eval, n: FlagMod::SetTo(false), h: FlagMod::SetTo(false), cy: FlagMod::Eval },
        0xcb1f => FlagStatus { z: FlagMod::Eval, n: FlagMod::SetTo(false), h: FlagMod::SetTo(false), cy: FlagMod::Eval },
        0xcb20 => FlagStatus { z: FlagMod::Eval, n: FlagMod::SetTo(false), h: FlagMod::SetTo(false), cy: FlagMod::Eval },
        0xcb21 => FlagStatus { z: FlagMod::Eval, n: FlagMod::SetTo(false), h: FlagMod::SetTo(false), cy: FlagMod::Eval },
        0xcb22 => FlagStatus { z: FlagMod::Eval, n: FlagMod::SetTo(false), h: FlagMod::SetTo(false), cy: FlagMod::Eval },
        0xcb23 => FlagStatus { z: FlagMod::Eval, n: FlagMod::SetTo(false), h: FlagMod::SetTo(false), cy: FlagMod::Eval },
        0xcb24 => FlagStatus { z: FlagMod::Eval, n: FlagMod::SetTo(false), h: FlagMod::SetTo(false), cy: FlagMod::Eval },
        0xcb25 => FlagStatus { z: FlagMod::Eval, n: FlagMod::SetTo(false), h: FlagMod::SetTo(false), cy: FlagMod::Eval },
        0xcb26 => FlagStatus { z: FlagMod::Eval, n: FlagMod::SetTo(false), h: FlagMod::SetTo(false), cy: FlagMod::Eval },
        0xcb27 => FlagStatus { z: FlagMod::Eval, n: FlagMod::SetTo(false), h: FlagMod::SetTo(false), cy: FlagMod::Eval },
        0xcb28 => FlagStatus { z: FlagMod::Eval, n: FlagMod::SetTo(false), h: FlagMod::SetTo(false), cy: FlagMod::SetTo(false) },
        0xcb29 => FlagStatus { z: FlagMod::Eval, n: FlagMod::SetTo(false), h: FlagMod::SetTo(false), cy: FlagMod::SetTo(false) },
        0xcb2a => FlagStatus { z: FlagMod::Eval, n: FlagMod::SetTo(false), h: FlagMod::SetTo(false), cy: FlagMod::SetTo(false) },
        0xcb2b => FlagStatus { z: FlagMod::Eval, n: FlagMod::SetTo(false), h: FlagMod::SetTo(false), cy: FlagMod::SetTo(false) },
        0xcb2c => FlagStatus { z: FlagMod::Eval, n: FlagMod::SetTo(false), h: FlagMod::SetTo(false), cy: FlagMod::SetTo(false) },
        0xcb2d => FlagStatus { z: FlagMod::Eval, n: FlagMod::SetTo(false), h: FlagMod::SetTo(false), cy: FlagMod::SetTo(false) },
        0xcb2e => FlagStatus { z: FlagMod::Eval, n: FlagMod::SetTo(false), h: FlagMod::SetTo(false), cy: FlagMod::SetTo(false) },
        0xcb2f => FlagStatus { z: FlagMod::Eval, n: FlagMod::SetTo(false), h: FlagMod::SetTo(false), cy: FlagMod::SetTo(false) },
        0xcb30 => FlagStatus { z: FlagMod::Eval, n: FlagMod::SetTo(false), h: FlagMod::SetTo(false), cy: FlagMod::SetTo(false) },
        0xcb31 => FlagStatus { z: FlagMod::Eval, n: FlagMod::SetTo(false), h: FlagMod::SetTo(false), cy: FlagMod::SetTo(false) },
        0xcb32 => FlagStatus { z: FlagMod::Eval, n: FlagMod::SetTo(false), h: FlagMod::SetTo(false), cy: FlagMod::SetTo(false) },
        0xcb33 => FlagStatus { z: FlagMod::Eval, n: FlagMod::SetTo(false), h: FlagMod::SetTo(false), cy: FlagMod::SetTo(false) },
        0xcb34 => FlagStatus { z: FlagMod::Eval, n: FlagMod::SetTo(false), h: FlagMod::SetTo(false), cy: FlagMod::SetTo(false) },
        0xcb35 => FlagStatus { z: FlagMod::Eval, n: FlagMod::SetTo(false), h: FlagMod::SetTo(false), cy: FlagMod::SetTo(false) },
        0xcb36 => FlagStatus { z: FlagMod::Eval, n: FlagMod::SetTo(false), h: FlagMod::SetTo(false), cy: FlagMod::SetTo(false) },
        0xcb37 => FlagStatus { z: FlagMod::Eval, n: FlagMod::SetTo(false), h: FlagMod::SetTo(false), cy: FlagMod::SetTo(false) },
        0xcb38 => FlagStatus { z: FlagMod::Eval, n: FlagMod::SetTo(false), h: FlagMod::SetTo(false), cy: FlagMod::Eval },
        0xcb39 => FlagStatus { z: FlagMod::Eval, n: FlagMod::SetTo(false), h: FlagMod::SetTo(false), cy: FlagMod::Eval },
        0xcb3a => FlagStatus { z: FlagMod::Eval, n: FlagMod::SetTo(false), h: FlagMod::SetTo(false), cy: FlagMod::Eval },
        0xcb3b => FlagStatus { z: FlagMod::Eval, n: FlagMod::SetTo(false), h: FlagMod::SetTo(false), cy: FlagMod::Eval },
        0xcb3c => FlagStatus { z: FlagMod::Eval, n: FlagMod::SetTo(false), h: FlagMod::SetTo(false), cy: FlagMod::Eval },
        0xcb3d => FlagStatus { z: FlagMod::Eval, n: FlagMod::SetTo(false), h: FlagMod::SetTo(false), cy: FlagMod::Eval },
        0xcb3e => FlagStatus { z: FlagMod::Eval, n: FlagMod::SetTo(false), h: FlagMod::SetTo(false), cy: FlagMod::Eval },
        0xcb3f => FlagStatus { z: FlagMod::Eval, n: FlagMod::SetTo(false), h: FlagMod::SetTo(false), cy: FlagMod::Eval },
        0xcb40 => FlagStatus { z: FlagMod::Eval, n: FlagMod::SetTo(false), h: FlagMod::SetTo(true), cy: FlagMod::Ignore },
        0xcb41 => FlagStatus { z: FlagMod::Eval, n: FlagMod::SetTo(false), h: FlagMod::SetTo(true), cy: FlagMod::Ignore },
        0xcb42 => FlagStatus { z: FlagMod::Eval, n: FlagMod::SetTo(false), h: FlagMod::SetTo(true), cy: FlagMod::Ignore },
        0xcb43 => FlagStatus { z: FlagMod::Eval, n: FlagMod::SetTo(false), h: FlagMod::SetTo(true), cy: FlagMod::Ignore },
        0xcb44 => FlagStatus { z: FlagMod::Eval, n: FlagMod::SetTo(false), h: FlagMod::SetTo(true), cy: FlagMod::Ignore },
        0xcb45 => FlagStatus { z: FlagMod::Eval, n: FlagMod::SetTo(false), h: FlagMod::SetTo(true), cy: FlagMod::Ignore },
        0xcb46 => FlagStatus { z: FlagMod::Eval, n: FlagMod::SetTo(false), h: FlagMod::SetTo(true), cy: FlagMod::Ignore },
        0xcb47 => FlagStatus { z: FlagMod::Eval, n: FlagMod::SetTo(false), h: FlagMod::SetTo(true), cy: FlagMod::Ignore },
        0xcb48 => FlagStatus { z: FlagMod::Eval, n: FlagMod::SetTo(false), h: FlagMod::SetTo(true), cy: FlagMod::Ignore },
        0xcb49 => FlagStatus { z: FlagMod::Eval, n: FlagMod::SetTo(false), h: FlagMod::SetTo(true), cy: FlagMod::Ignore },
        0xcb4a => FlagStatus { z: FlagMod::Eval, n: FlagMod::SetTo(false), h: FlagMod::SetTo(true), cy: FlagMod::Ignore },
        0xcb4b => FlagStatus { z: FlagMod::Eval, n: FlagMod::SetTo(false), h: FlagMod::SetTo(true), cy: FlagMod::Ignore },
        0xcb4c => FlagStatus { z: FlagMod::Eval, n: FlagMod::SetTo(false), h: FlagMod::SetTo(true), cy: FlagMod::Ignore },
        0xcb4d => FlagStatus { z: FlagMod::Eval, n: FlagMod::SetTo(false), h: FlagMod::SetTo(true), cy: FlagMod::Ignore },
        0xcb4e => FlagStatus { z: FlagMod::Eval, n: FlagMod::SetTo(false), h: FlagMod::SetTo(true), cy: FlagMod::Ignore },
        0xcb4f => FlagStatus { z: FlagMod::Eval, n: FlagMod::SetTo(false), h: FlagMod::SetTo(true), cy: FlagMod::Ignore },
        0xcb50 => FlagStatus { z: FlagMod::Eval, n: FlagMod::SetTo(false), h: FlagMod::SetTo(true), cy: FlagMod::Ignore },
        0xcb51 => FlagStatus { z: FlagMod::Eval, n: FlagMod::SetTo(false), h: FlagMod::SetTo(true), cy: FlagMod::Ignore },
        0xcb52 => FlagStatus { z: FlagMod::Eval, n: FlagMod::SetTo(false), h: FlagMod::SetTo(true), cy: FlagMod::Ignore },
        0xcb53 => FlagStatus { z: FlagMod::Eval, n: FlagMod::SetTo(false), h: FlagMod::SetTo(true), cy: FlagMod::Ignore },
        0xcb54 => FlagStatus { z: FlagMod::Eval, n: FlagMod::SetTo(false), h: FlagMod::SetTo(true), cy: FlagMod::Ignore },
        0xcb55 => FlagStatus { z: FlagMod::Eval, n: FlagMod::SetTo(false), h: FlagMod::SetTo(true), cy: FlagMod::Ignore },
        0xcb56 => FlagStatus { z: FlagMod::Eval, n: FlagMod::SetTo(false), h: FlagMod::SetTo(true), cy: FlagMod::Ignore },
        0xcb57 => FlagStatus { z: FlagMod::Eval, n: FlagMod::SetTo(false), h: FlagMod::SetTo(true), cy: FlagMod::Ignore },
        0xcb58 => FlagStatus { z: FlagMod::Eval, n: FlagMod::SetTo(false), h: FlagMod::SetTo(true), cy: FlagMod::Ignore },
        0xcb59 => FlagStatus { z: FlagMod::Eval, n: FlagMod::SetTo(false), h: FlagMod::SetTo(true), cy: FlagMod::Ignore },
        0xcb5a => FlagStatus { z: FlagMod::Eval, n: FlagMod::SetTo(false), h: FlagMod::SetTo(true), cy: FlagMod::Ignore },
        0xcb5b => FlagStatus { z: FlagMod::Eval, n: FlagMod::SetTo(false), h: FlagMod::SetTo(true), cy: FlagMod::Ignore },
        0xcb5c => FlagStatus { z: FlagMod::Eval, n: FlagMod::SetTo(false), h: FlagMod::SetTo(true), cy: FlagMod::Ignore },
        0xcb5d => FlagStatus { z: FlagMod::Eval, n: FlagMod::SetTo(false), h: FlagMod::SetTo(true), cy: FlagMod::Ignore },
        0xcb5e => FlagStatus { z: FlagMod::Eval, n: FlagMod::SetTo(false), h: FlagMod::SetTo(true), cy: FlagMod::Ignore },
        0xcb5f => FlagStatus { z: FlagMod::Eval, n: FlagMod::SetTo(false), h: FlagMod::SetTo(true), cy: FlagMod::Ignore },
        0xcb60 => FlagStatus { z: FlagMod::Eval, n: FlagMod::SetTo(false), h: FlagMod::SetTo(true), cy: FlagMod::Ignore },
        0xcb61 => FlagStatus { z: FlagMod::Eval, n: FlagMod::SetTo(false), h: FlagMod::SetTo(true), cy: FlagMod::Ignore },
        0xcb62 => FlagStatus { z: FlagMod::Eval, n: FlagMod::SetTo(false), h: FlagMod::SetTo(true), cy: FlagMod::Ignore },
        0xcb63 => FlagStatus { z: FlagMod::Eval, n: FlagMod::SetTo(false), h: FlagMod::SetTo(true), cy: FlagMod::Ignore },
        0xcb64 => FlagStatus { z: FlagMod::Eval, n: FlagMod::SetTo(false), h: FlagMod::SetTo(true), cy: FlagMod::Ignore },
        0xcb65 => FlagStatus { z: FlagMod::Eval, n: FlagMod::SetTo(false), h: FlagMod::SetTo(true), cy: FlagMod::Ignore },
        0xcb66 => FlagStatus { z: FlagMod::Eval, n: FlagMod::SetTo(false), h: FlagMod::SetTo(true), cy: FlagMod::Ignore },
        0xcb67 => FlagStatus { z: FlagMod::Eval, n: FlagMod::SetTo(false), h: FlagMod::SetTo(true), cy: FlagMod::Ignore },
        0xcb68 => FlagStatus { z: FlagMod::Eval, n: FlagMod::SetTo(false), h: FlagMod::SetTo(true), cy: FlagMod::Ignore },
        0xcb69 => FlagStatus { z: FlagMod::Eval, n: FlagMod::SetTo(false), h: FlagMod::SetTo(true), cy: FlagMod::Ignore },
        0xcb6a => FlagStatus { z: FlagMod::Eval, n: FlagMod::SetTo(false), h: FlagMod::SetTo(true), cy: FlagMod::Ignore },
        0xcb6b => FlagStatus { z: FlagMod::Eval, n: FlagMod::SetTo(false), h: FlagMod::SetTo(true), cy: FlagMod::Ignore },
        0xcb6c => FlagStatus { z: FlagMod::Eval, n: FlagMod::SetTo(false), h: FlagMod::SetTo(true), cy: FlagMod::Ignore },
        0xcb6d => FlagStatus { z: FlagMod::Eval, n: FlagMod::SetTo(false), h: FlagMod::SetTo(true), cy: FlagMod::Ignore },
        0xcb6e => FlagStatus { z: FlagMod::Eval, n: FlagMod::SetTo(false), h: FlagMod::SetTo(true), cy: FlagMod::Ignore },
        0xcb6f => FlagStatus { z: FlagMod::Eval, n: FlagMod::SetTo(false), h: FlagMod::SetTo(true), cy: FlagMod::Ignore },
        0xcb70 => FlagStatus { z: FlagMod::Eval, n: FlagMod::SetTo(false), h: FlagMod::SetTo(true), cy: FlagMod::Ignore },
        0xcb71 => FlagStatus { z: FlagMod::Eval, n: FlagMod::SetTo(false), h: FlagMod::SetTo(true), cy: FlagMod::Ignore },
        0xcb72 => FlagStatus { z: FlagMod::Eval, n: FlagMod::SetTo(false), h: FlagMod::SetTo(true), cy: FlagMod::Ignore },
        0xcb73 => FlagStatus { z: FlagMod::Eval, n: FlagMod::SetTo(false), h: FlagMod::SetTo(true), cy: FlagMod::Ignore },
        0xcb74 => FlagStatus { z: FlagMod::Eval, n: FlagMod::SetTo(false), h: FlagMod::SetTo(true), cy: FlagMod::Ignore },
        0xcb75 => FlagStatus { z: FlagMod::Eval, n: FlagMod::SetTo(false), h: FlagMod::SetTo(true), cy: FlagMod::Ignore },
        0xcb76 => FlagStatus { z: FlagMod::Eval, n: FlagMod::SetTo(false), h: FlagMod::SetTo(true), cy: FlagMod::Ignore },
        0xcb77 => FlagStatus { z: FlagMod::Eval, n: FlagMod::SetTo(false), h: FlagMod::SetTo(true), cy: FlagMod::Ignore },
        0xcb78 => FlagStatus { z: FlagMod::Eval, n: FlagMod::SetTo(false), h: FlagMod::SetTo(true), cy: FlagMod::Ignore },
        0xcb79 => FlagStatus { z: FlagMod::Eval, n: FlagMod::SetTo(false), h: FlagMod::SetTo(true), cy: FlagMod::Ignore },
        0xcb7a => FlagStatus { z: FlagMod::Eval, n: FlagMod::SetTo(false), h: FlagMod::SetTo(true), cy: FlagMod::Ignore },
        0xcb7b => FlagStatus { z: FlagMod::Eval, n: FlagMod::SetTo(false), h: FlagMod::SetTo(true), cy: FlagMod::Ignore },
        0xcb7c => FlagStatus { z: FlagMod::Eval, n: FlagMod::SetTo(false), h: FlagMod::SetTo(true), cy: FlagMod::Ignore },
        0xcb7d => FlagStatus { z: FlagMod::Eval, n: FlagMod::SetTo(false), h: FlagMod::SetTo(true), cy: FlagMod::Ignore },
        0xcb7e => FlagStatus { z: FlagMod::Eval, n: FlagMod::SetTo(false), h: FlagMod::SetTo(true), cy: FlagMod::Ignore },
        0xcb7f => FlagStatus { z: FlagMod::Eval, n: FlagMod::SetTo(false), h: FlagMod::SetTo(true), cy: FlagMod::Ignore },
        _ => FlagStatus { z: FlagMod::Ignore, n: FlagMod::Ignore, h: FlagMod::Ignore, cy: FlagMod::Ignore },
    }
}

} // verus!
