//! What the instruction table says of instruction lengths, from the shape of
//! the opcodes, and what the register dump shows.
use vstd::prelude::*;

use crate::cpu::invalid_opcode;
use crate::lookup::instruction_spec;
use crate::registers::{hex_text, pair_text, registers_text, RegFile};

verus! {

/// How many operand bytes follow an opcode of the table part (0x00-0x3F,
/// 0xC0-0xFF): one for LD r,d8, LD (HL),d8, STOP, JR, the ALU's d8 forms, LDH,
/// ADD SP,r8, LD HL,SP+r8, and LD (C),A and LD A,(C), which the table lists
/// with two bytes; two for LD rr,d16, LD (a16),SP, JP, CALL and the a16 loads
/// of A; none otherwise.
pub open spec fn operand_bytes(op: int) -> int {
    if op < 0x40 {
        if op % 8 == 6 || (op % 8 == 0 && op >= 0x10) {
            1
        } else if op % 16 == 1 || op == 0x08 {
            2
        } else {
            0
        }
    } else if op >= 0xc0 {
        if op % 8 == 6 || op == 0xe0 || op == 0xf0 || op == 0xe2 || op == 0xf2 || op == 0xe8 || op == 0xf8 {
            1
        } else if (op < 0xe0 && (op % 8 == 2 || op % 8 == 4)) || op == 0xc3 || op == 0xcd || op == 0xea || op
            == 0xfa {
            2
        } else {
            0
        }
    } else {
        0
    }
}

/// An instruction's length is its opcode byte (two for the 0xCB set) and its
/// operand bytes: every instruction with an 8-bit immediate (d8, r8, a8) is
/// two bytes long and every one with a 16-bit immediate (d16, a16) three. The
/// one-byte loads and ALU operations of 0x40-0xBF are one byte; opcodes with
/// no instruction have length 0.
#[verifier::rlimit(100)]
pub proof fn law_instruction_length(op: u16)
    ensures
        op < 0x100 && invalid_opcode(op) ==> instruction_spec(op).3 == 0,
        op < 0x40 || (0xc0 <= op < 0x100) ==> !invalid_opcode(op) ==> instruction_spec(op).3 == 1 + operand_bytes(
            op as int,
        ),
        0x40 <= op < 0xc0 ==> instruction_spec(op).3 == 1,
        0xcb00 <= op <= 0xcbff ==> instruction_spec(op).3 == 2,
        (0x100 <= op < 0xcb00 || 0xcbff < op) ==> instruction_spec(op).3 == 0,
{
}

/// The register dump shows AF, BC, DE and HL in that order, each as its high
/// byte, its low byte and the word made of both; then the flags line, where Z,
/// N, H and CY show bits 7, 6, 5 and 4 of F; then PC and SP.
pub proof fn law_register_text(r: RegFile, hi: u8, lo: u8)
    ensures
        registers_text(r) == "AF: "@ + pair_text(r.a, r.f) + "BC: "@ + pair_text(r.b, r.c) + "DE: "@ + pair_text(
            r.d,
            r.e,
        ) + "HL: "@ + pair_text(r.h, r.l) + "Flags: Z: "@ + (if r.f >= 128 { "true"@ } else { "false"@ })
            + ", N: "@ + (if (r.f / 64) % 2 == 1 { "true"@ } else { "false"@ }) + ", H: "@ + (if (r.f / 32) % 2
            == 1 { "true"@ } else { "false"@ }) + ", CY: "@ + (if (r.f / 16) % 2 == 1 { "true"@ } else { "false"@ })
            + "\nPC: 0x"@ + hex_text(r.pc as nat, 4) + ", SP: 0x"@ + hex_text(r.sp as nat, 4) + "\n"@,
        pair_text(hi, lo) == "(0x"@ + hex_text(hi as nat, 2) + ", 0x"@ + hex_text(lo as nat, 2) + ", 0x"@
            + hex_text((hi * 256 + lo) as nat, 4) + ")\n"@,
{
    crate::isa_alu_laws::lemma_flag_bits(r.f);
}

/// Only the conditional instructions (JR cc, JP cc, CALL cc, RET cc) list
/// extra clocks for their longer path.
pub proof fn law_extra_clocks_only_when_conditional(op: u16)
    ensures
        instruction_spec(op).5 != 0 <==> (op == 0x20 || op == 0x28 || op == 0x30 || op == 0x38 || (0xc0 <= op < 0xe0
            && (op % 8 == 0 || op % 8 == 2 || op % 8 == 4) && !invalid_opcode(op))),
{
}

/// An instruction is marked as modifying flags exactly when its flag
/// modifiers change some flag, and for POP AF, which loads F.
pub proof fn law_modifies_flags_marks(op: u16)
    ensures
        instruction_spec(op).6 <==> (op == 0xf1 || crate::lookup::flags_spec(op) != crate::lookup::all_ignored()),
{
}

/// The operand names of the regular blocks, by the opcode's three-bit field.
pub open spec fn operand_names() -> Seq<Seq<char>> {
    seq!["B"@, "C"@, "D"@, "E"@, "H"@, "L"@, "(HL)"@, "A"@]
}

/// The ALU mnemonics of 0x80-0xBF, by bits 3-5 of the opcode.
pub open spec fn alu_names() -> Seq<Seq<char>> {
    seq!["ADD A,"@, "ADC A,"@, "SUB "@, "SBC A,"@, "AND "@, "XOR "@, "OR "@, "CP "@]
}

/// The rotation and shift mnemonics of the 0xCB set, by bits 3-5.
pub open spec fn rotation_names() -> Seq<Seq<char>> {
    seq!["RLC"@, "RRC"@, "RL"@, "RR"@, "SLA"@, "SRA"@, "SWAP"@, "SRL"@]
}

/// The bit mnemonics of the 0xCB set and the bit indexes as digits.
pub open spec fn bit_names() -> Seq<Seq<char>> {
    seq!["BIT"@, "RES"@, "SET"@]
}

/// The decimal digits 0-7.
pub open spec fn digit_names() -> Seq<Seq<char>> {
    seq!["0"@, "1"@, "2"@, "3"@, "4"@, "5"@, "6"@, "7"@]
}

/// The name lists agree with the table's own helpers, index by index.
proof fn lemma_name_lists(i: int)
    requires
        0 <= i < 8,
    ensures
        operand_names()[i] == crate::lookup::operand_name(i),
        alu_names()[i] == crate::lookup::arith_prefix(i),
        rotation_names()[i] == crate::lookup::rotate_name(i),
        digit_names()[i] == crate::lookup::bit_digit(i),
        1 <= i <= 3 ==> bit_names()[i - 1] == crate::lookup::bit_op_name(i),
{
}

/// The names of the regular blocks: LD dst,src in 0x40-0x7F (0x76 is HALT),
/// the ALU operation and its operand in 0x80-0xBF, and in the 0xCB set the
/// rotation or shift and its operand, or BIT/RES/SET with the bit index.
#[verifier::rlimit(100)]
pub proof fn law_block_names(op: u16)
    ensures
        0x40 <= op < 0x80 && op != 0x76 ==> instruction_spec(op).2 == "LD "@ + operand_names()[((op / 8) % 8) as int]
            + ","@ + operand_names()[(op % 8) as int],
        op == 0x76 ==> instruction_spec(op).2 == "HALT"@,
        0x80 <= op < 0xc0 ==> instruction_spec(op).2 == alu_names()[((op / 8) % 8) as int] + operand_names()[(op
            % 8) as int],
        0xcb00 <= op < 0xcb40 ==> instruction_spec(op).2 == rotation_names()[((op / 8) % 8) as int] + " "@
            + operand_names()[(op % 8) as int],
        0xcb40 <= op <= 0xcbff ==> instruction_spec(op).2 == bit_names()[((op - 0xcb40) / 64) as int] + " "@
            + digit_names()[((op / 8) % 8) as int] + ","@ + operand_names()[(op % 8) as int],
{
    lemma_name_lists(((op / 8) % 8) as int);
    lemma_name_lists((op % 8) as int);
    if 0x40 <= op < 0xc0 {
        assert(instruction_spec(op).2 == (if op == 0x76 { "HALT"@ } else { crate::lookup::block_name(op as int) }));
    } else if 0xcb00 <= op <= 0xcbff {
        let lo = (op - 0xcb00) as int;
        lemma_name_lists(lo / 64);
        assert(lo / 8 % 8 == ((op / 8) % 8) as int);
        assert(lo % 8 == (op % 8) as int);
        assert(instruction_spec(op).2 == crate::lookup::cb_name(lo));
    }
}

/// The minimum clocks of the table part (0x00-0x3F, 0xC0-0xFF), by the kind
/// of instruction: 4 for register-only work, 8 when one more byte is read or
/// written (or a 16-bit register stepped), and more for the 16-bit loads,
/// stack and control transfers; 0 for opcodes with no instruction.
pub open spec fn table_clocks(op: int) -> int {
    let r = op % 8;
    if op < 0x40 {
        if op == 0x00 || op == 0x10 {
            4
        } else if op == 0x08 {
            20
        } else if op == 0x18 {
            12
        } else if r == 0 {
            8
        } else if op % 16 == 1 {
            12
        } else if op % 16 == 9 {
            8
        } else if r == 2 || r == 3 {
            8
        } else if op == 0x34 || op == 0x35 || op == 0x36 {
            12
        } else if r == 6 {
            8
        } else {
            4
        }
    } else if invalid_opcode(op as u16) {
        0
    } else if op == 0xc9 || op == 0xd9 || op == 0xc3 || op == 0xea || op == 0xfa || op == 0xe8 {
        16
    } else if op == 0xcd {
        24
    } else if op == 0xcb || op == 0xe9 || op == 0xf3 || op == 0xfb {
        4
    } else if op == 0xe2 || op == 0xf2 || op == 0xf9 {
        8
    } else if op == 0xe0 || op == 0xf0 || op == 0xf8 {
        12
    } else if r == 0 || r == 6 {
        8
    } else if r == 1 || r == 2 || r == 4 {
        12
    } else {
        16
    }
}

/// The clocks that the table lists: `table_clocks` for the table part; 4 for
/// the loads and ALU operations between registers in 0x40-0xBF and 8 when
/// they go through (HL); 8 for the 0xCB set and 16 when it works on (HL).
#[verifier::rlimit(100)]
pub proof fn law_instruction_clocks(op: u16)
    ensures
        op < 0x40 || (0xc0 <= op < 0x100) ==> instruction_spec(op).4 == table_clocks(op as int),
        0x40 <= op < 0xc0 ==> instruction_spec(op).4 == (if op != 0x76 && (op % 8 == 6 || (op < 0x80 && (op / 8)
            % 8 == 6)) { 8int } else { 4 }),
        0xcb00 <= op <= 0xcbff ==> instruction_spec(op).4 == (if op % 8 == 6 { 16int } else { 8 }),
{
}

/// The trace line lists an instruction's operand bytes in the order they
/// follow the opcode: for two bytes the one after the opcode, for three also
/// the one after that, each as `0xhh ` in two hex digits.
pub proof fn law_trace_operands(mem: crate::memory::MemView, pc: u16)
    ensures
        crate::cpu::operand_bytes_text(mem, pc, 1) == Seq::<char>::empty(),
        crate::cpu::operand_bytes_text(mem, pc, 2) == "0x"@ + hex_text(mem.read((pc + 1) as u16) as nat, 2) + " "@,
        crate::cpu::operand_bytes_text(mem, pc, 3) == "0x"@ + hex_text(mem.read((pc + 1) as u16) as nat, 2) + " "@
            + "0x"@ + hex_text(mem.read((pc + 2) as u16) as nat, 2) + " "@,
{
    let h1 = hex_text(mem.read((pc + 1) as u16) as nat, 2);
    let h2 = hex_text(mem.read((pc + 2) as u16) as nat, 2);
    let e = crate::cpu::operand_bytes_text(mem, pc, 1);
    assert(e == Seq::<char>::empty());
    assert(((pc + 2 - 1) as u16) == ((pc + 1) as u16));
    assert(((pc + 3 - 1) as u16) == ((pc + 2) as u16));
    assert(crate::cpu::operand_bytes_text(mem, pc, 2) == e + "0x"@ + h1 + " "@);
    assert(e + "0x"@ + h1 + " "@ =~= "0x"@ + h1 + " "@);
    assert(crate::cpu::operand_bytes_text(mem, pc, 3) == crate::cpu::operand_bytes_text(mem, pc, 2) + "0x"@ + h2
        + " "@);
    assert(("0x"@ + h1 + " "@) + "0x"@ + h2 + " "@ =~= "0x"@ + h1 + " "@ + "0x"@ + h2 + " "@);
}

} // verus!
