use gblite::lookup::{get_flags, get_instruction};
use gblite::registers::FlagMod;

#[test]
fn nop_entry() {
    let inst = get_instruction(0x00);
    assert_eq!(inst.opcode, 0x00);
    assert!(!inst.prefix_cb);
    assert_eq!(inst.name, "NOP");
    assert_eq!(inst.bytes, 1);
    assert_eq!(inst.clocks, 4);
}

#[test]
fn load_block_entries() {
    let inst = get_instruction(0x41);
    assert_eq!(inst.name, "LD B,C");
    assert_eq!(inst.bytes, 1);
    assert_eq!(inst.clocks, 4);
    let inst = get_instruction(0x76);
    assert_eq!(inst.name, "HALT");
    let inst = get_instruction(0x86);
    assert_eq!(inst.name, "ADD A,(HL)");
    assert_eq!(inst.clocks, 8);
}

#[test]
fn prefixed_entries() {
    let inst = get_instruction(0xCB37);
    assert_eq!(inst.opcode, 0x37);
    assert!(inst.prefix_cb);
    assert_eq!(inst.name, "SWAP A");
    assert_eq!(inst.bytes, 2);
    assert_eq!(inst.clocks, 8);
    let inst = get_instruction(0xCB46);
    assert_eq!(inst.name, "BIT 0,(HL)");
    assert_eq!(inst.clocks, 16);
}

#[test]
fn table_entries_with_operands() {
    let inst = get_instruction(0xC3);
    assert_eq!(inst.name, "JP a16");
    assert_eq!(inst.bytes, 3);
    let inst = get_instruction(0xD3);
    assert_eq!(inst.name, "UNKNOWN_D3");
    assert_eq!(inst.bytes, 0);
}

#[test]
fn undefined_opcode() {
    let inst = get_instruction(0x1234);
    assert_eq!(inst.name, "UNDEFINED");
    assert_eq!(inst.bytes, 0);
}

#[test]
fn flag_modifiers() {
    let f = get_flags(0x80);
    assert!(f.z == FlagMod::Eval && f.n == FlagMod::SetTo(false) && f.h == FlagMod::Eval && f.cy == FlagMod::Eval);
    let f = get_flags(0xA0);
    assert!(f.z == FlagMod::Eval && f.n == FlagMod::SetTo(false) && f.h == FlagMod::SetTo(true) && f.cy == FlagMod::SetTo(false));
    let f = get_flags(0x00);
    assert!(f.z == FlagMod::Ignore && f.n == FlagMod::Ignore && f.h == FlagMod::Ignore && f.cy == FlagMod::Ignore);
    let f = get_flags(0xCB7F);
    assert!(f.z == FlagMod::Eval && f.n == FlagMod::SetTo(false) && f.h == FlagMod::SetTo(true) && f.cy == FlagMod::Ignore);
}

#[test]
fn no_instruction_evaluates_n() {
    for op in (0u16..0x100).chain(0xCB00..0xCC00) {
        assert!(get_flags(op).n != FlagMod::Eval);
    }
}
