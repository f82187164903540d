use gblite::registers::{Flag, Reg16, Reg8, RegOps, RegisterCache};

#[test]
fn register_set() {
    let mut rc = RegisterCache::new();
    rc.set(Reg16::HL, 0x322);
    assert_eq!(rc.get(Reg16::HL), 0x322);
}

#[test]
fn new_registers_are_zero() {
    let rc = RegisterCache::new();
    for r in [Reg16::AF, Reg16::BC, Reg16::DE, Reg16::HL, Reg16::SP, Reg16::PC] {
        let v: u16 = rc.get(r);
        assert_eq!(v, 0);
    }
}

#[test]
fn pair_write_sets_both_halves() {
    let mut rc = RegisterCache::new();
    rc.set(Reg16::BC, 0xFF11);
    let b: u8 = rc.get(Reg8::B);
    let c: u8 = rc.get(Reg8::C);
    assert_eq!((b, c), (0xFF, 0x11));
    rc.set(Reg8::L, 0x34);
    rc.set(Reg8::H, 0x12);
    let hl: u16 = rc.get(Reg16::HL);
    assert_eq!(hl, 0x1234);
}

#[test]
fn byte_write_leaves_other_registers() {
    let mut rc = RegisterCache::new();
    rc.set(Reg16::DE, 0xABCD);
    rc.set(Reg8::D, 0x01);
    let e: u8 = rc.get(Reg8::E);
    let de: u16 = rc.get(Reg16::DE);
    assert_eq!(e, 0xCD);
    assert_eq!(de, 0x01CD);
}

#[test]
fn add_and_sub_wrap() {
    let mut rc = RegisterCache::new();
    rc.set(Reg8::A, 0xFF);
    rc.add(Reg8::A, 1u8);
    let a: u8 = rc.get(Reg8::A);
    assert_eq!(a, 0);
    rc.sub(Reg16::SP, 1u16);
    let sp: u16 = rc.get(Reg16::SP);
    assert_eq!(sp, 0xFFFF);
}

#[test]
fn copy_register() {
    let mut rc = RegisterCache::new();
    rc.set(Reg16::HL, 0xBEEF);
    rc.copy(Reg16::SP, Reg16::HL);
    let sp: u16 = rc.get(Reg16::SP);
    assert_eq!(sp, 0xBEEF);
}

#[test]
fn flags_live_in_f() {
    let mut rc = RegisterCache::new();
    rc.set_flag(Flag::Z, true);
    rc.set_flag(Flag::CY, true);
    let f: u8 = rc.get(Reg8::F);
    assert_eq!(f, 0x90);
    assert!(rc.get_flag(Flag::Z));
    assert!(!rc.get_flag(Flag::N));
    assert!(!rc.get_flag(Flag::H));
    assert!(rc.get_flag(Flag::CY));
    rc.set_flag(Flag::Z, false);
    assert!(!rc.get_flag(Flag::Z));
    assert!(rc.get_flag(Flag::CY));
}

#[test]
fn register_dump_text() {
    let mut rc = RegisterCache::new();
    rc.set(Reg16::BC, 0x12AB);
    rc.set(Reg16::SP, 0xFFFE);
    rc.set(Reg16::PC, 0x0150);
    rc.set_flag(Flag::Z, true);
    rc.set_flag(Flag::H, true);
    let expected = "AF: (0x00, 0xa0, 0x00a0)\n\
                    BC: (0x12, 0xab, 0x12ab)\n\
                    DE: (0x00, 0x00, 0x0000)\n\
                    HL: (0x00, 0x00, 0x0000)\n\
                    Flags: Z: true, N: false, H: true, CY: false\n\
                    PC: 0x0150, SP: 0xfffe\n";
    assert_eq!(rc.print_registers(), expected);
}
