use gblite::alu::{alu, alu16, AluInput, AluInput16, AluOp};

fn run(op: AluOp, a: u8, b: u8, cy: bool) -> (u8, bool, bool, bool, bool) {
    let out = alu(AluInput { op, op_a: a, op_b: b, flag_z: false, flag_n: false, flag_h: false, flag_cy: cy });
    (out.result, out.flag_z, out.flag_n, out.flag_h, out.flag_cy)
}

#[test]
fn add_sets_half_and_full_carry() {
    assert_eq!(run(AluOp::Add(false), 0x0F, 0x01, false), (0x10, false, false, true, false));
    assert_eq!(run(AluOp::Add(false), 0xFF, 0x01, false), (0x00, true, false, true, true));
    assert_eq!(run(AluOp::Add(true), 0x10, 0x01, true), (0x12, false, false, false, false));
    assert_eq!(run(AluOp::Add(false), 0x10, 0x01, true), (0x11, false, false, false, false));
}

#[test]
fn sub_borrows() {
    assert_eq!(run(AluOp::Sub(false), 0x10, 0x01, false), (0x0F, false, false, true, false));
    assert_eq!(run(AluOp::Sub(false), 0x00, 0x01, false), (0xFF, false, false, true, true));
    assert_eq!(run(AluOp::Sub(true), 0x05, 0x05, true), (0xFF, false, false, true, true));
    assert_eq!(run(AluOp::Sub(false), 0x05, 0x05, false), (0x00, true, false, false, false));
}

#[test]
fn compare_keeps_the_operand() {
    assert_eq!(run(AluOp::Comp, 0x42, 0x42, false), (0x42, true, false, false, false));
    assert_eq!(run(AluOp::Comp, 0x10, 0x20, false), (0x10, false, false, false, true));
}

#[test]
fn bitwise_operations() {
    assert_eq!(run(AluOp::And, 0xF0, 0x3C, true).0, 0x30);
    assert_eq!(run(AluOp::Xor, 0xFF, 0xFF, false), (0x00, true, false, false, false));
    assert_eq!(run(AluOp::Or, 0x0F, 0xF0, false).0, 0xFF);
}

#[test]
fn rotations_and_shifts() {
    assert_eq!(run(AluOp::RotateLeft(true), 0x81, 0, false), (0x03, false, false, false, true));
    assert_eq!(run(AluOp::RotateLeft(false), 0x01, 0, true), (0x03, false, false, false, false));
    assert_eq!(run(AluOp::RotateRight(true), 0x01, 0, false), (0x80, false, false, false, true));
    assert_eq!(run(AluOp::RotateRight(false), 0x02, 0, true), (0x81, false, false, false, false));
    assert_eq!(run(AluOp::ShiftLeft, 0x80, 0, false), (0x00, true, false, false, true));
    assert_eq!(run(AluOp::ShiftRight(true), 0x81, 0, false), (0xC0, false, false, false, true));
    assert_eq!(run(AluOp::ShiftRight(false), 0x81, 0, false), (0x40, false, false, false, true));
}

#[test]
fn swap_exchanges_nibbles() {
    assert_eq!(run(AluOp::Swap, 0x12, 0, false).0, 0x21);
    assert_eq!(run(AluOp::Swap, 0x00, 0, false).1, true);
}

#[test]
fn test_and_set_bits() {
    assert_eq!(run(AluOp::Test(7), 0x80, 0, false), (0x80, false, false, false, false));
    assert_eq!(run(AluOp::Test(0), 0x80, 0, false), (0x80, true, false, false, false));
    assert_eq!(run(AluOp::SetBit(3, true), 0x00, 0, false).0, 0x08);
    assert_eq!(run(AluOp::SetBit(7, false), 0xFF, 0, false).0, 0x7F);
}

#[test]
fn sixteen_bit_add_and_sub() {
    let out = alu16(AluInput16 { subtract: false, op_a: 0x0FFF, op_b: 0x0001, flag_z: false, flag_n: true, flag_h: false, flag_cy: false });
    assert_eq!((out.result, out.flag_z, out.flag_n, out.flag_h, out.flag_cy), (0x1000, false, true, true, false));
    let out = alu16(AluInput16 { subtract: false, op_a: 0xFFFF, op_b: 0x0001, flag_z: false, flag_n: false, flag_h: false, flag_cy: false });
    assert_eq!((out.result, out.flag_z, out.flag_h, out.flag_cy), (0x0000, true, true, true));
    let out = alu16(AluInput16 { subtract: true, op_a: 0x0000, op_b: 0x0001, flag_z: false, flag_n: false, flag_h: false, flag_cy: false });
    assert_eq!((out.result, out.flag_h, out.flag_cy), (0xFFFF, true, true));
}

#[test]
fn operation_names() {
    assert_eq!(AluOp::Add(true).name(), "AddCarry");
    assert_eq!(AluOp::ShiftRight(false).name(), "ShiftRightLogical");
    assert_eq!(AluOp::Test(5).name(), "TestBit5");
    assert_eq!(AluOp::SetBit(2, true).name(), "SetBit2To1");
}

#[test]
fn subtract_undoes_add() {
    for a in [0u8, 1, 0x7F, 0x80, 0xFF] {
        for b in [0u8, 1, 0x0F, 0x10, 0xFF] {
            let sum = run(AluOp::Add(false), a, b, false).0;
            assert_eq!(run(AluOp::Sub(false), sum, b, false).0, a);
        }
    }
    let sum = alu16(AluInput16 { subtract: false, op_a: 0xFFF0, op_b: 0x0020, flag_z: false, flag_n: false, flag_h: false, flag_cy: false });
    let back = alu16(AluInput16 { subtract: true, op_a: sum.result, op_b: 0x0020, flag_z: false, flag_n: false, flag_h: false, flag_cy: false });
    assert_eq!(back.result, 0xFFF0);
}
