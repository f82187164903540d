use gblite::memory::{MemClient, Memory};

#[test]
fn new_memory_is_zero_but_the_boot_switch() {
    let mem = Memory::new(0x10000);
    assert_eq!(mem.get(0x8000, MemClient::CPU), 0);
    assert_eq!(mem.get(0xFF50, MemClient::CPU), 1);
    assert_eq!(mem.get(0xFFFF, MemClient::PPU), 0);
}

#[test]
fn write_then_read() {
    let mut mem = Memory::new(0x10000);
    mem.set(0xAB, 0xC000, MemClient::CPU);
    assert_eq!(mem.get(0xC000, MemClient::CPU), 0xAB);
    assert_eq!(mem.get(0xC001, MemClient::CPU), 0);
}

#[test]
fn rom_serves_the_low_half() {
    let mut mem = Memory::new(0x10000);
    let mut rom = vec![0u8; 0x8000];
    rom[0x0100] = 0x3E;
    rom[0x7FFF] = 0x99;
    mem.load_rom(rom);
    assert_eq!(mem.get(0x0100, MemClient::CPU), 0x3E);
    assert_eq!(mem.get(0x7FFF, MemClient::CPU), 0x99);
    mem.set(0x11, 0x0200, MemClient::CPU);
    assert_eq!(mem.get(0x0200, MemClient::CPU), 0x11);
}

#[test]
fn snapshot_is_independent() {
    let mut mem = Memory::new(0x10000);
    mem.set(7, 0x9000, MemClient::CPU);
    let copy = mem.snapshot();
    mem.set(8, 0x9000, MemClient::CPU);
    assert_eq!(copy.get(0x9000, MemClient::CPU), 7);
    assert_eq!(mem.get(0x9000, MemClient::CPU), 8);
}

#[test]
fn dump_lines_hold_thirty_two_bytes() {
    let mut mem = Memory::new(0x10000);
    let mut rom = vec![0u8; 40];
    rom[0] = 0xAB;
    rom[33] = 0x05;
    mem.load_rom(rom);
    let dump = mem.generate_dump(true);
    let mut expected = String::from("0x0000:  ab");
    for _ in 1..32 {
        expected.push_str(" 00");
    }
    expected.push_str("\n0x0020:  00 05");
    for _ in 34..40 {
        expected.push_str(" 00");
    }
    expected.push(' ');
    assert_eq!(dump, expected);
}

#[test]
fn dump_of_empty_rom_is_empty() {
    let mem = Memory::new(0x10000);
    assert_eq!(mem.generate_dump(true), "");
}
