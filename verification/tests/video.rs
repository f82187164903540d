use gblite::memory::{MemClient, Memory};
use gblite::video::{DisplayReg, PPU};

fn display() -> (PPU, Memory) {
    let mut mem = Memory::new(0x10000);
    let ppu = PPU::new(&mut mem);
    (ppu, mem)
}

fn tick_n(ppu: &mut PPU, mem: &mut Memory, n: usize) -> usize {
    let mut shown = 0;
    for _ in 0..n {
        assert!(ppu.can_tick(mem, true));
        if ppu.tick(mem, true) {
            shown += 1;
        }
    }
    shown
}

#[test]
fn new_display_initialises_registers() {
    let (ppu, mem) = display();
    assert_eq!(mem.get(0xFF40, MemClient::CPU), 0x91);
    assert_eq!(mem.get(0xFF47, MemClient::CPU), 0xFC);
    assert_eq!(mem.get(0xFF48, MemClient::CPU), 0xFF);
    assert_eq!(mem.get(0xFF49, MemClient::CPU), 0xFF);
    assert_eq!(mem.get(0xFF44, MemClient::CPU), 0x00);
    assert_eq!(mem.get(0xFF4F, MemClient::CPU), 0x00);
    assert!(ppu.is_alive());
    assert!(!ppu.is_rendering());
}

#[test]
fn first_tick_turns_the_lcd_on() {
    let (mut ppu, mut mem) = display();
    assert_eq!(tick_n(&mut ppu, &mut mem, 1), 1);
    assert!(ppu.is_rendering());
}

#[test]
fn a_line_takes_114_cycles() {
    let (mut ppu, mut mem) = display();
    tick_n(&mut ppu, &mut mem, 113);
    assert_eq!(mem.get(0xFF44, MemClient::CPU), 0);
    tick_n(&mut ppu, &mut mem, 1);
    assert_eq!(mem.get(0xFF44, MemClient::CPU), 1);
}

#[test]
fn a_frame_is_shown_when_vblank_starts() {
    let (mut ppu, mut mem) = display();
    // One tick to start, then 144 lines.
    let shown = tick_n(&mut ppu, &mut mem, 1 + 144 * 114);
    assert_eq!(shown, 2);
    assert_eq!(mem.get(0xFF44, MemClient::CPU), 144);
}

#[test]
fn clearing_lcdc_bit_7_turns_the_lcd_off() {
    let (mut ppu, mut mem) = display();
    tick_n(&mut ppu, &mut mem, 1);
    mem.set(0x11, 0xFF40, MemClient::CPU);
    tick_n(&mut ppu, &mut mem, 1);
    assert!(!ppu.is_rendering());
    assert!(ppu.is_alive());
}

#[test]
fn closing_the_window_ends_for_good() {
    let (mut ppu, mut mem) = display();
    assert!(ppu.can_tick(&mem, false));
    assert!(!ppu.tick(&mut mem, false));
    assert!(!ppu.is_alive());
    tick_n(&mut ppu, &mut mem, 3);
    assert!(!ppu.is_alive());
    assert!(!ppu.is_rendering());
}

#[test]
fn terminate_ends() {
    let (mut ppu, _mem) = display();
    ppu.terminate();
    assert!(!ppu.is_alive());
}

#[test]
fn line_end_with_ly_255_cannot_tick() {
    let (mut ppu, mut mem) = display();
    tick_n(&mut ppu, &mut mem, 113);
    mem.set(0xFF, 0xFF44, MemClient::CPU);
    assert!(!ppu.can_tick(&mem, true));
    assert!(ppu.can_tick(&mem, false));
}

#[test]
fn register_names_and_addresses() {
    assert_eq!(DisplayReg::Lcdc.name(), "LCDC");
    assert_eq!(DisplayReg::Vbk.name(), "VBK");
    assert_eq!(DisplayReg::Ly.addr(), 0xFF44);
    assert_eq!(DisplayReg::Vbk.addr(), 0xFF4F);
}

#[test]
fn ticks_leave_other_memory_alone() {
    let (mut ppu, mut mem) = display();
    mem.set(0x42, 0xC000, MemClient::CPU);
    mem.set(0x99, 0xFF50, MemClient::CPU);
    tick_n(&mut ppu, &mut mem, 300);
    assert_eq!(mem.get(0xC000, MemClient::CPU), 0x42);
    assert_eq!(mem.get(0xFF50, MemClient::CPU), 0x99);
    assert_eq!(mem.get(0x9000, MemClient::CPU), 0x00);
}
