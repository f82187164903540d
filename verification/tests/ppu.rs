use gblite::memory::{MemClient, Memory};
use gblite::ppu::{PPUReg, FRAME_BYTES, HEIGHT, PPU, WIDTH};

fn unit() -> (PPU, Memory) {
    let mut mem = Memory::new(0x10000);
    let ppu = PPU::new(&mut mem);
    (ppu, mem)
}

#[test]
fn new_ppu_writes_its_registers() {
    let (ppu, mem) = unit();
    assert_eq!(mem.get(0xFF40, MemClient::CPU), 0x91);
    assert_eq!(mem.get(0xFF41, MemClient::CPU), 0x85);
    assert_eq!(mem.get(0xFF47, MemClient::CPU), 0xFC);
    assert_eq!(mem.get(0xFF48, MemClient::CPU), 0xFF);
    assert_eq!(mem.get(0xFF49, MemClient::CPU), 0xFF);
    assert_eq!(mem.get(0xFF44, MemClient::CPU), 0x00);
    assert!(ppu.is_alive());
    assert_eq!(ppu.pixels().len(), FRAME_BYTES);
    assert_eq!(FRAME_BYTES, WIDTH * HEIGHT * 3);
    assert!(ppu.pixels().iter().all(|&p| p == 0));
}

#[test]
fn registers_read_back_what_was_written() {
    let (mut ppu, mut mem) = unit();
    mem.set(0x5A, 0xFF42, MemClient::CPU);
    mem.set(0xE4, 0xFF47, MemClient::CPU);
    mem.set(0x78, 0xFF41, MemClient::CPU);
    ppu.pull_registers(&mem);
    let mut other = Memory::new(0x10000);
    ppu.push_registers(&mut other);
    assert_eq!(other.get(0xFF42, MemClient::CPU), 0x5A);
    assert_eq!(other.get(0xFF47, MemClient::CPU), 0xE4);
    // STAT: bit 7 reads 1, the mode bits come from the PPU's state (V-blank).
    assert_eq!(other.get(0xFF41, MemClient::CPU), 0xFD);
    let mut again = Memory::new(0x10000);
    ppu.pull_registers(&other);
    ppu.push_registers(&mut again);
    for addr in 0xFF40u16..0xFF4C {
        assert_eq!(again.get(addr, MemClient::CPU), other.get(addr, MemClient::CPU));
    }
}

#[test]
fn vblank_line_advances_ly() {
    let (mut ppu, mut mem) = unit();
    for _ in 0..114 {
        assert!(ppu.can_tick(&mem, true));
        assert!(!ppu.tick(&mut mem, true));
    }
    assert_eq!(mem.get(0xFF44, MemClient::CPU), 1);
}

#[test]
fn closed_window_ends_the_ppu() {
    let (mut ppu, mut mem) = unit();
    assert!(!ppu.tick(&mut mem, false));
    assert!(!ppu.is_alive());
}

#[test]
fn terminate_ends_the_ppu() {
    let (mut ppu, _mem) = unit();
    ppu.terminate();
    assert!(!ppu.is_alive());
}

#[test]
fn register_names() {
    assert_eq!(PPUReg::Lcdc.name(), "LCDC");
    assert_eq!(PPUReg::Lcdc.addr(), 0xFF40);
    assert_eq!(PPUReg::Wx.name(), "WX");
    assert_eq!(PPUReg::Vbk.addr(), 0xFF4F);
}

#[test]
fn an_ended_ppu_stays_ended() {
    let (mut ppu, mut mem) = unit();
    ppu.tick(&mut mem, false);
    for _ in 0..5 {
        assert!(!ppu.tick(&mut mem, true));
        assert!(!ppu.is_alive());
    }
}

#[test]
fn background_line_is_drawn_left_to_right() {
    let (mut ppu, mut mem) = unit();
    // Tile 0, row 0: only the leftmost pixel has colour 1.
    mem.set(0x80, 0x8000, MemClient::CPU);
    mem.set(0x00, 0x8001, MemClient::CPU);
    // End V-blank at the next line end.
    mem.set(153, 0xFF44, MemClient::CPU);
    let mut ticks = 0;
    while ppu.pixels()[0] == 0 && ticks < 2000 {
        assert!(ppu.can_tick(&mem, true));
        ppu.tick(&mut mem, true);
        ticks += 1;
    }
    let px = ppu.pixels();
    assert_eq!(&px[0..3], &[0xAA, 0xAA, 0xAA]);
    assert_eq!(&px[3..6], &[0xFF, 0xFF, 0xFF]);
    assert_eq!(&px[21..24], &[0xFF, 0xFF, 0xFF]);
    assert_eq!(&px[24..27], &[0xAA, 0xAA, 0xAA]);
}

#[test]
fn lines_last_114_ticks_and_a_frame_154_lines() {
    let (mut ppu, mut mem) = unit();
    for n in 1..=(154 * 114 + 200) {
        assert!(ppu.can_tick(&mem, true));
        ppu.tick(&mut mem, true);
        let ly = mem.get(0xFF44, MemClient::CPU);
        let stat = mem.get(0xFF41, MemClient::CPU);
        assert!(ly <= 153);
        assert_eq!(stat & 0x80, 0x80);
        if stat & 3 != 1 {
            assert!(ly <= 143);
        }
        if n % 114 == 0 && n <= 153 * 114 {
            assert_eq!(ly as usize, n / 114);
            assert_eq!(stat & 3, 1);
        }
        if n == 154 * 114 {
            assert_eq!(ly, 0);
            assert_eq!(stat & 3, 2);
        }
    }
}
