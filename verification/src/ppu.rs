// PPU abstracts the details of the PPU from the CPU. The window that shows its
// pixels is driven by the caller.

use vstd::prelude::*;

use crate::memory::{MemClient, MemView, Memory};
use crate::util;

verus! {

/// The LCD mode that STAT bits 0-1 report.
#[derive(Copy, Clone, PartialEq, Eq, Structural)]
pub enum PPUState {
    /// The LCD idle period after each line is drawn.
    HBlank,
    /// The LCD idle period after the final line is drawn.
    VBlank,
    /// The initial linear scan of objects on a given line.
    OAMSearch,
    /// The lookup and transfer period of pixels to the LCD.
    Draw,
}

/// The PPU's memory-mapped registers.
#[derive(Copy, Clone, PartialEq, Eq, Hash, Debug, Structural)]
pub enum PPUReg {
    Lcdc,
    Stat,
    Scy,
    Scx,
    Ly,
    Lyc,
    Dma,
    Bgp,
    Obp0,
    Obp1,
    Wy,
    Wx,
    Vbk,
}

/// The address of a PPU register.
pub open spec fn reg_addr(r: PPUReg) -> u16 {
    match r {
        PPUReg::Lcdc => 0xFF40,
        PPUReg::Stat => 0xFF41,
        PPUReg::Scy => 0xFF42,
        PPUReg::Scx => 0xFF43,
        PPUReg::Ly => 0xFF44,
        PPUReg::Lyc => 0xFF45,
        PPUReg::Dma => 0xFF46,
        PPUReg::Bgp => 0xFF47,
        PPUReg::Obp0 => 0xFF48,
        PPUReg::Obp1 => 0xFF49,
        PPUReg::Wy => 0xFF4A,
        PPUReg::Wx => 0xFF4B,
        PPUReg::Vbk => 0xFF4F,
    }
}

/// The mnemonic of a PPU register.
pub open spec fn reg_name(r: PPUReg) -> Seq<char> {
    match r {
        PPUReg::Lcdc => "LCDC"@,
        PPUReg::Stat => "STAT"@,
        PPUReg::Scy => "SCY"@,
        PPUReg::Scx => "SCX"@,
        PPUReg::Ly => "LY"@,
        PPUReg::Lyc => "LYC"@,
        PPUReg::Dma => "DMA"@,
        PPUReg::Bgp => "BGP"@,
        PPUReg::Obp0 => "OBP0"@,
        PPUReg::Obp1 => "OBP1"@,
        PPUReg::Wy => "WY"@,
        PPUReg::Wx => "WX"@,
        PPUReg::Vbk => "VBK"@,
    }
}

impl PPUReg {
    /// The register's address.
    pub fn addr(&self) -> (a: u16)
        ensures
            a == reg_addr(*self),
    {
        match *self {
            PPUReg::Lcdc => 0xFF40,
            PPUReg::Stat => 0xFF41,
            PPUReg::Scy => 0xFF42,
            PPUReg::Scx => 0xFF43,
            PPUReg::Ly => 0xFF44,
            PPUReg::Lyc => 0xFF45,
            PPUReg::Dma => 0xFF46,
            PPUReg::Bgp => 0xFF47,
            PPUReg::Obp0 => 0xFF48,
            PPUReg::Obp1 => 0xFF49,
            PPUReg::Wy => 0xFF4A,
            PPUReg::Wx => 0xFF4B,
            PPUReg::Vbk => 0xFF4F,
        }
    }

    /// The register's mnemonic.
    pub fn name(&self) -> (s: &'static str)
        ensures
            s@ == reg_name(*self),
    {
        match *self {
            PPUReg::Lcdc => "LCDC",
            PPUReg::Stat => "STAT",
            PPUReg::Scy => "SCY",
            PPUReg::Scx => "SCX",
            PPUReg::Ly => "LY",
            PPUReg::Lyc => "LYC",
            PPUReg::Dma => "DMA",
            PPUReg::Bgp => "BGP",
            PPUReg::Obp0 => "OBP0",
            PPUReg::Obp1 => "OBP1",
            PPUReg::Wy => "WY",
            PPUReg::Wx => "WX",
            PPUReg::Vbk => "VBK",
        }
    }
}

/// The registers, in the order in which the PPU reads and writes them.
pub open spec fn all_regs() -> Seq<PPUReg> {
    seq![
        PPUReg::Lcdc,
        PPUReg::Stat,
        PPUReg::Scy,
        PPUReg::Scx,
        PPUReg::Ly,
        PPUReg::Lyc,
        PPUReg::Dma,
        PPUReg::Bgp,
        PPUReg::Obp0,
        PPUReg::Obp1,
        PPUReg::Wy,
        PPUReg::Wx,
        PPUReg::Vbk,
    ]
}

/// The PPU's configuration: what its registers hold, decoded.
#[derive(Copy, Clone)]
pub struct PPUConfig {
    /// LCDC bit 7 - Enables the LCD
    pub lcd_enabled: bool,
    /// LCDC bit 6 - Changes window map start address to high bank
    pub win_map_high_bank: bool,
    /// LCDC bit 5 - Enables window rendering
    pub win_en: bool,
    /// LCDC bit 4 - Changes BG/Window data start address to low bank
    pub bg_data_low_bank: bool,
    /// LCDC bit 3 - Changes BG map start address to high bank
    pub bg_map_high_bank: bool,
    /// LCDC bit 2 - Enables tall sprites
    pub tall_objs: bool,
    /// LCDC bit 1 - Enables sprite rendering
    pub obj_en: bool,
    /// LCDC bit 0 - Forces BG pixels to highest priority (over OBJs)
    pub bg_priority: bool,
    /// STAT bit 6 - Enable the LY==LYC coincidence interrupt
    pub ly_eq_lyc_intr: bool,
    /// STAT bit 5 - Enable the OAM interrupt
    pub oam_intr: bool,
    /// STAT bit 4 - Enable the VBLANK interrupt
    pub vblank_intr: bool,
    /// STAT bit 3 - Enable the HBLANK interrupt
    pub hblank_intr: bool,
    /// STAT bit 2 - LY==LYC if true
    pub ly_eq_lyc: bool,
    /// STAT bit 0-1 - LCD state mode flag
    pub state: PPUState,
    /// SCY - the scroll Y offset
    pub scy: u8,
    /// SCX - the scroll X offset
    pub scx: u8,
    /// LY register - the current Y line we're rendering.
    pub ly: u8,
    /// The X pixel we're rendering - this doesn't map to a hardware register.
    pub lx: u8,
    /// LYC - line Y compare value, used for the LYC interrupt.
    pub lyc: u8,
    /// DMA - function to DMA from generic memory point to OAM RAM.
    pub dma: u8,
    /// BGP - background palette
    pub bgp: u8,
    /// OBP0 - object palette 0
    pub obp0: u8,
    /// OBP1 - object palette 1
    pub obp1: u8,
    /// WY - the window Y offset
    pub wy: u8,
    /// WX - the window X offset
    pub wx: u8,
    /// VBK bit 0 - enable VRAM bank 1, CGB only
    pub vbk_enable: bool,
}

/// `w` if `b`, else 0.
pub open spec fn weight(b: bool, w: int) -> int {
    if b { w } else { 0 }
}

/// The STAT mode bits of a state.
pub open spec fn state_bits(s: PPUState) -> u8 {
    match s {
        PPUState::HBlank => 0,
        PPUState::VBlank => 1,
        PPUState::OAMSearch => 2,
        PPUState::Draw => 3,
    }
}

/// The value that the PPU writes to a register for a configuration.
pub open spec fn encoded(cfg: PPUConfig, r: PPUReg) -> u8 {
    match r {
        PPUReg::Lcdc => (weight(cfg.lcd_enabled, 128) + weight(cfg.win_map_high_bank, 64) + weight(
            cfg.win_en,
            32,
        ) + weight(cfg.bg_data_low_bank, 16) + weight(cfg.bg_map_high_bank, 8) + weight(
            cfg.tall_objs,
            4,
        ) + weight(cfg.obj_en, 2) + weight(cfg.bg_priority, 1)) as u8,
        PPUReg::Stat => (128 + weight(cfg.ly_eq_lyc_intr, 64) + weight(cfg.oam_intr, 32) + weight(
            cfg.vblank_intr,
            16,
        ) + weight(cfg.hblank_intr, 8) + weight(cfg.ly_eq_lyc, 4) + (if cfg.lcd_enabled {
            state_bits(cfg.state) as int
        } else {
            0
        })) as u8,
        PPUReg::Bgp => cfg.bgp,
        PPUReg::Scy => cfg.scy,
        PPUReg::Scx => cfg.scx,
        PPUReg::Ly => cfg.ly,
        PPUReg::Lyc => cfg.lyc,
        PPUReg::Dma => cfg.dma,
        PPUReg::Obp0 => cfg.obp0,
        PPUReg::Obp1 => cfg.obp1,
        PPUReg::Wy => cfg.wy,
        PPUReg::Wx => cfg.wx,
        PPUReg::Vbk => if cfg.vbk_enable { 1 } else { 0 },
    }
}

/// The configuration after reading value `val` of register `r`.
pub open spec fn pulled(cfg: PPUConfig, r: PPUReg, val: u8) -> PPUConfig {
    match r {
        PPUReg::Lcdc => PPUConfig {
            lcd_enabled: val & 0x80 != 0,
            win_map_high_bank: val & 0x40 != 0,
            win_en: val & 0x20 != 0,
            bg_data_low_bank: val & 0x10 != 0,
            bg_map_high_bank: val & 0x08 != 0,
            tall_objs: val & 0x04 != 0,
            obj_en: val & 0x02 != 0,
            bg_priority: val & 0x01 != 0,
            ..cfg
        },
        PPUReg::Stat => PPUConfig {
            ly_eq_lyc_intr: val & 0x40 != 0,
            oam_intr: val & 0x20 != 0,
            vblank_intr: val & 0x10 != 0,
            hblank_intr: val & 0x08 != 0,
            ..cfg
        },
        PPUReg::Bgp => PPUConfig { bgp: val, ..cfg },
        PPUReg::Scy => PPUConfig { scy: val, ..cfg },
        PPUReg::Scx => PPUConfig { scx: val, ..cfg },
        PPUReg::Ly => PPUConfig { ly: val, ..cfg },
        PPUReg::Lyc => PPUConfig { lyc: val, ..cfg },
        PPUReg::Dma => PPUConfig { dma: val, ..cfg },
        PPUReg::Obp0 => PPUConfig { obp0: val, ..cfg },
        PPUReg::Obp1 => PPUConfig { obp1: val, ..cfg },
        PPUReg::Wy => PPUConfig { wy: val, ..cfg },
        PPUReg::Wx => PPUConfig { wx: val, ..cfg },
        PPUReg::Vbk => PPUConfig { vbk_enable: val == 1, ..cfg },
    }
}

/// The configuration after reading the registers `regs` in order from memory.
pub open spec fn pull_all(cfg: PPUConfig, regs: Seq<PPUReg>, mem: MemView) -> PPUConfig
    decreases regs.len(),
{
    if regs.len() == 0 {
        cfg
    } else {
        let prev = pull_all(cfg, regs.drop_last(), mem);
        pulled(prev, regs.last(), mem.read(reg_addr(regs.last())))
    }
}

/// Memory after writing the registers `regs` in order from a configuration.
pub open spec fn push_all(mem: MemView, regs: Seq<PPUReg>, cfg: PPUConfig) -> MemView
    decreases regs.len(),
{
    if regs.len() == 0 {
        mem
    } else {
        push_all(mem, regs.drop_last(), cfg).write(reg_addr(regs.last()), encoded(cfg, regs.last()))
    }
}

/// Reading the registers leaves the fields that no register sets.
pub proof fn lemma_pull_keeps(cfg: PPUConfig, regs: Seq<PPUReg>, mem: MemView)
    ensures
        pull_all(cfg, regs, mem).lx == cfg.lx,
        pull_all(cfg, regs, mem).state == cfg.state,
        pull_all(cfg, regs, mem).ly_eq_lyc == cfg.ly_eq_lyc,
    decreases regs.len(),
{
    if regs.len() > 0 {
        lemma_pull_keeps(cfg, regs.drop_last(), mem);
    }
}

/// Writing the registers keeps the size of memory.
pub proof fn lemma_push_keeps(mem: MemView, regs: Seq<PPUReg>, cfg: PPUConfig)
    requires
        ppu_memory(mem),
    ensures
        push_all(mem, regs, cfg).ram.len() == mem.ram.len(),
        push_all(mem, regs, cfg).rom == mem.rom,
    decreases regs.len(),
{
    if regs.len() > 0 {
        lemma_push_keeps(mem, regs.drop_last(), cfg);
    }
}

/// Packing eight 0/1 values into a byte is their weighted sum.
pub proof fn lemma_pack(b7: u8, b6: u8, b5: u8, b4: u8, b3: u8, b2: u8, low: u8)
    by (bit_vector)
    requires
        b7 <= 1,
        b6 <= 1,
        b5 <= 1,
        b4 <= 1,
        b3 <= 1,
        b2 <= 1,
        low <= 3,
    ensures
        (b7 << 7u8) | (b6 << 6u8) | (b5 << 5u8) | (b4 << 4u8) | (b3 << 3u8) | (b2 << 2u8) | low
            == b7 * 128 + b6 * 64 + b5 * 32 + b4 * 16 + b3 * 8 + b2 * 4 + low,
{
}

/// Packing two 0/1 values.
pub proof fn lemma_pack2(b1: u8, b0: u8)
    by (bit_vector)
    requires
        b1 <= 1,
        b0 <= 1,
    ensures
        (b1 << 1u8) | (b0 << 0u8) == b1 * 2 + b0,
{
}

/// What the PPU holds: its configuration, the frame being drawn (RGB, 8 bits
/// per component, row by row), the machine cycle within the current line, and
/// whether the application should keep running.
pub struct PPUView {
    pub regs: Seq<PPUReg>,
    pub cfg: PPUConfig,
    pub pixels: Seq<u8>,
    pub lclk: u32,
    pub alive: bool,
}

pub struct PPU {
    /// The registers that the PPU reads and writes.
    regs: Vec<PPUReg>,
    /// Pixel data, RGB8.
    pixels: Vec<u8>,
    /// All PPU register config values.
    cfg: PPUConfig,
    /// The machine cycle for this line, from [0, 113].
    lclk: u32,
    /// Whether or not the application should continue running. This is != LCD disabled.
    alive: bool,
}

pub const WIDTH: usize = 160;

pub const HEIGHT: usize = 144;

/// The size of a frame in bytes.
pub const FRAME_BYTES: usize = 69120;

impl View for PPU {
    type V = PPUView;

    closed spec fn view(&self) -> PPUView {
        PPUView { regs: self.regs@, cfg: self.cfg, pixels: self.pixels@, lclk: self.lclk, alive: self.alive }
    }
}

impl PPUView {
    /// The line clock stays within the part of the line that the state covers:
    /// OAM search up to cycle 19, drawing up to 62, H-blank from 63 to 113,
    /// V-blank up to 113.
    pub open spec fn clock_in_phase(self) -> bool {
        match self.cfg.state {
            PPUState::OAMSearch => self.lclk <= 19,
            PPUState::Draw => self.lclk <= 62,
            PPUState::HBlank => 63 <= self.lclk <= 113,
            PPUState::VBlank => self.lclk <= 113,
        }
    }

    pub open spec fn wf(self) -> bool {
        &&& self.regs == all_regs()
        &&& self.pixels.len() == FRAME_BYTES
        &&& self.cfg.lx == 0
        &&& self.clock_in_phase()
    }
}

/// The configuration at power-on.
pub open spec fn initial_config(cfg: PPUConfig) -> bool {
    &&& cfg.lcd_enabled
    &&& !cfg.win_map_high_bank
    &&& !cfg.win_en
    &&& cfg.bg_data_low_bank
    &&& !cfg.bg_map_high_bank
    &&& !cfg.tall_objs
    &&& !cfg.obj_en
    &&& cfg.bg_priority
    &&& !cfg.ly_eq_lyc_intr
    &&& !cfg.oam_intr
    &&& !cfg.vblank_intr
    &&& !cfg.hblank_intr
    &&& cfg.ly_eq_lyc
    &&& cfg.state == PPUState::VBlank
    &&& cfg.scy == 0
    &&& cfg.scx == 0
    &&& cfg.ly == 0
    &&& cfg.lx == 0
    &&& cfg.lyc == 0
    &&& cfg.dma == 0
    &&& cfg.bgp == 0xfc
    &&& cfg.obp0 == 0xff
    &&& cfg.obp1 == 0xff
    &&& cfg.wy == 0
    &&& cfg.wx == 0
    &&& !cfg.vbk_enable
}

/// The PPU can read and write every address it uses.
pub open spec fn ppu_memory(mem: MemView) -> bool {
    mem.ram.len() > 0xff4f
}

/// Apply the value read from register `reg` to the configuration.
fn apply_register(cfg: PPUConfig, reg: PPUReg, val: u8) -> (r: PPUConfig)
    ensures
        r == pulled(cfg, reg, val),
{
    match reg {
        PPUReg::Lcdc => PPUConfig {
            lcd_enabled: (val & 0x80) != 0,
            win_map_high_bank: (val & 0x40) != 0,
            win_en: (val & 0x20) != 0,
            bg_data_low_bank: (val & 0x10) != 0,
            bg_map_high_bank: (val & 0x08) != 0,
            tall_objs: (val & 0x04) != 0,
            obj_en: (val & 0x02) != 0,
            bg_priority: (val & 0x01) != 0,
            ..cfg
        },
        PPUReg::Stat => PPUConfig {
            ly_eq_lyc_intr: (val & 0x40) != 0,
            oam_intr: (val & 0x20) != 0,
            vblank_intr: (val & 0x10) != 0,
            hblank_intr: (val & 0x08) != 0,
            ..cfg
        },
        PPUReg::Bgp => PPUConfig { bgp: val, ..cfg },
        PPUReg::Scy => PPUConfig { scy: val, ..cfg },
        PPUReg::Scx => PPUConfig { scx: val, ..cfg },
        PPUReg::Ly => PPUConfig { ly: val, ..cfg },
        PPUReg::Lyc => PPUConfig { lyc: val, ..cfg },
        PPUReg::Dma => PPUConfig { dma: val, ..cfg },
        PPUReg::Obp0 => PPUConfig { obp0: val, ..cfg },
        PPUReg::Obp1 => PPUConfig { obp1: val, ..cfg },
        PPUReg::Wy => PPUConfig { wy: val, ..cfg },
        PPUReg::Wx => PPUConfig { wx: val, ..cfg },
        PPUReg::Vbk => PPUConfig { vbk_enable: val == 1, ..cfg },
    }
}


/// Bit `i` of a 16-bit word, as 0 or 1.
pub open spec fn bit16(w: u16, i: u16) -> u16 {
    (w >> i) & 1u16
}

/// Reverses the order of the bits of a word, as `u16::reverse_bits` does:
/// swaps neighbouring bits, then pairs, then nibbles, then bytes.
fn reverse_bits16(w: u16) -> (r: u16)
    ensures
        forall|i: u16| i < 16 ==> #[trigger] bit16(r, i) == bit16(w, (15 - i) as u16),
{
    let a: u16 = ((w >> 1u16) & 0x5555u16) | ((w & 0x5555u16) << 1u16);
    let b: u16 = ((a >> 2u16) & 0x3333u16) | ((a & 0x3333u16) << 2u16);
    let c: u16 = ((b >> 4u16) & 0x0F0Fu16) | ((b & 0x0F0Fu16) << 4u16);
    let r: u16 = (c >> 8u16) | (c << 8u16);
    assert forall|i: u16| i < 16 implies #[trigger] bit16(r, i) == bit16(w, (15 - i) as u16) by {
        assert((r >> i) & 1u16 == (c >> (i ^ 8u16)) & 1u16) by (bit_vector)
            requires
                r == (c >> 8u16) | (c << 8u16),
                i < 16,
        ;
        assert((c >> (i ^ 8u16)) & 1u16 == (b >> (i ^ 12u16)) & 1u16) by (bit_vector)
            requires
                c == ((b >> 4u16) & 0x0F0Fu16) | ((b & 0x0F0Fu16) << 4u16),
                i < 16,
        ;
        assert((b >> (i ^ 12u16)) & 1u16 == (a >> (i ^ 14u16)) & 1u16) by (bit_vector)
            requires
                b == ((a >> 2u16) & 0x3333u16) | ((a & 0x3333u16) << 2u16),
                i < 16,
        ;
        assert((a >> (i ^ 14u16)) & 1u16 == (w >> (i ^ 15u16)) & 1u16) by (bit_vector)
            requires
                a == ((w >> 1u16) & 0x5555u16) | ((w & 0x5555u16) << 1u16),
                i < 16,
        ;
        assert(i ^ 15u16 == (15 - i) as u16) by (bit_vector)
            requires
                i < 16,
        ;
    }
    r
}

/// The value of a tile map byte as a tile number: unsigned when tile data
/// starts in the low bank, signed otherwise.
pub open spec fn tile_number(cfg: PPUConfig, idx: u8) -> int {
    if cfg.bg_data_low_bank {
        idx as int
    } else if idx < 128 {
        idx as int
    } else {
        idx - 256
    }
}

/// The address of the first data byte of the background tile at map
/// coordinates (`tx`, `ty`).
pub open spec fn tile_data_addr(cfg: PPUConfig, mem: MemView, tx: int, ty: int) -> int {
    let map_base: int = if cfg.bg_map_high_bank { 0x9c00 } else { 0x9800 };
    let data_base: int = if cfg.bg_data_low_bank { 0x8000 } else { 0x9000 };
    data_base + tile_number(cfg, mem.read((map_base + ty * 32 + tx) as u16)) * 16
}

/// The colour number (0-3) of pixel `x` of the current line: each 8-pixel
/// chunk is scrolled by SCX as a whole, so its pixels may come from two
/// adjacent tiles; the first data byte of a tile row holds the low bits,
/// the second the high bits, bit 7 being the leftmost pixel.
#[verifier::opaque]
pub open spec fn pixel_color(cfg: PPUConfig, mem: MemView, x: int) -> int {
    let gy = (cfg.ly + cfg.scy) % 256;
    let gx = ((x / 8) * 8 + cfg.scx) % 256;
    let tile_x = gx / 8;
    let p = x % 8 + gx % 8;
    let tile = if p < 8 { tile_x } else { (tile_x + 1) % 32 };
    let row = tile_data_addr(cfg, mem, tile, gy / 8) + (gy % 8) * 2;
    let bit = if p < 8 { 7 - p } else { 15 - p };
    2 * (if util::bit_of(mem.read((row + 1) as u16), bit as u8) { 1int } else { 0 }) + (if util::bit_of(
        mem.read(row as u16),
        bit as u8,
    ) { 1int } else { 0 })
}

/// The grey level of a colour number.
pub open spec fn shade(c: int) -> u8 {
    if c == 0 {
        0xFF
    } else if c == 1 {
        0xAA
    } else if c == 2 {
        0x55
    } else {
        0x00
    }
}

/// The frame with pixels `lo` to `hi - 1` of line LY drawn.
#[verifier::opaque]
pub open spec fn drawn_between(pixels: Seq<u8>, cfg: PPUConfig, mem: MemView, lo: int, hi: int) -> Seq<u8> {
    let start = cfg.ly * 480;
    Seq::new(
        pixels.len(),
        |i: int|
            if start + lo * 3 <= i < start + hi * 3 {
                shade(pixel_color(cfg, mem, (i - start) / 3))
            } else {
                pixels[i]
            },
    )
}

/// The colour number of position `p` (0-15) of the 16 pixels spanned by a
/// tile row (low byte `c0`, high byte `c1`) and the next tile's row
/// (`n0`, `n1`).
pub open spec fn chunk_colour(c0: u8, c1: u8, n0: u8, n1: u8, p: int) -> int {
    if p < 8 {
        2 * (if util::bit_of(c1, (7 - p) as u8) { 1int } else { 0 }) + (if util::bit_of(c0, (7 - p) as u8) { 1int } else { 0 })
    } else {
        2 * (if util::bit_of(n1, (15 - p) as u8) { 1int } else { 0 }) + (if util::bit_of(n0, (15 - p) as u8) { 1int } else { 0 })
    }
}

/// A pixel's colour is the colour at its position within the two tile rows
/// that its chunk spans.
proof fn lemma_pixel_in_chunk(cfg: PPUConfig, mem: MemView, start: int, k: int)
    requires
        0 <= start < 160,
        start % 8 == 0,
        0 <= k < 8,
    ensures
        ({
            let gy = (cfg.ly + cfg.scy) % 256;
            let gx = (start + cfg.scx) % 256;
            let cur = tile_data_addr(cfg, mem, gx / 8, gy / 8) + (gy % 8) * 2;
            let nxt = tile_data_addr(cfg, mem, (gx / 8 + 1) % 32, gy / 8) + (gy % 8) * 2;
            pixel_color(cfg, mem, start + k) == chunk_colour(
                mem.read(cur as u16),
                mem.read((cur + 1) as u16),
                mem.read(nxt as u16),
                mem.read((nxt + 1) as u16),
                k + gx % 8,
            )
        }),
{
    reveal(pixel_color);
    assert((start + k) / 8 * 8 == start);
    assert((start + k) % 8 == k);
}

/// Drawing keeps the frame's size.
proof fn lemma_drawn_len(pixels: Seq<u8>, cfg: PPUConfig, mem: MemView, lo: int, hi: int)
    ensures
        drawn_between(pixels, cfg, mem, lo, hi).len() == pixels.len(),
{
    reveal(drawn_between);
}

/// Drawing one more pixel of a chunk.
proof fn lemma_drawn_step(pixels: Seq<u8>, cfg: PPUConfig, mem: MemView, start: int, x: int, level: u8)
    requires
        pixels.len() == FRAME_BYTES,
        cfg.ly < 144,
        0 <= start <= x < 160,
        level == shade(pixel_color(cfg, mem, x)),
    ensures
        ({
            let a = (cfg.ly * 160 + x) * 3;
            drawn_between(pixels, cfg, mem, start, x).update(a, level).update(a + 1, level).update(a + 2, level)
                == drawn_between(pixels, cfg, mem, start, x + 1)
        }),
        drawn_between(pixels, cfg, mem, start, x).len() == pixels.len(),
{
    reveal(drawn_between);
    let a = (cfg.ly * 160 + x) * 3;
    let lhs = drawn_between(pixels, cfg, mem, start, x).update(a, level).update(a + 1, level).update(a + 2, level);
    let rhs = drawn_between(pixels, cfg, mem, start, x + 1);
    assert forall|i: int| 0 <= i < pixels.len() implies lhs[i] == rhs[i] by {
        if a <= i < a + 3 {
            assert((i - cfg.ly * 480) / 3 == x);
        }
    }
    assert(lhs =~= rhs);
}

/// The colour read out of the reversed high-bit and low-bit words.
proof fn lemma_reversed_colour(
    hi_word: u16,
    lo_word: u16,
    hi_rev: u16,
    lo_rev: u16,
    c0: u8,
    c1: u8,
    n0: u8,
    n1: u8,
    j: u16,
)
    requires
        j < 15,
        hi_word == (c1 as u16) * 256 + n1 as u16,
        lo_word == (c0 as u16) * 256 + n0 as u16,
        forall|i: u16| i < 16 ==> #[trigger] bit16(hi_rev, i) == bit16(hi_word, (15 - i) as u16),
        forall|i: u16| i < 16 ==> #[trigger] bit16(lo_rev, i) == bit16(lo_word, (15 - i) as u16),
    ensures
        2 * bit16(hi_rev, j) + bit16(lo_rev, j) == chunk_colour(c0, c1, n0, n1, j as int),
        bit16(hi_rev, j) <= 1,
        bit16(lo_rev, j) <= 1,
{
    let q = (15 - j) as u16;
    assert(bit16(hi_rev, j) == bit16(hi_word, q));
    assert(bit16(lo_rev, j) == bit16(lo_word, q));
    lemma_word_bit(hi_word, c1, n1, q);
    lemma_word_bit(lo_word, c0, n0, q);
    lemma_shift_shift(hi_word, q);
    lemma_shift_shift(lo_word, q);
    lemma_shift_shift(hi_rev, j);
    lemma_shift_shift(lo_rev, j);
}

/// Write the three components of a pixel.
fn put_pixel(pixels: &mut Vec<u8>, addr: usize, level: u8)
    requires
        addr + 2 < old(pixels).len(),
    ensures
        final(pixels)@ == old(pixels)@.update(addr as int, level).update(addr + 1, level).update(addr + 2, level),
{
    pixels.set(addr + 0, level);
    pixels.set(addr + 1, level);
    pixels.set(addr + 2, level);
}

/// The pixel colours do not depend on LX.
proof fn lemma_drawn_compose(pixels: Seq<u8>, cfg0: PPUConfig, cfg1: PPUConfig, mem: MemView, a: int, b: int)
    requires
        cfg1 == (PPUConfig { lx: cfg1.lx, ..cfg0 }),
        0 <= a <= b,
    ensures
        drawn_between(drawn_between(pixels, cfg0, mem, 0, a), cfg1, mem, a, b) == drawn_between(
            pixels,
            cfg0,
            mem,
            0,
            b,
        ),
{
    reveal(drawn_between);
    reveal(pixel_color);
    assert(drawn_between(drawn_between(pixels, cfg0, mem, 0, a), cfg1, mem, a, b) =~= drawn_between(
        pixels,
        cfg0,
        mem,
        0,
        b,
    ));
}

/// The whole of line LY drawn.
pub open spec fn drawn(pixels: Seq<u8>, cfg: PPUConfig, mem: MemView) -> Seq<u8> {
    drawn_between(pixels, cfg, mem, 0, 160)
}

/// The state machine's step for one machine cycle, from the configuration and
/// the line clock: the configuration and line clock after it. Nothing moves
/// while the LCD is off.
pub open spec fn next_phase(cfg: PPUConfig, lclk: u32) -> (PPUConfig, u32) {
    if !cfg.lcd_enabled {
        (cfg, lclk)
    } else {
        match cfg.state {
            PPUState::HBlank => if lclk == 113 {
                (
                    PPUConfig {
                        state: if cfg.ly == 143 { PPUState::VBlank } else { PPUState::Draw },
                        ly: (cfg.ly + 1) as u8,
                        ..cfg
                    },
                    0,
                )
            } else {
                (cfg, (lclk + 1) as u32)
            },
            PPUState::VBlank => if lclk == 113 {
                if cfg.ly == 153 {
                    (PPUConfig { state: PPUState::OAMSearch, ly: 0, ..cfg }, 0)
                } else {
                    (PPUConfig { ly: (cfg.ly + 1) as u8, ..cfg }, 0)
                }
            } else {
                (cfg, (lclk + 1) as u32)
            },
            PPUState::OAMSearch => (
                if lclk == 19 { PPUConfig { state: PPUState::Draw, ..cfg } } else { cfg },
                (lclk + 1) as u32,
            ),
            PPUState::Draw => (
                if lclk == 62 { PPUConfig { state: PPUState::HBlank, ..cfg } } else { cfg },
                (lclk + 1) as u32,
            ),
        }
    }
}

/// The line is drawn at cycle 63 of H-blank.
pub open spec fn draws_line(cfg: PPUConfig, lclk: u32) -> bool {
    cfg.lcd_enabled && cfg.state == PPUState::HBlank && lclk == 63
}

/// The configuration and liveness after looking at the window: a closed
/// window ends the application; otherwise the LY==LYC flag is refreshed.
pub open spec fn after_events(cfg: PPUConfig, alive: bool, window_open: bool) -> (PPUConfig, bool) {
    if !alive || !window_open {
        (cfg, false)
    } else {
        (PPUConfig { ly_eq_lyc: cfg.ly == cfg.lyc, ..cfg }, true)
    }
}

/// A tick cannot overflow LY or draw outside the frame: when the line is drawn
/// LY is on screen, and LY can be incremented when the line ends.
pub open spec fn tick_safe(ppu: PPUView, mem: MemView, window_open: bool) -> bool {
    let c = pull_all(ppu.cfg, all_regs(), mem);
    ppu.alive && window_open && c.lcd_enabled ==> {
        &&& (c.state == PPUState::HBlank && ppu.lclk == 63 ==> c.ly < 144)
        &&& (c.state == PPUState::HBlank && ppu.lclk == 113 ==> c.ly < 255)
        &&& (c.state == PPUState::VBlank && ppu.lclk == 113 ==> c.ly < 255)
    }
}

/// The PPU and memory after one tick, and whether a finished frame is to be
/// presented: the registers are read, the window looked at, the state machine
/// stepped (drawing the line at cycle 63 of H-blank) and the registers written
/// back. Once the application ends, a tick only reads the registers.
pub open spec fn tick_result(ppu: PPUView, mem: MemView, window_open: bool) -> (PPUView, MemView, bool) {
    let c1 = pull_all(ppu.cfg, all_regs(), mem);
    let (c2, alive) = after_events(c1, ppu.alive, window_open);
    if !alive {
        (PPUView { cfg: c2, alive: false, ..ppu }, mem, false)
    } else {
        let draws = draws_line(c2, ppu.lclk);
        let pixels = if draws { drawn(ppu.pixels, c2, mem) } else { ppu.pixels };
        let (c3, lclk) = next_phase(c2, ppu.lclk);
        (
            PPUView { cfg: c3, lclk: lclk, pixels: pixels, alive: true, ..ppu },
            push_all(mem, all_regs(), c3),
            draws && c2.ly == 143,
        )
    }
}

/// Masking and shifting the two tile-row words into the high-bit and low-bit words.
proof fn lemma_row_words(cur: u16, nxt: u16)
    by (bit_vector)
    ensures
        ((cur & 0xFF00u16) | (nxt >> 8u16)) == (cur / 256) * 256 + nxt / 256,
        ((cur << 8u16) | (nxt & 0xFFu16)) == (cur % 256) * 256 + nxt % 256,
{
}

/// A bit of a word made of two bytes is a bit of one of the bytes.
proof fn lemma_word_bit(h: u16, hi: u8, lo: u8, q: u16)
    by (bit_vector)
    requires
        h == (hi as u16) * 256 + lo as u16,
        q < 16,
    ensures
        q >= 8 ==> (((h >> q) & 1u16 == 1u16) == ((hi >> ((q - 8) as u8)) & 1u8 == 1u8)),
        q < 8 ==> (((h >> q) & 1u16 == 1u16) == ((lo >> (q as u8)) & 1u8 == 1u8)),
{
}

/// Shifting twice is shifting once by the sum.
proof fn lemma_shift_shift(w: u16, a: u16)
    by (bit_vector)
    requires
        a < 16,
    ensures
        (w >> a) >> 1u16 == w >> (a + 1),
        w >> 0u16 == w,
        (w >> a) & 1u16 <= 1,
{
}

/// Combining a high and a low bit into a colour number.
proof fn lemma_color_bits(h: u16, l: u16)
    by (bit_vector)
    requires
        h <= 1,
        l <= 1,
    ensures
        (((h as u8) << 1u8) | (l as u8)) == h * 2 + l,
{
}

/// One machine cycle of the state machine.
fn next_phase_exec(cfg: PPUConfig, lclk: u32) -> (r: (PPUConfig, u32))
    requires
        lclk <= 113,
        cfg.lcd_enabled && (cfg.state == PPUState::HBlank || cfg.state == PPUState::VBlank) && lclk == 113
            ==> cfg.ly < 255,
    ensures
        r == next_phase(cfg, lclk),
{
    if !cfg.lcd_enabled {
        return (cfg, lclk);
    }
    match cfg.state {
        PPUState::HBlank => {
            if lclk == 113 {
                let state = if cfg.ly == 143 { PPUState::VBlank } else { PPUState::Draw };
                (PPUConfig { state: state, ly: cfg.ly + 1, ..cfg }, 0)
            } else {
                (cfg, lclk + 1)
            }
        },
        PPUState::VBlank => {
            if lclk == 113 {
                if cfg.ly == 153 {
                    (PPUConfig { state: PPUState::OAMSearch, ly: 0, ..cfg }, 0)
                } else {
                    (PPUConfig { ly: cfg.ly + 1, ..cfg }, 0)
                }
            } else {
                (cfg, lclk + 1)
            }
        },
        PPUState::OAMSearch => {
            if lclk == 19 {
                (PPUConfig { state: PPUState::Draw, ..cfg }, lclk + 1)
            } else {
                (cfg, lclk + 1)
            }
        },
        PPUState::Draw => {
            if lclk == 62 {
                (PPUConfig { state: PPUState::HBlank, ..cfg }, lclk + 1)
            } else {
                (cfg, lclk + 1)
            }
        },
    }
}

impl PPU {
    /// A PPU in V-blank at the start of a line, with the LCD on and a blank
    /// frame; its registers are written to memory.
    pub fn new(mem: &mut Memory) -> (ppu: Self)
        requires
            ppu_memory(old(mem)@),
        ensures
            ppu@.wf(),
            ppu@.regs == all_regs(),
            initial_config(ppu@.cfg),
            ppu@.pixels == Seq::new(FRAME_BYTES as nat, |i: int| 0u8),
            ppu@.lclk == 0,
            ppu@.alive,
            final(mem)@ == push_all(old(mem)@, all_regs(), ppu@.cfg),
    {
        let regs: Vec<PPUReg> = vec![
            PPUReg::Lcdc,
            PPUReg::Stat,
            PPUReg::Scy,
            PPUReg::Scx,
            PPUReg::Ly,
            PPUReg::Lyc,
            PPUReg::Dma,
            PPUReg::Bgp,
            PPUReg::Obp0,
            PPUReg::Obp1,
            PPUReg::Wy,
            PPUReg::Wx,
            PPUReg::Vbk,
        ];
        assert(regs@ =~= all_regs());

        let cfg = PPUConfig {
            lcd_enabled: true,
            win_map_high_bank: false,
            win_en: false,
            bg_data_low_bank: true,
            bg_map_high_bank: false,
            tall_objs: false,
            obj_en: false,
            bg_priority: true,
            ly_eq_lyc_intr: false,
            oam_intr: false,
            vblank_intr: false,
            hblank_intr: false,
            ly_eq_lyc: true,
            state: PPUState::VBlank,
            scy: 0,
            scx: 0,
            ly: 0,
            lx: 0,
            lyc: 0,
            dma: 0,
            bgp: 0xfc,
            obp0: 0xff,
            obp1: 0xff,
            wy: 0,
            wx: 0,
            vbk_enable: false,
        };

        let mut pixels: Vec<u8> = Vec::new();
        let mut i: usize = 0;
        while i < FRAME_BYTES
            invariant
                i <= FRAME_BYTES,
                pixels@ == Seq::new(i as nat, |j: int| 0u8),
            decreases FRAME_BYTES - i,
        {
            pixels.push(0);
            i = i + 1;
        }

        let ppu = PPU { regs: regs, pixels: pixels, cfg: cfg, lclk: 0, alive: true };

        // Initialize PPU config registers
        ppu.push_registers(mem);

        ppu
    }

    /// Read the registers from memory and apply the settings.
    pub fn pull_registers(&mut self, mem: &Memory)
        requires
            old(self)@.regs == all_regs(),
            ppu_memory(mem@),
        ensures
            final(self)@ == (PPUView { cfg: pull_all(old(self)@.cfg, all_regs(), mem@), ..old(self)@ }),
    {
        let n = self.regs.len();
        let mut i: usize = 0;
        while i < n
            invariant
                n == all_regs().len(),
                i <= n,
                ppu_memory(mem@),
                self.regs@ == all_regs(),
                self@ == (PPUView { cfg: pull_all(old(self)@.cfg, all_regs().take(i as int), mem@), ..old(self)@ }),
            decreases n - i,
        {
            let reg = self.regs[i];
            let val = mem.get(reg.addr(), MemClient::PPU);
            proof {
                assert(all_regs().take(i + 1).drop_last() =~= all_regs().take(i as int));
            }
            self.cfg = apply_register(self.cfg, reg, val);
            i = i + 1;
        }
        proof {
            assert(all_regs().take(n as int) =~= all_regs());
        }
    }

    /// Whether a tick with the window `window_open` is defined (see `tick_safe`).
    pub fn can_tick(&self, mem: &Memory, window_open: bool) -> (r: bool)
        requires
            self@.regs == all_regs(),
            ppu_memory(mem@),
        ensures
            r == tick_safe(self@, mem@, window_open),
    {
        let n = self.regs.len();
        let mut cfg = self.cfg;
        let mut i: usize = 0;
        while i < n
            invariant
                n == all_regs().len(),
                i <= n,
                ppu_memory(mem@),
                self.regs@ == all_regs(),
                cfg == pull_all(self@.cfg, all_regs().take(i as int), mem@),
            decreases n - i,
        {
            let reg = self.regs[i];
            let val = mem.get(reg.addr(), MemClient::PPU);
            proof {
                assert(all_regs().take(i + 1).drop_last() =~= all_regs().take(i as int));
            }
            cfg = apply_register(cfg, reg, val);
            i = i + 1;
        }
        proof {
            assert(all_regs().take(n as int) =~= all_regs());
        }
        if !(self.alive && window_open && cfg.lcd_enabled) {
            return true;
        }
        let hblank = cfg.state == PPUState::HBlank;
        let vblank = cfg.state == PPUState::VBlank;
        (!(hblank && self.lclk == 63) || cfg.ly < 144) && (!(hblank && self.lclk == 113) || cfg.ly < 255) && (
        !(vblank && self.lclk == 113) || cfg.ly < 255)
    }

    /// The value of a register, encoded from the configuration.
    fn encode_register(&self, reg: PPUReg) -> (val: u8)
        ensures
            val == encoded(self.cfg, reg),
    {
        match reg {
            PPUReg::Lcdc => {
                let b7: u8 = if self.cfg.lcd_enabled { 1 } else { 0 };
                let b6: u8 = if self.cfg.win_map_high_bank { 1 } else { 0 };
                let b5: u8 = if self.cfg.win_en { 1 } else { 0 };
                let b4: u8 = if self.cfg.bg_data_low_bank { 1 } else { 0 };
                let b3: u8 = if self.cfg.bg_map_high_bank { 1 } else { 0 };
                let b2: u8 = if self.cfg.tall_objs { 1 } else { 0 };
                let b1: u8 = if self.cfg.obj_en { 1 } else { 0 };
                let b0: u8 = if self.cfg.bg_priority { 1 } else { 0 };
                proof {
                    lemma_pack2(b1, b0);
                    lemma_pack(b7, b6, b5, b4, b3, b2, (b1 << 1u8) | (b0 << 0u8));
                }
                (b7 << 7u8) | (b6 << 6u8) | (b5 << 5u8) | (b4 << 4u8) | (b3 << 3u8) | (b2 << 2u8) | (
                (b1 << 1u8) | (b0 << 0u8))
            },
            PPUReg::Stat => {
                // Bit 7 of STAT always returns 1
                let b6: u8 = if self.cfg.ly_eq_lyc_intr { 1 } else { 0 };
                let b5: u8 = if self.cfg.oam_intr { 1 } else { 0 };
                let b4: u8 = if self.cfg.vblank_intr { 1 } else { 0 };
                let b3: u8 = if self.cfg.hblank_intr { 1 } else { 0 };
                let b2: u8 = if self.cfg.ly_eq_lyc { 1 } else { 0 };
                let mode: u8 = if self.cfg.lcd_enabled {
                    match self.cfg.state {
                        PPUState::HBlank => 0,
                        PPUState::VBlank => 1,
                        PPUState::OAMSearch => 2,
                        PPUState::Draw => 3,
                    }
                } else {
                    0
                };
                proof {
                    lemma_pack(1, b6, b5, b4, b3, b2, mode);
                }
                (1u8 << 7u8) | (b6 << 6u8) | (b5 << 5u8) | (b4 << 4u8) | (b3 << 3u8) | (b2 << 2u8) | mode
            },
            PPUReg::Bgp => self.cfg.bgp,
            PPUReg::Scy => self.cfg.scy,
            PPUReg::Scx => self.cfg.scx,
            PPUReg::Ly => self.cfg.ly,
            PPUReg::Lyc => self.cfg.lyc,
            PPUReg::Dma => self.cfg.dma,
            PPUReg::Obp0 => self.cfg.obp0,
            PPUReg::Obp1 => self.cfg.obp1,
            PPUReg::Wy => self.cfg.wy,
            PPUReg::Wx => self.cfg.wx,
            PPUReg::Vbk => if self.cfg.vbk_enable { 1 } else { 0 },
        }
    }

    /// Flush the configuration to the registers in memory.
    pub fn push_registers(&self, mem: &mut Memory)
        requires
            self@.regs == all_regs(),
            ppu_memory(old(mem)@),
        ensures
            final(mem)@ == push_all(old(mem)@, all_regs(), self@.cfg),
    {
        let n = self.regs.len();
        let mut i: usize = 0;
        while i < n
            invariant
                n == all_regs().len(),
                i <= n,
                self.regs@ == all_regs(),
                mem@ == push_all(old(mem)@, all_regs().take(i as int), self@.cfg),
                mem@.ram.len() == old(mem)@.ram.len(),
                ppu_memory(old(mem)@),
            decreases n - i,
        {
            let reg = self.regs[i];
            // Encode our current config state into actual register values
            let val = self.encode_register(reg);
            mem.set(val, reg.addr(), MemClient::PPU);
            proof {
                assert(all_regs().take(i + 1).drop_last() =~= all_regs().take(i as int));
            }
            i = i + 1;
        }
        proof {
            assert(all_regs().take(n as int) =~= all_regs());
        }
    }


    // Given the coordinates of a BG map tile, return the start address of that tile's data.
    fn get_bg_data_ptr(&self, tx: u8, ty: u8, mem: &Memory) -> (addr: u16)
        requires
            tx < 32,
            ty < 32,
            ppu_memory(mem@),
        ensures
            addr == tile_data_addr(self@.cfg, mem@, tx as int, ty as int),
            0x8000 <= addr <= 0x97f0,
    {
        let base_bg_map_addr: u16 = if self.cfg.bg_map_high_bank { 0x9c00 } else { 0x9800 };
        let base_bg_data_addr: u16 = if self.cfg.bg_data_low_bank { 0x8000 } else { 0x9000 };
        let bg_map_ptr = base_bg_map_addr + (ty as u16) * 32 + tx as u16;
        let bg_data_offset = mem.get(bg_map_ptr, MemClient::PPU);

        // Depending on the bank location, the addressing mode is different.
        // High-bank config uses a signed integer offset, low-bank is unsigned.
        // We multiply the offset by 16 because that's the number of bytes per-tile.
        if self.cfg.bg_data_low_bank || bg_data_offset < 128 {
            base_bg_data_addr + (bg_data_offset as u16) * 16
        } else {
            base_bg_data_addr - (256 - bg_data_offset as u16) * 16
        }
    }

    /// The tile rows that the chunk at LX spans: (low and high byte of the
    /// first tile's row, low and high byte of the next tile's row, offset of
    /// the chunk's first pixel within the first tile).
    fn chunk_rows(&self, mem: &Memory) -> (rows: (u8, u8, u8, u8, u8))
        requires
            self@.cfg.lx < 160,
            self@.cfg.lx % 8 == 0,
            ppu_memory(mem@),
        ensures
            rows.4 < 8,
            forall|j: int|
                0 <= j < 8 ==> #[trigger] pixel_color(self@.cfg, mem@, self@.cfg.lx + j) == chunk_colour(
                    rows.0,
                    rows.1,
                    rows.2,
                    rows.3,
                    j + rows.4,
                ),
    {
        let ghost cfg0 = self.cfg;
        let start = self.cfg.lx;
        let global_pixel_y = self.cfg.ly.wrapping_add(self.cfg.scy);
        let global_pixel_x = self.cfg.lx.wrapping_add(self.cfg.scx);

        // Get the tile coordinates, and the offset within each tile.
        let tile_y = global_pixel_y / 8;
        let tile_x = global_pixel_x / 8;
        let tile_y_offset = global_pixel_y % 8;
        let tile_x_offset = global_pixel_x % 8;

        // We export 8 pixels here, so the data could come from two adjacent tiles (due to scrolling).
        // So we get the data for both this tile and next horizontally adjacent tile.
        let data_line_ptr_cur = self.get_bg_data_ptr(tile_x, tile_y, mem) + tile_y_offset as u16 * 2;
        let data_line_ptr_nxt = self.get_bg_data_ptr((tile_x + 1) % 32, tile_y, mem) + tile_y_offset as u16 * 2;

        // "For each line, the first byte defines the least significant bits of the color numbers
        //  for each pixel, and the second byte defines the upper bits of the color numbers. In
        //  either case, Bit 7 is the leftmost pixel, and Bit 0 the rightmost."
        let c0 = mem.get(data_line_ptr_cur, MemClient::PPU);
        let c1 = mem.get(data_line_ptr_cur + 1, MemClient::PPU);
        let n0 = mem.get(data_line_ptr_nxt, MemClient::PPU);
        let n1 = mem.get(data_line_ptr_nxt + 1, MemClient::PPU);

        let ghost gy = (cfg0.ly + cfg0.scy) % 256;
        let ghost gx = (start + cfg0.scx) % 256;
        assert(global_pixel_y == gy);
        assert(global_pixel_x == gx);
        let ghost cur = tile_data_addr(cfg0, mem@, gx / 8, gy / 8) + (gy % 8) * 2;
        let ghost nxt = tile_data_addr(cfg0, mem@, (gx / 8 + 1) % 32, gy / 8) + (gy % 8) * 2;
        assert(data_line_ptr_cur == cur);
        assert(data_line_ptr_nxt == nxt);
        assert forall|j: int| 0 <= j < 8 implies #[trigger] pixel_color(cfg0, mem@, start + j)
            == chunk_colour(c0, c1, n0, n1, j + tile_x_offset) by {
            lemma_pixel_in_chunk(cfg0, mem@, start as int, j);
        }
        (c0, c1, n0, n1, tile_x_offset)
    }

    // A "chunk" is a group of 8 horizontal pixels.
    #[verifier::rlimit(40)]
    #[verifier::spinoff_prover]
    fn get_chunk(&mut self, mem: &Memory)
        requires
            old(self)@.pixels.len() == FRAME_BYTES,
            old(self)@.cfg.ly < 144,
            old(self)@.cfg.lx < 160,
            old(self)@.cfg.lx % 8 == 0,
            ppu_memory(mem@),
        ensures
            final(self)@ == (PPUView {
                cfg: PPUConfig { lx: ((old(self)@.cfg.lx + 8) % 160) as u8, ..old(self)@.cfg },
                pixels: drawn_between(
                    old(self)@.pixels,
                    old(self)@.cfg,
                    mem@,
                    old(self)@.cfg.lx as int,
                    old(self)@.cfg.lx + 8,
                ),
                ..old(self)@
            }),
    {
        let ghost cfg0 = self.cfg;
        let ghost pixels0 = self.pixels@;
        let start = self.cfg.lx;
        let (c0, c1, n0, n1, tile_x_offset) = self.chunk_rows(mem);
        let data_line_cur = util::join_u8((c0, c1));
        let data_line_nxt = util::join_u8((n0, n1));

        let hi_bits = (data_line_cur & 0xFF00) | (data_line_nxt >> 8u16);
        let lo_bits = (data_line_cur << 8u16) | (data_line_nxt & 0xFF);
        proof {
            lemma_row_words(data_line_cur, data_line_nxt);
        }
        let ghost hi_word = hi_bits;
        let ghost lo_word = lo_bits;
        assert(hi_word == (c1 as u16) * 256 + n1 as u16);
        assert(lo_word == (c0 as u16) * 256 + n0 as u16);

        let hi_rev = reverse_bits16(hi_bits);
        let lo_rev = reverse_bits16(lo_bits);
        let mut hi_bits = hi_rev >> tile_x_offset as u16;
        let mut lo_bits = lo_rev >> tile_x_offset as u16;

        proof {
            reveal(drawn_between);
            assert(drawn_between(pixels0, cfg0, mem@, start as int, start as int) =~= pixels0);
        }
        let mut k: u8 = 0;
        while k < 8
            invariant
                0 <= k <= 8,
                start < 160,
                start % 8 == 0,
                cfg0.ly < 144,
                tile_x_offset < 8,
                self.regs@ == old(self)@.regs,
                self.lclk == old(self)@.lclk,
                self.alive == old(self)@.alive,
                self.cfg == (PPUConfig { lx: ((start + k) % 160) as u8, ..cfg0 }),
                self.pixels@ == drawn_between(pixels0, cfg0, mem@, start as int, start + k),
                self.pixels@.len() == FRAME_BYTES,
                pixels0.len() == FRAME_BYTES,
                hi_bits == hi_rev >> ((tile_x_offset + k) as u16),
                lo_bits == lo_rev >> ((tile_x_offset + k) as u16),
                forall|i: u16| i < 16 ==> #[trigger] bit16(hi_rev, i) == bit16(hi_word, (15 - i) as u16),
                forall|i: u16| i < 16 ==> #[trigger] bit16(lo_rev, i) == bit16(lo_word, (15 - i) as u16),
                hi_word == (c1 as u16) * 256 + n1 as u16,
                lo_word == (c0 as u16) * 256 + n0 as u16,
                forall|j: int| 0 <= j < 8 ==> #[trigger] pixel_color(cfg0, mem@, start + j) == chunk_colour(c0, c1, n0, n1, j + tile_x_offset),
            decreases 8 - k,
        {
            let hb = hi_bits & 1;
            let lb = lo_bits & 1;
            proof {
                lemma_shift_shift(hi_rev, (tile_x_offset + k) as u16);
                lemma_shift_shift(lo_rev, (tile_x_offset + k) as u16);
                lemma_reversed_colour(hi_word, lo_word, hi_rev, lo_rev, c0, c1, n0, n1, (tile_x_offset + k) as u16);
                lemma_color_bits(hb, lb);
            }
            let val: u8 = ((hb as u8) << 1u8) | (lb as u8);
            let write_addr = ((self.cfg.ly as usize * WIDTH) + self.cfg.lx as usize) * 3;
            hi_bits = hi_bits >> 1u16;
            lo_bits = lo_bits >> 1u16;

            // The colour number is shown as a fixed grey level; BGP is not applied.
            let (r, g, b): (u8, u8, u8) = match val {
                0 => (0xFF, 0xFF, 0xFF),
                1 => (0xAA, 0xAA, 0xAA),
                2 => (0x55, 0x55, 0x55),
                3 => (0x00, 0x00, 0x00),
                _ => (0xFF, 0x00, 0x00),
            };
            assert(val == pixel_color(cfg0, mem@, start + k));
            assert(r == g && g == b);
            proof {
                lemma_drawn_step(pixels0, cfg0, mem@, start as int, start + k, r);
                lemma_drawn_len(pixels0, cfg0, mem@, start as int, start + k + 1);
            }
            put_pixel(&mut self.pixels, write_addr, r);
            self.cfg.lx = (self.cfg.lx + 1) % (WIDTH as u8);
            k = k + 1;
        }
    }

    /// Draw line LY.
    #[verifier::rlimit(40)]
    #[verifier::spinoff_prover]
    fn render_line(&mut self, mem: &Memory)
        requires
            old(self)@.pixels.len() == FRAME_BYTES,
            old(self)@.cfg.ly < 144,
            old(self)@.cfg.lx == 0,
            ppu_memory(mem@),
        ensures
            final(self)@ == (PPUView { pixels: drawn(old(self)@.pixels, old(self)@.cfg, mem@), ..old(self)@ }),
    {
        let ghost cfg0 = self.cfg;
        let ghost pixels0 = self.pixels@;
        proof {
            reveal(drawn_between);
            assert(drawn_between(pixels0, cfg0, mem@, 0, 0) =~= pixels0);
        }
        // For each scanline...
        let wt = WIDTH / 8;
        let mut w: usize = 0;
        while w < wt
            invariant
                wt == 20,
                w <= wt,
                cfg0.ly < 144,
                cfg0.lx == 0,
                ppu_memory(mem@),
                pixels0.len() == FRAME_BYTES,
                self.cfg == (PPUConfig { lx: ((8 * w) % 160) as u8, ..cfg0 }),
                self.pixels@ == drawn_between(pixels0, cfg0, mem@, 0, 8 * w),
                self.pixels@.len() == FRAME_BYTES,
                self.regs@ == old(self)@.regs,
                self.lclk == old(self)@.lclk,
                self.alive == old(self)@.alive,
            decreases wt - w,
        {
            let ghost before = self.pixels@;
            let ghost cfg1 = self.cfg;
            self.get_chunk(mem);
            proof {
                lemma_drawn_compose(pixels0, cfg0, cfg1, mem@, 8 * w as int, 8 * w + 8);
                lemma_drawn_len(pixels0, cfg0, mem@, 0, 8 * w + 8);
            }
            w = w + 1;
        }
    }

    /// Step the state machine by one machine cycle, drawing the line at cycle
    /// 63 of H-blank; returns whether the frame is complete.
    fn advance(&mut self, mem: &Memory) -> (present: bool)
        requires
            old(self)@.wf(),
            ppu_memory(mem@),
            old(self)@.cfg.lcd_enabled ==> {
                &&& (old(self)@.cfg.state == PPUState::HBlank && old(self)@.lclk == 63 ==> old(self)@.cfg.ly < 144)
                &&& (old(self)@.cfg.state == PPUState::HBlank && old(self)@.lclk == 113 ==> old(self)@.cfg.ly < 255)
                &&& (old(self)@.cfg.state == PPUState::VBlank && old(self)@.lclk == 113 ==> old(self)@.cfg.ly < 255)
            },
        ensures
            final(self)@.wf(),
            ({
                let draws = draws_line(old(self)@.cfg, old(self)@.lclk);
                let (cfg, lclk) = next_phase(old(self)@.cfg, old(self)@.lclk);
                &&& final(self)@ == (PPUView {
                    cfg: cfg,
                    lclk: lclk,
                    pixels: if draws { drawn(old(self)@.pixels, old(self)@.cfg, mem@) } else { old(self)@.pixels },
                    ..old(self)@
                })
                &&& present == (draws && old(self)@.cfg.ly == 143)
            }),
    {
        proof {
            lemma_drawn_len(self@.pixels, self@.cfg, mem@, 0, 160);
        }
        let mut present = false;
        if self.cfg.lcd_enabled && self.cfg.state == PPUState::HBlank && self.lclk == 63 {
            self.render_line(mem);
            if self.cfg.ly == 143 {
                present = true;
            }
        }
        let (cfg, lclk) = next_phase_exec(self.cfg, self.lclk);
        self.cfg = cfg;
        self.lclk = lclk;
        present
    }

    /// Whether the window's events are to be polled before the next tick:
    /// the PPU polls them while it is alive and in V-blank.
    pub fn polls_window_events(&self) -> (r: bool)
        ensures
            r == (self@.alive && self@.cfg.state == PPUState::VBlank),
    {
        self.alive && self.cfg.state == PPUState::VBlank
    }

    fn check_events(&mut self, window_open: bool)
        ensures
            ({
                let (cfg, alive) = after_events(old(self)@.cfg, old(self)@.alive, window_open);
                final(self)@ == (PPUView { cfg: cfg, alive: alive, ..old(self)@ })
            }),
    {
        // Do nothing if we've terminated the application.
        if !self.is_alive() {
            return;
        }

        // Check window for termination events
        if !window_open {
            self.terminate();
            return;
        }

        // Check for LY==LYC; no interrupt is raised.
        self.cfg.ly_eq_lyc = self.cfg.ly == self.cfg.lyc;
    }

    /// Performs the appropriate PPU action for this machine cycle. The caller
    /// polls the window's events first when `polls_window_events` says so, and
    /// passes whether the window is still open. Returns true when the frame is
    /// complete and is to be presented.
    // The Draw state always takes the same number of cycles.
    #[verifier::spinoff_prover]
    pub fn tick(&mut self, mem: &mut Memory, window_open: bool) -> (present: bool)
        requires
            old(self)@.wf(),
            old(self)@.regs == all_regs(),
            ppu_memory(old(mem)@),
            tick_safe(old(self)@, old(mem)@, window_open),
        ensures
            final(self)@.wf(),
            final(self)@ == tick_result(old(self)@, old(mem)@, window_open).0,
            final(mem)@ == tick_result(old(self)@, old(mem)@, window_open).1,
            present == tick_result(old(self)@, old(mem)@, window_open).2,
    {
        let ghost p0 = self@;
        let ghost m0 = mem@;
        /*
         * PPU clock cycle overview
         * 1. Pull PPU CFG registers and modify settings accordingly
         * 2. Check for window events
         * 3. Determine the current PPUState
         * 4. Do the appropriate work for this state
         * 5. Flush register changes
         */

        proof {
            lemma_pull_keeps(self.cfg, all_regs(), mem@);
        }
        // Check window events and for register changes
        self.pull_registers(mem);
        self.check_events(window_open);

        let ghost c1 = pull_all(p0.cfg, all_regs(), m0);
        assert(after_events(c1, p0.alive, window_open).1 == self.alive);
        assert(after_events(c1, p0.alive, window_open).0 == self.cfg);
        if !self.alive {
            return false;
        }

        let present = self.advance(mem);
        proof {
            lemma_push_keeps(mem@, all_regs(), self.cfg);
        }
        self.push_registers(mem);
        present
    }

    /// The frame, RGB8 row by row.
    pub fn pixels(&self) -> (p: &[u8])
        ensures
            p@ == self@.pixels,
    {
        self.pixels.as_slice()
    }

    pub fn terminate(&mut self)
        ensures
            final(self)@ == (PPUView { alive: false, ..old(self)@ }),
    {
        self.alive = false;
    }

    pub fn is_alive(&self) -> (r: bool)
        ensures
            r == self@.alive,
    {
        self.alive
    }
}

} // verus!
