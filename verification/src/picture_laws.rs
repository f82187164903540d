//! What the picture processing unit draws, stated on the bytes of the frame
//! and of tile memory.
use vstd::prelude::*;

use crate::memory::MemView;
use crate::ppu::{all_regs, after_events, drawn, pixel_color, pull_all, tick_result, tile_data_addr, PPUConfig, PPUState, PPUView, FRAME_BYTES};
use crate::util::bit_of;

verus! {

/// Drawing a line gives each of its 160 pixels one grey level in all three
/// colour bytes: 0xFF for colour 0, 0xAA for colour 1, 0x55 for colour 2 and
/// 0x00 for colour 3, each colour darker than the one before; every byte
/// outside the line stays as it was.
pub proof fn law_grey_levels(pixels: Seq<u8>, cfg: PPUConfig, mem: MemView, x: int, k: int, i: int)
    requires
        pixels.len() == FRAME_BYTES,
        cfg.ly < 144,
        0 <= x < 160,
        0 <= k < 3,
        0 <= i < pixels.len(),
    ensures
        0 <= pixel_color(cfg, mem, x) <= 3,
        drawn(pixels, cfg, mem)[(cfg.ly * 160 + x) * 3 + k] == 255 - 85 * pixel_color(cfg, mem, x),
        pixel_color(cfg, mem, x) == 0 ==> drawn(pixels, cfg, mem)[(cfg.ly * 160 + x) * 3 + k] == 0xFF,
        pixel_color(cfg, mem, x) == 1 ==> drawn(pixels, cfg, mem)[(cfg.ly * 160 + x) * 3 + k] == 0xAA,
        pixel_color(cfg, mem, x) == 2 ==> drawn(pixels, cfg, mem)[(cfg.ly * 160 + x) * 3 + k] == 0x55,
        pixel_color(cfg, mem, x) == 3 ==> drawn(pixels, cfg, mem)[(cfg.ly * 160 + x) * 3 + k] == 0x00,
        !(cfg.ly * 480 <= i < cfg.ly * 480 + 480) ==> drawn(pixels, cfg, mem)[i] == pixels[i],
        drawn(pixels, cfg, mem).len() == pixels.len(),
{
    reveal(crate::ppu::drawn_between);
    reveal(pixel_color);
    let j = (cfg.ly * 160 + x) * 3 + k;
    assert((j - cfg.ly * 480) / 3 == x);
}

/// Where SCX is a multiple of 8, pixel `x` of the line takes its colour from
/// the tile under it: the bit for column `x % 8` (bit 7 for the leftmost) of
/// the second byte of the tile's row gives the high bit of the colour and the
/// same bit of the first byte the low bit.
pub proof fn law_pixel_from_tile_row(cfg: PPUConfig, mem: MemView, x: int)
    requires
        0 <= x < 160,
        cfg.scx % 8 == 0,
    ensures
        ({
            let gy = (cfg.ly + cfg.scy) % 256;
            let row = tile_data_addr(cfg, mem, ((x + cfg.scx) % 256) / 8, gy / 8) + (gy % 8) * 2;
            let b = (7 - x % 8) as u8;
            pixel_color(cfg, mem, x) == 2 * (if bit_of(mem.read((row + 1) as u16), b) { 1int } else { 0 }) + (if bit_of(
                mem.read(row as u16),
                b,
            ) { 1int } else { 0 })
        }),
{
    reveal(pixel_color);
    let gx = ((x / 8) * 8 + cfg.scx) % 256;
    assert(gx % 8 == 0);
    assert(gx / 8 == ((x + cfg.scx) % 256) / 8);
}

/// Where a background tile's data starts: with tile data in the low bank,
/// tile `n` of the map at 0x8000 + 16n; otherwise tiles 0-127 at
/// 0x9000 + 16n and tiles 128-255 at 0x8800 + 16(n - 128). The map entry is
/// read from 0x9800 (or 0x9C00 with the high map bank) plus 32 per row.
pub proof fn law_tile_addresses(cfg: PPUConfig, mem: MemView, tx: int, ty: int)
    ensures
        ({
            let entry = mem.read(((if cfg.bg_map_high_bank { 0x9c00int } else { 0x9800 }) + ty * 32 + tx) as u16);
            tile_data_addr(cfg, mem, tx, ty) == if cfg.bg_data_low_bank {
                0x8000 + 16 * entry
            } else if entry < 128 {
                0x9000 + 16 * entry
            } else {
                0x8800 + 16 * (entry - 128)
            }
        }),
{
}

/// The tick at cycle 63 of H-blank, with the LCD on and the window open,
/// draws the whole current line: each pixel gets the grey level of its
/// colour, 0xFF - 0x55 per colour step, in all three bytes.
pub proof fn law_tick_draws_line(p: PPUView, mem: MemView, x: int, k: int)
    requires
        p.alive,
        p.pixels.len() == FRAME_BYTES,
        p.lclk == 63,
        0 <= x < 160,
        0 <= k < 3,
        ({
            let c = pull_all(p.cfg, all_regs(), mem);
            c.lcd_enabled && c.state == PPUState::HBlank && c.ly < 144
        }),
    ensures
        ({
            let c = after_events(pull_all(p.cfg, all_regs(), mem), true, true).0;
            tick_result(p, mem, true).0.pixels[(c.ly * 160 + x) * 3 + k] == 255 - 85 * pixel_color(c, mem, x)
        }),
{
    let c = after_events(pull_all(p.cfg, all_regs(), mem), true, true).0;
    law_grey_levels(p.pixels, c, mem, x, k, 0);
}

} // verus!
