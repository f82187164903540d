//! The display unit that the CPU interpreter drives: a cache of the display
//! registers with change tracking, and the line-timing state machine.
use vstd::prelude::*;

use crate::memory::{MemClient, MemView, Memory};

verus! {

/// What the display is doing.
#[derive(Copy, Clone, PartialEq, Eq, Structural)]
pub enum DisplayState {
    /// The window was closed: the application is to end.
    Quit,
    /// The application runs with the LCD inactive (LCDC bit 7 clear).
    Off,
    /// The idle period after each line is drawn.
    HBlank,
    /// The idle period after the final line is drawn.
    VBlank,
    /// The scan of objects on the current line.
    OAMSearch,
    /// The transfer of pixels to the LCD.
    Draw,
}

/// The display registers that are cached, in cache order.
#[derive(Copy, Clone, PartialEq, Eq, Structural)]
pub enum DisplayReg {
    Lcdc,
    Stat,
    Scy,
    Scx,
    Ly,
    Lyc,
    Dma,
    Bgp,
    Obp0,
    Obp1,
    Wy,
    Wx,
    Vbk,
}

/// The number of cached display registers.
pub const NUM_DISPLAY_REGS: usize = 13;

/// The address of the register in cache slot `i`: 0xFF40 onwards, VBK at 0xFF4F.
pub open spec fn reg_addr(i: int) -> u16 {
    if i == 12 {
        0xff4f
    } else {
        (0xff40 + i) as u16
    }
}

fn reg_addr_exec(i: usize) -> (a: u16)
    requires
        i < NUM_DISPLAY_REGS,
    ensures
        a == reg_addr(i as int),
{
    if i == 12 {
        0xff4f
    } else {
        0xff40 + i as u16
    }
}

impl DisplayReg {
    /// The register's name.
    pub open spec fn mnemonic(self) -> Seq<char> {
        match self {
            DisplayReg::Lcdc => "LCDC"@,
            DisplayReg::Stat => "STAT"@,
            DisplayReg::Scy => "SCY"@,
            DisplayReg::Scx => "SCX"@,
            DisplayReg::Ly => "LY"@,
            DisplayReg::Lyc => "LYC"@,
            DisplayReg::Dma => "DMA"@,
            DisplayReg::Bgp => "BGP"@,
            DisplayReg::Obp0 => "OBP0"@,
            DisplayReg::Obp1 => "OBP1"@,
            DisplayReg::Wy => "WY"@,
            DisplayReg::Wx => "WX"@,
            DisplayReg::Vbk => "VBK"@,
        }
    }

    /// The register's slot in the cache.
    pub open spec fn slot(self) -> int {
        match self {
            DisplayReg::Lcdc => 0,
            DisplayReg::Stat => 1,
            DisplayReg::Scy => 2,
            DisplayReg::Scx => 3,
            DisplayReg::Ly => 4,
            DisplayReg::Lyc => 5,
            DisplayReg::Dma => 6,
            DisplayReg::Bgp => 7,
            DisplayReg::Obp0 => 8,
            DisplayReg::Obp1 => 9,
            DisplayReg::Wy => 10,
            DisplayReg::Wx => 11,
            DisplayReg::Vbk => 12,
        }
    }

    pub fn index(&self) -> (i: usize)
        ensures
            i == self.slot(),
    {
        match self {
            DisplayReg::Lcdc => 0,
            DisplayReg::Stat => 1,
            DisplayReg::Scy => 2,
            DisplayReg::Scx => 3,
            DisplayReg::Ly => 4,
            DisplayReg::Lyc => 5,
            DisplayReg::Dma => 6,
            DisplayReg::Bgp => 7,
            DisplayReg::Obp0 => 8,
            DisplayReg::Obp1 => 9,
            DisplayReg::Wy => 10,
            DisplayReg::Wx => 11,
            DisplayReg::Vbk => 12,
        }
    }

    /// The register's memory address.
    pub fn addr(&self) -> (a: u16)
        ensures
            a == reg_addr(self.slot()),
    {
        reg_addr_exec(self.index())
    }

    /// The register's name.
    pub fn name(&self) -> (s: &'static str)
        ensures
            s@ == self.mnemonic(),
    {
        match self {
            DisplayReg::Lcdc => "LCDC",
            DisplayReg::Stat => "STAT",
            DisplayReg::Scy => "SCY",
            DisplayReg::Scx => "SCX",
            DisplayReg::Ly => "LY",
            DisplayReg::Lyc => "LYC",
            DisplayReg::Dma => "DMA",
            DisplayReg::Bgp => "BGP",
            DisplayReg::Obp0 => "OBP0",
            DisplayReg::Obp1 => "OBP1",
            DisplayReg::Wy => "WY",
            DisplayReg::Wx => "WX",
            DisplayReg::Vbk => "VBK",
        }
    }
}

/// A field of a display register.
#[derive(Copy, Clone, PartialEq, Eq, Structural)]
pub enum RegField {
    LcdcEnable,
    LcdcWinMapPos,
    LcdcWinEnableLE,
    LcdcBgWinDataPos,
    LcdcBgMapPos,
    LcdcObjSize,
    LcdcObjEnable,
    LcdcObjWinPrio,
    StatCoincInt,
    StatOamInt,
    StatVblankInt,
    StatHblankInt,
    StatCoincidence,
    StatMode,
    BgpShadeColor3,
    BgpShadeColor2,
    BgpShadeColor1,
    BgpShadeColor0,
}

impl RegField {
    /// The register that holds the field.
    pub open spec fn parent(self) -> DisplayReg {
        match self {
            RegField::LcdcEnable | RegField::LcdcWinMapPos | RegField::LcdcWinEnableLE
            | RegField::LcdcBgWinDataPos | RegField::LcdcBgMapPos | RegField::LcdcObjSize
            | RegField::LcdcObjEnable | RegField::LcdcObjWinPrio => DisplayReg::Lcdc,
            RegField::StatCoincInt | RegField::StatOamInt | RegField::StatVblankInt
            | RegField::StatHblankInt | RegField::StatCoincidence | RegField::StatMode => DisplayReg::Stat,
            _ => DisplayReg::Bgp,
        }
    }

    /// The field's lowest bit and its width in bits.
    pub open spec fn offset_size(self) -> (u8, u8) {
        match self {
            RegField::LcdcEnable => (7, 1),
            RegField::LcdcWinMapPos => (6, 1),
            RegField::LcdcWinEnableLE => (5, 1),
            RegField::LcdcBgWinDataPos => (4, 1),
            RegField::LcdcBgMapPos => (3, 1),
            RegField::LcdcObjSize => (2, 1),
            RegField::LcdcObjEnable => (1, 1),
            RegField::LcdcObjWinPrio => (0, 1),
            RegField::StatCoincInt => (6, 1),
            RegField::StatOamInt => (5, 1),
            RegField::StatVblankInt => (4, 1),
            RegField::StatHblankInt => (3, 1),
            RegField::StatCoincidence => (2, 1),
            RegField::StatMode => (0, 2),
            RegField::BgpShadeColor3 => (6, 2),
            RegField::BgpShadeColor2 => (4, 2),
            RegField::BgpShadeColor1 => (2, 2),
            RegField::BgpShadeColor0 => (0, 2),
        }
    }
}

/// The mask that a field is read with: it keeps one bit more than the
/// field's width.
pub open spec fn field_mask(size: u8) -> u8 {
    if size == 1 {
        3
    } else {
        7
    }
}

/// The state of the display unit.
pub struct DisplayView {
    pub state: DisplayState,
    /// The cached register values, by slot.
    pub cache: Seq<u8>,
    /// Which cached registers changed since they were read from memory.
    pub dirty: Seq<bool>,
    /// The machine cycle within the current line.
    pub lclk: u32,
}

impl DisplayView {
    /// The cache holds every register, and the line clock stays within the
    /// part of the line that the state covers.
    pub open spec fn wf(self) -> bool {
        &&& self.cache.len() == NUM_DISPLAY_REGS
        &&& self.dirty.len() == NUM_DISPLAY_REGS
        &&& self.lclk <= 113
        &&& (self.state == DisplayState::OAMSearch ==> self.lclk <= 19)
        &&& (self.state == DisplayState::Draw ==> self.lclk <= 62)
    }

    pub open spec fn reg(self, r: DisplayReg) -> u8 {
        self.cache[r.slot()]
    }

    /// Store a register value; it is marked changed when it differs from
    /// the value before.
    pub open spec fn set_reg(self, r: DisplayReg, val: u8) -> DisplayView {
        DisplayView {
            cache: self.cache.update(r.slot(), val),
            dirty: self.dirty.update(r.slot(), self.cache[r.slot()] != val),
            ..self
        }
    }

    /// A register field, read with `field_mask`.
    pub open spec fn field(self, f: RegField) -> u8 {
        let (offset, size) = f.offset_size();
        (self.reg(f.parent()) >> offset) & field_mask(size)
    }

    /// Every register read from memory, none marked changed.
    pub open spec fn pulled(self, mem: MemView) -> DisplayView {
        DisplayView {
            cache: Seq::new(NUM_DISPLAY_REGS as nat, |i: int| mem.read(reg_addr(i))),
            dirty: Seq::new(NUM_DISPLAY_REGS as nat, |i: int| false),
            ..self
        }
    }

    /// Memory after the changed registers are written back.
    pub open spec fn pushed(self, mem: MemView) -> MemView {
        push_upto(mem, self.cache, self.dirty, NUM_DISPLAY_REGS as nat)
    }

    pub open spec fn alive(self) -> bool {
        self.state != DisplayState::Quit
    }

    pub open spec fn rendering(self) -> bool {
        self.state != DisplayState::Off && self.alive()
    }
}

/// Memory after the changed registers among the first `n` slots are written.
pub open spec fn push_upto(mem: MemView, cache: Seq<u8>, dirty: Seq<bool>, n: nat) -> MemView
    decreases n,
{
    if n == 0 {
        mem
    } else {
        let m = push_upto(mem, cache, dirty, (n - 1) as nat);
        if dirty[n - 1] {
            m.write(reg_addr(n - 1), cache[n - 1])
        } else {
            m
        }
    }
}

/// The memory that holds the display registers.
pub open spec fn display_memory(mem: MemView) -> bool {
    mem.ram.len() > 0xff4f
}

/// Turning the display on: OAM search from cycle 0, LY set to 0, a frame shown.
pub open spec fn started(v: DisplayView) -> DisplayView {
    DisplayView { state: DisplayState::OAMSearch, lclk: 0, ..v }.set_reg(DisplayReg::Ly, 0)
}

/// The effect of the window events and of LCDC: closing the window ends the
/// application; LCDC bit 7 turns the display on (showing a frame) or off.
/// Returns the new state and whether a frame is shown.
pub open spec fn after_events(v: DisplayView, window_open: bool) -> (DisplayView, bool) {
    if !v.alive() {
        (v, false)
    } else if !window_open {
        (DisplayView { state: DisplayState::Quit, ..v }, false)
    } else {
        let lcdc_on = v.field(RegField::LcdcEnable) != 0;
        if lcdc_on && !v.rendering() {
            (started(v), true)
        } else if !lcdc_on && v.rendering() {
            (DisplayView { state: DisplayState::Off, ..v }, false)
        } else {
            (v, false)
        }
    }
}

/// One machine cycle of the line timing, LY written back at the end. Returns
/// the new state and whether a frame is shown (on entering V-blank).
pub open spec fn timed(v: DisplayView) -> (DisplayView, bool) {
    let ly = v.reg(DisplayReg::Ly);
    let (w, new_ly, shown): (DisplayView, int, bool) = match v.state {
        DisplayState::HBlank => if v.lclk == 113 {
            (
                DisplayView {
                    state: if ly == 143 { DisplayState::VBlank } else { DisplayState::Draw },
                    lclk: 0,
                    ..v
                },
                ly + 1,
                ly == 143,
            )
        } else {
            (DisplayView { lclk: (v.lclk + 1) as u32, ..v }, ly as int, false)
        },
        DisplayState::VBlank => if v.lclk == 113 {
            if ly == 153 {
                (
                    DisplayView { state: DisplayState::OAMSearch, lclk: 0, ..v }.set_reg(DisplayReg::Ly, 0),
                    0,
                    false,
                )
            } else {
                (DisplayView { lclk: 0, ..v }, ly + 1, false)
            }
        } else {
            (DisplayView { lclk: (v.lclk + 1) as u32, ..v }, ly as int, false)
        },
        DisplayState::OAMSearch => (
            DisplayView {
                state: if v.lclk == 19 { DisplayState::Draw } else { DisplayState::OAMSearch },
                lclk: (v.lclk + 1) as u32,
                ..v
            },
            ly as int,
            false,
        ),
        DisplayState::Draw => (
            DisplayView {
                state: if v.lclk == 62 { DisplayState::HBlank } else { DisplayState::Draw },
                lclk: (v.lclk + 1) as u32,
                ..v
            },
            ly as int,
            false,
        ),
        _ => (v, ly as int, false),
    };
    (w.set_reg(DisplayReg::Ly, new_ly as u8), shown)
}

/// A tick overflows LY when the line ends with LY at 255.
pub open spec fn tick_safe(v: DisplayView, mem: MemView, window_open: bool) -> bool {
    let e = after_events(v.pulled(mem), window_open).0;
    e.lclk == 113 && (e.state == DisplayState::HBlank || (e.state == DisplayState::VBlank && e.reg(
        DisplayReg::Ly,
    ) != 153)) ==> e.reg(DisplayReg::Ly) < 255
}

/// The display unit and memory after one tick, and whether a frame is shown:
/// the registers are read, the window events and LCDC looked at, the line
/// timing stepped and the changed registers written back.
pub open spec fn tick_result(v: DisplayView, mem: MemView, window_open: bool) -> (DisplayView, MemView, bool) {
    let (e, shown_on_start) = after_events(v.pulled(mem), window_open);
    let (t, shown_on_vblank) = timed(e);
    (t, t.pushed(mem), shown_on_start || shown_on_vblank)
}

/// The display unit after construction: off, its registers read from memory
/// with LCDC = 0x91, BGP = 0xFC and OBP0 = OBP1 = 0xFF.
pub open spec fn initial_display(mem: MemView) -> DisplayView {
    DisplayView {
        state: DisplayState::Off,
        cache: Seq::empty(),
        dirty: Seq::empty(),
        lclk: 0,
    }.pulled(mem).set_reg(DisplayReg::Lcdc, 0x91).set_reg(DisplayReg::Bgp, 0xfc).set_reg(
        DisplayReg::Obp0,
        0xff,
    ).set_reg(DisplayReg::Obp1, 0xff)
}

/// The display unit of the CPU interpreter. The frame it shows does not
/// depend on its state; the application draws it.
pub struct PPU {
    state: DisplayState,
    cache: Vec<u8>,
    dirty: Vec<bool>,
    lclk: u32,
}

impl View for PPU {
    type V = DisplayView;

    closed spec fn view(&self) -> DisplayView {
        DisplayView { state: self.state, cache: self.cache@, dirty: self.dirty@, lclk: self.lclk }
    }
}

/// The width of the virtual screen.
pub const SCREEN_WIDTH: u32 = 160;

/// The height of the virtual screen.
pub const SCREEN_HEIGHT: u32 = 144;

impl PPU {
    /// A display unit, off, with its registers initialised in memory:
    /// LCDC = 0x91, BGP = 0xFC, OBP0 = OBP1 = 0xFF.
    pub fn new(mem: &mut Memory) -> (ppu: PPU)
        requires
            display_memory(old(mem)@),
        ensures
            ppu@ == initial_display(old(mem)@),
            ppu@.wf(),
            final(mem)@ == ppu@.pushed(old(mem)@),
    {
        let mut cache: Vec<u8> = Vec::new();
        let mut dirty: Vec<bool> = Vec::new();
        let mut i: usize = 0;
        while i < NUM_DISPLAY_REGS
            invariant
                i <= NUM_DISPLAY_REGS,
                cache@.len() == i,
                dirty@.len() == i,
            decreases NUM_DISPLAY_REGS - i,
        {
            cache.push(0);
            dirty.push(true);
            i = i + 1;
        }
        let mut ppu = PPU { state: DisplayState::Off, cache, dirty, lclk: 0 };
        let ghost blank = DisplayView {
            state: DisplayState::Off,
            cache: Seq::empty(),
            dirty: Seq::empty(),
            lclk: 0,
        };
        assert(ppu@.pulled(mem@) == blank.pulled(mem@));
        ppu.pull_registers(mem);
        ppu.reg_set(DisplayReg::Lcdc, 0x91);
        ppu.reg_set(DisplayReg::Bgp, 0xFC);
        ppu.reg_set(DisplayReg::Obp0, 0xFF);
        ppu.reg_set(DisplayReg::Obp1, 0xFF);
        ppu.push_registers(mem);
        ppu
    }

    /// An independent copy of the display unit.
    pub fn snapshot(&self) -> (p: PPU)
        ensures
            p@ == self@,
    {
        let cache = self.cache.clone();
        let dirty = self.dirty.clone();
        assert(cache@ =~= self.cache@);
        assert(dirty@ =~= self.dirty@);
        PPU { state: self.state, cache, dirty, lclk: self.lclk }
    }

    /// Read every cached register from memory; none is marked changed after.
    fn pull_registers(&mut self, mem: &Memory)
        requires
            old(self)@.cache.len() == NUM_DISPLAY_REGS,
            old(self)@.dirty.len() == NUM_DISPLAY_REGS,
            display_memory(mem@),
        ensures
            final(self)@ == old(self)@.pulled(mem@),
    {
        let mut i: usize = 0;
        while i < NUM_DISPLAY_REGS
            invariant
                i <= NUM_DISPLAY_REGS,
                display_memory(mem@),
                self.state == old(self).state,
                self.lclk == old(self).lclk,
                self.cache@.len() == NUM_DISPLAY_REGS,
                self.dirty@.len() == NUM_DISPLAY_REGS,
                forall|j: int| 0 <= j < i ==> self.cache@[j] == mem@.read(reg_addr(j)),
                forall|j: int| 0 <= j < i ==> !self.dirty@[j],
            decreases NUM_DISPLAY_REGS - i,
        {
            let val = mem.get(reg_addr_exec(i), MemClient::PPU);
            let old_val = self.cache[i];
            self.cache.set(i, val);
            self.dirty.set(i, old_val != val);
            self.dirty.set(i, false);
            i = i + 1;
        }
        assert(self@.cache =~= old(self)@.pulled(mem@).cache);
        assert(self@.dirty =~= old(self)@.pulled(mem@).dirty);
    }

    /// Write the changed registers back to memory.
    fn push_registers(&self, mem: &mut Memory)
        requires
            self@.cache.len() == NUM_DISPLAY_REGS,
            self@.dirty.len() == NUM_DISPLAY_REGS,
            display_memory(old(mem)@),
        ensures
            final(mem)@ == self@.pushed(old(mem)@),
            display_memory(final(mem)@),
            final(mem)@.ram.len() == old(mem)@.ram.len(),
            final(mem)@.rom.len() == old(mem)@.rom.len(),
    {
        let mut i: usize = 0;
        while i < NUM_DISPLAY_REGS
            invariant
                i <= NUM_DISPLAY_REGS,
                self@.cache.len() == NUM_DISPLAY_REGS,
                self@.dirty.len() == NUM_DISPLAY_REGS,
                mem@ == push_upto(old(mem)@, self@.cache, self@.dirty, i as nat),
                display_memory(old(mem)@),
                mem@.ram.len() == old(mem)@.ram.len(),
                mem@.rom.len() == old(mem)@.rom.len(),
            decreases NUM_DISPLAY_REGS - i,
        {
            if self.dirty[i] {
                mem.set(self.cache[i], reg_addr_exec(i), MemClient::PPU);
            }
            i = i + 1;
        }
    }

    fn reg_get(&self, reg: DisplayReg) -> (v: u8)
        requires
            self@.cache.len() == NUM_DISPLAY_REGS,
        ensures
            v == self@.reg(reg),
    {
        self.cache[reg.index()]
    }

    fn reg_set(&mut self, reg: DisplayReg, val: u8)
        requires
            old(self)@.cache.len() == NUM_DISPLAY_REGS,
            old(self)@.dirty.len() == NUM_DISPLAY_REGS,
        ensures
            final(self)@ == old(self)@.set_reg(reg, val),
    {
        let i = reg.index();
        let old_val = self.cache[i];
        self.cache.set(i, val);
        self.dirty.set(i, old_val != val);
    }

    fn reg_field_parent(&self, field: RegField) -> (r: DisplayReg)
        ensures
            r == field.parent(),
    {
        match field {
            RegField::LcdcEnable | RegField::LcdcWinMapPos | RegField::LcdcWinEnableLE
            | RegField::LcdcBgWinDataPos | RegField::LcdcBgMapPos | RegField::LcdcObjSize
            | RegField::LcdcObjEnable | RegField::LcdcObjWinPrio => DisplayReg::Lcdc,
            RegField::StatCoincInt | RegField::StatOamInt | RegField::StatVblankInt
            | RegField::StatHblankInt | RegField::StatCoincidence | RegField::StatMode => DisplayReg::Stat,
            _ => DisplayReg::Bgp,
        }
    }

    fn reg_field_offset_size(&self, field: RegField) -> (r: (u8, u8))
        ensures
            r == field.offset_size(),
    {
        match field {
            RegField::LcdcEnable => (7, 1),
            RegField::LcdcWinMapPos => (6, 1),
            RegField::LcdcWinEnableLE => (5, 1),
            RegField::LcdcBgWinDataPos => (4, 1),
            RegField::LcdcBgMapPos => (3, 1),
            RegField::LcdcObjSize => (2, 1),
            RegField::LcdcObjEnable => (1, 1),
            RegField::LcdcObjWinPrio => (0, 1),
            RegField::StatCoincInt => (6, 1),
            RegField::StatOamInt => (5, 1),
            RegField::StatVblankInt => (4, 1),
            RegField::StatHblankInt => (3, 1),
            RegField::StatCoincidence => (2, 1),
            RegField::StatMode => (0, 2),
            RegField::BgpShadeColor3 => (6, 2),
            RegField::BgpShadeColor2 => (4, 2),
            RegField::BgpShadeColor1 => (2, 2),
            RegField::BgpShadeColor0 => (0, 2),
        }
    }

    fn reg_field_get(&self, field: RegField) -> (v: u8)
        requires
            self@.cache.len() == NUM_DISPLAY_REGS,
        ensures
            v == self@.field(field),
    {
        let parent = self.reg_field_parent(field);
        let base = self.reg_get(parent);
        let (offset, size) = self.reg_field_offset_size(field);
        let width: u8 = size + 1;
        proof {
            assert((1u8 << 2u8) == 4u8 && (1u8 << 3u8) == 8u8) by (bit_vector);
        }
        let mask: u8 = (1u8 << width) - 1;
        (base >> offset) & mask
    }

    fn reg_field_get_bool(&self, field: RegField) -> (b: bool)
        requires
            self@.cache.len() == NUM_DISPLAY_REGS,
        ensures
            b == (self@.field(field) != 0),
    {
        self.reg_field_get(field) != 0
    }

    /// Turn the display on; returns that a frame is to be shown.
    fn start(&mut self) -> (shown: bool)
        requires
            old(self)@.cache.len() == NUM_DISPLAY_REGS,
            old(self)@.dirty.len() == NUM_DISPLAY_REGS,
        ensures
            final(self)@ == started(old(self)@),
            shown,
    {
        self.state = DisplayState::OAMSearch;
        self.lclk = 0;
        self.reg_set(DisplayReg::Ly, 0);
        true
    }

    fn stop(&mut self)
        ensures
            final(self)@ == (DisplayView { state: DisplayState::Off, ..old(self)@ }),
    {
        self.state = DisplayState::Off;
    }

    /// End the application.
    pub fn terminate(&mut self)
        ensures
            final(self)@ == (DisplayView { state: DisplayState::Quit, ..old(self)@ }),
    {
        self.state = DisplayState::Quit;
    }

    /// Whether the LCD is active and the application running.
    pub fn is_rendering(&self) -> (r: bool)
        ensures
            r == self@.rendering(),
    {
        self.state != DisplayState::Off && self.is_alive()
    }

    /// Whether the application is to keep running.
    pub fn is_alive(&self) -> (r: bool)
        ensures
            r == self@.alive(),
    {
        self.state != DisplayState::Quit
    }

    /// React to the window and to LCDC; returns whether a frame is to be shown.
    fn check_events(&mut self, window_open: bool) -> (shown: bool)
        requires
            old(self)@.cache.len() == NUM_DISPLAY_REGS,
            old(self)@.dirty.len() == NUM_DISPLAY_REGS,
        ensures
            (final(self)@, shown) == after_events(old(self)@, window_open),
    {
        if !self.is_alive() {
            return false;
        }
        if !window_open {
            self.terminate();
            return false;
        }
        let lcdc_on = self.reg_field_get_bool(RegField::LcdcEnable);
        if lcdc_on && !self.is_rendering() {
            self.start()
        } else {
            if !lcdc_on && self.is_rendering() {
                self.stop();
            }
            false
        }
    }

    /// Whether a tick with the window `window_open` is defined: it is not
    /// when a line ends with LY at 255.
    pub fn can_tick(&self, mem: &Memory, window_open: bool) -> (r: bool)
        requires
            self@.wf(),
            display_memory(mem@),
        ensures
            r == tick_safe(self@, mem@, window_open),
    {
        let ly = mem.get(reg_addr_exec(4), MemClient::PPU);
        let lcdc = mem.get(reg_addr_exec(0), MemClient::PPU);
        let lcdc_on = (lcdc >> 7u8) & 3 != 0;
        let rendering = self.is_rendering();
        let timing_runs = self.is_alive() && window_open && !(lcdc_on && !rendering) && !(!lcdc_on && rendering);
        !(timing_runs && self.lclk == 113 && (self.state == DisplayState::HBlank || (self.state
            == DisplayState::VBlank && ly != 153))) || ly < 255
    }

    /// Perform the display work of one machine cycle; returns whether a frame
    /// is to be shown.
    pub fn tick(&mut self, mem: &mut Memory, window_open: bool) -> (shown: bool)
        requires
            old(self)@.wf(),
            display_memory(old(mem)@),
            tick_safe(old(self)@, old(mem)@, window_open),
        ensures
            final(self)@.wf(),
            final(self)@ == tick_result(old(self)@, old(mem)@, window_open).0,
            final(mem)@ == tick_result(old(self)@, old(mem)@, window_open).1,
            shown == tick_result(old(self)@, old(mem)@, window_open).2,
            display_memory(final(mem)@),
            final(mem)@.ram.len() == old(mem)@.ram.len(),
            final(mem)@.rom.len() == old(mem)@.rom.len(),
    {
        self.pull_registers(mem);
        let shown_on_start = self.check_events(window_open);
        let ghost e = self@;
        let mut ly = self.reg_get(DisplayReg::Ly);
        let mut shown_on_vblank = false;
        match self.state {
            DisplayState::Quit => (),
            DisplayState::Off => (),
            DisplayState::HBlank => {
                if self.lclk == 113 {
                    if ly == 143 {
                        self.state = DisplayState::VBlank;
                        shown_on_vblank = true;
                    } else {
                        self.state = DisplayState::Draw;
                    }
                    ly += 1;
                    self.lclk = 0;
                } else {
                    self.lclk += 1;
                }
            },
            DisplayState::VBlank => {
                if self.lclk == 113 {
                    if ly == 153 {
                        self.state = DisplayState::OAMSearch;
                        self.reg_set(DisplayReg::Ly, 0);
                        ly = 0;
                    } else {
                        ly += 1;
                    }
                    self.lclk = 0;
                } else {
                    self.lclk += 1;
                }
            },
            DisplayState::OAMSearch => {
                if self.lclk == 19 {
                    self.state = DisplayState::Draw;
                }
                self.lclk += 1;
            },
            DisplayState::Draw => {
                if self.lclk == 62 {
                    self.state = DisplayState::HBlank;
                }
                self.lclk += 1;
            },
        }
        self.reg_set(DisplayReg::Ly, ly);
        assert((self@, shown_on_vblank) == timed(e));
        self.push_registers(mem);
        shown_on_start || shown_on_vblank
    }
}

} // verus!
