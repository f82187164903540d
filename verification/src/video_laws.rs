//! The line timing of the display unit that the interpreter drives.
use vstd::prelude::*;

use crate::video::{after_events, timed, DisplayReg, DisplayState, DisplayView, NUM_DISPLAY_REGS};

verus! {

/// The display unit after `n` machine cycles of line timing.
pub open spec fn timed_n(v: DisplayView, n: nat) -> DisplayView
    decreases n,
{
    if n == 0 {
        v
    } else {
        timed(timed_n(v, (n - 1) as nat)).0
    }
}

/// The part of a line that cycle `k` falls in, for a line that starts in
/// state `s`: an OAM search for 20 cycles, drawing up to cycle 62, then
/// H-blank; a line that starts drawing skips the OAM search; V-blank lasts
/// the whole line.
pub open spec fn phase_at(s: DisplayState, k: nat) -> DisplayState {
    if s == DisplayState::VBlank {
        DisplayState::VBlank
    } else if s == DisplayState::OAMSearch && k <= 19 {
        DisplayState::OAMSearch
    } else if k <= 62 {
        DisplayState::Draw
    } else {
        DisplayState::HBlank
    }
}

/// Within a line, each cycle moves the line clock on by one and keeps LY.
proof fn lemma_within_line(v: DisplayView, k: nat)
    requires
        v.cache.len() == NUM_DISPLAY_REGS,
        v.dirty.len() == NUM_DISPLAY_REGS,
        v.lclk == 0,
        v.state == DisplayState::OAMSearch || v.state == DisplayState::Draw || v.state == DisplayState::VBlank,
        k <= 113,
    ensures
        timed_n(v, k).cache.len() == NUM_DISPLAY_REGS,
        timed_n(v, k).dirty.len() == NUM_DISPLAY_REGS,
        timed_n(v, k).lclk == k,
        timed_n(v, k).state == phase_at(v.state, k),
        timed_n(v, k).reg(DisplayReg::Ly) == v.reg(DisplayReg::Ly),
    decreases k,
{
    if k > 0 {
        lemma_within_line(v, (k - 1) as nat);
    }
}

/// Every line lasts 114 machine cycles, and a frame is shown exactly when
/// V-blank starts. After a visible line (LY below 143)
/// the next one starts drawing with LY one higher; after line 143 V-blank
/// starts at line 144; each V-blank line moves LY on by one, and after line
/// 153 the next frame starts with an OAM search on line 0.
#[verifier::rlimit(100)]
pub proof fn law_display_line_timing(v: DisplayView)
    requires
        v.cache.len() == NUM_DISPLAY_REGS,
        v.dirty.len() == NUM_DISPLAY_REGS,
        v.lclk == 0,
        v.state == DisplayState::OAMSearch || v.state == DisplayState::Draw || v.state == DisplayState::VBlank,
        v.state != DisplayState::VBlank ==> v.reg(DisplayReg::Ly) <= 143,
        v.state == DisplayState::VBlank ==> 144 <= v.reg(DisplayReg::Ly) <= 153,
    ensures
        ({
            let w = timed_n(v, 114);
            let ly = v.reg(DisplayReg::Ly);
            &&& w.lclk == 0
            &&& timed(timed_n(v, 113)).1 == (v.state != DisplayState::VBlank && ly == 143)
            &&& v.state != DisplayState::VBlank && ly < 143 ==> w.state == DisplayState::Draw && w.reg(DisplayReg::Ly)
                == ly + 1
            &&& v.state != DisplayState::VBlank && ly == 143 ==> w.state == DisplayState::VBlank && w.reg(
                DisplayReg::Ly,
            ) == 144
            &&& v.state == DisplayState::VBlank && ly < 153 ==> w.state == DisplayState::VBlank && w.reg(
                DisplayReg::Ly,
            ) == ly + 1
            &&& v.state == DisplayState::VBlank && ly == 153 ==> w.state == DisplayState::OAMSearch && w.reg(
                DisplayReg::Ly,
            ) == 0
        }),
{
    lemma_within_line(v, 113);
}

/// Bit 7 of LCDC switches the display: with it set a display that was off
/// starts (and a frame is shown), with it clear a running display goes off;
/// closing the window ends the application.
pub proof fn law_display_switch(v: DisplayView)
    requires
        v.cache.len() == NUM_DISPLAY_REGS,
        v.alive(),
    ensures
        ({
            let on = v.reg(DisplayReg::Lcdc) >= 128;
            let (w, shown) = after_events(v, true);
            &&& w.rendering() == on
            &&& shown == (on && !v.rendering())
            &&& on && !v.rendering() ==> w.state == DisplayState::OAMSearch && w.lclk == 0 && w.reg(DisplayReg::Ly) == 0
            &&& after_events(v, false).0.state == DisplayState::Quit
        }),
{
    let b = v.reg(DisplayReg::Lcdc);
    assert(((b >> 7u8) & 3u8 != 0) == (b >= 128u8)) by (bit_vector);
}

} // verus!
