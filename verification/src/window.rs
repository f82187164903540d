//! What the platform window's events mean for the emulator.
use vstd::prelude::*;

verus! {

/// An event of the platform window, as far as the emulator tells events apart.
#[derive(Copy, Clone, PartialEq, Eq, Structural)]
pub enum WindowEvent {
    /// The window is asked to close.
    Quit,
    /// The Escape key went down.
    EscapePressed,
    /// Anything else.
    Other,
}

/// Whether an event closes the window: a quit request or the Escape key.
pub open spec fn closes(e: WindowEvent) -> bool {
    e == WindowEvent::Quit || e == WindowEvent::EscapePressed
}

/// Whether the window is open after `events`, having been open before
/// exactly when `open`: any closing event closes it, and nothing reopens it.
pub fn open_after(open: bool, events: &Vec<WindowEvent>) -> (r: bool)
    ensures
        r == (open && forall|i: int| 0 <= i < events@.len() ==> !closes(#[trigger] events@[i])),
{
    let mut still_open = open;
    let mut i: usize = 0;
    while i < events.len()
        invariant
            i <= events@.len(),
            still_open == (open && forall|j: int| 0 <= j < i ==> !closes(#[trigger] events@[j])),
        decreases events@.len() - i,
    {
        let e = events[i];
        if e == WindowEvent::Quit || e == WindowEvent::EscapePressed {
            still_open = false;
        }
        i = i + 1;
    }
    still_open
}

/// A quit request and the Escape key close the window; no other event does.
pub proof fn law_closing_events(e: WindowEvent)
    ensures
        closes(e) == (e != WindowEvent::Other),
{
}

} // verus!
