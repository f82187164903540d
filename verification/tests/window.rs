use gblite::window::{open_after, WindowEvent};

#[test]
fn quit_or_escape_closes() {
    assert!(open_after(true, &vec![]));
    assert!(open_after(true, &vec![WindowEvent::Other, WindowEvent::Other]));
    assert!(!open_after(true, &vec![WindowEvent::Other, WindowEvent::Quit]));
    assert!(!open_after(true, &vec![WindowEvent::EscapePressed, WindowEvent::Other]));
}

#[test]
fn a_closed_window_stays_closed() {
    assert!(!open_after(false, &vec![]));
    assert!(!open_after(false, &vec![WindowEvent::Other]));
}
