use openglyt::window::{closes_window, Action, Key, WindowEvent};

#[test]
fn pressing_escape_closes_the_window() {
    assert!(closes_window(WindowEvent::Key(Key::Escape, Action::Press)));
}

#[test]
fn releasing_or_holding_escape_does_not_close() {
    assert!(!closes_window(WindowEvent::Key(Key::Escape, Action::Release)));
    assert!(!closes_window(WindowEvent::Key(Key::Escape, Action::Repeat)));
}

#[test]
fn other_keys_do_not_close() {
    assert!(!closes_window(WindowEvent::Key(Key::Other, Action::Press)));
    assert!(!closes_window(WindowEvent::Key(Key::Other, Action::Release)));
    assert!(!closes_window(WindowEvent::Key(Key::Other, Action::Repeat)));
}

#[test]
fn other_events_do_not_close() {
    assert!(!closes_window(WindowEvent::Other));
}
