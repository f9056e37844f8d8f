use tulisp_ratatui::event::{
    event_reply, key_name, key_symbol_name, mouse_symbol_name, poll_timeout_ms, EventReply, InputEvent,
    KeyCode, KeyEventKind, KeyModifiers, MouseButton, MouseEventKind,
};

fn mods(control: bool, alt: bool, shift: bool) -> KeyModifiers {
    KeyModifiers { shift, control, alt }
}

const NONE: KeyModifiers = KeyModifiers { shift: false, control: false, alt: false };

#[test]
fn key_names() {
    assert_eq!(key_symbol_name(KeyCode::Char('q'), NONE), "char-q");
    assert_eq!(key_symbol_name(KeyCode::Char('c'), mods(true, false, false)), "C-char-c");
    assert_eq!(key_symbol_name(KeyCode::Up, NONE), "up");
    assert_eq!(key_symbol_name(KeyCode::Down, NONE), "down");
    assert_eq!(key_symbol_name(KeyCode::PageUp, NONE), "page-up");
    assert_eq!(key_symbol_name(KeyCode::PageDown, NONE), "page-down");
    assert_eq!(key_symbol_name(KeyCode::Home, NONE), "home");
    assert_eq!(key_symbol_name(KeyCode::Esc, NONE), "escape");
    assert_eq!(key_symbol_name(KeyCode::BackTab, NONE), "back-tab");
    assert_eq!(key_symbol_name(KeyCode::Other, NONE), "unknown");
}

#[test]
fn function_key_names() {
    assert_eq!(key_symbol_name(KeyCode::F(5), NONE), "f5");
    assert_eq!(key_symbol_name(KeyCode::F(0), NONE), "f0");
    assert_eq!(key_symbol_name(KeyCode::F(12), NONE), "f12");
    assert_eq!(key_symbol_name(KeyCode::F(100), NONE), "f100");
    assert_eq!(key_symbol_name(KeyCode::F(255), NONE), "f255");
}

#[test]
fn modifier_prefixes_in_order() {
    assert_eq!(key_symbol_name(KeyCode::Left, mods(true, true, true)), "C-M-S-left");
    assert_eq!(key_symbol_name(KeyCode::Enter, mods(false, true, false)), "M-enter");
    assert_eq!(key_symbol_name(KeyCode::Tab, mods(false, false, true)), "S-tab");
}

#[test]
fn shift_hidden_for_upper_case_letters() {
    assert_eq!(key_symbol_name(KeyCode::Char('A'), mods(false, false, true)), "char-A");
    assert_eq!(key_symbol_name(KeyCode::Char('A'), mods(true, false, true)), "C-char-A");
    assert_eq!(key_symbol_name(KeyCode::Char('a'), mods(false, false, true)), "S-char-a");
    assert_eq!(key_symbol_name(KeyCode::Char('É'), mods(false, false, true)), "char-É");
    assert_eq!(key_symbol_name(KeyCode::Char('Δ'), mods(false, true, true)), "M-char-Δ");
    assert_eq!(key_symbol_name(KeyCode::Char('é'), mods(false, false, true)), "S-char-é");
    assert_eq!(key_symbol_name(KeyCode::Char('1'), mods(false, false, true)), "S-char-1");
    assert_eq!(key_symbol_name(KeyCode::Char('!'), mods(false, false, true)), "S-char-!");
}

#[test]
fn mouse_names() {
    assert_eq!(mouse_symbol_name(MouseEventKind::Down(MouseButton::Left)), Some("mouse-left"));
    assert_eq!(mouse_symbol_name(MouseEventKind::Down(MouseButton::Right)), Some("mouse-right"));
    assert_eq!(mouse_symbol_name(MouseEventKind::Down(MouseButton::Middle)), Some("mouse-middle"));
    assert_eq!(mouse_symbol_name(MouseEventKind::ScrollUp), Some("mouse-scroll-up"));
    assert_eq!(mouse_symbol_name(MouseEventKind::ScrollDown), Some("mouse-scroll-down"));
    assert_eq!(mouse_symbol_name(MouseEventKind::ScrollLeft), Some("mouse-scroll-left"));
    assert_eq!(mouse_symbol_name(MouseEventKind::ScrollRight), Some("mouse-scroll-right"));
    assert_eq!(mouse_symbol_name(MouseEventKind::Up(MouseButton::Left)), None);
    assert_eq!(mouse_symbol_name(MouseEventKind::Drag(MouseButton::Left)), None);
    assert_eq!(mouse_symbol_name(MouseEventKind::Moved), None);
}

#[test]
fn key_presses_reply_with_their_name() {
    let ev = InputEvent::Key { code: KeyCode::Char('x'), modifiers: mods(true, false, false), key_kind: KeyEventKind::Press };
    assert!(matches!(event_reply(ev), EventReply::Key(s) if s == "C-char-x"));
}

#[test]
fn key_repeats_and_releases_reply_nothing() {
    for k in [KeyEventKind::Repeat, KeyEventKind::Release] {
        let ev = InputEvent::Key { code: KeyCode::Char('x'), modifiers: NONE, key_kind: k };
        assert!(matches!(event_reply(ev), EventReply::Nothing));
    }
    assert!(matches!(event_reply(InputEvent::Other), EventReply::Nothing));
}

#[test]
fn mouse_events_reply_with_kind_and_position() {
    let ev = InputEvent::Mouse { kind: MouseEventKind::ScrollDown, column: 12, row: 65535 };
    assert!(matches!(event_reply(ev), EventReply::Mouse { kind: "mouse-scroll-down", column: 12, row: 65535 }));
    let ev = InputEvent::Mouse { kind: MouseEventKind::Moved, column: 1, row: 1 };
    assert!(matches!(event_reply(ev), EventReply::Nothing));
}

#[test]
fn poll_timeouts() {
    assert_eq!(poll_timeout_ms(-10), 0);
    assert_eq!(poll_timeout_ms(0), 0);
    assert_eq!(poll_timeout_ms(250), 250);
}

#[test]
fn key_names_given_the_letter_case() {
    assert_eq!(key_name(KeyCode::Char('x'), mods(true, false, true), true), "C-char-x");
    assert_eq!(key_name(KeyCode::Char('x'), mods(true, false, true), false), "C-S-char-x");
    assert_eq!(key_name(KeyCode::Home, mods(false, false, false), true), "home");
}
