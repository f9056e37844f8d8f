//! Terminal input events and the names they are handed to Lisp by: key
//! symbols such as `C-char-c` or `page-up`, and mouse event kinds.
use vstd::prelude::*;
use crate::text::{decimal, push_char, push_decimal};

verus! {

/// A key, as the terminal reports it.
#[derive(Clone, Copy, Debug, PartialEq, Eq, Structural)]
pub enum KeyCode {
    Char(char),
    Enter,
    Esc,
    Backspace,
    Tab,
    BackTab,
    Left,
    Right,
    Up,
    Down,
    Home,
    End,
    PageUp,
    PageDown,
    Delete,
    Insert,
    F(u8),
    /// Any other key.
    Other,
}

/// The modifier keys held down with a key.
#[derive(Clone, Copy, Debug, PartialEq, Eq, Structural)]
pub struct KeyModifiers {
    pub shift: bool,
    pub control: bool,
    pub alt: bool,
}

/// Whether a key went down, repeats, or went up.
#[derive(Clone, Copy, Debug, PartialEq, Eq, Structural)]
pub enum KeyEventKind {
    Press,
    Repeat,
    Release,
}

/// A mouse button.
#[derive(Clone, Copy, Debug, PartialEq, Eq, Structural)]
pub enum MouseButton {
    Left,
    Right,
    Middle,
}

/// What the mouse did.
#[derive(Clone, Copy, Debug, PartialEq, Eq, Structural)]
pub enum MouseEventKind {
    Down(MouseButton),
    Up(MouseButton),
    Drag(MouseButton),
    Moved,
    ScrollDown,
    ScrollUp,
    ScrollLeft,
    ScrollRight,
}

/// An input event, as far as the event reader looks at it.
#[derive(Clone, Copy, Debug, PartialEq, Eq, Structural)]
pub enum InputEvent {
    Key { code: KeyCode, modifiers: KeyModifiers, key_kind: KeyEventKind },
    Mouse { kind: MouseEventKind, column: u16, row: u16 },
    /// Focus, paste and resize events.
    Other,
}

/// What an input event is handed to Lisp as: nothing, a key symbol's
/// name, or a mouse event's kind with its column and row.
pub enum EventReply {
    Nothing,
    Key(String),
    Mouse { kind: &'static str, column: i64, row: i64 },
}

/// The name of a key, without modifiers.
pub open spec fn spec_key_base(code: KeyCode) -> Seq<char> {
    match code {
        KeyCode::Char(c) => "char-"@.push(c),
        KeyCode::Enter => "enter"@,
        KeyCode::Esc => "escape"@,
        KeyCode::Backspace => "backspace"@,
        KeyCode::Tab => "tab"@,
        KeyCode::BackTab => "back-tab"@,
        KeyCode::Left => "left"@,
        KeyCode::Right => "right"@,
        KeyCode::Up => "up"@,
        KeyCode::Down => "down"@,
        KeyCode::Home => "home"@,
        KeyCode::End => "end"@,
        KeyCode::PageUp => "page-up"@,
        KeyCode::PageDown => "page-down"@,
        KeyCode::Delete => "delete"@,
        KeyCode::Insert => "insert"@,
        KeyCode::F(n) => "f"@ + decimal(n as nat),
        KeyCode::Other => "unknown"@,
    }
}

/// Whether `c` has Unicode's `Uppercase` property, as `char::is_uppercase`
/// tells.
pub uninterp spec fn char_is_uppercase(c: char) -> bool;

/// `char::is_uppercase`: whether `c` has Unicode's `Uppercase` property.
/// The contract names that result and says nothing of which characters
/// have the property.
#[verifier::external_body]
fn is_uppercase(c: char) -> (r: bool)
    ensures
        r == char_is_uppercase(c),
{
    c.is_uppercase()
}

/// Whether the key is an upper-case letter.
pub open spec fn is_upper_case_key(code: KeyCode) -> bool {
    match code {
        KeyCode::Char(c) => char_is_uppercase(c),
        _ => false,
    }
}

/// The name of a key symbol, where `upper` tells whether the key is an
/// upper-case letter: `C-`, `M-` and `S-` for the control, alt and shift
/// keys, in that order, then the key's name. Shift does not show for an
/// upper-case letter, whose character already shows it.
pub open spec fn spec_key_name(code: KeyCode, mods: KeyModifiers, upper: bool) -> Seq<char> {
    (if mods.control {
        "C-"@
    } else {
        Seq::empty()
    }) + (if mods.alt {
        "M-"@
    } else {
        Seq::empty()
    }) + (if mods.shift && !upper {
        "S-"@
    } else {
        Seq::empty()
    }) + spec_key_base(code)
}

/// The name of the key symbol for a key.
pub open spec fn spec_key_symbol_name(code: KeyCode, mods: KeyModifiers) -> Seq<char> {
    spec_key_name(code, mods, is_upper_case_key(code))
}

fn key_base(code: KeyCode) -> (r: String)
    ensures
        r@ == spec_key_base(code),
{
    match code {
        KeyCode::Char(c) => {
            let mut s = String::from_str("char-");
            push_char(&mut s, c);
            s
        },
        KeyCode::Enter => String::from_str("enter"),
        KeyCode::Esc => String::from_str("escape"),
        KeyCode::Backspace => String::from_str("backspace"),
        KeyCode::Tab => String::from_str("tab"),
        KeyCode::BackTab => String::from_str("back-tab"),
        KeyCode::Left => String::from_str("left"),
        KeyCode::Right => String::from_str("right"),
        KeyCode::Up => String::from_str("up"),
        KeyCode::Down => String::from_str("down"),
        KeyCode::Home => String::from_str("home"),
        KeyCode::End => String::from_str("end"),
        KeyCode::PageUp => String::from_str("page-up"),
        KeyCode::PageDown => String::from_str("page-down"),
        KeyCode::Delete => String::from_str("delete"),
        KeyCode::Insert => String::from_str("insert"),
        KeyCode::F(n) => {
            let mut s = String::from_str("f");
            push_decimal(&mut s, n);
            s
        },
        KeyCode::Other => String::from_str("unknown"),
    }
}

/// The name of a key symbol, given whether the key is an upper-case
/// letter; see `spec_key_name`.
pub fn key_name(code: KeyCode, mods: KeyModifiers, upper: bool) -> (r: String)
    ensures
        r@ == spec_key_name(code, mods, upper),
{
    let base = key_base(code);
    let mut name = String::new();
    if mods.control {
        name.append("C-");
    }
    if mods.alt {
        name.append("M-");
    }
    if mods.shift && !upper {
        name.append("S-");
    }
    name.append(base.as_str());
    proof {
        assert(name@ =~= spec_key_name(code, mods, upper));
    }
    name
}

/// The name of the key symbol for a key; see `spec_key_symbol_name`.
pub fn key_symbol_name(code: KeyCode, mods: KeyModifiers) -> (r: String)
    ensures
        r@ == spec_key_symbol_name(code, mods),
{
    let upper = match code {
        KeyCode::Char(c) => is_uppercase(c),
        _ => false,
    };
    key_name(code, mods, upper)
}

/// The name of a mouse event's kind: presses of the three buttons and
/// the four scroll directions have one; releases, drags and moves have
/// none.
pub open spec fn spec_mouse_symbol_name(kind: MouseEventKind) -> Option<Seq<char>> {
    match kind {
        MouseEventKind::Down(MouseButton::Left) => Some("mouse-left"@),
        MouseEventKind::Down(MouseButton::Right) => Some("mouse-right"@),
        MouseEventKind::Down(MouseButton::Middle) => Some("mouse-middle"@),
        MouseEventKind::ScrollUp => Some("mouse-scroll-up"@),
        MouseEventKind::ScrollDown => Some("mouse-scroll-down"@),
        MouseEventKind::ScrollLeft => Some("mouse-scroll-left"@),
        MouseEventKind::ScrollRight => Some("mouse-scroll-right"@),
        _ => None,
    }
}

/// The name of a mouse event's kind; see `spec_mouse_symbol_name`.
pub fn mouse_symbol_name(kind: MouseEventKind) -> (r: Option<&'static str>)
    ensures
        match r {
            Some(s) => spec_mouse_symbol_name(kind) == Some(s@),
            None => spec_mouse_symbol_name(kind) is None,
        },
{
    match kind {
        MouseEventKind::Down(MouseButton::Left) => Some("mouse-left"),
        MouseEventKind::Down(MouseButton::Right) => Some("mouse-right"),
        MouseEventKind::Down(MouseButton::Middle) => Some("mouse-middle"),
        MouseEventKind::ScrollUp => Some("mouse-scroll-up"),
        MouseEventKind::ScrollDown => Some("mouse-scroll-down"),
        MouseEventKind::ScrollLeft => Some("mouse-scroll-left"),
        MouseEventKind::ScrollRight => Some("mouse-scroll-right"),
        _ => None,
    }
}

/// What an input event is handed to Lisp as: a key press is its key
/// symbol's name; a mouse event with a named kind is that name with its
/// column and row; anything else, key repeats and releases included, is
/// nothing.
pub open spec fn spec_event_reply(ev: InputEvent, r: EventReply) -> bool {
    match ev {
        InputEvent::Key { code, modifiers, key_kind: KeyEventKind::Press } => match r {
            EventReply::Key(s) => s@ == spec_key_symbol_name(code, modifiers),
            _ => false,
        },
        InputEvent::Mouse { kind, column, row } => match spec_mouse_symbol_name(kind) {
            Some(name) => match r {
                EventReply::Mouse { kind: k, column: c, row: w } => k@ == name && c == column as i64
                    && w == row as i64,
                _ => false,
            },
            None => r is Nothing,
        },
        _ => r is Nothing,
    }
}

/// What an input event is handed to Lisp as; see `spec_event_reply`.
pub fn event_reply(ev: InputEvent) -> (r: EventReply)
    ensures
        spec_event_reply(ev, r),
{
    match ev {
        InputEvent::Key { code, modifiers, key_kind: KeyEventKind::Press } => EventReply::Key(
            key_symbol_name(code, modifiers),
        ),
        InputEvent::Mouse { kind, column, row } => match mouse_symbol_name(kind) {
            Some(name) => EventReply::Mouse { kind: name, column: column as i64, row: row as i64 },
            None => EventReply::Nothing,
        },
        _ => EventReply::Nothing,
    }
}

/// How long to wait for an event, in milliseconds: a negative timeout
/// waits not at all.
pub fn poll_timeout_ms(timeout_ms: i64) -> (r: u64)
    ensures
        r == (if timeout_ms < 0 {
            0
        } else {
            timeout_ms
        }),
{
    if timeout_ms < 0 {
        0
    } else {
        timeout_ms as u64
    }
}

} // verus!
